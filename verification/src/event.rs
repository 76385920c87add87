//! What the event loop receives, and what it is told to do.

use crate::device::{Error, ErrorView};
use vstd::prelude::*;

verus! {

/// A key press, reduced to what the key bindings tell apart.
#[derive(Clone, Copy, Debug, PartialEq, Eq, Structural)]
pub enum Key {
    Char(char),
    Up,
    Down,
    Left,
    Right,
    Enter,
    Esc,
    Other,
}

/// What a key press asks for.
#[derive(Clone, Copy, Debug, PartialEq, Eq, Structural)]
pub enum Command {
    Quit,
    Down,
    Up,
    Left,
    Right,
    Rescan,
    Activate,
    Dismiss,
    Nothing,
}

/// The key bindings: `q` quits, the arrows navigate and switch lists, `s`
/// rescans, Enter activates the selected device, Esc dismisses the error.
pub open spec fn binding(key: Key) -> Command {
    match key {
        Key::Char(c) => if c == 'q' {
            Command::Quit
        } else if c == 's' {
            Command::Rescan
        } else {
            Command::Nothing
        },
        Key::Up => Command::Up,
        Key::Down => Command::Down,
        Key::Left => Command::Left,
        Key::Right => Command::Right,
        Key::Enter => Command::Activate,
        Key::Esc => Command::Dismiss,
        Key::Other => Command::Nothing,
    }
}

/// The command bound to a key.
pub fn command_for(key: Key) -> (command: Command)
    ensures
        command == binding(key),
{
    match key {
        Key::Char(c) => {
            if c == 'q' {
                Command::Quit
            } else if c == 's' {
                Command::Rescan
            } else {
                Command::Nothing
            }
        },
        Key::Up => Command::Up,
        Key::Down => Command::Down,
        Key::Left => Command::Left,
        Key::Right => Command::Right,
        Key::Enter => Command::Activate,
        Key::Esc => Command::Dismiss,
        Key::Other => Command::Nothing,
    }
}

/// A change of one property of a device, as its property stream reports it.
#[derive(Clone, Debug)]
pub enum Change {
    Alias(String),
    Connected(bool),
    Paired(bool),
    /// Any property that the tables do not track.
    Other,
}

/// A property change as contracts see it.
pub ghost enum ChangeView {
    Alias(Seq<char>),
    Connected(bool),
    Paired(bool),
    Other,
}

impl View for Change {
    type V = ChangeView;

    open spec fn view(&self) -> ChangeView {
        match self {
            Change::Alias(alias) => ChangeView::Alias(alias@),
            Change::Connected(connected) => ChangeView::Connected(*connected),
            Change::Paired(paired) => ChangeView::Paired(*paired),
            Change::Other => ChangeView::Other,
        }
    }
}

/// What the discovery session reports about the adapter's surroundings.
#[derive(Clone, Copy, Debug, PartialEq, Eq, Structural)]
pub enum Notice {
    DeviceAdded(u64),
    DeviceRemoved(u64),
    /// A change of the adapter's own properties.
    AdapterChanged,
}

/// The address that a notice makes known, if it announces a device.
pub open spec fn announced(notice: Notice) -> Option<u64> {
    match notice {
        Notice::DeviceAdded(address) => Some(address),
        _ => None,
    }
}

/// The time between two ticks of a spinner, in milliseconds.
pub const TICK_MILLIS: u64 = 100;

/// The two operations that activating a device can start.
#[derive(Clone, Copy, Debug, PartialEq, Eq, Structural)]
pub enum Operation {
    Pair,
    Connect,
}

/// One item from one of the sources the event loop waits on.
#[derive(Clone, Debug)]
pub enum Event {
    /// A spinner ticked for the device.
    Tick(u64),
    /// The pair or connect attempt on the device ended, well or badly.
    Completed(u64),
    /// A failure to show to the user.
    Failed(Error),
    /// The scanner saw the device.
    Discovered(u64),
    /// The state of a discovered device was read and its property stream is open.
    Fetched { address: u64, paired: bool, connected: bool, alias: String },
    /// A property of the device changed.
    Changed(u64, Change),
    /// The powered adapter is available.
    AdapterReady,
    /// No powered adapter could be acquired.
    AdapterFailed,
    /// A key was pressed.
    Key(Key),
    /// Reading the terminal failed.
    InputFailed,
}

/// An event as contracts see it.
pub ghost enum EventView {
    Tick(u64),
    Completed(u64),
    Failed(ErrorView),
    Discovered(u64),
    Fetched { address: u64, paired: bool, connected: bool, alias: Seq<char> },
    Changed(u64, ChangeView),
    AdapterReady,
    AdapterFailed,
    Key(Key),
    InputFailed,
}

impl View for Event {
    type V = EventView;

    open spec fn view(&self) -> EventView {
        match self {
            Event::Tick(address) => EventView::Tick(*address),
            Event::Completed(address) => EventView::Completed(*address),
            Event::Failed(error) => EventView::Failed(error@),
            Event::Discovered(address) => EventView::Discovered(*address),
            Event::Fetched { address, paired, connected, alias } => EventView::Fetched {
                address: *address,
                paired: *paired,
                connected: *connected,
                alias: alias@,
            },
            Event::Changed(address, change) => EventView::Changed(*address, change@),
            Event::AdapterReady => EventView::AdapterReady,
            Event::AdapterFailed => EventView::AdapterFailed,
            Event::Key(key) => EventView::Key(*key),
            Event::InputFailed => EventView::InputFailed,
        }
    }
}

/// What the loop has to do after an event, besides redrawing.
#[derive(Clone, Debug)]
pub enum Action {
    /// Nothing: redraw and wait for the next event.
    Wait,
    /// End the loop successfully.
    Quit,
    /// Start the scanner on the adapter that has just arrived.
    StartScan,
    /// Cancel the running scanner and start a new one.
    Rescan,
    /// Read the state of the device and open its property stream.
    Fetch(u64),
    /// Start the operation on the device together with its spinner; `process`
    /// names the attempt in an error report.
    Launch { address: u64, operation: Operation, process: String },
    /// Cancel the spinner of the device.
    StopSpinner(u64),
}

/// An action as contracts see it.
pub ghost enum ActionView {
    Wait,
    Quit,
    StartScan,
    Rescan,
    Fetch(u64),
    Launch { address: u64, operation: Operation, process: Seq<char> },
    StopSpinner(u64),
}

impl View for Action {
    type V = ActionView;

    open spec fn view(&self) -> ActionView {
        match self {
            Action::Wait => ActionView::Wait,
            Action::Quit => ActionView::Quit,
            Action::StartScan => ActionView::StartScan,
            Action::Rescan => ActionView::Rescan,
            Action::Fetch(address) => ActionView::Fetch(*address),
            Action::Launch { address, operation, process } => ActionView::Launch {
                address: *address,
                operation: *operation,
                process: process@,
            },
            Action::StopSpinner(address) => ActionView::StopSpinner(*address),
        }
    }
}

/// A failure that ends the run.
#[derive(Clone, Copy, Debug, PartialEq, Eq, Structural)]
pub enum Fatal {
    /// No powered adapter could be acquired.
    AdapterUnavailable,
    /// Reading the terminal failed.
    InputFailed,
    /// The selected row lies outside the active list.
    MissingSelection,
}

/// The address that a discovery notice makes known, if it announces a device.
pub fn discovered(notice: Notice) -> (address: Option<u64>)
    ensures
        address == announced(notice),
{
    match notice {
        Notice::DeviceAdded(address) => Some(address),
        _ => None,
    }
}

} // verus!
