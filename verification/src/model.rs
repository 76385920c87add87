//! The mathematical model of the coordinator: its state as plain values and
//! each transition as a function on that state.

use crate::device::{DeviceView, ErrorView, List};
use crate::event::{binding, ActionView, ChangeView, Command, EventView, Fatal, Key, Operation};
use crate::table::{
    amend, disjoint_keys, distinct_keys, has_key, put, value_of, without, Entries,
};
use vstd::prelude::*;

verus! {

/// The counter that follows `n`: the animation has four frames and starts over after the last.
pub open spec fn next_frame(n: usize) -> usize {
    ((n + 1) % 4) as usize
}

/// The record after one spinner tick.
pub open spec fn ticked(device: DeviceView) -> DeviceView {
    match device.loading {
        Some(n) => DeviceView { loading: Some(next_frame(n)), ..device },
        None => device,
    }
}

/// The record once its operation has ended.
pub open spec fn settled(device: DeviceView) -> DeviceView {
    DeviceView { loading: None, ..device }
}

/// The record at the start of an operation.
pub open spec fn started(device: DeviceView) -> DeviceView {
    DeviceView { loading: Some(0usize), ..device }
}

/// The record under a new alias.
pub open spec fn renamed(device: DeviceView, alias: Seq<char>) -> DeviceView {
    DeviceView { alias, ..device }
}

/// The record with a new connected flag.
pub open spec fn linked(device: DeviceView, connected: bool) -> DeviceView {
    DeviceView { connected, ..device }
}

/// The record that intake creates.
pub open spec fn fresh(alias: Seq<char>, connected: bool) -> DeviceView {
    DeviceView { alias, connected, loading: None }
}

/// The operation that activating a device of the list starts.
pub open spec fn operation_of(list: List) -> Operation {
    match list {
        List::Unpaired => Operation::Pair,
        List::Paired => Operation::Connect,
    }
}

/// How an attempt is named in an error report.
pub open spec fn process_label(operation: Operation, alias: Seq<char>) -> Seq<char> {
    match operation {
        Operation::Pair => "pairing with "@ + alias,
        Operation::Connect => "connecting to "@ + alias,
    }
}

/// What is drawn: the two tables, the cursor and the error slot.
pub ghost struct AppView {
    pub selected_list: List,
    pub selected_row: nat,
    pub unpaired: Entries,
    pub paired: Entries,
    pub error: Option<ErrorView>,
}

impl AppView {
    /// Each table has distinct keys and no address is in both.
    pub open spec fn wf(self) -> bool {
        &&& distinct_keys(self.unpaired)
        &&& distinct_keys(self.paired)
        &&& disjoint_keys(self.unpaired, self.paired)
    }

    /// The state before any event: empty tables, cursor on the first row of
    /// the unpaired list, no error.
    pub open spec fn initial() -> AppView {
        AppView {
            selected_list: List::Unpaired,
            selected_row: 0,
            unpaired: Seq::empty(),
            paired: Seq::empty(),
            error: None,
        }
    }

    /// One of the two tables.
    pub open spec fn list(self, list: List) -> Entries {
        match list {
            List::Unpaired => self.unpaired,
            List::Paired => self.paired,
        }
    }

    /// The table that the cursor is in.
    pub open spec fn active(self) -> Entries {
        self.list(self.selected_list)
    }

    /// The state with one of the two tables replaced.
    pub open spec fn with_list(self, list: List, entries: Entries) -> AppView {
        match list {
            List::Unpaired => AppView { unpaired: entries, ..self },
            List::Paired => AppView { paired: entries, ..self },
        }
    }

    /// The list that holds the address, if one does.
    pub open spec fn home(self, address: u64) -> Option<List> {
        if has_key(self.paired, address) {
            Some(List::Paired)
        } else if has_key(self.unpaired, address) {
            Some(List::Unpaired)
        } else {
            None
        }
    }

    /// The record of an address that a list holds.
    pub open spec fn record(self, address: u64) -> DeviceView {
        match self.home(address) {
            Some(list) => value_of(self.list(list), address),
            None => arbitrary(),
        }
    }

    /// The state with the record of the address replaced where it stands;
    /// unchanged when no list holds the address.
    pub open spec fn rewrite(self, address: u64, value: DeviceView) -> AppView {
        match self.home(address) {
            Some(list) => self.with_list(list, amend(self.list(list), address, value)),
            None => self,
        }
    }

    /// A spinner tick: an outstanding counter advances; otherwise nothing changes.
    pub open spec fn tick(self, address: u64) -> AppView {
        self.rewrite(address, ticked(self.record(address)))
    }

    /// The end of an operation: the record is idle again.
    pub open spec fn complete(self, address: u64) -> AppView {
        self.rewrite(address, settled(self.record(address)))
    }

    /// Intake of a discovered device. A known address has its record
    /// overwritten where it stands; a new address is added last to the list
    /// that the paired flag names.
    pub open spec fn intake(self, address: u64, paired: bool, connected: bool, alias: Seq<char>) -> AppView {
        let target = if paired { List::Paired } else { List::Unpaired };
        match self.home(address) {
            Some(_) => self.rewrite(address, fresh(alias, connected)),
            None => self.with_list(target, put(self.list(target), address, fresh(alias, connected))),
        }
    }

    /// The record leaves `from` and is stored in the other list with its fields kept.
    pub open spec fn transfer(self, address: u64, from: List) -> AppView {
        let to = match from {
            List::Unpaired => List::Paired,
            List::Paired => List::Unpaired,
        };
        if has_key(self.list(from), address) {
            let device = value_of(self.list(from), address);
            let removed = self.with_list(from, without(self.list(from), address));
            removed.with_list(to, put(removed.list(to), address, device))
        } else {
            self
        }
    }

    /// A property change of a device.
    pub open spec fn change(self, address: u64, change: ChangeView) -> AppView {
        match change {
            ChangeView::Alias(alias) => self.rewrite(address, renamed(self.record(address), alias)),
            ChangeView::Connected(connected) => AppView {
                paired: amend(
                    self.paired,
                    address,
                    linked(value_of(self.paired, address), connected),
                ),
                ..self
            },
            ChangeView::Paired(paired) => if paired {
                self.transfer(address, List::Unpaired)
            } else {
                self.transfer(address, List::Paired)
            },
            ChangeView::Other => self,
        }
    }

    /// The cursor one row down, unless it is on or beyond the last row.
    pub open spec fn down(self) -> AppView {
        if self.selected_row + 1 < self.active().len() {
            AppView { selected_row: self.selected_row + 1, ..self }
        } else {
            self
        }
    }

    /// The cursor one row up, unless it is on the first row.
    pub open spec fn up(self) -> AppView {
        if self.selected_row > 0 {
            AppView { selected_row: (self.selected_row - 1) as nat, ..self }
        } else {
            self
        }
    }

    /// The cursor in the given list, on the row it was on.
    pub open spec fn switch(self, list: List) -> AppView {
        AppView { selected_list: list, ..self }
    }

    /// Both tables emptied.
    pub open spec fn cleared(self) -> AppView {
        AppView { unpaired: Seq::empty(), paired: Seq::empty(), ..self }
    }

    /// The cursor is on a row of the active list.
    pub open spec fn has_selection(self) -> bool {
        self.selected_row < self.active().len()
    }

    /// The pair under the cursor.
    pub open spec fn selection(self) -> (u64, DeviceView) {
        self.active()[self.selected_row as int]
    }

    /// The selected record marked as having an operation outstanding.
    pub open spec fn activate(self) -> AppView {
        self.with_list(
            self.selected_list,
            self.active().update(
                self.selected_row as int,
                (self.selection().0, started(self.selection().1)),
            ),
        )
    }
}

/// All that the coordinator owns: what is drawn, whether the adapter has
/// arrived, and the addresses whose spinner runs.
pub ghost struct SchedulerView {
    pub app: AppView,
    pub ready: bool,
    pub spinners: Set<u64>,
}

/// The result of one transition: the next state and what the loop is told.
pub ghost struct Step {
    pub next: SchedulerView,
    pub outcome: Result<ActionView, Fatal>,
}

/// Every record of `s` with an operation outstanding has its address in `spinners`.
pub open spec fn spinning(s: Entries, spinners: Set<u64>) -> bool {
    forall|i: int| 0 <= i < s.len() && (#[trigger] s[i]).1.loading is Some ==> spinners.contains(s[i].0)
}

impl SchedulerView {
    /// The tables are well formed and every outstanding operation has a spinner.
    pub open spec fn wf(self) -> bool {
        &&& self.app.wf()
        &&& spinning(self.app.unpaired, self.spinners)
        &&& spinning(self.app.paired, self.spinners)
    }

    /// The state before any event: nothing to draw, no adapter, no spinner.
    pub open spec fn initial() -> SchedulerView {
        SchedulerView { app: AppView::initial(), ready: false, spinners: Set::empty() }
    }

    /// Nothing changes and the loop is told to wait.
    pub open spec fn stay(self) -> Step {
        Step { next: self, outcome: Ok(ActionView::Wait) }
    }

    /// What is drawn changes and the loop is told to wait.
    pub open spec fn go(self, app: AppView) -> Step {
        Step { next: SchedulerView { app, ..self }, outcome: Ok(ActionView::Wait) }
    }

    /// Activation of the selected device.
    pub open spec fn activate(self) -> Step {
        if !self.ready {
            self.stay()
        } else if !self.app.has_selection() {
            Step { next: self, outcome: Err(Fatal::MissingSelection) }
        } else if self.app.selection().1.loading is Some {
            self.stay()
        } else {
            let address = self.app.selection().0;
            let operation = operation_of(self.app.selected_list);
            Step {
                next: SchedulerView {
                    app: self.app.activate(),
                    spinners: self.spinners.insert(address),
                    ..self
                },
                outcome: Ok(
                    ActionView::Launch {
                        address,
                        operation,
                        process: process_label(operation, self.app.selection().1.alias),
                    },
                ),
            }
        }
    }

    /// A key press. While an error is shown only its dismissal is processed.
    pub open spec fn key(self, key: Key) -> Step {
        let command = binding(key);
        if self.app.error is Some {
            if command == Command::Dismiss {
                self.go(AppView { error: None, ..self.app })
            } else {
                self.stay()
            }
        } else {
            match command {
                Command::Quit => Step { next: self, outcome: Ok(ActionView::Quit) },
                Command::Down => self.go(self.app.down()),
                Command::Up => self.go(self.app.up()),
                Command::Left => self.go(self.app.switch(List::Unpaired)),
                Command::Right => self.go(self.app.switch(List::Paired)),
                Command::Rescan => if self.ready {
                    Step {
                        next: SchedulerView { app: self.app.cleared(), ..self },
                        outcome: Ok(ActionView::Rescan),
                    }
                } else {
                    self.stay()
                },
                Command::Activate => self.activate(),
                Command::Dismiss => self.stay(),
                Command::Nothing => self.stay(),
            }
        }
    }

    /// The end of an operation: a tracked device becomes idle and its spinner
    /// is cancelled; for an address that no list holds nothing happens.
    pub open spec fn complete(self, address: u64) -> Step {
        if self.app.home(address) is Some {
            Step {
                next: SchedulerView {
                    app: self.app.complete(address),
                    spinners: self.spinners.remove(address),
                    ..self
                },
                outcome: Ok(ActionView::StopSpinner(address)),
            }
        } else {
            self.stay()
        }
    }

    /// The transition for one event.
    pub open spec fn step(self, event: EventView) -> Step {
        match event {
            EventView::Tick(address) => self.go(self.app.tick(address)),
            EventView::Completed(address) => self.complete(address),
            EventView::Failed(error) => self.go(AppView { error: Some(error), ..self.app }),
            EventView::Discovered(address) => if self.ready {
                Step { next: self, outcome: Ok(ActionView::Fetch(address)) }
            } else {
                self.stay()
            },
            EventView::Fetched { address, paired, connected, alias } => self.go(
                self.app.intake(address, paired, connected, alias),
            ),
            EventView::Changed(address, change) => self.go(self.app.change(address, change)),
            EventView::AdapterReady => Step {
                next: SchedulerView { ready: true, ..self },
                outcome: Ok(ActionView::StartScan),
            },
            EventView::AdapterFailed => Step { next: self, outcome: Err(Fatal::AdapterUnavailable) },
            EventView::Key(key) => self.key(key),
            EventView::InputFailed => Step { next: self, outcome: Err(Fatal::InputFailed) },
        }
    }
}

} // verus!
