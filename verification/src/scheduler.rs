//! The coordinator: one state, one event at a time.

use crate::app::App;
use crate::device::{Error, ErrorView, List};
use crate::event::{
    command_for, Action, ActionView, Command, Event, EventView, Fatal, Key, Operation,
};
use crate::model::{operation_of, process_label, SchedulerView};
use crate::preserve::lemma_step_wf;
use crate::screen::{screen_of, Screen, ScreenView};
use std::collections::HashSet;
use vstd::prelude::*;
use vstd::string::*;

verus! {

broadcast use vstd::std_specs::hash::group_hash_axioms;

/// An outcome as contracts see it.
pub open spec fn outcome_view(outcome: Result<Action, Fatal>) -> Result<ActionView, Fatal> {
    match outcome {
        Ok(action) => Ok(action@),
        Err(fatal) => Err(fatal),
    }
}

/// The operation that activating a device of the list starts: pairing for an
/// unpaired device, connecting for a paired one.
pub fn operation_for(list: List) -> (operation: Operation)
    ensures
        operation == operation_of(list),
{
    match list {
        List::Unpaired => Operation::Pair,
        List::Paired => Operation::Connect,
    }
}

/// How an attempt on the device called `alias` is named in an error report.
pub fn process_name(operation: Operation, alias: &str) -> (name: String)
    ensures
        name@ == process_label(operation, alias@),
{
    match operation {
        Operation::Pair => String::from_str("pairing with ").concat(alias),
        Operation::Connect => String::from_str("connecting to ").concat(alias),
    }
}

/// The events by which a worker reports the end of its attempt: always the
/// completion, and after it the failure, if there was one.
pub fn report(address: u64, process: String, failure: Option<String>) -> (events: Vec<Event>)
    ensures
        events.len() == (if failure is Some { 2int } else { 1int }),
        events[0]@ == EventView::Completed(address),
        failure matches Some(message) ==> events[1]@ == EventView::Failed(
            ErrorView { message: message@, process: process@ },
        ),
{
    let mut events = Vec::new();
    events.push(Event::Completed(address));
    match failure {
        Some(message) => {
            events.push(Event::Failed(Error { message, process }));
        },
        None => {},
    }
    events
}

/// The coordinator's state: what is drawn, whether the adapter has arrived,
/// and the addresses whose spinner runs.
pub struct Scheduler {
    app: App,
    ready: bool,
    spinners: HashSet<u64>,
}

impl View for Scheduler {
    type V = SchedulerView;

    closed spec fn view(&self) -> SchedulerView {
        SchedulerView { app: self.app@, ready: self.ready, spinners: self.spinners@ }
    }
}

impl Default for Scheduler {
    fn default() -> (scheduler: Scheduler)
        ensures
            scheduler@ == SchedulerView::initial(),
            scheduler.wf(),
    {
        Scheduler::new()
    }
}

impl Scheduler {
    /// The tables are well formed and every outstanding operation has a spinner.
    pub open spec fn wf(&self) -> bool {
        self@.wf()
    }

    /// The state before any event: nothing to draw, no adapter, no spinner.
    pub fn new() -> (scheduler: Scheduler)
        ensures
            scheduler@ == SchedulerView::initial(),
            scheduler.wf(),
    {
        Scheduler { app: App::new(), ready: false, spinners: HashSet::new() }
    }

    /// What is drawn.
    pub fn app(&self) -> (app: &App)
        ensures
            app@ == self@.app,
    {
        &self.app
    }

    /// Whether the adapter has arrived.
    pub fn is_ready(&self) -> (ready: bool)
        ensures
            ready == self@.ready,
    {
        self.ready
    }

    /// Whether a spinner runs for the address.
    pub fn has_spinner(&self, address: u64) -> (running: bool)
        ensures
            running == self@.spinners.contains(address),
    {
        self.spinners.contains(&address)
    }

    /// Activation of the selected device.
    fn activate(&mut self) -> (outcome: Result<Action, Fatal>)
        requires
            old(self).wf(),
        ensures
            final(self)@ == old(self)@.activate().next,
            outcome_view(outcome) == old(self)@.activate().outcome,
    {
        if !self.ready {
            return Ok(Action::Wait);
        }
        let operation = operation_for(self.app.selected_list());
        match self.app.activate() {
            Ok(Some((address, alias))) => {
                self.spinners.insert(address);
                let process = process_name(operation, alias.as_str());
                Ok(Action::Launch { address, operation, process })
            },
            Ok(None) => Ok(Action::Wait),
            Err(fatal) => Err(fatal),
        }
    }

    /// A key press.
    fn key(&mut self, key: Key) -> (outcome: Result<Action, Fatal>)
        requires
            old(self).wf(),
        ensures
            final(self)@ == old(self)@.key(key).next,
            outcome_view(outcome) == old(self)@.key(key).outcome,
    {
        let command = command_for(key);
        if self.app.error().is_some() {
            match command {
                Command::Dismiss => {
                    self.app.dismiss();
                },
                _ => {},
            }
            return Ok(Action::Wait);
        }
        match command {
            Command::Quit => Ok(Action::Quit),
            Command::Down => {
                self.app.down();
                Ok(Action::Wait)
            },
            Command::Up => {
                self.app.up();
                Ok(Action::Wait)
            },
            Command::Left => {
                self.app.switch(List::Unpaired);
                Ok(Action::Wait)
            },
            Command::Right => {
                self.app.switch(List::Paired);
                Ok(Action::Wait)
            },
            Command::Rescan => {
                if self.ready {
                    self.app.clear();
                    Ok(Action::Rescan)
                } else {
                    Ok(Action::Wait)
                }
            },
            Command::Activate => self.activate(),
            Command::Dismiss => Ok(Action::Wait),
            Command::Nothing => Ok(Action::Wait),
        }
    }

    /// Processes one event: updates the state and says what the loop has to
    /// do next. A failure ends the run and leaves the state as it was.
    pub fn handle(&mut self, event: Event) -> (outcome: Result<Action, Fatal>)
        requires
            old(self).wf(),
        ensures
            final(self)@ == old(self)@.step(event@).next,
            outcome_view(outcome) == old(self)@.step(event@).outcome,
            final(self).wf(),
    {
        proof {
            lemma_step_wf(self@, event@);
        }
        match event {
            Event::Tick(address) => {
                self.app.tick(address);
                Ok(Action::Wait)
            },
            Event::Completed(address) => {
                if self.app.complete(address) {
                    self.spinners.remove(&address);
                    Ok(Action::StopSpinner(address))
                } else {
                    Ok(Action::Wait)
                }
            },
            Event::Failed(error) => {
                self.app.set_error(error);
                Ok(Action::Wait)
            },
            Event::Discovered(address) => {
                if self.ready {
                    Ok(Action::Fetch(address))
                } else {
                    Ok(Action::Wait)
                }
            },
            Event::Fetched { address, paired, connected, alias } => {
                self.app.intake(address, paired, connected, alias);
                Ok(Action::Wait)
            },
            Event::Changed(address, change) => {
                self.app.change(address, change);
                Ok(Action::Wait)
            },
            Event::AdapterReady => {
                self.ready = true;
                Ok(Action::StartScan)
            },
            Event::AdapterFailed => Err(Fatal::AdapterUnavailable),
            Event::Key(key) => self.key(key),
            Event::InputFailed => Err(Fatal::InputFailed),
        }
    }
}

/// How a run ends.
#[derive(Clone, Copy, Debug, PartialEq, Eq, Structural)]
pub enum Exit {
    /// The quit key was pressed.
    Quit,
    /// A failure ended the run.
    Failed(Fatal),
    /// Every event was processed and the loop would wait for the next.
    Idle,
}

/// What a run leaves behind: the screens it drew, the actions it asked for,
/// both in order, and how it ended.
#[derive(Debug)]
pub struct Run {
    pub frames: Vec<Screen>,
    pub actions: Vec<Action>,
    pub exit: Exit,
}

/// A run as contracts see it, together with the state it ended in.
pub ghost struct Trace {
    pub state: SchedulerView,
    pub frames: Seq<ScreenView>,
    pub actions: Seq<ActionView>,
    pub exit: Exit,
}

/// The events of a sequence as contracts see them.
pub open spec fn event_views(events: Seq<Event>) -> Seq<EventView> {
    Seq::new(events.len(), |i: int| events[i]@)
}

/// The actions of a sequence as contracts see them.
pub open spec fn action_views(actions: Seq<Action>) -> Seq<ActionView> {
    Seq::new(actions.len(), |i: int| actions[i]@)
}

/// The screens of a sequence as contracts see them.
pub open spec fn screen_views(screens: Seq<Screen>) -> Seq<ScreenView> {
    Seq::new(screens.len(), |i: int| screens[i]@)
}

/// The run of the loop over a sequence of events. Each turn draws the
/// current state and then applies the next event to it; the run ends with
/// the first event that quits or fails, or, after a last draw, when no event
/// is left. The action of the quitting event is part of the trace.
pub open spec fn replay(state: SchedulerView, events: Seq<EventView>) -> Trace
    decreases events.len(),
{
    let frame = screen_of(state.app);
    if events.len() == 0 {
        Trace { state, frames: seq![frame], actions: Seq::empty(), exit: Exit::Idle }
    } else {
        let step = state.step(events.first());
        match step.outcome {
            Err(fatal) => Trace {
                state: step.next,
                frames: seq![frame],
                actions: Seq::empty(),
                exit: Exit::Failed(fatal),
            },
            Ok(action) => if action == ActionView::Quit {
                Trace {
                    state: step.next,
                    frames: seq![frame],
                    actions: seq![action],
                    exit: Exit::Quit,
                }
            } else {
                let rest = replay(step.next, events.drop_first());
                Trace {
                    frames: seq![frame] + rest.frames,
                    actions: seq![action] + rest.actions,
                    ..rest
                }
            },
        }
    }
}

/// The trace with more screens and actions before its own.
pub open spec fn preceded(frames: Seq<ScreenView>, actions: Seq<ActionView>, trace: Trace) -> Trace {
    Trace { frames: frames + trace.frames, actions: actions + trace.actions, ..trace }
}

/// Runs the loop over a sequence of events in place of the live sources:
/// each turn draws the state and processes one event, until an event quits
/// or fails or none is left.
#[verifier::loop_isolation(false)]
pub fn run(scheduler: &mut Scheduler, events: Vec<Event>) -> (ended: Run)
    requires
        old(scheduler).wf(),
    ensures
        final(scheduler).wf(),
        final(scheduler)@ == replay(old(scheduler)@, event_views(events@)).state,
        screen_views(ended.frames@) == replay(old(scheduler)@, event_views(events@)).frames,
        action_views(ended.actions@) == replay(old(scheduler)@, event_views(events@)).actions,
        ended.exit == replay(old(scheduler)@, event_views(events@)).exit,
{
    let ghost all = event_views(events@);
    let ghost start = scheduler@;
    let mut frames: Vec<Screen> = Vec::new();
    let mut actions: Vec<Action> = Vec::new();
    assert(all.skip(0) == all);
    assert(preceded(screen_views(frames@), action_views(actions@), replay(scheduler@, all))
        == replay(start, all));
    for event in iter: events
        invariant
            scheduler.wf(),
            all == event_views(iter.seq()),
            replay(start, all) == preceded(
                screen_views(frames@),
                action_views(actions@),
                replay(scheduler@, all.skip(iter.index() as int)),
            ),
    {
        let ghost rest = all.skip(iter.index() as int);
        let ghost drawn = screen_views(frames@);
        let ghost done = action_views(actions@);
        let ghost frame = screen_of(scheduler@.app);
        assert(rest.first() == event@);
        assert(rest.drop_first() == all.skip(iter.index() + 1));
        frames.push(scheduler.app().render());
        assert(screen_views(frames@) == drawn + seq![frame]);
        match scheduler.handle(event) {
            Ok(action) => {
                let quit = match action {
                    Action::Quit => true,
                    _ => false,
                };
                actions.push(action);
                assert(action_views(actions@) == done + seq![action@]);
                if quit {
                    return Run { frames, actions, exit: Exit::Quit };
                }
                assert(done + (seq![action@] + replay(scheduler@, rest.drop_first()).actions) == (
                done + seq![action@]) + replay(scheduler@, rest.drop_first()).actions);
                assert(drawn + (seq![frame] + replay(scheduler@, rest.drop_first()).frames) == (
                drawn + seq![frame]) + replay(scheduler@, rest.drop_first()).frames);
            },
            Err(fatal) => {
                assert(done + Seq::<ActionView>::empty() == done);
                return Run { frames, actions, exit: Exit::Failed(fatal) };
            },
        }
    }
    assert(all.skip(all.len() as int) == Seq::<EventView>::empty());
    assert(action_views(actions@) + Seq::<ActionView>::empty() == action_views(actions@));
    let ghost drawn = screen_views(frames@);
    frames.push(scheduler.app().render());
    assert(screen_views(frames@) == drawn + seq![screen_of(scheduler@.app)]);
    Run { frames, actions, exit: Exit::Idle }
}

} // verus!
