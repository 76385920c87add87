use bluepair::app::advance;
use bluepair::device::{Error, List};
use bluepair::event::{
    command_for, discovered, Action, Change, Command, Event, Fatal, Key, Notice, Operation,
};
use bluepair::scheduler::{operation_for, process_name, report, run, Exit, Scheduler};

const A1: u64 = 0x0011_2233_4455;
const A2: u64 = 0x0011_2233_4456;
const A3: u64 = 0x0011_2233_4457;

fn ready() -> Scheduler {
    let mut scheduler = Scheduler::new();
    let action = scheduler.handle(Event::AdapterReady).unwrap();
    assert!(matches!(action, Action::StartScan));
    scheduler
}

fn fetched(address: u64, paired: bool, connected: bool, alias: &str) -> Event {
    Event::Fetched { address, paired, connected, alias: alias.to_string() }
}

fn addresses(scheduler: &Scheduler, list: List) -> Vec<u64> {
    let app = scheduler.app();
    let mut found = Vec::new();
    for row in 0..app.len(list) {
        found.push(app.entry(list, row).unwrap().0);
    }
    found
}

fn loading(scheduler: &Scheduler, address: u64) -> Option<usize> {
    scheduler.app().find(address).unwrap().1.loading
}

fn press(scheduler: &mut Scheduler, key: Key) -> Action {
    scheduler.handle(Event::Key(key)).unwrap()
}

#[test]
fn initial_state_is_empty() {
    let scheduler = Scheduler::new();
    let app = scheduler.app();
    assert_eq!(app.selected_list(), List::Unpaired);
    assert_eq!(app.selected_row(), 0);
    assert_eq!(app.len(List::Unpaired), 0);
    assert_eq!(app.len(List::Paired), 0);
    assert!(app.error().is_none());
    assert!(!scheduler.is_ready());
    assert!(!scheduler.has_spinner(A1));
}

#[test]
fn discovery_then_paired_change_moves_device() {
    let mut scheduler = ready();
    assert!(matches!(scheduler.handle(Event::Discovered(A1)).unwrap(), Action::Fetch(a) if a == A1));
    let action = scheduler.handle(fetched(A1, false, false, "Speaker")).unwrap();
    assert!(matches!(action, Action::Wait));
    assert_eq!(addresses(&scheduler, List::Unpaired), vec![A1]);
    assert_eq!(addresses(&scheduler, List::Paired), Vec::<u64>::new());

    scheduler.handle(Event::Changed(A1, Change::Paired(true))).unwrap();
    assert_eq!(addresses(&scheduler, List::Unpaired), Vec::<u64>::new());
    assert_eq!(addresses(&scheduler, List::Paired), vec![A1]);
    let (list, device) = scheduler.app().find(A1).unwrap();
    assert_eq!(list, List::Paired);
    assert_eq!(device.alias, "Speaker");
    assert!(!device.connected);
    assert_eq!(device.loading, None);
}

#[test]
fn connect_failure_is_reported() {
    let mut scheduler = ready();
    scheduler.handle(fetched(A1, true, false, "Speaker")).unwrap();
    press(&mut scheduler, Key::Right);
    assert_eq!(scheduler.app().selected_list(), List::Paired);

    let action = press(&mut scheduler, Key::Enter);
    let process = match action {
        Action::Launch { address, operation, process } => {
            assert_eq!(address, A1);
            assert_eq!(operation, Operation::Connect);
            process
        }
        other => panic!("unexpected action {:?}", other),
    };
    assert_eq!(process, "connecting to Speaker");
    assert_eq!(loading(&scheduler, A1), Some(0));
    assert!(scheduler.has_spinner(A1));

    for _ in 0..3 {
        assert!(matches!(scheduler.handle(Event::Tick(A1)).unwrap(), Action::Wait));
    }
    assert_eq!(loading(&scheduler, A1), Some(3));

    let events = report(A1, process, Some("connection refused".to_string()));
    assert_eq!(events.len(), 2);
    let mut actions = Vec::new();
    for event in events {
        actions.push(scheduler.handle(event).unwrap());
    }
    assert!(matches!(actions[0], Action::StopSpinner(a) if a == A1));
    assert!(matches!(actions[1], Action::Wait));
    assert_eq!(loading(&scheduler, A1), None);
    assert!(!scheduler.has_spinner(A1));
    let error = scheduler.app().error().unwrap();
    assert_eq!(error.message, "connection refused");
    assert_eq!(error.process, "connecting to Speaker");
}

#[test]
fn escape_dismisses_error_and_keys_resume() {
    let mut scheduler = ready();
    scheduler.handle(fetched(A1, false, false, "Speaker")).unwrap();
    scheduler.handle(fetched(A2, false, false, "Mouse")).unwrap();
    scheduler
        .handle(Event::Failed(Error { message: "boom".to_string(), process: "pairing with Speaker".to_string() }))
        .unwrap();
    assert!(scheduler.app().error().is_some());

    assert!(matches!(press(&mut scheduler, Key::Down), Action::Wait));
    assert_eq!(scheduler.app().selected_row(), 0);
    assert!(matches!(press(&mut scheduler, Key::Char('q')), Action::Wait));
    assert!(matches!(press(&mut scheduler, Key::Char('s')), Action::Wait));
    assert_eq!(scheduler.app().len(List::Unpaired), 2);
    assert!(matches!(press(&mut scheduler, Key::Enter), Action::Wait));
    assert_eq!(loading(&scheduler, A1), None);
    assert!(scheduler.app().error().is_some());

    assert!(matches!(press(&mut scheduler, Key::Esc), Action::Wait));
    assert!(scheduler.app().error().is_none());

    press(&mut scheduler, Key::Down);
    assert_eq!(scheduler.app().selected_row(), 1);
    assert!(matches!(press(&mut scheduler, Key::Char('q')), Action::Quit));
}

#[test]
fn escape_without_error_changes_nothing() {
    let mut scheduler = ready();
    scheduler.handle(fetched(A1, false, false, "Speaker")).unwrap();
    assert!(matches!(press(&mut scheduler, Key::Esc), Action::Wait));
    assert!(scheduler.app().error().is_none());
    assert_eq!(addresses(&scheduler, List::Unpaired), vec![A1]);
}

#[test]
fn new_error_overwrites_old() {
    let mut scheduler = Scheduler::new();
    scheduler
        .handle(Event::Failed(Error { message: "first".to_string(), process: "pairing with A".to_string() }))
        .unwrap();
    scheduler
        .handle(Event::Failed(Error { message: "second".to_string(), process: "connecting to B".to_string() }))
        .unwrap();
    let error = scheduler.app().error().unwrap();
    assert_eq!(error.message, "second");
    assert_eq!(error.process, "connecting to B");
}

#[test]
fn address_is_never_in_both_lists() {
    let mut scheduler = ready();
    scheduler.handle(fetched(A1, false, false, "Speaker")).unwrap();
    // The same address is read again, now as paired, before any property change arrived.
    scheduler.handle(fetched(A1, true, true, "Speaker 2")).unwrap();
    assert_eq!(addresses(&scheduler, List::Unpaired), vec![A1]);
    assert_eq!(addresses(&scheduler, List::Paired), Vec::<u64>::new());
    let (list, device) = scheduler.app().find(A1).unwrap();
    assert_eq!(list, List::Unpaired);
    assert_eq!(device.alias, "Speaker 2");
    assert!(device.connected);

    scheduler.handle(Event::Changed(A1, Change::Paired(true))).unwrap();
    scheduler.handle(fetched(A1, false, false, "Speaker 3")).unwrap();
    assert_eq!(addresses(&scheduler, List::Unpaired), Vec::<u64>::new());
    assert_eq!(addresses(&scheduler, List::Paired), vec![A1]);
    assert_eq!(scheduler.app().find(A1).unwrap().1.alias, "Speaker 3");
}

#[test]
fn intake_appends_and_overwrites_in_place() {
    let mut scheduler = ready();
    scheduler.handle(fetched(A1, false, false, "one")).unwrap();
    scheduler.handle(fetched(A2, false, false, "two")).unwrap();
    scheduler.handle(fetched(A3, false, false, "three")).unwrap();
    assert_eq!(addresses(&scheduler, List::Unpaired), vec![A1, A2, A3]);

    press(&mut scheduler, Key::Down);
    press(&mut scheduler, Key::Enter);
    assert_eq!(loading(&scheduler, A2), Some(0));

    scheduler.handle(fetched(A2, false, true, "deux")).unwrap();
    assert_eq!(addresses(&scheduler, List::Unpaired), vec![A1, A2, A3]);
    let device = scheduler.app().entry(List::Unpaired, 1).unwrap().1;
    assert_eq!(device.alias, "deux");
    assert!(device.connected);
    assert_eq!(device.loading, None);
}

#[test]
fn paired_change_keeps_order_and_fields() {
    let mut scheduler = ready();
    scheduler.handle(fetched(A1, false, false, "one")).unwrap();
    scheduler.handle(fetched(A2, false, true, "two")).unwrap();
    scheduler.handle(fetched(A3, false, false, "three")).unwrap();
    scheduler.handle(fetched(0x99, true, false, "old")).unwrap();

    press(&mut scheduler, Key::Down);
    press(&mut scheduler, Key::Enter);
    scheduler.handle(Event::Tick(A2)).unwrap();

    scheduler.handle(Event::Changed(A2, Change::Paired(true))).unwrap();
    assert_eq!(addresses(&scheduler, List::Unpaired), vec![A1, A3]);
    assert_eq!(addresses(&scheduler, List::Paired), vec![0x99, A2]);
    let device = scheduler.app().entry(List::Paired, 1).unwrap().1;
    assert_eq!(device.alias, "two");
    assert!(device.connected);
    assert_eq!(device.loading, Some(1));
    assert!(scheduler.has_spinner(A2));
}

#[test]
fn unpaired_change_is_inverse_and_idempotent() {
    let mut scheduler = ready();
    scheduler.handle(fetched(A1, false, false, "one")).unwrap();
    scheduler.handle(fetched(A2, true, true, "two")).unwrap();

    // Already unpaired: dropped.
    scheduler.handle(Event::Changed(A1, Change::Paired(false))).unwrap();
    assert_eq!(addresses(&scheduler, List::Unpaired), vec![A1]);
    assert_eq!(addresses(&scheduler, List::Paired), vec![A2]);

    scheduler.handle(Event::Changed(A2, Change::Paired(false))).unwrap();
    assert_eq!(addresses(&scheduler, List::Unpaired), vec![A1, A2]);
    assert_eq!(addresses(&scheduler, List::Paired), Vec::<u64>::new());
    let device = scheduler.app().entry(List::Unpaired, 1).unwrap().1;
    assert_eq!(device.alias, "two");
    assert!(device.connected);

    scheduler.handle(Event::Changed(A2, Change::Paired(false))).unwrap();
    assert_eq!(addresses(&scheduler, List::Unpaired), vec![A1, A2]);

    // Unknown address: dropped.
    scheduler.handle(Event::Changed(A3, Change::Paired(true))).unwrap();
    scheduler.handle(Event::Changed(A3, Change::Paired(false))).unwrap();
    assert_eq!(addresses(&scheduler, List::Unpaired), vec![A1, A2]);
    assert_eq!(addresses(&scheduler, List::Paired), Vec::<u64>::new());
}

#[test]
fn pairing_round_trip_puts_device_last() {
    let mut scheduler = ready();
    scheduler.handle(fetched(A1, false, false, "one")).unwrap();
    scheduler.handle(fetched(A2, false, false, "two")).unwrap();
    scheduler.handle(Event::Changed(A1, Change::Paired(true))).unwrap();
    scheduler.handle(Event::Changed(A1, Change::Paired(false))).unwrap();
    assert_eq!(addresses(&scheduler, List::Unpaired), vec![A2, A1]);
    assert_eq!(addresses(&scheduler, List::Paired), Vec::<u64>::new());
    assert_eq!(scheduler.app().find(A1).unwrap().1.alias, "one");
}

#[test]
fn alias_change_applies_in_either_list() {
    let mut scheduler = ready();
    scheduler.handle(fetched(A1, false, false, "one")).unwrap();
    scheduler.handle(fetched(A2, true, false, "two")).unwrap();
    scheduler.handle(Event::Changed(A1, Change::Alias("uno".to_string()))).unwrap();
    scheduler.handle(Event::Changed(A2, Change::Alias("dos".to_string()))).unwrap();
    scheduler.handle(Event::Changed(A3, Change::Alias("tres".to_string()))).unwrap();
    assert_eq!(scheduler.app().find(A1).unwrap().1.alias, "uno");
    assert_eq!(scheduler.app().find(A2).unwrap().1.alias, "dos");
    assert!(scheduler.app().find(A3).is_none());
    assert_eq!(addresses(&scheduler, List::Unpaired), vec![A1]);
    assert_eq!(addresses(&scheduler, List::Paired), vec![A2]);
}

#[test]
fn connected_change_applies_to_paired_only() {
    let mut scheduler = ready();
    scheduler.handle(fetched(A1, false, false, "one")).unwrap();
    scheduler.handle(fetched(A2, true, false, "two")).unwrap();
    scheduler.handle(Event::Changed(A1, Change::Connected(true))).unwrap();
    scheduler.handle(Event::Changed(A2, Change::Connected(true))).unwrap();
    scheduler.handle(Event::Changed(A3, Change::Connected(true))).unwrap();
    assert!(!scheduler.app().find(A1).unwrap().1.connected);
    assert!(scheduler.app().find(A2).unwrap().1.connected);
    scheduler.handle(Event::Changed(A2, Change::Connected(false))).unwrap();
    assert!(!scheduler.app().find(A2).unwrap().1.connected);
}

#[test]
fn other_property_changes_are_ignored() {
    let mut scheduler = ready();
    scheduler.handle(fetched(A1, false, true, "one")).unwrap();
    assert!(matches!(scheduler.handle(Event::Changed(A1, Change::Other)).unwrap(), Action::Wait));
    let device = scheduler.app().find(A1).unwrap().1;
    assert_eq!(device.alias, "one");
    assert!(device.connected);
    assert_eq!(addresses(&scheduler, List::Unpaired), vec![A1]);
}

#[test]
fn activating_twice_dispatches_once() {
    let mut scheduler = ready();
    scheduler.handle(fetched(A1, false, false, "Speaker")).unwrap();
    let first = press(&mut scheduler, Key::Enter);
    match first {
        Action::Launch { address, operation, process } => {
            assert_eq!(address, A1);
            assert_eq!(operation, Operation::Pair);
            assert_eq!(process, "pairing with Speaker");
        }
        other => panic!("unexpected action {:?}", other),
    }
    scheduler.handle(Event::Tick(A1)).unwrap();
    let second = press(&mut scheduler, Key::Enter);
    assert!(matches!(second, Action::Wait));
    assert_eq!(loading(&scheduler, A1), Some(1));
    assert!(scheduler.has_spinner(A1));
}

#[test]
fn completion_clears_on_success_too() {
    let mut scheduler = ready();
    scheduler.handle(fetched(A1, false, false, "Speaker")).unwrap();
    press(&mut scheduler, Key::Enter);
    scheduler.handle(Event::Tick(A1)).unwrap();
    let events = report(A1, "pairing with Speaker".to_string(), None);
    assert_eq!(events.len(), 1);
    for event in events {
        assert!(matches!(scheduler.handle(event).unwrap(), Action::StopSpinner(a) if a == A1));
    }
    assert_eq!(loading(&scheduler, A1), None);
    assert!(!scheduler.has_spinner(A1));
    assert!(scheduler.app().error().is_none());
}

#[test]
fn events_for_unknown_address_are_dropped() {
    let mut scheduler = ready();
    scheduler.handle(fetched(A1, false, false, "Speaker")).unwrap();
    press(&mut scheduler, Key::Enter);
    assert!(matches!(press(&mut scheduler, Key::Char('s')), Action::Rescan));
    assert!(scheduler.app().find(A1).is_none());
    assert!(matches!(scheduler.handle(Event::Tick(A1)).unwrap(), Action::Wait));
    assert!(matches!(scheduler.handle(Event::Completed(A1)).unwrap(), Action::Wait));
    assert!(scheduler.has_spinner(A1));
    assert_eq!(scheduler.app().len(List::Unpaired), 0);
    assert_eq!(scheduler.app().len(List::Paired), 0);
}

#[test]
fn tick_wraps_after_four_frames() {
    let mut scheduler = ready();
    scheduler.handle(fetched(A1, false, false, "Speaker")).unwrap();
    scheduler.handle(fetched(A2, false, false, "Mouse")).unwrap();
    press(&mut scheduler, Key::Enter);
    let mut seen = Vec::new();
    for _ in 0..5 {
        scheduler.handle(Event::Tick(A1)).unwrap();
        seen.push(loading(&scheduler, A1));
    }
    assert_eq!(seen, vec![Some(1), Some(2), Some(3), Some(0), Some(1)]);
    // An idle device is not touched by a tick.
    scheduler.handle(Event::Tick(A2)).unwrap();
    assert_eq!(loading(&scheduler, A2), None);
}

#[test]
fn advance_is_successor_modulo_four() {
    assert_eq!(advance(0), 1);
    assert_eq!(advance(1), 2);
    assert_eq!(advance(2), 3);
    assert_eq!(advance(3), 0);
    assert_eq!(advance(7), 0);
    assert_eq!(advance(usize::MAX), 0);
}

#[test]
fn navigation_stays_within_list() {
    let mut scheduler = ready();
    // Empty list: nothing moves.
    press(&mut scheduler, Key::Down);
    assert_eq!(scheduler.app().selected_row(), 0);
    press(&mut scheduler, Key::Up);
    assert_eq!(scheduler.app().selected_row(), 0);

    scheduler.handle(fetched(A1, false, false, "one")).unwrap();
    scheduler.handle(fetched(A2, false, false, "two")).unwrap();
    scheduler.handle(fetched(A3, false, false, "three")).unwrap();
    let mut rows = Vec::new();
    for _ in 0..4 {
        press(&mut scheduler, Key::Down);
        rows.push(scheduler.app().selected_row());
    }
    assert_eq!(rows, vec![1, 2, 2, 2]);
    let mut rows = Vec::new();
    for _ in 0..4 {
        press(&mut scheduler, Key::Up);
        rows.push(scheduler.app().selected_row());
    }
    assert_eq!(rows, vec![1, 0, 0, 0]);
}

#[test]
fn list_switch_keeps_row() {
    let mut scheduler = ready();
    scheduler.handle(fetched(A1, false, false, "one")).unwrap();
    scheduler.handle(fetched(A2, false, false, "two")).unwrap();
    press(&mut scheduler, Key::Down);
    press(&mut scheduler, Key::Left);
    assert_eq!(scheduler.app().selected_list(), List::Unpaired);
    press(&mut scheduler, Key::Right);
    assert_eq!(scheduler.app().selected_list(), List::Paired);
    assert_eq!(scheduler.app().selected_row(), 1);
    press(&mut scheduler, Key::Right);
    assert_eq!(scheduler.app().selected_list(), List::Paired);
    press(&mut scheduler, Key::Left);
    assert_eq!(scheduler.app().selected_list(), List::Unpaired);
    assert_eq!(scheduler.app().selected_row(), 1);
}

#[test]
fn rescan_clears_both_lists() {
    let mut scheduler = ready();
    scheduler.handle(fetched(A1, false, false, "one")).unwrap();
    scheduler.handle(fetched(A2, true, false, "two")).unwrap();
    assert!(matches!(press(&mut scheduler, Key::Char('s')), Action::Rescan));
    assert_eq!(scheduler.app().len(List::Unpaired), 0);
    assert_eq!(scheduler.app().len(List::Paired), 0);
    assert!(scheduler.is_ready());
    // Only what is discovered afterwards comes back.
    scheduler.handle(fetched(A3, true, false, "three")).unwrap();
    assert_eq!(addresses(&scheduler, List::Unpaired), Vec::<u64>::new());
    assert_eq!(addresses(&scheduler, List::Paired), vec![A3]);
}

#[test]
fn commands_wait_for_the_adapter() {
    let mut scheduler = Scheduler::new();
    assert!(matches!(scheduler.handle(Event::Discovered(A1)).unwrap(), Action::Wait));
    scheduler.handle(fetched(A1, false, false, "one")).unwrap();
    assert!(matches!(press(&mut scheduler, Key::Char('s')), Action::Wait));
    assert_eq!(scheduler.app().len(List::Unpaired), 1);
    assert!(matches!(press(&mut scheduler, Key::Enter), Action::Wait));
    assert_eq!(loading(&scheduler, A1), None);
    // Even with the cursor on no row nothing happens before the adapter is there.
    press(&mut scheduler, Key::Right);
    assert!(matches!(press(&mut scheduler, Key::Enter), Action::Wait));

    assert!(matches!(scheduler.handle(Event::AdapterReady).unwrap(), Action::StartScan));
    assert!(scheduler.is_ready());
    assert!(matches!(scheduler.handle(Event::Discovered(A1)).unwrap(), Action::Fetch(a) if a == A1));
}

#[test]
fn activation_without_selection_is_fatal() {
    let mut scheduler = ready();
    assert_eq!(scheduler.handle(Event::Key(Key::Enter)).unwrap_err(), Fatal::MissingSelection);

    scheduler.handle(fetched(A1, false, false, "one")).unwrap();
    scheduler.handle(fetched(A2, false, false, "two")).unwrap();
    press(&mut scheduler, Key::Down);
    scheduler.handle(Event::Changed(A2, Change::Paired(true))).unwrap();
    // The list shrank under the cursor.
    assert_eq!(scheduler.app().selected_row(), 1);
    assert_eq!(scheduler.handle(Event::Key(Key::Enter)).unwrap_err(), Fatal::MissingSelection);
    assert_eq!(addresses(&scheduler, List::Unpaired), vec![A1]);
    assert_eq!(loading(&scheduler, A1), None);
}

#[test]
fn source_failures_are_fatal() {
    let mut scheduler = Scheduler::new();
    assert_eq!(scheduler.handle(Event::AdapterFailed).unwrap_err(), Fatal::AdapterUnavailable);
    assert!(!scheduler.is_ready());
    assert_eq!(scheduler.handle(Event::InputFailed).unwrap_err(), Fatal::InputFailed);
}

#[test]
fn key_bindings_match() {
    assert_eq!(command_for(Key::Char('q')), Command::Quit);
    assert_eq!(command_for(Key::Char('s')), Command::Rescan);
    assert_eq!(command_for(Key::Char('Q')), Command::Nothing);
    assert_eq!(command_for(Key::Char('x')), Command::Nothing);
    assert_eq!(command_for(Key::Up), Command::Up);
    assert_eq!(command_for(Key::Down), Command::Down);
    assert_eq!(command_for(Key::Left), Command::Left);
    assert_eq!(command_for(Key::Right), Command::Right);
    assert_eq!(command_for(Key::Enter), Command::Activate);
    assert_eq!(command_for(Key::Esc), Command::Dismiss);
    assert_eq!(command_for(Key::Other), Command::Nothing);
}

#[test]
fn unbound_keys_do_nothing() {
    let mut scheduler = ready();
    scheduler.handle(fetched(A1, false, false, "one")).unwrap();
    assert!(matches!(press(&mut scheduler, Key::Other), Action::Wait));
    assert!(matches!(press(&mut scheduler, Key::Char('x')), Action::Wait));
    assert_eq!(addresses(&scheduler, List::Unpaired), vec![A1]);
    assert_eq!(scheduler.app().selected_row(), 0);
}

#[test]
fn only_added_devices_are_announced() {
    assert_eq!(discovered(Notice::DeviceAdded(A1)), Some(A1));
    assert_eq!(discovered(Notice::DeviceRemoved(A1)), None);
    assert_eq!(discovered(Notice::AdapterChanged), None);
}

#[test]
fn process_names() {
    assert_eq!(operation_for(List::Unpaired), Operation::Pair);
    assert_eq!(operation_for(List::Paired), Operation::Connect);
    assert_eq!(process_name(Operation::Pair, "Speaker"), "pairing with Speaker");
    assert_eq!(process_name(Operation::Connect, "Speaker"), "connecting to Speaker");
    assert_eq!(process_name(Operation::Pair, ""), "pairing with ");
}

#[test]
fn worker_reports_completion_before_failure() {
    let events = report(A1, "pairing with Speaker".to_string(), Some("timed out".to_string()));
    assert_eq!(events.len(), 2);
    assert!(matches!(events[0], Event::Completed(a) if a == A1));
    match &events[1] {
        Event::Failed(error) => {
            assert_eq!(error.message, "timed out");
            assert_eq!(error.process, "pairing with Speaker");
        }
        other => panic!("unexpected event {:?}", other),
    }
    let events = report(A2, "connecting to Mouse".to_string(), None);
    assert_eq!(events.len(), 1);
    assert!(matches!(events[0], Event::Completed(a) if a == A2));
}

#[test]
fn run_stops_at_quit() {
    let mut scheduler = Scheduler::new();
    let events = vec![
        Event::AdapterReady,
        Event::Discovered(A1),
        fetched(A1, false, false, "Speaker"),
        Event::Key(Key::Enter),
        Event::Tick(A1),
        Event::Key(Key::Char('q')),
        Event::Tick(A1),
    ];
    let ended = run(&mut scheduler, events);
    assert_eq!(ended.exit, Exit::Quit);
    let actions = ended.actions;
    assert_eq!(actions.len(), 6);
    assert!(matches!(actions[0], Action::StartScan));
    assert!(matches!(actions[1], Action::Fetch(a) if a == A1));
    assert!(matches!(actions[2], Action::Wait));
    assert!(matches!(actions[3], Action::Launch { .. }));
    assert!(matches!(actions[4], Action::Wait));
    assert!(matches!(actions[5], Action::Quit));
    // The tick behind the quit was not processed.
    assert_eq!(loading(&scheduler, A1), Some(1));
}

#[test]
fn run_draws_before_each_event() {
    let mut scheduler = Scheduler::new();
    let events = vec![
        Event::AdapterReady,
        fetched(A1, false, false, "Speaker"),
        Event::Key(Key::Enter),
        Event::Tick(A1),
        Event::Key(Key::Char('q')),
    ];
    let ended = run(&mut scheduler, events);
    assert_eq!(ended.exit, Exit::Quit);
    let rows: Vec<Vec<Vec<String>>> =
        ended.frames.iter().map(|frame| frame.unpaired.rows.clone()).collect();
    let row = |cells: &[&str]| vec![cells.iter().map(|cell| cell.to_string()).collect::<Vec<_>>()];
    assert_eq!(
        rows,
        vec![
            Vec::<Vec<String>>::new(),
            Vec::<Vec<String>>::new(),
            row(&["Speaker"]),
            row(&["Speaker", "│"]),
            row(&["Speaker", "╱"]),
        ]
    );
}

#[test]
fn run_stops_at_failure() {
    let mut scheduler = Scheduler::new();
    let events = vec![Event::AdapterReady, Event::Key(Key::Enter), Event::Discovered(A1)];
    let ended = run(&mut scheduler, events);
    assert_eq!(ended.exit, Exit::Failed(Fatal::MissingSelection));
    assert_eq!(ended.actions.len(), 1);
    assert!(matches!(ended.actions[0], Action::StartScan));
    assert_eq!(ended.frames.len(), 2);

    let mut scheduler = Scheduler::new();
    let ended = run(&mut scheduler, vec![Event::AdapterFailed]);
    assert_eq!(ended.exit, Exit::Failed(Fatal::AdapterUnavailable));
    assert!(ended.actions.is_empty());
    assert_eq!(ended.frames.len(), 1);
}

#[test]
fn run_is_idle_when_events_run_out() {
    let mut scheduler = Scheduler::new();
    let ended = run(&mut scheduler, Vec::new());
    assert_eq!(ended.exit, Exit::Idle);
    assert!(ended.actions.is_empty());
    assert_eq!(ended.frames.len(), 1);
    assert!(ended.frames[0].unpaired.rows.is_empty());
    let ended = run(&mut scheduler, vec![Event::AdapterReady, fetched(A2, true, true, "Mouse")]);
    assert_eq!(ended.exit, Exit::Idle);
    assert_eq!(ended.actions.len(), 2);
    assert_eq!(ended.frames.len(), 3);
    assert_eq!(ended.frames[2].paired.rows, vec![vec!["Mouse".to_string(), "true".to_string()]]);
    assert!(scheduler.is_ready());
}

#[test]
fn default_is_initial_state() {
    let scheduler = Scheduler::default();
    assert!(!scheduler.is_ready());
    assert_eq!(scheduler.app().len(List::Unpaired), 0);
    assert_eq!(scheduler.app().len(List::Paired), 0);
    assert_eq!(scheduler.app().selected_row(), 0);
}
