//! What holds of the coordinator whatever the events are.

use crate::device::{DeviceView, List};
use crate::event::{binding, ActionView, ChangeView, Command, EventView, Fatal, Key};
use crate::model::{fresh, linked, renamed, settled, ticked, AppView, SchedulerView};
use crate::preserve::{
    lemma_activate_wf, lemma_record_spinning, lemma_rewrite_wf, lemma_step_wf,
};
use crate::scheduler::{replay, Exit};
use crate::table::{
    has_key, index_of, lemma_amend_same_keys, lemma_disjoint_keys, lemma_index_of,
    lemma_index_unique, lemma_put, lemma_same_keys, lemma_without, value_of,
};
use crate::screen::{pane_of, screen_of};
use vstd::prelude::*;

verus! {

/// The state after a sequence of events, each applied to the state that the
/// one before left.
pub open spec fn after(state: SchedulerView, events: Seq<EventView>) -> SchedulerView
    decreases events.len(),
{
    if events.len() == 0 {
        state
    } else {
        after(state, events.drop_last()).step(events.last()).next
    }
}

/// Whatever events arrive, a well-formed state stays well formed.
pub proof fn law_always_wf(state: SchedulerView, events: Seq<EventView>)
    requires
        state.wf(),
    ensures
        after(state, events).wf(),
    decreases events.len(),
{
    if events.len() > 0 {
        law_always_wf(state, events.drop_last());
        lemma_step_wf(after(state, events.drop_last()), events.last());
    }
}

/// After any sequence of events from the initial state, no address is in
/// both the unpaired and the paired list.
pub proof fn law_never_in_both(events: Seq<EventView>, address: u64)
    ensures
        !(has_key(after(SchedulerView::initial(), events).app.unpaired, address) && has_key(
            after(SchedulerView::initial(), events).app.paired,
            address,
        )),
{
    law_always_wf(SchedulerView::initial(), events);
    let app = after(SchedulerView::initial(), events).app;
    lemma_disjoint_keys(app.unpaired, app.paired);
}

/// After any sequence of events from the initial state, a device with an
/// operation outstanding has a spinner.
pub proof fn law_outstanding_has_spinner(events: Seq<EventView>, address: u64)
    ensures
        ({
            let state = after(SchedulerView::initial(), events);
            state.app.home(address) is Some && state.app.record(address).loading is Some
                ==> state.spinners.contains(address)
        }),
{
    law_always_wf(SchedulerView::initial(), events);
    lemma_record_spinning(after(SchedulerView::initial(), events), address);
}

/// When a device in the unpaired list is reported as paired, its record
/// leaves the unpaired list and becomes the last of the paired list, with
/// every field as it was. Nothing else changes.
pub proof fn law_paired_moves(state: SchedulerView, address: u64)
    requires
        state.wf(),
        has_key(state.app.unpaired, address),
    ensures
        ({
            let next = state.step(EventView::Changed(address, ChangeView::Paired(true))).next;
            &&& !has_key(next.app.unpaired, address)
            &&& has_key(next.app.paired, address)
            &&& value_of(next.app.paired, address) == value_of(state.app.unpaired, address)
            &&& next.app.unpaired == state.app.unpaired.remove(
                index_of(state.app.unpaired, address),
            )
            &&& next.app.paired == state.app.paired.push(
                (address, value_of(state.app.unpaired, address)),
            )
            &&& next == SchedulerView {
                app: AppView { unpaired: next.app.unpaired, paired: next.app.paired, ..state.app },
                ..state
            }
        }),
{
    let app = state.app;
    lemma_disjoint_keys(app.unpaired, app.paired);
    lemma_without(app.unpaired, address);
    lemma_put(app.paired, address, value_of(app.unpaired, address));
}

/// When a device in the paired list is reported as no longer paired, its
/// record leaves the paired list and becomes the last of the unpaired list,
/// with every field as it was. Nothing else changes.
pub proof fn law_unpaired_moves(state: SchedulerView, address: u64)
    requires
        state.wf(),
        has_key(state.app.paired, address),
    ensures
        ({
            let next = state.step(EventView::Changed(address, ChangeView::Paired(false))).next;
            &&& !has_key(next.app.paired, address)
            &&& has_key(next.app.unpaired, address)
            &&& value_of(next.app.unpaired, address) == value_of(state.app.paired, address)
            &&& next.app.paired == state.app.paired.remove(index_of(state.app.paired, address))
            &&& next.app.unpaired == state.app.unpaired.push(
                (address, value_of(state.app.paired, address)),
            )
            &&& next == SchedulerView {
                app: AppView { unpaired: next.app.unpaired, paired: next.app.paired, ..state.app },
                ..state
            }
        }),
{
    let app = state.app;
    lemma_disjoint_keys(app.unpaired, app.paired);
    lemma_without(app.paired, address);
    lemma_put(app.unpaired, address, value_of(app.paired, address));
}

/// A report of a paired state that the tables show already is dropped: for a
/// device that is not in the list it would leave, nothing changes. So a
/// second report of the same state changes nothing.
pub proof fn law_paired_report_idempotent(state: SchedulerView, address: u64, paired: bool)
    requires
        state.wf(),
    ensures
        ({
            let event = EventView::Changed(address, ChangeView::Paired(paired));
            let from = if paired { state.app.unpaired } else { state.app.paired };
            &&& !has_key(from, address) ==> state.step(event).next == state
            &&& state.step(event).next.step(event).next == state.step(event).next
        }),
{
    let event = EventView::Changed(address, ChangeView::Paired(paired));
    let next = state.step(event).next;
    if paired {
        if has_key(state.app.unpaired, address) {
            law_paired_moves(state, address);
        }
    } else {
        if has_key(state.app.paired, address) {
            law_unpaired_moves(state, address);
        }
    }
}

/// Pairing and then unpairing a device of the unpaired list gives the paired
/// list back as it was and leaves the device in the unpaired list with its
/// record as it was, now in the last place.
pub proof fn law_unpairing_undoes_pairing(state: SchedulerView, address: u64)
    requires
        state.wf(),
        has_key(state.app.unpaired, address),
    ensures
        ({
            let there = state.step(EventView::Changed(address, ChangeView::Paired(true))).next;
            let back = there.step(EventView::Changed(address, ChangeView::Paired(false))).next;
            &&& back.app.paired == state.app.paired
            &&& back.app.unpaired == state.app.unpaired.remove(
                index_of(state.app.unpaired, address),
            ).push((address, value_of(state.app.unpaired, address)))
            &&& back == SchedulerView {
                app: AppView { unpaired: back.app.unpaired, ..state.app },
                ..state
            }
        }),
{
    let there = state.step(EventView::Changed(address, ChangeView::Paired(true))).next;
    law_paired_moves(state, address);
    lemma_step_wf(state, EventView::Changed(address, ChangeView::Paired(true)));
    law_unpaired_moves(there, address);
    let device = value_of(state.app.unpaired, address);
    let pushed = state.app.paired.push((address, device));
    lemma_disjoint_keys(state.app.unpaired, state.app.paired);
    lemma_index_unique(pushed, state.app.paired.len() as int);
    assert(pushed.remove(state.app.paired.len() as int) == state.app.paired);
}

/// Activating a device whose operation is outstanding changes nothing and
/// starts nothing.
pub proof fn law_no_double_dispatch(state: SchedulerView)
    requires
        state.app.has_selection(),
        state.app.selection().1.loading is Some,
    ensures
        state.step(EventView::Key(Key::Enter)).next == state,
        state.step(EventView::Key(Key::Enter)).outcome == Ok::<ActionView, Fatal>(ActionView::Wait),
{
}

/// The completion of an operation on a tracked device makes the device idle,
/// whatever its counter was, removes its spinner entry and has the spinner
/// cancelled. The device stays in its list with its other fields as they
/// were.
pub proof fn law_completion_clears(state: SchedulerView, address: u64)
    requires
        state.wf(),
        state.app.home(address) is Some,
    ensures
        ({
            let step = state.step(EventView::Completed(address));
            &&& step.outcome == Ok::<ActionView, Fatal>(ActionView::StopSpinner(address))
            &&& !step.next.spinners.contains(address)
            &&& step.next.spinners == state.spinners.remove(address)
            &&& step.next.app.home(address) == state.app.home(address)
            &&& step.next.app.record(address) == settled(state.app.record(address))
            &&& step.next.app.record(address).loading is None
        }),
{
    let app = state.app;
    let value = settled(app.record(address));
    lemma_rewrite_wf(app, address, value);
    lemma_same_keys(app.unpaired, app.rewrite(address, value).unpaired);
    lemma_same_keys(app.paired, app.rewrite(address, value).paired);
    let list = app.home(address)->Some_0;
    lemma_index_of(app.list(list), address);
    lemma_index_unique(app.rewrite(address, value).list(list), index_of(app.list(list), address));
}

/// A tick for a tracked device with counter `n` sets the counter to
/// `(n + 1) mod 4` and changes nothing else; a tick for an idle device
/// changes nothing.
pub proof fn law_tick_advances(state: SchedulerView, address: u64)
    requires
        state.wf(),
        state.app.home(address) is Some,
    ensures
        ({
            let step = state.step(EventView::Tick(address));
            let before = state.app.record(address);
            &&& step.outcome == Ok::<ActionView, Fatal>(ActionView::Wait)
            &&& step.next.app.home(address) == state.app.home(address)
            &&& before.loading matches Some(n) ==> step.next.app.record(address) == (DeviceView {
                loading: Some(((n + 1) % 4) as usize),
                ..before
            })
            &&& before.loading is None ==> step.next == state
        }),
{
    let app = state.app;
    let before = app.record(address);
    let value = ticked(before);
    lemma_rewrite_wf(app, address, value);
    lemma_same_keys(app.unpaired, app.rewrite(address, value).unpaired);
    lemma_same_keys(app.paired, app.rewrite(address, value).paired);
    let list = app.home(address)->Some_0;
    let at = index_of(app.list(list), address);
    lemma_index_of(app.list(list), address);
    lemma_index_unique(app.rewrite(address, value).list(list), at);
    if before.loading is None {
        assert(app.list(list).update(at, (address, before)) == app.list(list));
    }
}

/// A tick for an address that no list holds changes nothing.
pub proof fn law_stale_events_dropped(state: SchedulerView, address: u64)
    requires
        state.app.home(address) is None,
    ensures
        state.step(EventView::Tick(address)).next == state,
        state.step(EventView::Completed(address)).next == state,
        state.step(EventView::Completed(address)).outcome == Ok::<ActionView, Fatal>(
            ActionView::Wait,
        ),
{
}

/// Whether the key moves the cursor or switches the list.
pub open spec fn navigates(key: Key) -> bool {
    binding(key) == Command::Up || binding(key) == Command::Down || binding(key) == Command::Left
        || binding(key) == Command::Right
}

/// Navigation moves the cursor by at most one row, moves it down only onto a
/// row that the active list has, and never moves it up from the first row.
/// Nothing but the cursor changes.
pub proof fn law_navigation_steps(state: SchedulerView, key: Key)
    requires
        navigates(key),
    ensures
        ({
            let next = state.step(EventView::Key(key)).next;
            &&& next.app.selected_row > state.app.selected_row ==> {
                &&& next.app.selected_row == state.app.selected_row + 1
                &&& next.app.selected_row <= next.app.active().len() - 1
            }
            &&& next.app.selected_row < state.app.selected_row ==> next.app.selected_row
                == state.app.selected_row - 1
            &&& 0 <= next.app.selected_row
            &&& next == SchedulerView {
                app: AppView {
                    selected_row: next.app.selected_row,
                    selected_list: next.app.selected_list,
                    ..state.app
                },
                ..state
            }
        }),
{
}

/// Whether the list that is active after the key has a row for the cursor to
/// be on: for a move up or down, the cursor is within the active list (or,
/// moving up, just beyond its last row); for a switch, the list switched to
/// has the cursor's row.
pub open spec fn row_in_reach(state: SchedulerView, key: Key) -> bool {
    let row = state.app.selected_row;
    match binding(key) {
        Command::Down => row < state.app.active().len(),
        Command::Up => 0 < state.app.active().len() && row <= state.app.active().len(),
        Command::Left => row < state.app.unpaired.len(),
        Command::Right => row < state.app.paired.len(),
        _ => false,
    }
}

/// After a navigation key, with no error shown, the cursor is on a row of
/// the active list: it does not exceed the list's length less one.
pub proof fn law_navigation_in_bounds(state: SchedulerView, key: Key)
    requires
        navigates(key),
        state.app.error is None,
        row_in_reach(state, key),
    ensures
        ({
            let next = state.step(EventView::Key(key)).next;
            0 <= next.app.selected_row <= next.app.active().len() - 1
        }),
{
}

/// A rescan with the adapter present and no error shown empties both lists,
/// has the scanner restarted and changes nothing else. The state it leaves
/// does not depend on what the lists held, so all that they hold later has
/// arrived after the rescan.
pub proof fn law_rescan_clears(state: SchedulerView, other: SchedulerView)
    requires
        state.ready,
        state.app.error is None,
        other == (SchedulerView {
            app: AppView { unpaired: other.app.unpaired, paired: other.app.paired, ..state.app },
            ..state
        }),
    ensures
        ({
            let step = state.step(EventView::Key(Key::Char('s')));
            &&& step.outcome == Ok::<ActionView, Fatal>(ActionView::Rescan)
            &&& step.next.app.unpaired == Seq::<(u64, DeviceView)>::empty()
            &&& step.next.app.paired == Seq::<(u64, DeviceView)>::empty()
            &&& step.next == SchedulerView { app: state.app.cleared(), ..state }
            &&& other.step(EventView::Key(Key::Char('s'))).next == step.next
        }),
{
}

/// After a rescan neither pane shows a row or a highlight, as before the
/// first event.
pub proof fn law_rescan_display(state: SchedulerView, list: List)
    requires
        state.ready,
        state.app.error is None,
    ensures
        ({
            let next = state.step(EventView::Key(Key::Char('s'))).next;
            &&& pane_of(next.app, list).rows == pane_of(AppView::initial(), list).rows
            &&& pane_of(next.app, list).rows.len() == 0
            &&& pane_of(next.app, list).selected == pane_of(AppView::initial(), list).selected
            &&& pane_of(next.app, list).selected is None
        }),
{
    let next = state.step(EventView::Key(Key::Char('s'))).next;
    assert(pane_of(next.app, list).rows =~= pane_of(AppView::initial(), list).rows);
}

/// While an error is shown, the dismiss key removes it and changes nothing
/// else, and every other key changes nothing.
pub proof fn law_error_gates_keys(state: SchedulerView, key: Key)
    requires
        state.app.error is Some,
    ensures
        ({
            let step = state.step(EventView::Key(key));
            &&& step.outcome == Ok::<ActionView, Fatal>(ActionView::Wait)
            &&& key == Key::Esc ==> step.next == SchedulerView {
                app: AppView { error: None, ..state.app },
                ..state
            }
            &&& key != Key::Esc ==> step.next == state
        }),
{
}

/// Applying a sequence of events is applying the first and then the rest.
pub proof fn lemma_after_first(state: SchedulerView, events: Seq<EventView>)
    requires
        events.len() > 0,
    ensures
        after(state, events) == after(state.step(events.first()).next, events.drop_first()),
    decreases events.len(),
{
    if events.len() == 1 {
        assert(events.drop_last() == Seq::<EventView>::empty());
        assert(events.drop_first() == Seq::<EventView>::empty());
        assert(after(state, events.drop_last()) == state);
    } else {
        lemma_after_first(state, events.drop_last());
        assert(events.drop_last().first() == events.first());
        assert(events.drop_last().drop_first() == events.drop_first().drop_last());
        assert(events.drop_first().last() == events.last());
    }
}

/// A run draws the state before each event that it processes, and once more
/// before it would wait for an event that does not come. So the first screen
/// shows the state the run began in, each later one the state that the
/// events before it have left, and the last one the state the run ended in.
pub proof fn law_redraw_per_event(state: SchedulerView, events: Seq<EventView>)
    ensures
        ({
            let trace = replay(state, events);
            &&& 1 <= trace.frames.len() <= events.len() + 1
            &&& trace.exit == Exit::Quit ==> trace.frames.len() == trace.actions.len()
            &&& trace.exit != Exit::Quit ==> trace.frames.len() == trace.actions.len() + 1
            &&& trace.exit == Exit::Idle ==> trace.frames.len() == events.len() + 1
            &&& forall|i: int|
                0 <= i < trace.frames.len() ==> #[trigger] trace.frames[i] == screen_of(
                    after(state, events.take(i)).app,
                )
            &&& trace.frames.last() == screen_of(trace.state.app)
            &&& trace.state == after(state, events.take(trace.frames.len() - 1))
        }),
    decreases events.len(),
{
    let trace = replay(state, events);
    assert(events.take(0) == Seq::<EventView>::empty());
    if events.len() > 0 {
        let step = state.step(events.first());
        if step.outcome is Ok && step.outcome->Ok_0 != ActionView::Quit {
            let rest = replay(step.next, events.drop_first());
            law_redraw_per_event(step.next, events.drop_first());
            let last = trace.frames.len() - 1;
            lemma_after_first(state, events.take(last));
            assert(events.take(last).drop_first() == events.drop_first().take(last - 1));
            assert forall|i: int| 0 <= i < trace.frames.len() implies #[trigger] trace.frames[i]
                == screen_of(after(state, events.take(i)).app) by {
                if i > 0 {
                    assert(trace.frames[i] == rest.frames[i - 1]);
                    lemma_after_first(state, events.take(i));
                    assert(events.take(i).drop_first() == events.drop_first().take(i - 1));
                }
            }
        }
    }
}

/// An event that makes the run fail, and the quit key, leave the state as it was.
pub proof fn law_exit_changes_nothing(state: SchedulerView, event: EventView)
    ensures
        state.step(event).outcome is Err ==> state.step(event).next == state,
        state.step(event).outcome == Ok::<ActionView, Fatal>(ActionView::Quit) ==> state.step(
            event,
        ).next == state,
{
}

/// A device changes lists only when its paired state is reported to have
/// changed: after any other event a device that is still tracked is in the
/// list it was in.
pub proof fn law_membership_moves_only_on_report(
    state: SchedulerView,
    event: EventView,
    address: u64,
)
    requires
        state.wf(),
        state.app.home(address) is Some,
        !(event matches EventView::Changed(changed, ChangeView::Paired(_)) && changed == address),
    ensures
        ({
            let next = state.step(event).next;
            next.app.home(address) is Some ==> next.app.home(address) == state.app.home(address)
        }),
{
    let app = state.app;
    let next = state.step(event).next.app;
    match event {
        EventView::Tick(ticking) => {
            lemma_rewrite_wf(app, ticking, ticked(app.record(ticking)));
            lemma_same_keys(app.unpaired, next.unpaired);
            lemma_same_keys(app.paired, next.paired);
        },
        EventView::Completed(completed) => {
            lemma_rewrite_wf(app, completed, settled(app.record(completed)));
            lemma_same_keys(app.unpaired, next.unpaired);
            lemma_same_keys(app.paired, next.paired);
        },
        EventView::Fetched { address: fetched, paired, connected, alias } => {
            if app.home(fetched) is Some {
                lemma_rewrite_wf(app, fetched, fresh(alias, connected));
                lemma_same_keys(app.unpaired, next.unpaired);
                lemma_same_keys(app.paired, next.paired);
            } else {
                lemma_put(app.unpaired, fetched, fresh(alias, connected));
                lemma_put(app.paired, fetched, fresh(alias, connected));
            }
        },
        EventView::Changed(changed, change) => {
            match change {
                ChangeView::Alias(alias) => {
                    lemma_rewrite_wf(app, changed, renamed(app.record(changed), alias));
                    lemma_same_keys(app.unpaired, next.unpaired);
                    lemma_same_keys(app.paired, next.paired);
                },
                ChangeView::Connected(connected) => {
                    lemma_amend_same_keys(
                        app.paired,
                        changed,
                        linked(value_of(app.paired, changed), connected),
                    );
                    lemma_same_keys(app.paired, next.paired);
                },
                ChangeView::Paired(paired) => {
                    let from = if paired { app.unpaired } else { app.paired };
                    let to = if paired { app.paired } else { app.unpaired };
                    lemma_without(from, changed);
                    lemma_put(to, changed, value_of(from, changed));
                },
                ChangeView::Other => {},
            }
        },
        EventView::Key(key) => {
            if app.has_selection() {
                lemma_activate_wf(app);
                lemma_same_keys(app.unpaired, app.activate().unpaired);
                lemma_same_keys(app.paired, app.activate().paired);
            }
        },
        _ => {},
    }
}

} // verus!
