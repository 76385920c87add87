//! Every transition keeps the state well formed.

use crate::device::{DeviceView, List};
use crate::event::{binding, ChangeView, Command, EventView};
use crate::model::{
    fresh, linked, renamed, settled, spinning, started, ticked, AppView, SchedulerView,
};
use crate::table::{
    amend, distinct_keys, has_key, index_of, lemma_amend_same_keys, lemma_disjoint_keys,
    lemma_index_of, lemma_index_unique, lemma_put, lemma_same_keys, lemma_without, put, same_keys,
    value_of, without, Entries,
};
use vstd::prelude::*;

verus! {

/// Replacing a record where it stands keeps the tables well formed.
pub proof fn lemma_rewrite_wf(app: AppView, address: u64, value: DeviceView)
    requires
        app.wf(),
    ensures
        app.rewrite(address, value).wf(),
        same_keys(app.unpaired, app.rewrite(address, value).unpaired),
        same_keys(app.paired, app.rewrite(address, value).paired),
{
    lemma_amend_same_keys(app.unpaired, address, value);
    lemma_amend_same_keys(app.paired, address, value);
    lemma_same_keys(app.unpaired, amend(app.unpaired, address, value));
    lemma_same_keys(app.paired, amend(app.paired, address, value));
}

/// Intake keeps the tables well formed.
pub proof fn lemma_intake_wf(
    app: AppView,
    address: u64,
    paired: bool,
    connected: bool,
    alias: Seq<char>,
)
    requires
        app.wf(),
    ensures
        app.intake(address, paired, connected, alias).wf(),
{
    let next = app.intake(address, paired, connected, alias);
    if app.home(address) is Some {
        lemma_rewrite_wf(app, address, fresh(alias, connected));
    } else {
        let target = if paired { List::Paired } else { List::Unpaired };
        lemma_put(app.list(target), address, fresh(alias, connected));
        lemma_disjoint_keys(app.unpaired, app.paired);
        lemma_disjoint_keys(next.unpaired, next.paired);
    }
}

/// Moving a record to the other list keeps the tables well formed.
pub proof fn lemma_transfer_wf(app: AppView, address: u64, from: List)
    requires
        app.wf(),
    ensures
        app.transfer(address, from).wf(),
{
    let next = app.transfer(address, from);
    if has_key(app.list(from), address) {
        let to = match from {
            List::Unpaired => List::Paired,
            List::Paired => List::Unpaired,
        };
        let device = value_of(app.list(from), address);
        lemma_without(app.list(from), address);
        lemma_put(app.list(to), address, device);
        lemma_disjoint_keys(app.unpaired, app.paired);
        lemma_disjoint_keys(next.unpaired, next.paired);
    }
}

/// A property change keeps the tables well formed.
pub proof fn lemma_change_wf(app: AppView, address: u64, change: ChangeView)
    requires
        app.wf(),
    ensures
        app.change(address, change).wf(),
{
    match change {
        ChangeView::Alias(alias) => {
            lemma_rewrite_wf(app, address, renamed(app.record(address), alias));
        },
        ChangeView::Connected(connected) => {
            let value = linked(value_of(app.paired, address), connected);
            lemma_amend_same_keys(app.paired, address, value);
            lemma_same_keys(app.paired, amend(app.paired, address, value));
        },
        ChangeView::Paired(paired) => {
            lemma_transfer_wf(app, address, List::Unpaired);
            lemma_transfer_wf(app, address, List::Paired);
        },
        ChangeView::Other => {},
    }
}

/// Marking the selected record keeps the tables well formed.
pub proof fn lemma_activate_wf(app: AppView)
    requires
        app.wf(),
        app.has_selection(),
    ensures
        app.activate().wf(),
        same_keys(app.unpaired, app.activate().unpaired),
        same_keys(app.paired, app.activate().paired),
{
    lemma_same_keys(app.unpaired, app.activate().unpaired);
    lemma_same_keys(app.paired, app.activate().paired);
}

/// Replacing a record by one that is idle, or whose address has a spinner,
/// keeps every outstanding operation with a spinner.
pub proof fn lemma_amend_spinning(s: Entries, spinners: Set<u64>, key: u64, value: DeviceView)
    requires
        spinning(s, spinners),
        has_key(s, key) && value.loading is Some ==> spinners.contains(key),
    ensures
        spinning(amend(s, key, value), spinners),
{
    let t = amend(s, key, value);
    assert forall|i: int| 0 <= i < t.len() && (#[trigger] t[i]).1.loading is Some implies spinners.contains(
        t[i].0,
    ) by {
        if has_key(s, key) && i == index_of(s, key) {
        } else {
            assert(t[i] == s[i]);
        }
    }
}

/// Once the record of `key` is idle, no outstanding operation of the table
/// needs the spinner of `key`.
pub proof fn lemma_settle_spinning(s: Entries, spinners: Set<u64>, key: u64)
    requires
        distinct_keys(s),
        spinning(s, spinners),
    ensures
        spinning(amend(s, key, settled(value_of(s, key))), spinners.remove(key)),
{
    let t = amend(s, key, settled(value_of(s, key)));
    assert forall|i: int| 0 <= i < t.len() && (#[trigger] t[i]).1.loading is Some implies spinners.remove(
        key,
    ).contains(t[i].0) by {
        if has_key(s, key) {
            lemma_index_unique(s, i);
            assert(i != index_of(s, key));
            assert(t[i] == s[i]);
        } else {
            assert(t[i] == s[i]);
            assert(s[i].0 != key);
        }
    }
}

/// A table that does not hold `key` does not need the spinner of `key`.
pub proof fn lemma_absent_spinning(s: Entries, spinners: Set<u64>, key: u64)
    requires
        spinning(s, spinners),
        !has_key(s, key),
    ensures
        spinning(s, spinners.remove(key)),
{
    assert forall|i: int| 0 <= i < s.len() && (#[trigger] s[i]).1.loading is Some implies spinners.remove(
        key,
    ).contains(s[i].0) by {
        assert(s[i].0 != key);
    }
}

/// Removing a pair keeps every outstanding operation with a spinner.
pub proof fn lemma_without_spinning(s: Entries, spinners: Set<u64>, key: u64)
    requires
        spinning(s, spinners),
    ensures
        spinning(without(s, key), spinners),
{
    let t = without(s, key);
    if has_key(s, key) {
        let at = index_of(s, key);
        assert forall|i: int| 0 <= i < t.len() && (#[trigger] t[i]).1.loading is Some implies spinners.contains(
            t[i].0,
        ) by {
            assert(t[i] == s[if i < at { i } else { i + 1 }]);
        }
    }
}

/// Storing a record that is idle, or whose address has a spinner, keeps
/// every outstanding operation with a spinner.
pub proof fn lemma_put_spinning(s: Entries, spinners: Set<u64>, key: u64, value: DeviceView)
    requires
        spinning(s, spinners),
        value.loading is Some ==> spinners.contains(key),
    ensures
        spinning(put(s, key, value), spinners),
{
    let t = put(s, key, value);
    assert forall|i: int| 0 <= i < t.len() && (#[trigger] t[i]).1.loading is Some implies spinners.contains(
        t[i].0,
    ) by {
        if has_key(s, key) {
            if i != index_of(s, key) {
                assert(t[i] == s[i]);
            }
        } else if i < s.len() {
            assert(t[i] == s[i]);
        }
    }
}

/// Every transition of the coordinator keeps its state well formed.
pub proof fn lemma_step_wf(state: SchedulerView, event: EventView)
    requires
        state.wf(),
    ensures
        state.step(event).next.wf(),
{
    let app = state.app;
    let next = state.step(event).next;
    match event {
        EventView::Tick(address) => {
            let value = ticked(app.record(address));
            lemma_rewrite_wf(app, address, value);
            lemma_record_spinning(state, address);
            lemma_rewrite_spinning(state, address, value);
        },
        EventView::Completed(address) => {
            lemma_rewrite_wf(app, address, settled(app.record(address)));
            lemma_disjoint_keys(app.unpaired, app.paired);
            match app.home(address) {
                Some(List::Paired) => {
                    lemma_settle_spinning(app.paired, state.spinners, address);
                    lemma_absent_spinning(app.unpaired, state.spinners, address);
                },
                Some(List::Unpaired) => {
                    lemma_settle_spinning(app.unpaired, state.spinners, address);
                    lemma_absent_spinning(app.paired, state.spinners, address);
                },
                None => {},
            }
        },
        EventView::Failed(error) => {},
        EventView::Discovered(address) => {},
        EventView::Fetched { address, paired, connected, alias } => {
            lemma_intake_wf(app, address, paired, connected, alias);
            let value = fresh(alias, connected);
            lemma_rewrite_spinning(state, address, value);
            lemma_put_spinning(app.unpaired, state.spinners, address, value);
            lemma_put_spinning(app.paired, state.spinners, address, value);
        },
        EventView::Changed(address, change) => {
            lemma_change_wf(app, address, change);
            lemma_record_spinning(state, address);
            match change {
                ChangeView::Alias(alias) => {
                    lemma_rewrite_spinning(state, address, renamed(app.record(address), alias));
                },
                ChangeView::Connected(connected) => {
                    if has_key(app.paired, address) {
                        lemma_index_of(app.paired, address);
                    }
                    lemma_amend_spinning(
                        app.paired,
                        state.spinners,
                        address,
                        linked(value_of(app.paired, address), connected),
                    );
                },
                ChangeView::Paired(paired) => {
                    let from = if paired { List::Unpaired } else { List::Paired };
                    let to = if paired { List::Paired } else { List::Unpaired };
                    if has_key(app.list(from), address) {
                        lemma_index_of(app.list(from), address);
                        lemma_without_spinning(app.list(from), state.spinners, address);
                        lemma_put_spinning(
                            app.list(to),
                            state.spinners,
                            address,
                            value_of(app.list(from), address),
                        );
                    }
                },
                ChangeView::Other => {},
            }
        },
        EventView::AdapterReady => {},
        EventView::AdapterFailed => {},
        EventView::Key(key) => {
            let launches = app.error is None && binding(key) == Command::Activate && state.ready
                && app.has_selection() && app.selection().1.loading is None;
            if launches {
                // The started record stands where the selected one stood, and
                // its address has just been given a spinner.
                let address = app.selection().0;
                lemma_activate_wf(app);
                lemma_index_unique(app.active(), app.selected_row as int);
                lemma_amend_spinning(
                    app.active(),
                    state.spinners.insert(address),
                    address,
                    started(app.selection().1),
                );
            }
        },
        EventView::InputFailed => {},
    }
}

/// The record of a tracked address has a spinner while its operation is outstanding.
pub proof fn lemma_record_spinning(state: SchedulerView, address: u64)
    requires
        state.wf(),
    ensures
        state.app.home(address) is Some && state.app.record(address).loading is Some
            ==> state.spinners.contains(address),
{
    match state.app.home(address) {
        Some(list) => {
            lemma_index_of(state.app.list(list), address);
        },
        None => {},
    }
}

/// Replacing the record of an address, where it stands, by one that is idle
/// or whose address has a spinner keeps every outstanding operation with a
/// spinner.
pub proof fn lemma_rewrite_spinning(state: SchedulerView, address: u64, value: DeviceView)
    requires
        state.wf(),
        state.app.home(address) is Some && value.loading is Some ==> state.spinners.contains(
            address,
        ),
    ensures
        spinning(state.app.rewrite(address, value).unpaired, state.spinners),
        spinning(state.app.rewrite(address, value).paired, state.spinners),
{
    lemma_amend_spinning(state.app.unpaired, state.spinners, address, value);
    lemma_amend_spinning(state.app.paired, state.spinners, address, value);
}

} // verus!
