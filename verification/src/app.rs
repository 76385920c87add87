//! The state that is drawn, and the operations on it.

use crate::device::{Device, Error, List};
use crate::event::{Change, Fatal};
use crate::model::{linked, next_frame, renamed, settled, started, ticked, AppView};
use crate::preserve::{
    lemma_activate_wf, lemma_change_wf, lemma_intake_wf, lemma_rewrite_wf, lemma_transfer_wf,
};
use crate::table::{
    amend, entries, has_key, table_clear, table_get, table_get_index, table_get_index_mut, table_get_mut,
    table_insert, table_len, table_new, table_shift_remove, value_of,
};
use indexmap::IndexMap;
use vstd::prelude::*;

verus! {

/// The counter that follows `n` in the four-frame animation.
pub fn advance(n: usize) -> (next: usize)
    ensures
        next == next_frame(n),
{
    (n % 4 + 1) % 4
}

/// Advances the counter of the record under `address`, if the table holds
/// the address and an operation is outstanding.
fn tick_in(table: &mut IndexMap<u64, Device>, address: u64) -> (found: bool)
    ensures
        found == has_key(entries(*old(table)), address),
        entries(*final(table)) == amend(
            entries(*old(table)),
            address,
            ticked(value_of(entries(*old(table)), address)),
        ),
{
    match table_get_mut(table, address) {
        Some(device) => {
            match device.loading {
                Some(n) => {
                    device.loading = Some(advance(n));
                },
                None => {},
            }
            true
        },
        None => false,
    }
}

/// Marks the record under `address` as idle, if the table holds the address.
fn settle_in(table: &mut IndexMap<u64, Device>, address: u64) -> (found: bool)
    ensures
        found == has_key(entries(*old(table)), address),
        entries(*final(table)) == amend(
            entries(*old(table)),
            address,
            settled(value_of(entries(*old(table)), address)),
        ),
{
    match table_get_mut(table, address) {
        Some(device) => {
            device.loading = None;
            true
        },
        None => false,
    }
}

/// Gives the record under `address` a new connected flag, if the table holds the address.
fn link_in(table: &mut IndexMap<u64, Device>, address: u64, connected: bool)
    ensures
        entries(*final(table)) == amend(
            entries(*old(table)),
            address,
            linked(value_of(entries(*old(table)), address), connected),
        ),
{
    match table_get_mut(table, address) {
        Some(device) => {
            device.connected = connected;
        },
        None => {},
    }
}

/// Marks the record at `row` as having an operation outstanding and returns
/// its address and alias; `Ok(None)` where one is outstanding already.
fn start_at(table: &mut IndexMap<u64, Device>, row: usize) -> (started_device: Result<
    Option<(u64, String)>,
    Fatal,
>)
    ensures
        match started_device {
            Ok(Some((address, alias))) => {
                &&& row < entries(*old(table)).len()
                &&& entries(*old(table))[row as int].1.loading is None
                &&& address == entries(*old(table))[row as int].0
                &&& alias@ == entries(*old(table))[row as int].1.alias
                &&& entries(*final(table)) == entries(*old(table)).update(
                    row as int,
                    (address, started(entries(*old(table))[row as int].1)),
                )
            },
            Ok(None) => {
                &&& row < entries(*old(table)).len()
                &&& entries(*old(table))[row as int].1.loading is Some
                &&& entries(*final(table)) == entries(*old(table))
            },
            Err(fatal) => {
                &&& row >= entries(*old(table)).len()
                &&& fatal == Fatal::MissingSelection
                &&& entries(*final(table)) == entries(*old(table))
            },
        },
{
    match table_get_index_mut(table, row) {
        Some((address, device)) => {
            if device.loading.is_some() {
                Ok(None)
            } else {
                device.loading = Some(0);
                let alias = device.alias.clone();
                Ok(Some((address, alias)))
            }
        },
        None => Err(Fatal::MissingSelection),
    }
}

/// What is drawn: the two device tables, the cursor and the error slot.
pub struct App {
    selected_list: List,
    selected_row: usize,
    unpaired: IndexMap<u64, Device>,
    paired: IndexMap<u64, Device>,
    error: Option<Error>,
}

impl View for App {
    type V = AppView;

    closed spec fn view(&self) -> AppView {
        AppView {
            selected_list: self.selected_list,
            selected_row: self.selected_row as nat,
            unpaired: entries(self.unpaired),
            paired: entries(self.paired),
            error: match self.error {
                Some(error) => Some(error@),
                None => None,
            },
        }
    }
}

impl Default for App {
    fn default() -> (app: App)
        ensures
            app@ == AppView::initial(),
            app.wf(),
    {
        App::new()
    }
}

impl App {
    /// No address is in a table twice, and none is in both tables.
    pub open spec fn wf(&self) -> bool {
        self@.wf()
    }

    /// The state before any event.
    pub fn new() -> (app: App)
        ensures
            app@ == AppView::initial(),
            app.wf(),
    {
        App {
            selected_list: List::Unpaired,
            selected_row: 0,
            unpaired: table_new(),
            paired: table_new(),
            error: None,
        }
    }

    /// The list that the cursor is in.
    pub fn selected_list(&self) -> (list: List)
        ensures
            list == self@.selected_list,
    {
        self.selected_list
    }

    /// The row that the cursor is on.
    pub fn selected_row(&self) -> (row: usize)
        ensures
            row == self@.selected_row,
    {
        self.selected_row
    }

    /// The error that is shown, if one is.
    pub fn error(&self) -> (shown: Option<&Error>)
        ensures
            match shown {
                Some(error) => self@.error == Some(error@),
                None => self@.error is None,
            },
    {
        self.error.as_ref()
    }

    /// The number of devices in a list.
    pub fn len(&self, list: List) -> (n: usize)
        ensures
            n == self@.list(list).len(),
    {
        match list {
            List::Unpaired => table_len(&self.unpaired),
            List::Paired => table_len(&self.paired),
        }
    }

    /// The address and record at a row of a list, if the list has that row.
    pub fn entry(&self, list: List, row: usize) -> (found: Option<(u64, &Device)>)
        ensures
            match found {
                Some((address, device)) => row < self@.list(list).len() && (address, device@)
                    == self@.list(list)[row as int],
                None => row >= self@.list(list).len(),
            },
    {
        match list {
            List::Unpaired => table_get_index(&self.unpaired, row),
            List::Paired => table_get_index(&self.paired, row),
        }
    }

    /// The list that holds an address, and its record there.
    pub fn find(&self, address: u64) -> (found: Option<(List, &Device)>)
        ensures
            match found {
                Some((list, device)) => self@.home(address) == Some(list) && device@
                    == self@.record(address),
                None => self@.home(address) is None,
            },
    {
        match table_get(&self.paired, address) {
            Some(device) => Some((List::Paired, device)),
            None => match table_get(&self.unpaired, address) {
                Some(device) => Some((List::Unpaired, device)),
                None => None,
            },
        }
    }

    /// A spinner tick for a device: an outstanding counter moves on to the
    /// next frame. Nothing changes for an idle or unknown device.
    pub fn tick(&mut self, address: u64)
        requires
            old(self).wf(),
        ensures
            final(self)@ == old(self)@.tick(address),
            final(self).wf(),
    {
        proof {
            lemma_rewrite_wf(self@, address, ticked(self@.record(address)));
        }
        if !tick_in(&mut self.paired, address) {
            tick_in(&mut self.unpaired, address);
        }
    }

    /// The end of the operation on a device: its record becomes idle. Returns
    /// whether a list holds the device.
    pub fn complete(&mut self, address: u64) -> (found: bool)
        requires
            old(self).wf(),
        ensures
            final(self)@ == old(self)@.complete(address),
            found == (old(self)@.home(address) is Some),
            final(self).wf(),
    {
        proof {
            lemma_rewrite_wf(self@, address, settled(self@.record(address)));
        }
        if settle_in(&mut self.paired, address) {
            true
        } else {
            settle_in(&mut self.unpaired, address)
        }
    }

    /// Shows an error; one that was shown before is replaced.
    pub fn set_error(&mut self, error: Error)
        ensures
            final(self)@ == (AppView { error: Some(error@), ..old(self)@ }),
    {
        self.error = Some(error);
    }

    /// Removes the error that is shown, if one is.
    pub fn dismiss(&mut self)
        ensures
            final(self)@ == (AppView { error: None, ..old(self)@ }),
    {
        self.error = None;
    }

    /// Intake of a discovered device whose state was read. A device that a
    /// list holds already has its record overwritten where it stands; a new
    /// one is added last to the list that `paired` names. Either way no
    /// operation is outstanding on the new record.
    pub fn intake(&mut self, address: u64, paired: bool, connected: bool, alias: String)
        requires
            old(self).wf(),
        ensures
            final(self)@ == old(self)@.intake(address, paired, connected, alias@),
            final(self).wf(),
    {
        proof {
            lemma_intake_wf(self@, address, paired, connected, alias@);
        }
        let in_paired = table_get(&self.paired, address).is_some();
        let in_unpaired = table_get(&self.unpaired, address).is_some();
        let device = Device { alias, connected, loading: None };
        if in_paired || (!in_unpaired && paired) {
            table_insert(&mut self.paired, address, device);
        } else {
            table_insert(&mut self.unpaired, address, device);
        }
    }

    /// Moves the record of a device from `from` to the end of the other list
    /// with its fields kept. Nothing changes where `from` does not hold the
    /// device.
    fn transfer(&mut self, address: u64, from: List)
        requires
            old(self).wf(),
        ensures
            final(self)@ == old(self)@.transfer(address, from),
            final(self).wf(),
    {
        proof {
            lemma_transfer_wf(self@, address, from);
        }
        match from {
            List::Unpaired => {
                match table_shift_remove(&mut self.unpaired, address) {
                    Some(device) => {
                        table_insert(&mut self.paired, address, device);
                    },
                    None => {},
                }
            },
            List::Paired => {
                match table_shift_remove(&mut self.paired, address) {
                    Some(device) => {
                        table_insert(&mut self.unpaired, address, device);
                    },
                    None => {},
                }
            },
        }
    }

    /// Gives the record of a device a new alias in whichever list holds it.
    fn rename(&mut self, address: u64, alias: String)
        requires
            old(self).wf(),
        ensures
            final(self)@ == old(self)@.rewrite(address, renamed(old(self)@.record(address), alias@)),
            final(self).wf(),
    {
        proof {
            lemma_rewrite_wf(self@, address, renamed(self@.record(address), alias@));
        }
        match table_get_mut(&mut self.paired, address) {
            Some(device) => {
                device.alias = alias;
            },
            None => {
                match table_get_mut(&mut self.unpaired, address) {
                    Some(device) => {
                        device.alias = alias;
                    },
                    None => {},
                }
            },
        }
    }

    /// A property change of a device. A new alias is stored in whichever list
    /// holds the device; a new connected flag only in the paired list; a new
    /// paired state moves the record to the other list. A change that finds
    /// no record to apply to is dropped.
    pub fn change(&mut self, address: u64, change: Change)
        requires
            old(self).wf(),
        ensures
            final(self)@ == old(self)@.change(address, change@),
            final(self).wf(),
    {
        proof {
            lemma_change_wf(self@, address, change@);
        }
        match change {
            Change::Alias(alias) => {
                self.rename(address, alias);
            },
            Change::Connected(connected) => {
                link_in(&mut self.paired, address, connected);
            },
            Change::Paired(paired) => {
                if paired {
                    self.transfer(address, List::Unpaired);
                } else {
                    self.transfer(address, List::Paired);
                }
            },
            Change::Other => {},
        }
    }

    /// Moves the cursor one row down, unless it is on or beyond the last row.
    pub fn down(&mut self)
        ensures
            final(self)@ == old(self)@.down(),
    {
        let n = self.len(self.selected_list);
        if self.selected_row < n && self.selected_row + 1 < n {
            self.selected_row = self.selected_row + 1;
        }
    }

    /// Moves the cursor one row up, unless it is on the first row.
    pub fn up(&mut self)
        ensures
            final(self)@ == old(self)@.up(),
    {
        if self.selected_row > 0 {
            self.selected_row = self.selected_row - 1;
        }
    }

    /// Puts the cursor in a list; the row stays.
    pub fn switch(&mut self, list: List)
        ensures
            final(self)@ == old(self)@.switch(list),
    {
        self.selected_list = list;
    }

    /// Empties both tables.
    pub fn clear(&mut self)
        ensures
            final(self)@ == old(self)@.cleared(),
            final(self).wf(),
    {
        table_clear(&mut self.unpaired);
        table_clear(&mut self.paired);
    }

    /// Marks the selected device as having an operation outstanding and
    /// returns its address and alias. Returns `Ok(None)` and changes nothing
    /// where an operation is outstanding already, and fails where the cursor
    /// is on no row of the active list.
    pub fn activate(&mut self) -> (selected: Result<Option<(u64, String)>, Fatal>)
        requires
            old(self).wf(),
        ensures
            final(self).wf(),
            match selected {
                Ok(Some((address, alias))) => {
                    &&& old(self)@.has_selection()
                    &&& old(self)@.selection().1.loading is None
                    &&& address == old(self)@.selection().0
                    &&& alias@ == old(self)@.selection().1.alias
                    &&& final(self)@ == old(self)@.activate()
                },
                Ok(None) => {
                    &&& old(self)@.has_selection()
                    &&& old(self)@.selection().1.loading is Some
                    &&& final(self)@ == old(self)@
                },
                Err(fatal) => {
                    &&& !old(self)@.has_selection()
                    &&& fatal == Fatal::MissingSelection
                    &&& final(self)@ == old(self)@
                },
            },
    {
        proof {
            if self@.has_selection() {
                lemma_activate_wf(self@);
            }
        }
        match self.selected_list {
            List::Unpaired => start_at(&mut self.unpaired, self.selected_row),
            List::Paired => start_at(&mut self.paired, self.selected_row),
        }
    }
}

} // verus!
