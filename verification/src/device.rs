//! Device records, the two lists and the error slot's content.
//!
//! A device is identified by its address, held as a `u64`: the six address
//! bytes, most significant first.

use vstd::prelude::*;

verus! {

/// One of the two device lists.
#[derive(Clone, Copy, Debug, PartialEq, Eq, Structural)]
pub enum List {
    Unpaired,
    Paired,
}

impl Default for List {
    fn default() -> (list: List)
        ensures
            list == List::Unpaired,
    {
        List::Unpaired
    }
}

/// What is known of one remote device.
#[derive(Clone, Debug)]
pub struct Device {
    /// Name shown for the device.
    pub alias: String,
    /// Whether a session with the device is open.
    pub connected: bool,
    /// `Some(n)` while a pair or connect attempt is outstanding; `n` picks the
    /// animation frame.
    pub loading: Option<usize>,
}

/// A device record as contracts see it.
pub ghost struct DeviceView {
    pub alias: Seq<char>,
    pub connected: bool,
    pub loading: Option<usize>,
}

impl View for Device {
    type V = DeviceView;

    open spec fn view(&self) -> DeviceView {
        DeviceView { alias: self.alias@, connected: self.connected, loading: self.loading }
    }
}

/// A failure shown to the user: what went wrong, and during what.
#[derive(Clone, Debug)]
pub struct Error {
    pub message: String,
    pub process: String,
}

/// An error as contracts see it.
pub ghost struct ErrorView {
    pub message: Seq<char>,
    pub process: Seq<char>,
}

impl View for Error {
    type V = ErrorView;

    open spec fn view(&self) -> ErrorView {
        ErrorView { message: self.message@, process: self.process@ }
    }
}

} // verus!
