//! Event reconciliation core of a terminal Bluetooth pairing tool.
//!
//! The coordinator owns two insertion-ordered device tables (unpaired and
//! paired), a selection cursor, an error slot and the set of running
//! spinners. Every source the event loop waits on is an [`event::Event`];
//! [`scheduler::Scheduler::handle`] maps the current state and one event to
//! the next state and the [`event::Action`] the surrounding loop has to
//! perform.

pub mod app;
pub mod device;
pub mod event;
pub mod laws;
pub mod model;
pub mod preserve;
pub mod scheduler;
pub mod screen;
pub mod table;
