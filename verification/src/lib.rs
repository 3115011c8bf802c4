//! Supervision of a set of child processes, each under a key, with waits that
//! miss no completion and no termination signal.
//!
//! The library holds every decision and no call into the operating system: a
//! [`ProcessSet`] hands out the command to start or the handle to examine and
//! takes it back with the outcome; a [`SignalHandler`] reads the batches of
//! signals that the caller received.

pub mod errors;
pub mod keyed;
pub mod laws;
pub mod model;
pub mod processset;
pub mod signal;

pub use errors::Error;
pub use keyed::take_one_from_hashmap;
pub use model::Drain;
pub use processset::{ProcessSet, WaitAnyResult, WaitStep};
pub use signal::{SignalHandler, Wake};
