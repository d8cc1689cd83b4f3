//! Field-selective structured logging of optimization progress.
//!
//! The library decides which key/value entries a progress record holds:
//! an ordered selection of [`StateData`] tags is walked against a snapshot of
//! the optimizer's state, each tag is rendered by its own rule, and the
//! auxiliary [`KV`] entries are appended. Delivering the records (terminal
//! or JSON file, through an asynchronous bounded queue) is left to the
//! embedding application.

pub mod entry;
pub mod kv;
pub mod laws;
pub mod logger;
pub mod snapshot;
pub mod state_data;

pub use entry::{Entry, LogValue};
pub use kv::KV;
pub use logger::{LogRecord, LogTarget, Overflow, SlogLogger};
pub use snapshot::{StateSnapshot, serialize_state};
pub use state_data::StateData;
