//! Control plane for a per-application audio mixer.
//!
//! The crate turns the raw answers of an audio server into a typed snapshot
//! of its sinks and streams, keeps the latest snapshot, builds the commands
//! that change the server, and decides when a refresh cycle runs. It performs
//! no I/O itself: the caller carries each query and command to the server and
//! hands the answer back.

pub mod command;
pub mod json;
pub mod model;
pub mod parser;
pub mod scheduler;
pub mod state;
pub mod text;
