//! Startup sequencing for a desktop application: which capability plugins are
//! attached and in what order, when the one-time setup hook runs, and how
//! each failure ends the process.
//!
//! The sequencer is a state machine: the host asks it for the next action,
//! performs it, and reports back whether it completed or failed.

pub mod laws;
pub mod model;
pub mod sequencer;

pub use model::{Action, Event, Failure, Outcome, Phase, Plugin, Stage};
pub use sequencer::{replay, store_file, Sequencer};
