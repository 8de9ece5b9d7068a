//! The orchestrator and the two channels it owns.

pub mod bus;
pub mod engine;
pub mod orders;
pub mod state;
