//! The execution engine.

pub mod guarantees;
pub mod workflow;
