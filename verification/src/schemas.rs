//! The data model: workflow definitions, steps, runs and step results.

pub mod common;
pub mod run;
pub mod workflow;
