//! Connectors: the unit of work behind each kind of step. A connector says
//! what it needs from the outside world for a step and turns the reply
//! into the step's output; it performs nothing itself.

pub mod base;
pub mod delay;
pub mod factory;
pub mod webhook;
