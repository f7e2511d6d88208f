//! The events that tie the trigger side to the worker side.

pub mod events;
pub mod worker;
