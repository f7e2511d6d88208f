//! The core of a workflow automation service: multi-step workflows are
//! defined, triggered, and executed step by step by a worker.
//!
//! The library decides; it performs no I/O. Storage, the event
//! transport, HTTP and timers stay with the caller: each pipeline is a
//! state machine whose transitions take what the outside world answered
//! and return the next state with the one thing to do next.
//!
//! - [`schemas`]: workflow definitions, steps, runs and step results.
//! - [`connector`]: the delay and webhook connectors and their registry.
//! - [`services`]: the execution engine and what holds of every
//!   execution.
//! - [`api`]: the trigger pipeline and the answers of the read endpoints.
//! - [`messaging`]: the trigger and completion events and the worker's
//!   handling of a trigger message.
//! - [`storage`]: storage errors and the page arithmetic of listings.
//! - [`config`]: settings.
//! - [`json`], [`string_map`], [`text`], [`clock`]: structured values,
//!   maps keyed by text, text helpers and the wall clock.

pub mod api;
pub mod clock;
pub mod config;
pub mod connector;
pub mod json;
pub mod messaging;
pub mod schemas;
pub mod services;
pub mod storage;
pub mod string_map;
pub mod text;
