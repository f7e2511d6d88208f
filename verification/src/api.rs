//! The decisions behind the HTTP endpoints: what to load, store, publish
//! and answer. Routing and the server itself are the caller's.

pub mod reply;
pub mod v1;
