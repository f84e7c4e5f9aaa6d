//! Subscription client core for a publish/subscribe notification service.
//!
//! The library holds the verified logic of the listener: the wire-event and
//! connection-state data model, the resume-cursor rule, the exponential
//! backoff policy of the supervised reconnect loop, and the decisions of the
//! command loop (restart, shutdown, state inspection). The surrounding
//! runtime — the HTTP transport, the event and command channels, the task
//! that runs the loops — is ordinary asynchronous code that drives these
//! functions and performs the actions they return.

pub mod actor;
pub mod events;
pub mod retry;
pub mod wire;
