//! Lifecycle of a single outbound WebSocket session.
//!
//! The crate holds the decisions of a session manager: which connection
//! attempt is authoritative, what a worker must do after each event on its
//! socket, and what the operator-visible event log records. Sockets and
//! threads are left to the caller, which performs the actions that the
//! manager and the workers hand back and reports each outcome as an event.

pub mod log;
pub mod url;
pub mod identity;
pub mod message;
pub mod manager;
pub mod worker;
pub mod peer;
pub mod protocol;
