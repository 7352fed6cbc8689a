//! A topic-based publish/subscribe broker core: the registry of live
//! sessions, the selection of an event's recipients, and the per-connection
//! state machine that drives a session from attach to teardown.

pub mod laws;
pub mod pump;
pub mod registry;
pub mod session;
