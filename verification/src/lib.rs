//! Core of an EventSub ingestion service: the socket session state machine,
//! the application credential that authorizes it, the conduit/shard
//! bookkeeping that survives reconnects, and the in-process publish/subscribe
//! bus that fans decoded events out to consumers.

pub mod bus;
pub mod coordinator;
pub mod models;
pub mod orchestrator;
pub mod session;
pub mod token;
pub mod webauth;
pub mod wire;
