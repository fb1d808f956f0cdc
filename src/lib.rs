//! A group-chat bot core: per-chat feature switches, gated fan-out of one
//! event to a fixed set of handlers, and the audit record of each event.
pub mod model;
pub mod audit;
pub mod dispatch;
pub mod toggle;
pub mod registry;
pub mod worker;
