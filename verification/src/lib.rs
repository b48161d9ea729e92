//! Ingestion core of an audit-event service.
//!
//! The crate reads typed JSON events from a partitioned stream, dispatches
//! them to handlers by event type, tracks the next read position of every
//! partition it reads and turns buffered events into chunked storage writes.
//! Every function is verified against the contract in its signature; the
//! calls into `serde_json`, `dashmap`, `chrono` and `crossbeam` are the only
//! places where a contract is taken on trust, and each says so.

pub mod api;
pub mod db;
pub mod json;
pub mod misc;
pub mod messaging;
pub mod service;
