//! A minimal replicated key-value service ("hash delivery network").
//!
//! Each node holds a mapping from string keys to content hashes, answers
//! client reads and writes, and propagates writes to sibling nodes so the
//! replicas converge.  This crate holds the verified core: the storage
//! abstraction, the peer registry, the conflict-resolution rule and the
//! request dispatcher.  The embedding program supplies the sockets, the
//! JSON wire codec and the durable file writes.

pub mod basic;
pub mod config;
pub mod json;
pub mod laws;
pub mod memory;
pub mod protocol;
pub mod server;
pub mod store_map;
