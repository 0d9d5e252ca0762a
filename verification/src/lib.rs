//! Event decoding and state synchronisation for a tokenized-vault indexer.
//!
//! The crate turns the two notification feeds of a chain client (new blocks,
//! new logs) into typed vault events and consistent state snapshots. It holds
//! the decisions only: connecting, subscribing, querying and writing are done
//! by the caller, which hands plain values in and takes plain values back.

pub mod primitives;
pub mod hashing;
pub mod registry;
pub mod decoder;
pub mod reader;
pub mod merger;
pub mod store;
pub mod engine;
pub mod guarantees;
