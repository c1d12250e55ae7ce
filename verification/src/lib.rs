//! Verified core of a Couchbase Lite plugin: how collection paths are read,
//! how a replicator is configured, which database commands may run in which
//! session state, and the small codecs that the commands lean on.

pub mod blobs;
pub mod codec;
pub mod collection;
pub mod database;
pub mod documents;
pub mod events;
pub mod peer;
pub mod prediction;
pub mod query;
pub mod replication;
pub mod session;
pub mod text;
