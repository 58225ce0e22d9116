//! File-driven ingestion into an embedded analytical store, and the columnar
//! responses served from it.
//!
//! The crate holds the decisions of the pipeline: which statements load a
//! dataset, what a watcher does on each filesystem notification, how an
//! ingestion attempt ends, and which HTTP reply answers a request. The calls
//! that touch the store, the filesystem or the network are made by the caller,
//! which hands their results back as plain values.

pub mod config;
pub mod db;
pub mod ingestion;
pub mod server;
pub mod text;
