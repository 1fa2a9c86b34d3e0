//! A synchronous bridge over an asynchronous record-ingestion client: an
//! acknowledgment registry, a reentrancy-guarded headers adapter, a cache of
//! interned header names, and the marshalling of results for foreign callers.
pub mod acks;
pub mod client;
pub mod config;
pub mod headers;
pub mod intern;
pub mod outcome;
