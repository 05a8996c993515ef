//! Client-side transaction coordination for a graph database that uses
//! optimistic multi-version concurrency control.
//!
//! A transaction is tagged with the start timestamp that the server assigns
//! with its first response, accumulates the conflict keys and predicates of
//! every operation, and is committed or aborted against that timestamp.

pub mod client;
pub mod context;
pub mod errors;
pub mod laws;
pub mod request;
pub mod txn;

pub use client::DgraphClient;
pub use txn::Txn;
