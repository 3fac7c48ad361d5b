//! Dispatch-and-aggregation engine of a JSON-RPC load generator.
//!
//! The library holds the decisions of the load test: the sequence of ramp
//! steps, the per-run statistics and their invariants, the classification of
//! transport outcomes, and the stop rules of connection workers and of the
//! request stream. Network, process signals and files stay with the caller.
pub mod ramp;
pub mod tally;
pub mod stats;
pub mod summary;
pub mod request;
pub mod classify;
pub mod stream;
pub mod worker;
pub mod endpoints;
pub mod config;
