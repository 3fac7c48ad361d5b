//! The settings of a load test.
use vstd::prelude::*;
use crate::worker::RunLimits;

verus! {

/// The settings of a load test, as the operator gave them.
pub struct Cli {
    /// Per-request timeout in milliseconds.
    pub timeout: u64,
    pub server_urls: Vec<String>,
    /// The largest connection count of the ramp.
    pub concurrent_connections: u32,
    /// Requests per connection; zero for no bound.
    pub requests_per_connection: u32,
    /// Increment of the ramp; zero for a single run.
    pub connections_step: u32,
    pub request_file: String,
    /// Duration of each run in seconds; zero for no bound.
    pub test_duration: u64,
    pub output_filename: String,
    pub verbosity: u8,
    /// Take requests from a stream instead of the request file.
    pub pipe: bool,
}

impl Cli {
    /// The bounds of each worker's loop.
    pub fn run_limits(&self) -> (r: RunLimits)
        ensures
            r.requests_per_connection == self.requests_per_connection,
            r.duration_secs == self.test_duration,
    {
        RunLimits { requests_per_connection: self.requests_per_connection, duration_secs: self.test_duration }
    }
}

} // verus!
