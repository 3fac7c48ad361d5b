//! The summary row of a run.
use vstd::prelude::*;
use crate::stats::Stats;

verus! {

/// Mean response time in milliseconds: the successes' total time divided by
/// all completed attempts, rounded down; zero when nothing completed.
pub open spec fn average_spec(total_response_time: nat, total_requests: nat) -> nat {
    if total_requests == 0 {
        0
    } else {
        total_response_time / total_requests
    }
}

/// Throughput in hundredths of a request per second, rounded down; zero when
/// no time elapsed.
pub open spec fn rate_spec(total_requests: nat, elapsed_ms: nat) -> nat {
    if elapsed_ms == 0 {
        0
    } else {
        total_requests * 100_000 / elapsed_ms
    }
}

pub fn average_response_time(total_response_time: u128, total_requests: u64) -> (r: u128)
    ensures
        r == average_spec(total_response_time as nat, total_requests as nat),
{
    if total_requests == 0 {
        0
    } else {
        total_response_time / total_requests as u128
    }
}

pub fn requests_per_second_centi(total_requests: u64, elapsed_ms: u64) -> (r: u128)
    ensures
        r == rate_spec(total_requests as nat, elapsed_ms as nat),
{
    if elapsed_ms == 0 {
        0
    } else {
        let scaled = total_requests as u128 * 100_000;
        scaled / elapsed_ms as u128
    }
}

/// One row of the results: a run's connection count, counters, averages and
/// elapsed wall-clock time.
pub struct RunResult {
    pub connections: u32,
    pub total_requests: u64,
    pub successful_requests: u64,
    pub failed_requests: u64,
    pub average_response_time: u128,
    pub requests_per_second_centi: u128,
    pub elapsed_ms: u64,
    pub timeout_requests: usize,
}

impl Stats {
    /// The row for a run of `connections` workers that took `elapsed_ms`.
    pub fn summarize(&self, connections: u32, elapsed_ms: u64) -> (r: RunResult)
        ensures
            r.connections == connections,
            r.total_requests == self.completed_requests,
            r.successful_requests == self.successful_requests,
            r.failed_requests == self.failed_requests,
            r.timeout_requests == self.timeout_requests,
            r.elapsed_ms == elapsed_ms,
            r.average_response_time == average_spec(
                self.total_response_time as nat,
                self.completed_requests as nat,
            ),
            r.requests_per_second_centi == rate_spec(self.completed_requests as nat, elapsed_ms as nat),
    {
        RunResult {
            connections,
            total_requests: self.completed_requests,
            successful_requests: self.successful_requests,
            failed_requests: self.failed_requests,
            average_response_time: average_response_time(self.total_response_time, self.completed_requests),
            requests_per_second_centi: requests_per_second_centi(self.completed_requests, elapsed_ms),
            elapsed_ms,
            timeout_requests: self.timeout_requests,
        }
    }
}

/// The column names of the results, in row order.
pub fn summary_header() -> (r: Vec<String>)
    ensures
        r@.len() == 8,
        r@[0]@ == "connections"@,
        r@[1]@ == "total_requests"@,
        r@[2]@ == "successful_requests"@,
        r@[3]@ == "failed_requests"@,
        r@[4]@ == "average_response_time"@,
        r@[5]@ == "average_requests_per_second"@,
        r@[6]@ == "elapsed_time"@,
        r@[7]@ == "timeout_requests"@,
{
    let mut r: Vec<String> = Vec::new();
    r.push(String::from_str("connections"));
    r.push(String::from_str("total_requests"));
    r.push(String::from_str("successful_requests"));
    r.push(String::from_str("failed_requests"));
    r.push(String::from_str("average_response_time"));
    r.push(String::from_str("average_requests_per_second"));
    r.push(String::from_str("elapsed_time"));
    r.push(String::from_str("timeout_requests"));
    r
}

} // verus!
