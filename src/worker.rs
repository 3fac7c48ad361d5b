//! The stop rule of a connection worker.
use vstd::prelude::*;

verus! {

/// The bounds of one worker's loop; zero leaves a bound off.
#[derive(Clone, Copy)]
pub struct RunLimits {
    pub requests_per_connection: u32,
    pub duration_secs: u64,
}

/// A worker that has issued `issued` requests and run `elapsed_ms` is within
/// its bounds.
pub open spec fn within_limits(limits: RunLimits, issued: nat, elapsed_ms: nat) -> bool {
    &&& (limits.requests_per_connection == 0 || issued < limits.requests_per_connection)
    &&& (limits.duration_secs == 0 || elapsed_ms < limits.duration_secs * 1000)
}

/// One worker's progress.
pub struct Worker {
    limits: RunLimits,
    issued: u64,
}

impl Worker {
    pub closed spec fn limits_spec(&self) -> RunLimits {
        self.limits
    }

    pub closed spec fn issued_spec(&self) -> nat {
        self.issued as nat
    }

    /// A worker that has issued nothing yet.
    pub fn new(limits: RunLimits) -> (r: Worker)
        ensures
            r.limits_spec() == limits,
            r.issued_spec() == 0,
    {
        Worker { limits, issued: 0 }
    }

    /// The number of requests issued.
    pub fn issued(&self) -> (r: u64)
        ensures
            r == self.issued_spec(),
    {
        self.issued
    }

    /// Whether the worker issues another request: not after shutdown, and only
    /// within its bounds.
    pub fn should_dispatch(&self, shutdown: bool, elapsed_ms: u64) -> (r: bool)
        ensures
            r == (!shutdown && within_limits(self.limits_spec(), self.issued_spec(), elapsed_ms as nat)),
    {
        if shutdown {
            return false;
        }
        let by_count = self.limits.requests_per_connection == 0
            || self.issued < self.limits.requests_per_connection as u64;
        let by_time = self.limits.duration_secs == 0
            || (elapsed_ms as u128) < (self.limits.duration_secs as u128) * 1000;
        by_count && by_time
    }

    /// Counts one more issued request.
    pub fn note_dispatch(&mut self)
        requires
            old(self).issued_spec() < u64::MAX,
        ensures
            final(self).issued_spec() == old(self).issued_spec() + 1,
            final(self).limits_spec() == old(self).limits_spec(),
    {
        self.issued = self.issued + 1;
    }
}

/// With a request limit `n` and no time bound, a worker goes on exactly while
/// it has issued fewer than `n` requests, so it issues exactly `n`.
pub proof fn lemma_request_limit(limits: RunLimits, issued: nat, elapsed_ms: nat)
    requires
        limits.requests_per_connection > 0,
        limits.duration_secs == 0,
    ensures
        within_limits(limits, issued, elapsed_ms) <==> issued < limits.requests_per_connection,
{
}

} // verus!
