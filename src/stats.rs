//! Per-run statistics: counters, response time and the error tally.
use vstd::prelude::*;
use crate::tally::{ErrorTally, bump};

verus! {

/// What one finished attempt came to.
pub enum Outcome {
    /// A response that counts as a success, after `elapsed_ms` milliseconds.
    Success { elapsed_ms: u64 },
    /// The per-request deadline passed before the transport answered.
    Timeout,
    /// Any other failure, with its description for the tally.
    Failure { description: String },
}

/// The description under which timeouts are tallied.
pub open spec fn timeout_text() -> Seq<char> {
    "Request timed out"@
}

/// The description that an outcome adds to the tally, if any.
pub open spec fn outcome_description(o: Outcome) -> Option<Seq<char>> {
    match o {
        Outcome::Success { .. } => None,
        Outcome::Timeout => Some(timeout_text()),
        Outcome::Failure { description } => Some(description@),
    }
}

/// The counters of a run, as unbounded numbers.
pub struct RunCounts {
    pub completed: nat,
    pub successful: nat,
    pub failed: nat,
    pub timeouts: nat,
    pub response_time: nat,
}

pub open spec fn zero_counts() -> RunCounts {
    RunCounts { completed: 0, successful: 0, failed: 0, timeouts: 0, response_time: 0 }
}

/// The counters after one more outcome.
pub open spec fn apply_outcome(c: RunCounts, o: Outcome) -> RunCounts {
    match o {
        Outcome::Success { elapsed_ms } => RunCounts {
            completed: c.completed + 1,
            successful: c.successful + 1,
            response_time: c.response_time + elapsed_ms as nat,
            ..c
        },
        Outcome::Timeout => RunCounts {
            completed: c.completed + 1,
            failed: c.failed + 1,
            timeouts: c.timeouts + 1,
            ..c
        },
        Outcome::Failure { .. } => RunCounts {
            completed: c.completed + 1,
            failed: c.failed + 1,
            ..c
        },
    }
}

/// The counters of a run whose attempts came to `os`, in that order.
pub open spec fn counts_of(os: Seq<Outcome>) -> RunCounts
    decreases os.len(),
{
    if os.len() == 0 {
        zero_counts()
    } else {
        apply_outcome(counts_of(os.drop_last()), os.last())
    }
}

/// Every run splits its completed attempts into successes and failures, and
/// its timeouts are among its failures.
pub proof fn lemma_counts_balance(os: Seq<Outcome>)
    ensures
        counts_of(os).completed == counts_of(os).successful + counts_of(os).failed,
        counts_of(os).timeouts <= counts_of(os).failed,
    decreases os.len(),
{
    if os.len() > 0 {
        lemma_counts_balance(os.drop_last());
    }
}

/// A run in which every attempt times out has no success, and its timeouts,
/// its failures and its completed attempts are all the attempts.
pub proof fn lemma_all_timeouts(os: Seq<Outcome>)
    requires
        forall|i: int| 0 <= i < os.len() ==> os[i] is Timeout,
    ensures
        counts_of(os).successful == 0,
        counts_of(os).timeouts == os.len(),
        counts_of(os).failed == os.len(),
        counts_of(os).completed == os.len(),
    decreases os.len(),
{
    if os.len() > 0 {
        lemma_all_timeouts(os.drop_last());
    }
}

/// A run in which every attempt succeeds has every attempt counted as a
/// success and none as a failure.
pub proof fn lemma_all_successes(os: Seq<Outcome>)
    requires
        forall|i: int| 0 <= i < os.len() ==> os[i] is Success,
    ensures
        counts_of(os).successful == os.len(),
        counts_of(os).completed == os.len(),
        counts_of(os).failed == 0,
        counts_of(os).timeouts == 0,
    decreases os.len(),
{
    if os.len() > 0 {
        lemma_all_successes(os.drop_last());
    }
}

/// The aggregate of one run, shared by the workers of that run.
pub struct Stats {
    pub completed_requests: u64,
    pub successful_requests: u64,
    pub failed_requests: u64,
    pub total_response_time: u128,
    pub timeout_requests: usize,
    pub error_counts: ErrorTally,
}

impl Stats {
    /// The counters, as numbers.
    pub open spec fn counts(&self) -> RunCounts {
        RunCounts {
            completed: self.completed_requests as nat,
            successful: self.successful_requests as nat,
            failed: self.failed_requests as nat,
            timeouts: self.timeout_requests as nat,
            response_time: self.total_response_time as nat,
        }
    }

    /// Completed attempts are successes plus failures, timeouts are among the
    /// failures, and no description was tallied more often than there were failures.
    pub open spec fn wf(&self) -> bool {
        &&& self.completed_requests == self.successful_requests + self.failed_requests
        &&& self.timeout_requests <= self.failed_requests
        &&& self.error_counts.wf()
        &&& forall|k: Seq<char>| #[trigger] self.error_counts@.contains_key(k)
            ==> self.error_counts@[k] <= self.failed_requests
    }

    /// Recording `o` keeps every counter within its type.
    pub open spec fn can_record(&self, o: Outcome) -> bool {
        &&& self.completed_requests < u64::MAX
        &&& self.timeout_requests < usize::MAX
        &&& match o {
            Outcome::Success { elapsed_ms } => self.total_response_time + elapsed_ms <= u128::MAX,
            _ => true,
        }
    }

    /// Fresh statistics for a run: all counters zero, no error tallied.
    pub fn new() -> (r: Stats)
        ensures
            r.wf(),
            r.counts() == zero_counts(),
            r.error_counts@ == Map::<Seq<char>, nat>::empty(),
    {
        Stats {
            completed_requests: 0,
            successful_requests: 0,
            failed_requests: 0,
            total_response_time: 0,
            timeout_requests: 0,
            error_counts: ErrorTally::new(),
        }
    }

    /// Whether `o` can be recorded without a counter leaving its type.
    pub fn has_room_for(&self, o: &Outcome) -> (r: bool)
        ensures
            r == self.can_record(*o),
    {
        if self.completed_requests == u64::MAX || self.timeout_requests == usize::MAX {
            return false;
        }
        match o {
            Outcome::Success { elapsed_ms } => self.total_response_time <= u128::MAX - *elapsed_ms as u128,
            _ => true,
        }
    }

    /// Records one finished attempt: the completed count always grows by one; a
    /// success adds its time; a failure is tallied under its description, and a
    /// timeout counts as a failure too.
    pub fn record(&mut self, o: &Outcome)
        requires
            old(self).wf(),
            old(self).can_record(*o),
        ensures
            final(self).wf(),
            final(self).counts() == apply_outcome(old(self).counts(), *o),
            final(self).error_counts@ == match outcome_description(*o) {
                None => old(self).error_counts@,
                Some(d) => bump(old(self).error_counts@, d),
            },
    {
        match o {
            Outcome::Success { elapsed_ms } => {
                self.completed_requests = self.completed_requests + 1;
                self.successful_requests = self.successful_requests + 1;
                self.total_response_time = self.total_response_time + *elapsed_ms as u128;
            },
            Outcome::Timeout => {
                let d = String::from_str("Request timed out");
                proof {
                    reveal_strlit("Request timed out");
                }
                self.tally_failure(&d);
                self.timeout_requests = self.timeout_requests + 1;
            },
            Outcome::Failure { description } => {
                self.tally_failure(description);
            },
        }
    }

    fn tally_failure(&mut self, d: &String)
        requires
            old(self).wf(),
            old(self).completed_requests < u64::MAX,
        ensures
            final(self).completed_requests == old(self).completed_requests + 1,
            final(self).failed_requests == old(self).failed_requests + 1,
            final(self).successful_requests == old(self).successful_requests,
            final(self).timeout_requests == old(self).timeout_requests,
            final(self).total_response_time == old(self).total_response_time,
            final(self).error_counts.wf(),
            final(self).error_counts@ == bump(old(self).error_counts@, d@),
            forall|k: Seq<char>| #[trigger] final(self).error_counts@.contains_key(k)
                ==> final(self).error_counts@[k] <= final(self).failed_requests,
    {
        self.error_counts.add(d);
        self.completed_requests = self.completed_requests + 1;
        self.failed_requests = self.failed_requests + 1;
    }
}

} // verus!
