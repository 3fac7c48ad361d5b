//! The ramp: the ordered connection counts that successive runs use.
use vstd::prelude::*;
use crate::summary::RunResult;

verus! {

/// Number of steps in the ramp towards `max` with increment `step`.
pub open spec fn ramp_len(max: u32, step: u32) -> nat {
    if step == 0 {
        1
    } else if max == 0 {
        0
    } else {
        ((max - 1) as nat / step as nat + 1) as nat
    }
}

/// The ramp: `[max]` when `step` is zero, otherwise `1, 1 + step, 1 + 2 * step, ...`
/// up to the last value that does not exceed `max`.
pub open spec fn ramp_spec(max: u32, step: u32) -> Seq<u32> {
    if step == 0 {
        seq![max]
    } else {
        Seq::new(ramp_len(max, step), |k: int| (1 + k * step) as u32)
    }
}

proof fn lemma_ramp_count(max: int, step: int, len: int)
    requires
        step > 0,
        max >= 1,
        len >= 1,
        1 + (len - 1) * step <= max,
        max < 1 + len * step,
    ensures
        len == (max - 1) / step + 1,
{
    let q = (max - 1) / step;
    let r = (max - 1) % step;
    vstd::arithmetic::div_mod::lemma_fundamental_div_mod(max - 1, step);
    assert(0 <= r < step);
    assert(q * step + r == max - 1);
    assert((len - 1) * step <= q * step + r);
    assert(q * step + r < len * step);
    if q > len - 1 {
        assert(q * step >= len * step) by (nonlinear_arith)
            requires q >= len, step > 0;
    }
    if q < len - 1 {
        assert((q + 1) * step <= (len - 1) * step) by (nonlinear_arith)
            requires q + 1 <= len - 1, step > 0;
        assert((q + 1) * step == q * step + step) by (nonlinear_arith);
    }
}

/// The connection counts of the successive runs, in the order they execute.
pub fn ramp_sequence(max: u32, step: u32) -> (r: Vec<u32>)
    ensures
        r@ == ramp_spec(max, step),
{
    let mut out: Vec<u32> = Vec::new();
    if step == 0 {
        out.push(max);
        assert(out@ =~= seq![max]);
        return out;
    }
    let mut cur: u64 = 1;
    assert(out.len() * step == 0) by (nonlinear_arith)
        requires out.len() == 0;
    while cur <= max as u64
        invariant
            step > 0,
            cur == 1 + out.len() * step,
            cur <= max as u64 + step as u64,
            out.len() == 0 || 1 + (out.len() - 1) * step <= max,
            forall|i: int| 0 <= i < out.len() ==> out[i] == 1 + i * step,
        decreases max as u64 + step as u64 - cur,
    {
        proof {
            assert(1 + (out.len() + 1 - 1) * step <= max);
            assert(1 + (out.len() + 1) * step == 1 + out.len() * step + step) by (nonlinear_arith);
        }
        out.push(cur as u32);
        cur = cur + step as u64;
    }
    proof {
        if max == 0 {
            assert(out.len() == 0);
        } else {
            assert(out.len() >= 1);
            lemma_ramp_count(max as int, step as int, out.len() as int);
        }
        assert(out@ =~= ramp_spec(max, step));
    }
    out
}


/// The sequence of runs: which connection count comes next, and the rows of
/// the runs done so far, in ramp order.
pub struct RampController {
    steps: Vec<u32>,
    results: Vec<RunResult>,
    halted: bool,
}

impl RampController {
    pub closed spec fn steps_spec(&self) -> Seq<u32> {
        self.steps@
    }

    pub closed spec fn results_spec(&self) -> Seq<RunResult> {
        self.results@
    }

    pub closed spec fn halted_spec(&self) -> bool {
        self.halted
    }

    /// Row `i` belongs to step `i`, and there are no more rows than steps.
    pub open spec fn wf(&self) -> bool {
        &&& self.results_spec().len() <= self.steps_spec().len()
        &&& forall|i: int| 0 <= i < self.results_spec().len()
            ==> #[trigger] self.results_spec()[i].connections == self.steps_spec()[i]
    }

    /// The connection count of the next run: none once a shutdown was seen or
    /// every step has run.
    pub open spec fn next_spec(&self) -> Option<u32> {
        if self.halted_spec() || self.results_spec().len() >= self.steps_spec().len() {
            None
        } else {
            Some(self.steps_spec()[self.results_spec().len() as int])
        }
    }

    /// The runs of the ramp towards `max` by `step`, none done yet.
    pub fn new(max: u32, step: u32) -> (r: RampController)
        ensures
            r.wf(),
            r.steps_spec() == ramp_spec(max, step),
            r.results_spec().len() == 0,
            !r.halted_spec(),
    {
        RampController { steps: ramp_sequence(max, step), results: Vec::new(), halted: false }
    }

    pub fn next_connections(&self) -> (r: Option<u32>)
        requires
            self.wf(),
        ensures
            r == self.next_spec(),
    {
        if self.halted || self.results.len() >= self.steps.len() {
            None
        } else {
            Some(self.steps[self.results.len()])
        }
    }

    /// Ends the current run with its row; `shutdown_seen` tells whether the
    /// shutdown signal was set when it ended, which ends the ramp.
    pub fn finish_step(&mut self, result: RunResult, shutdown_seen: bool)
        requires
            old(self).wf(),
            old(self).next_spec() == Some(result.connections),
        ensures
            final(self).wf(),
            final(self).steps_spec() == old(self).steps_spec(),
            final(self).results_spec() == old(self).results_spec().push(result),
            final(self).halted_spec() == shutdown_seen,
    {
        self.results.push(result);
        self.halted = shutdown_seen;
    }

    /// The rows of the runs done so far.
    pub fn results(&self) -> (r: &Vec<RunResult>)
        ensures
            r@ == self.results_spec(),
    {
        &self.results
    }

    /// Whether a shutdown ended the ramp.
    pub fn halted(&self) -> (r: bool)
        ensures
            r == self.halted_spec(),
    {
        self.halted
    }
}

/// Once a run ends with the shutdown signal set, no further run starts.
pub proof fn lemma_no_run_after_shutdown(c: RampController)
    requires
        c.halted_spec(),
    ensures
        c.next_spec() is None,
{
}

/// Without a shutdown, the ramp runs every step, in order: the rows' connection
/// counts are the ramp itself.
pub proof fn lemma_rows_follow_ramp(c: RampController)
    requires
        c.wf(),
        c.next_spec() is None,
        !c.halted_spec(),
    ensures
        c.results_spec().map_values(|r: RunResult| r.connections) == c.steps_spec(),
{
    assert(c.results_spec().map_values(|r: RunResult| r.connections) =~= c.steps_spec());
}

} // verus!
