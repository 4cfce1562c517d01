//! Shared vocabulary of the three univariate slice-sampling procedures:
//! the evaluation counter and the accept/shrink decision they all end in.

pub mod doubling;
pub mod shrinkage;
pub mod stepping_out;

use vstd::prelude::*;

verus! {

/// Counts density evaluations made during one sampling call.
///
/// Every procedure reports, beside the new sample, how many times it asked
/// the target for a (log-)density value. The driver owns one counter per
/// call, records each evaluation on it, and reads it off at the end; the
/// count starts at zero and never moves by anything but a single step.
pub struct EvaluationCounter {
    count: u32,
}

impl EvaluationCounter {
    /// The number of evaluations recorded so far.
    pub closed spec fn spec_count(&self) -> u32 {
        self.count
    }

    /// A fresh counter for one sampling call.
    pub fn new() -> (c: Self)
        ensures
            c.spec_count() == 0,
    {
        EvaluationCounter { count: 0 }
    }

    /// Records one density evaluation.
    pub fn record(&mut self)
        requires
            old(self).spec_count() < u32::MAX,
        ensures
            final(self).spec_count() == old(self).spec_count() + 1,
    {
        self.count = self.count + 1;
    }

    /// Reads the count accumulated so far.
    pub fn count(&self) -> (n: u32)
        ensures
            n == self.spec_count(),
    {
        self.count
    }
}

} // verus!
