//! Budget handling for the stepping-out procedure's bracket expansion.
//!
//! Stepping out places an initial bracket of width `w` around the current
//! point and then pushes each endpoint outward by `w` at a time while the
//! density at the endpoint stays strictly above the slice level. With a
//! positive step cap the procedure first splits the cap randomly between
//! the two sides: one uniform draw `u` gives the left side
//! `j = floor(u * cap)` steps and the right side the remaining
//! `cap - 1 - j`. A cap of zero leaves both sides unbounded. The driver
//! performs the arithmetic on the endpoints; the budget bookkeeping below
//! decides when a side may take another step.

use vstd::prelude::*;

verus! {

/// Tuning for the stepping-out procedure's expansion phase: how many
/// fixed-size steps the two expansion loops may take together. Zero means
/// the expansion is unbounded and each endpoint steps until its density
/// falls to or below the slice level.
pub struct TuningParameters {
    max_number_of_steps: u32,
}

impl TuningParameters {
    /// The configured step cap.
    pub closed spec fn spec_max_number_of_steps(&self) -> u32 {
        self.max_number_of_steps
    }

    /// The default tuning: unbounded expansion.
    pub fn new() -> (p: Self)
        ensures
            p.spec_max_number_of_steps() == 0,
    {
        TuningParameters { max_number_of_steps: 0 }
    }

    /// Sets the step cap; zero leaves expansion unbounded.
    pub fn max_number_of_steps(self, value: u32) -> (p: Self)
        ensures
            p.spec_max_number_of_steps() == value,
    {
        TuningParameters { max_number_of_steps: value }
    }
}

impl Default for TuningParameters {
    /// The default tuning: unbounded expansion.
    fn default() -> (p: Self)
        ensures
            p.spec_max_number_of_steps() == 0,
    {
        TuningParameters { max_number_of_steps: 0 }
    }
}

/// The steps one side of the expansion may still take: either unbounded or
/// a decrementing count.
pub struct ExpansionBudget {
    unbounded: bool,
    remaining: u32,
}

impl ExpansionBudget {
    /// Whether this budget never runs out.
    pub closed spec fn is_unbounded(&self) -> bool {
        self.unbounded
    }

    /// The steps left on a bounded budget.
    pub closed spec fn spec_remaining(&self) -> u32 {
        self.remaining
    }

    /// Whether the side may take another step.
    pub open spec fn can_step(&self) -> bool {
        self.is_unbounded() || self.spec_remaining() > 0
    }

    /// Whether the side may take another step. The expansion loop asks this
    /// before each density evaluation at its endpoint: when it answers no,
    /// the loop ends without evaluating, even if the slice condition would
    /// still hold — the bracket may stay interior to the true slice, which
    /// bounds the worst-case cost.
    pub fn may_step(&self) -> (r: bool)
        ensures
            r == self.can_step(),
    {
        self.unbounded || self.remaining > 0
    }

    /// Spends one step after the endpoint moved. An unbounded budget is
    /// never consumed; a bounded one loses exactly one step.
    pub fn consume(&mut self)
        requires
            old(self).can_step(),
        ensures
            final(self).is_unbounded() == old(self).is_unbounded(),
            old(self).is_unbounded() ==> final(self).spec_remaining() == old(
                self,
            ).spec_remaining(),
            !old(self).is_unbounded() ==> final(self).spec_remaining() == old(
                self,
            ).spec_remaining() - 1,
    {
        if !self.unbounded {
            self.remaining = self.remaining - 1;
        }
    }
}

/// Splits the step cap between the two sides of the expansion. With a cap
/// of zero both sides are unbounded. With a positive cap, `left_steps` is
/// the driver's draw `floor(u * cap)` for a uniform `u` in `[0, 1)` — so it
/// lies strictly below the cap — and the right side receives whatever the
/// cap has left after the left side's share and the initial bracket
/// placement. In particular a cap of one leaves both sides with no steps at
/// all, so the bracket keeps its initial width.
pub fn split_step_budget(p: &TuningParameters, left_steps: u32) -> (pair: (
    ExpansionBudget,
    ExpansionBudget,
))
    requires
        p.spec_max_number_of_steps() > 0 ==> left_steps < p.spec_max_number_of_steps(),
    ensures
        p.spec_max_number_of_steps() == 0 ==> pair.0.is_unbounded() && pair.1.is_unbounded(),
        p.spec_max_number_of_steps() > 0 ==> {
            &&& !pair.0.is_unbounded()
            &&& !pair.1.is_unbounded()
            &&& pair.0.spec_remaining() == left_steps
            &&& pair.1.spec_remaining() == p.spec_max_number_of_steps() - 1 - left_steps
            &&& pair.0.spec_remaining() + pair.1.spec_remaining() == p.spec_max_number_of_steps()
                - 1
        },
{
    if p.max_number_of_steps == 0 {
        (
            ExpansionBudget { unbounded: true, remaining: 0 },
            ExpansionBudget { unbounded: true, remaining: 0 },
        )
    } else {
        (
            ExpansionBudget { unbounded: false, remaining: left_steps },
            ExpansionBudget {
                unbounded: false,
                remaining: p.max_number_of_steps - 1 - left_steps,
            },
        )
    }
}

/// The number of expansion steps one side takes, as a function of its
/// budget and of the successive density comparisons at its endpoint
/// (`true` meaning the density there still lies strictly above the slice
/// level). The loop checks the budget first and stops at the first
/// comparison that fails; `comparisons` must be long enough to cover every
/// step the budget admits.
pub open spec fn expansion_steps(unbounded: bool, remaining: nat, comparisons: Seq<bool>) -> nat
    decreases comparisons.len(),
{
    if !(unbounded || remaining > 0) || comparisons.len() == 0 || !comparisons[0] {
        0
    } else {
        1 + expansion_steps(
            unbounded,
            if unbounded {
                remaining
            } else {
                (remaining - 1) as nat
            },
            comparisons.skip(1),
        )
    }
}

/// Unbounded-budget equivalence: against one and the same sequence of
/// density comparisons, a finite budget at least as large as the number of
/// steps the unbounded loop would take makes exactly the same steps as the
/// unbounded loop — a large enough cap changes nothing.
pub proof fn lemma_unbounded_budget_equivalence(remaining: nat, comparisons: Seq<bool>)
    requires
        remaining >= expansion_steps(true, 0, comparisons),
    ensures
        expansion_steps(false, remaining, comparisons) == expansion_steps(true, 0, comparisons),
    decreases comparisons.len(),
{
    if comparisons.len() == 0 || !comparisons[0] {
    } else {
        lemma_unbounded_budget_equivalence((remaining - 1) as nat, comparisons.skip(1));
    }
}

/// A budget's step count never exceeds the budget: with a bounded budget
/// the side takes at most `remaining` steps, whatever the comparisons say.
pub proof fn lemma_bounded_budget_caps_steps(remaining: nat, comparisons: Seq<bool>)
    ensures
        expansion_steps(false, remaining, comparisons) <= remaining,
    decreases comparisons.len(),
{
    if remaining > 0 && comparisons.len() > 0 && comparisons[0] {
        lemma_bounded_budget_caps_steps((remaining - 1) as nat, comparisons.skip(1));
    }
}

} // verus!
