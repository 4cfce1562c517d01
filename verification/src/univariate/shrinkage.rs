//! The shrinkage loop that every procedure terminates in.
//!
//! Given a bracket `[l, r]` around the current point `x` and a slice level
//! `y`, the loop repeatedly draws a candidate `x1` uniformly from the
//! bracket, evaluates the density there, and either accepts the candidate
//! (its density lies strictly above the level) or pulls the bracket
//! endpoint on the candidate's side of `x` in to `x1`. The numeric draw and
//! evaluation belong to the driver; the decision taken on their outcome is
//! the verified step below.

use vstd::prelude::*;

verus! {

/// What the shrinkage loop does with one candidate.
#[derive(Clone, Copy, PartialEq, Eq, Structural, Debug)]
pub enum ShrinkageStep {
    /// The candidate's density lies strictly above the slice level: the
    /// loop ends and the candidate is the new sample.
    Accept,
    /// Rejected candidate on the left of the current point: the left
    /// endpoint moves in to the candidate.
    ShrinkLeft,
    /// Rejected candidate at or right of the current point: the right
    /// endpoint moves in to the candidate.
    ShrinkRight,
}

/// The decision the shrinkage loop takes, as a function of the two
/// comparisons the driver made: is the candidate's density strictly above
/// the slice level, and does the candidate lie strictly left of the
/// current point.
pub open spec fn shrinkage_decision(above_level: bool, left_of_current: bool) -> ShrinkageStep {
    if above_level {
        ShrinkageStep::Accept
    } else if left_of_current {
        ShrinkageStep::ShrinkLeft
    } else {
        ShrinkageStep::ShrinkRight
    }
}

/// One iteration's decision. `above_level` is the driver's comparison of
/// the candidate's (log-)density against the slice level; `left_of_current`
/// is its comparison of the candidate against the current point. A
/// candidate is accepted exactly when it lies strictly above the level;
/// otherwise the endpoint on the candidate's side shrinks in.
pub fn shrinkage_step(above_level: bool, left_of_current: bool) -> (s: ShrinkageStep)
    ensures
        s == shrinkage_decision(above_level, left_of_current),
        s is Accept <==> above_level,
        s is ShrinkLeft <==> (!above_level && left_of_current),
        s is ShrinkRight <==> (!above_level && !left_of_current),
{
    if above_level {
        ShrinkageStep::Accept
    } else if left_of_current {
        ShrinkageStep::ShrinkLeft
    } else {
        ShrinkageStep::ShrinkRight
    }
}

/// The bracket after one shrinkage decision, on integer coordinates:
/// `Accept` leaves it, `ShrinkLeft` moves the left endpoint to the
/// candidate, `ShrinkRight` the right one.
pub open spec fn bracket_after(l: int, r: int, x1: int, s: ShrinkageStep) -> (int, int) {
    match s {
        ShrinkageStep::Accept => (l, r),
        ShrinkageStep::ShrinkLeft => (x1, r),
        ShrinkageStep::ShrinkRight => (l, x1),
    }
}

/// Bracket containment: whenever the bracket holds the current point and
/// the candidate was drawn from the bracket, the bracket after the
/// shrinkage decision still holds the current point and lies within the
/// old bracket — so `l <= x <= r` holds before every draw of the loop.
pub proof fn lemma_shrinkage_preserves_containment(
    l: int,
    x: int,
    r: int,
    x1: int,
    above_level: bool,
)
    requires
        l <= x <= r,
        l <= x1 <= r,
    ensures
        ({
            let (l2, r2) = bracket_after(l, r, x1, shrinkage_decision(above_level, x1 < x));
            l <= l2 <= x <= r2 <= r
        }),
{
}

/// The bracket after a whole run of rejected candidates, each shrinking the
/// bracket current at its turn.
pub open spec fn bracket_after_rejections(l: int, r: int, x: int, candidates: Seq<int>) -> (
    int,
    int,
)
    decreases candidates.len(),
{
    if candidates.len() == 0 {
        (l, r)
    } else {
        let (l1, r1) = bracket_after(l, r, candidates[0], shrinkage_decision(false, candidates[0] < x));
        bracket_after_rejections(l1, r1, x, candidates.skip(1))
    }
}

/// Whether each candidate of the run lies within the bracket current at its
/// turn — what a uniform draw from the bracket guarantees.
pub open spec fn drawn_within(l: int, r: int, x: int, candidates: Seq<int>) -> bool
    decreases candidates.len(),
{
    candidates.len() == 0 || {
        &&& l <= candidates[0] <= r
        &&& ({
            let (l1, r1) = bracket_after(
                l,
                r,
                candidates[0],
                shrinkage_decision(false, candidates[0] < x),
            );
            drawn_within(l1, r1, x, candidates.skip(1))
        })
    }
}

/// Bracket containment at every iteration: however many candidates the loop
/// has rejected, each drawn from the bracket current at its turn, the
/// bracket still holds the current point and has only moved inward — so
/// `l <= x <= r` holds before every draw.
pub proof fn lemma_containment_at_every_iteration(l: int, x: int, r: int, candidates: Seq<int>)
    requires
        l <= x <= r,
        drawn_within(l, r, x, candidates),
    ensures
        ({
            let (ln, rn) = bracket_after_rejections(l, r, x, candidates);
            l <= ln <= x <= rn <= r
        }),
    decreases candidates.len(),
{
    if candidates.len() > 0 {
        let (l1, r1) = bracket_after(l, r, candidates[0], shrinkage_decision(false, candidates[0] < x));
        lemma_shrinkage_preserves_containment(l, x, r, candidates[0], false);
        lemma_containment_at_every_iteration(l1, x, r1, candidates.skip(1));
    }
}

/// Monotone shrink: a rejected candidate drawn strictly inside the bracket
/// strictly reduces the bracket's width. (A draw that falls exactly on an
/// endpoint can leave the width as it was — a rejected left endpoint left
/// of the current point moves nothing — so those draws are left out here.)
pub proof fn lemma_rejected_candidate_strictly_shrinks(l: int, x: int, r: int, x1: int)
    requires
        l <= x <= r,
        l < x1 < r,
    ensures
        ({
            let (l2, r2) = bracket_after(l, r, x1, shrinkage_decision(false, x1 < x));
            r2 - l2 < r - l
        }),
{
}

} // verus!
