//! Budget handling and the reverse bisection check for the doubling
//! procedure.
//!
//! Doubling places an initial bracket of width `w` around the current
//! point and then repeatedly doubles the bracket's width, to the left or
//! to the right as a fair coin decides, while the densities at the
//! endpoints keep the expansion going and the doubling budget allows it.
//! Because the expansion is history-dependent, a candidate that passes the
//! plain acceptance test must additionally survive a replay: a bisection of
//! the bracket the expansion ended with, which rejects the candidate if the
//! path from the current point to the candidate crosses a midpoint into a
//! half whose endpoints both lie at or below the slice level. The driver
//! performs the arithmetic; the machines below take every decision.

use vstd::prelude::*;

verus! {

/// Tuning for the doubling procedure's expansion phase: how many times the
/// bracket may double. Zero means unbounded doubling; one disables
/// expansion outright, so the bracket keeps its initial width.
pub struct TuningParameters {
    max_number_of_doubles: u32,
}

impl TuningParameters {
    /// The configured doubling cap.
    pub closed spec fn spec_max_number_of_doubles(&self) -> u32 {
        self.max_number_of_doubles
    }

    /// The default tuning: unbounded doubling.
    pub fn new() -> (p: Self)
        ensures
            p.spec_max_number_of_doubles() == 0,
    {
        TuningParameters { max_number_of_doubles: 0 }
    }

    /// Sets the doubling cap; zero leaves doubling unbounded, one skips
    /// expansion entirely.
    pub fn max_number_of_doubles(self, value: u32) -> (p: Self)
        ensures
            p.spec_max_number_of_doubles() == value,
    {
        TuningParameters { max_number_of_doubles: value }
    }
}

impl Default for TuningParameters {
    /// The default tuning: unbounded doubling.
    fn default() -> (p: Self)
        ensures
            p.spec_max_number_of_doubles() == 0,
    {
        TuningParameters { max_number_of_doubles: 0 }
    }
}

/// The expansion machine of the doubling procedure: whether doubling is
/// unbounded and, if not, how many doublings are left.
///
/// The two modes differ in more than the budget. Unbounded doubling keeps
/// going only while *both* endpoints lie strictly above the slice level,
/// and consults the right endpoint only after the left one passed. Bounded
/// doubling keeps going while *either* endpoint lies strictly above the
/// level, and consults the right endpoint only after the left one failed.
/// The machine owns both rules, so a driver never needs to know which mode
/// it is in.
pub struct DoublingExpansion {
    unbounded: bool,
    remaining: u32,
}

impl DoublingExpansion {
    /// Whether doubling is unbounded.
    pub closed spec fn is_unbounded(&self) -> bool {
        self.unbounded
    }

    /// The doublings left on a bounded machine.
    pub closed spec fn spec_remaining(&self) -> u32 {
        self.remaining
    }

    /// The machine a given doubling cap starts with.
    pub closed spec fn spec_from_cap(cap: u32) -> DoublingExpansion {
        if cap == 0 {
            DoublingExpansion { unbounded: true, remaining: 0 }
        } else if cap == 1 {
            DoublingExpansion { unbounded: false, remaining: 0 }
        } else {
            DoublingExpansion { unbounded: false, remaining: cap }
        }
    }

    /// Whether another doubling is allowed at all.
    pub open spec fn can_double(&self) -> bool {
        self.is_unbounded() || self.spec_remaining() > 0
    }

    /// Starts the expansion for the given tuning. A cap of zero gives the
    /// unbounded machine; a cap of one gives a bounded machine that is
    /// already exhausted, so the expansion phase ends before its first
    /// density evaluation; any larger cap allows that many doublings.
    pub fn new(p: &TuningParameters) -> (e: Self)
        ensures
            e == Self::spec_from_cap(p.spec_max_number_of_doubles()),
            p.spec_max_number_of_doubles() == 0 ==> e.is_unbounded(),
            p.spec_max_number_of_doubles() == 1 ==> !e.is_unbounded() && e.spec_remaining() == 0,
            p.spec_max_number_of_doubles() >= 2 ==> !e.is_unbounded() && e.spec_remaining()
                == p.spec_max_number_of_doubles(),
    {
        if p.max_number_of_doubles == 0 {
            DoublingExpansion { unbounded: true, remaining: 0 }
        } else if p.max_number_of_doubles == 1 {
            DoublingExpansion { unbounded: false, remaining: 0 }
        } else {
            DoublingExpansion { unbounded: false, remaining: p.max_number_of_doubles }
        }
    }

    /// Whether the expansion loop may run another iteration. Asked before
    /// any density evaluation of the iteration: when it answers no, the
    /// expansion phase ends — and when it answers no at the very start, the
    /// phase never evaluates the density at all.
    pub fn may_double(&self) -> (r: bool)
        ensures
            r == self.can_double(),
    {
        self.unbounded || self.remaining > 0
    }

    /// Whether the right endpoint's density must also be compared after the
    /// left endpoint's comparison came out as given. Unbounded doubling
    /// needs the right endpoint only when the left one is still above the
    /// level (both must pass); bounded doubling only when the left one is
    /// not (one suffices).
    pub fn needs_right_comparison(&self, left_above: bool) -> (r: bool)
        ensures
            self.is_unbounded() ==> r == left_above,
            !self.is_unbounded() ==> r == !left_above,
    {
        if self.unbounded {
            left_above
        } else {
            !left_above
        }
    }

    /// Whether the endpoint comparisons keep the expansion going: both
    /// above the level for unbounded doubling, at least one for bounded.
    /// When the right endpoint was not compared (`needs_right_comparison`
    /// said so), the left comparison alone already decides, whatever is
    /// passed for the right one.
    pub fn continues(&self, left_above: bool, right_above: bool) -> (r: bool)
        ensures
            self.is_unbounded() ==> r == (left_above && right_above),
            !self.is_unbounded() ==> r == (left_above || right_above),
    {
        if self.unbounded {
            left_above && right_above
        } else {
            left_above || right_above
        }
    }

    /// Spends one doubling after the bracket's width doubled. The unbounded
    /// machine is never consumed; a bounded one loses exactly one doubling.
    pub fn record_double(&mut self)
        requires
            old(self).can_double(),
        ensures
            final(self).is_unbounded() == old(self).is_unbounded(),
            old(self).is_unbounded() ==> final(self).spec_remaining() == old(
                self,
            ).spec_remaining(),
            !old(self).is_unbounded() ==> final(self).spec_remaining() == old(
                self,
            ).spec_remaining() - 1,
    {
        if !self.unbounded {
            self.remaining = self.remaining - 1;
        }
    }
}

/// The number of doublings the expansion takes, as a function of the
/// machine's mode and budget and of the successive endpoint comparisons
/// (`.0` for the left endpoint, `.1` for the right one, `true` meaning the
/// density there lies strictly above the slice level). The loop checks the
/// budget first; unbounded doubling goes on while both comparisons hold,
/// bounded doubling while either does. `comparisons` must be long enough to
/// cover every doubling the budget admits.
pub open spec fn doublings_taken(
    unbounded: bool,
    remaining: nat,
    comparisons: Seq<(bool, bool)>,
) -> nat
    decreases comparisons.len(),
{
    if !(unbounded || remaining > 0) || comparisons.len() == 0 {
        0
    } else if (if unbounded {
        comparisons[0].0 && comparisons[0].1
    } else {
        comparisons[0].0 || comparisons[0].1
    }) {
        1 + doublings_taken(
            unbounded,
            if unbounded {
                remaining
            } else {
                (remaining - 1) as nat
            },
            comparisons.skip(1),
        )
    } else {
        0
    }
}

/// The doubling cap is hard: a bounded machine doubles at most its budget's
/// worth of times, whatever the endpoint comparisons say.
pub proof fn lemma_bounded_cap_caps_doublings(remaining: nat, comparisons: Seq<(bool, bool)>)
    ensures
        doublings_taken(false, remaining, comparisons) <= remaining,
    decreases comparisons.len(),
{
    if remaining > 0 && comparisons.len() > 0 && (comparisons[0].0 || comparisons[0].1) {
        lemma_bounded_cap_caps_doublings((remaining - 1) as nat, comparisons.skip(1));
    }
}

/// Skip-expansion mode: a doubling cap of one starts the machine
/// exhausted, so the expansion branch never runs and costs no density
/// evaluations beyond the initial bracket and the shrinkage.
pub proof fn lemma_skip_expansion_mode()
    ensures
        !DoublingExpansion::spec_from_cap(1).can_double(),
{
}

/// Which endpoint of the replayed bracket moves to the midpoint in one
/// bisection step of the reverse check.
#[derive(Clone, Copy, PartialEq, Eq, Structural, Debug)]
pub enum NarrowedSide {
    /// The left endpoint moves up to the midpoint.
    Left,
    /// The right endpoint moves down to the midpoint.
    Right,
}

/// The acceptance test the doubling procedure adds on top of the plain
/// one: a replayed bisection of the bracket the expansion ended with.
///
/// For every candidate that passed the plain test, the driver starts a
/// fresh check — the divergence flag must never be carried over from an
/// earlier attempt — and halves the replayed bracket until its width falls
/// to within a tolerance of the initial width. At each halving the check
/// learns on which sides of the midpoint the current point and the
/// candidate fall; once they have fallen on opposite sides, the paths have
/// diverged, and from then on the candidate is rejected as soon as both
/// ends of the replayed bracket lie at or below the slice level.
pub struct ReverseCheck {
    diverged: bool,
}

impl ReverseCheck {
    /// Whether the current point and the candidate have fallen on opposite
    /// sides of some midpoint so far.
    pub closed spec fn spec_diverged(&self) -> bool {
        self.diverged
    }

    /// A fresh check for one acceptance attempt, with the divergence flag
    /// cleared.
    pub fn new() -> (c: Self)
        ensures
            !c.spec_diverged(),
    {
        ReverseCheck { diverged: false }
    }

    /// One halving of the replayed bracket. The driver reports whether the
    /// current point and the candidate lie strictly left of the midpoint;
    /// the check records a divergence if they lie on opposite sides, and
    /// answers which endpoint of the replayed bracket moves to the
    /// midpoint: the right one when the candidate lies left of the
    /// midpoint, the left one otherwise. Once set, the divergence flag
    /// never clears within one attempt.
    pub fn observe_halving(&mut self, current_left_of_mid: bool, candidate_left_of_mid: bool) -> (side:
        NarrowedSide)
        ensures
            final(self).spec_diverged() == (old(self).spec_diverged() || (current_left_of_mid
                != candidate_left_of_mid)),
            side is Right <==> candidate_left_of_mid,
    {
        if current_left_of_mid != candidate_left_of_mid {
            self.diverged = true;
        }
        if candidate_left_of_mid {
            NarrowedSide::Right
        } else {
            NarrowedSide::Left
        }
    }

    /// Whether the endpoints of the replayed bracket must be evaluated in
    /// this pass: only once the paths have diverged can the candidate be
    /// rejected, so before that the check costs no density evaluations.
    pub fn must_test_endpoints(&self) -> (r: bool)
        ensures
            r == self.spec_diverged(),
    {
        self.diverged
    }

    /// The verdict of one pass: the candidate is rejected exactly when the
    /// paths have diverged and both ends of the replayed bracket lie at or
    /// below the slice level. A candidate never rejected by any pass is
    /// accepted when the bracket's width falls within the tolerance.
    pub fn rejects(&self, left_at_or_below: bool, right_at_or_below: bool) -> (r: bool)
        ensures
            r == (self.spec_diverged() && left_at_or_below && right_at_or_below),
    {
        self.diverged && left_at_or_below && right_at_or_below
    }
}

/// The replayed bracket after one bisection step on integer coordinates:
/// the half the candidate falls in.
pub open spec fn replay_after(lp: int, rp: int, m: int, candidate_left_of_mid: bool) -> (int, int) {
    if candidate_left_of_mid {
        (lp, m)
    } else {
        (m, rp)
    }
}

/// One bisection step keeps the candidate inside the replayed bracket and
/// strictly narrows it — so the reverse check's replay terminates and
/// never loses the candidate it is judging.
pub proof fn lemma_bisection_narrows(lp: int, rp: int, x1: int)
    requires
        lp <= x1 <= rp,
        rp - lp >= 2,
    ensures
        ({
            let m = (lp + rp) / 2;
            let (lp2, rp2) = replay_after(lp, rp, m, x1 < m);
            lp <= lp2 <= x1 <= rp2 <= rp && rp2 - lp2 < rp - lp
        }),
{
    let m = (lp + rp) / 2;
    assert(lp + 1 <= m < rp) by (nonlinear_arith)
        requires
            rp - lp >= 2,
            m == (lp + rp) / 2,
    ;
}

} // verus!
