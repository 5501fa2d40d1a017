use crate::num::{Coord, Scalar};
use vstd::prelude::*;

verus! {

/// What the escape-time evaluator reports for one plane point: the
/// iteration count — equal to the budget exactly when the point did not
/// escape — and the squared magnitude measured at the last iterate.
#[derive(Clone, Copy, PartialEq, Eq, Structural, Debug)]
pub struct IterationResult {
    pub iterations: i32,
    pub escape_magnitude_sq: Scalar,
}

/// How many rounds lie between two snapshots of the running iterate.
pub const SNAPSHOT_INTERVAL: i32 = 25;

/// The decision state of one escape-time evaluation. The caller owns the
/// arithmetic: it computes each new iterate and measures its squared
/// magnitude; this state machine owns every decision — when to stop, what
/// counts as a detected cycle, when the snapshot is refreshed, and what the
/// final report says.
pub struct Evaluator {
    pub max_iterations: i32,
    pub iterations: i32,
    pub snapshot: Coord,
}

impl Evaluator {
    /// The rounds done so far never pass the budget.
    pub open spec fn wf(self) -> bool {
        0 <= self.iterations <= self.max_iterations
    }

    /// A fresh evaluation: no rounds done, and the snapshot starts at the
    /// origin, which is also the starting iterate of every orbit.
    pub fn new(max_iterations: i32) -> (e: Evaluator)
        requires
            max_iterations >= 0,
        ensures
            e.max_iterations == max_iterations,
            e.iterations == 0,
            e.snapshot.x.bits == 0,
            e.snapshot.y.bits == 0,
            e.wf(),
    {
        Evaluator { max_iterations, iterations: 0, snapshot: Coord::zero() }
    }

    /// The loop guard: go on while the current iterate has not escaped and
    /// budget remains. The caller decides escape by comparing the squared
    /// magnitude of the current iterate against the threshold of four.
    pub fn should_continue(&self, escaped: bool) -> (r: bool)
        ensures
            r == (!escaped && self.iterations < self.max_iterations),
    {
        !escaped && self.iterations < self.max_iterations
    }

    /// One round of the loop body, fed the freshly computed iterate:
    /// reports a cycle when the iterate equals the snapshot bit for bit;
    /// otherwise refreshes the snapshot on every twenty-fifth round, counts
    /// the round, and asks for the next one.
    pub fn advance(&mut self, z: Coord) -> (cycle: bool)
        requires
            old(self).wf(),
            old(self).iterations < old(self).max_iterations,
        ensures
            cycle == (z == old(self).snapshot),
            final(self).max_iterations == old(self).max_iterations,
            cycle ==> *final(self) == *old(self),
            !cycle ==> final(self).iterations == old(self).iterations + 1,
            !cycle ==> final(self).snapshot == (if old(self).iterations % SNAPSHOT_INTERVAL == 0 {
                z
            } else {
                old(self).snapshot
            }),
            final(self).wf(),
    {
        if z == self.snapshot {
            return true;
        }
        if self.iterations % SNAPSHOT_INTERVAL == 0 {
            self.snapshot = z;
        }
        self.iterations = self.iterations + 1;
        false
    }

    /// The report when the loop exits at its guard — the iterate escaped,
    /// or the budget ran out with the count standing exactly at the budget.
    /// Either exit reports the current count and the squared magnitude that
    /// the caller measured last.
    pub fn exit_result(&self, magnitude_sq: Scalar) -> (r: IterationResult)
        ensures
            r.iterations == self.iterations,
            r.escape_magnitude_sq == magnitude_sq,
    {
        IterationResult { iterations: self.iterations, escape_magnitude_sq: magnitude_sq }
    }

    /// The report for a point found not to escape before the budget ran
    /// out — a detected cycle: the count reads as the full budget, so that
    /// a full count is the one signal for a bounded point.
    pub fn nonescaping_result(&self, magnitude_sq: Scalar) -> (r: IterationResult)
        ensures
            r.iterations == self.max_iterations,
            r.escape_magnitude_sq == magnitude_sq,
    {
        IterationResult { iterations: self.max_iterations, escape_magnitude_sq: magnitude_sq }
    }
}

/// The pre-loop shortcut of the degree-two path: a point that the caller's
/// closed-form membership tests place in the main cardioid or in the
/// period-two bulb is interior, and is reported at once as the full budget
/// with a zero magnitude, without running the loop.
pub fn interior_shortcut(in_cardioid: bool, in_bulb: bool, max_iterations: i32) -> (r: Option<
    IterationResult,
>)
    requires
        max_iterations >= 0,
    ensures
        r.is_some() == (in_cardioid || in_bulb),
        r.is_some() ==> r.unwrap().iterations == max_iterations,
        r.is_some() ==> r.unwrap().escape_magnitude_sq.bits == 0,
{
    if in_cardioid || in_bulb {
        Some(
            IterationResult {
                iterations: max_iterations,
                escape_magnitude_sq: Scalar::zero(),
            },
        )
    } else {
        None
    }
}

} // verus!
