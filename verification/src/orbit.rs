use crate::num::Coord;
use vstd::prelude::*;

verus! {

/// What the orbit analyzer reports: the iteration count — the full budget
/// when a cycle was found — the recorded orbit, and the cycle length,
/// where minus one means that no exact cycle was seen.
pub struct OrbitResult {
    pub iterations: i32,
    pub orbit: Vec<Coord>,
    pub period: i32,
}

/// The least index at which `z` occurs in `s`; meaningful only when `s`
/// contains `z`.
pub open spec fn first_index_of(s: Seq<Coord>, z: Coord) -> int
    decreases s.len(),
{
    if s.len() == 0 {
        0
    } else if s[0] == z {
        0
    } else {
        1 + first_index_of(s.drop_first(), z)
    }
}

/// A scan that stops at `k` with everything before unequal has found the
/// first occurrence.
proof fn lemma_first_index(s: Seq<Coord>, z: Coord, k: int)
    requires
        0 <= k < s.len(),
        s[k] == z,
        forall|j: int| 0 <= j < k ==> s[j] != z,
    ensures
        first_index_of(s, z) == k,
    decreases k,
{
    if k == 0 {
    } else {
        assert(s[0] != z);
        assert forall|j: int| 0 <= j < k - 1 implies s.drop_first()[j] != z by {
            assert(s.drop_first()[j] == s[j + 1]);
        }
        assert(s.drop_first()[k - 1] == s[k]);
        lemma_first_index(s.drop_first(), z, k - 1);
    }
}

/// The position of the first bitwise repeat of `z` among the recorded
/// points, if it occurs at all.
pub fn find_point(points: &Vec<Coord>, z: Coord) -> (r: Option<usize>)
    ensures
        r.is_some() == points@.contains(z),
        r.is_some() ==> r.unwrap() < points@.len(),
        r.is_some() ==> r.unwrap() as int == first_index_of(points@, z),
{
    let mut i: usize = 0;
    while i < points.len()
        invariant
            i <= points@.len(),
            forall|j: int| 0 <= j < i ==> points@[j] != z,
        decreases points@.len() - i,
    {
        if points[i] == z {
            proof {
                lemma_first_index(points@, z, i as int);
                assert(points@.contains(z));
            }
            return Some(i);
        }
        i = i + 1;
    }
    proof {
        assert(!points@.contains(z));
    }
    None
}

/// The decision state of one orbit analysis. The caller computes each new
/// iterate and measures it against the widened escape threshold; this
/// state machine counts each round, records the iterate, and detects the
/// first exact repeat.
pub struct OrbitAnalyzer {
    pub max_iterations: i32,
    pub iterations: i32,
    pub points: Vec<Coord>,
}

impl OrbitAnalyzer {
    /// The rounds never pass the budget, and every round so far has
    /// recorded exactly one point.
    pub open spec fn wf(self) -> bool {
        0 <= self.iterations <= self.max_iterations && self.points@.len() == self.iterations
    }

    /// A fresh analysis: no rounds done and nothing recorded.
    pub fn new(max_iterations: i32) -> (a: OrbitAnalyzer)
        requires
            max_iterations >= 0,
        ensures
            a.max_iterations == max_iterations,
            a.iterations == 0,
            a.points@.len() == 0,
            a.wf(),
    {
        OrbitAnalyzer { max_iterations, iterations: 0, points: Vec::new() }
    }

    /// The loop guard: go on while the iterate is inside the widened
    /// threshold — a squared magnitude below a thousand, as the caller
    /// measures it — and budget remains.
    pub fn should_continue(&self, escaped: bool) -> (r: bool)
        ensures
            r == (!escaped && self.iterations < self.max_iterations),
    {
        !escaped && self.iterations < self.max_iterations
    }

    /// One round, fed the freshly computed iterate: the round is counted;
    /// then a bitwise repeat of a recorded point ends the analysis and
    /// reports the cycle length — the distance from the first occurrence
    /// of the repeat to the end of the recording — while an unseen point
    /// is appended and the analysis goes on.
    pub fn record(&mut self, z: Coord) -> (period: Option<i32>)
        requires
            old(self).wf(),
            old(self).iterations < old(self).max_iterations,
        ensures
            final(self).max_iterations == old(self).max_iterations,
            final(self).iterations == old(self).iterations + 1,
            period.is_some() == old(self).points@.contains(z),
            period.is_some() ==> final(self).points@ == old(self).points@,
            period.is_some() ==> period.unwrap() == old(self).points@.len() - first_index_of(
                old(self).points@,
                z,
            ),
            period.is_none() ==> final(self).points@ == old(self).points@.push(z),
            period.is_none() ==> final(self).wf(),
    {
        self.iterations = self.iterations + 1;
        let hit: Option<usize> = find_point(&self.points, z);
        match hit {
            Some(i) => {
                let len: usize = self.points.len();
                Some((len - i) as i32)
            },
            None => {
                self.points.push(z);
                None
            },
        }
    }

    /// The report when a repeat ended the analysis: a full count — the one
    /// signal for a bounded point — the recording, and the cycle length.
    pub fn cycle_result(self, period: i32) -> (r: OrbitResult)
        ensures
            r.iterations == self.max_iterations,
            r.orbit@ == self.points@,
            r.period == period,
    {
        OrbitResult { iterations: self.max_iterations, orbit: self.points, period }
    }

    /// The report when the loop exited at its guard — the iterate left the
    /// threshold, or the budget ran out: the count so far, the recording,
    /// and no cycle, written as minus one.
    pub fn open_result(self) -> (r: OrbitResult)
        ensures
            r.iterations == self.iterations,
            r.orbit@ == self.points@,
            r.period == -1,
    {
        OrbitResult { iterations: self.iterations, orbit: self.points, period: -1 }
    }
}

} // verus!
