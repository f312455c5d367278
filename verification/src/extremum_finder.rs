//! Streaming detection of strict local extrema in a numeric sequence.
//!
//! The tracker retains the last three pushed values.  When the middle one is
//! strictly larger (smaller) than both of its neighbours it is reported as a
//! maximum (minimum) — one push after it arrived, a mandatory one-sample
//! detection lag.  Ties never count.

use vstd::prelude::*;

verus! {

/// A local extremum reported by [`ExtremumFinder::push`]: the now
/// delayed-by-one middle value of the last three pushes.
#[derive(Clone, Copy, Debug, PartialEq, Eq, Structural)]
pub enum Extremum {
    Minimum(u64),
    Maximum(u64),
}

/// Detector of strict local extrema over a stream of magnitudes, with O(1)
/// state: the last three pushed values, oldest first.
#[derive(Clone, Copy, Debug, PartialEq, Eq, Structural)]
pub struct ExtremumFinder {
    /// Value pushed two steps before the most recent one.
    pub prev2: Option<u64>,
    /// Value pushed one step before the most recent one.
    pub prev1: Option<u64>,
    /// Most recently pushed value.
    pub last: Option<u64>,
}

impl ExtremumFinder {
    /// A tracker that has seen nothing yet.
    pub open spec fn spec_new() -> ExtremumFinder {
        ExtremumFinder { prev2: None, prev1: None, last: None }
    }

    /// What a tracker holding three values reports: the middle value, if it
    /// is a strict local extremum.
    pub open spec fn spec_report(self) -> Option<Extremum> {
        match (self.prev2, self.prev1, self.last) {
            (Some(a), Some(b), Some(c)) => if a < b && b > c {
                Some(Extremum::Maximum(b))
            } else if a > b && b < c {
                Some(Extremum::Minimum(b))
            } else {
                None
            },
            _ => None,
        }
    }

    /// One push: the state after shifting `v` in, and what it reports.
    pub open spec fn spec_push(self, v: u64) -> (ExtremumFinder, Option<Extremum>) {
        let next = ExtremumFinder { prev2: self.prev1, prev1: self.last, last: Some(v) };
        (next, next.spec_report())
    }

    pub fn new() -> (f: ExtremumFinder)
        ensures
            f == ExtremumFinder::spec_new(),
    {
        ExtremumFinder { prev2: None, prev1: None, last: None }
    }

    /// Shifts `v` into the three-value window and reports the middle value
    /// if it just became a strict local extremum.
    pub fn push(&mut self, v: u64) -> (r: Option<Extremum>)
        ensures
            *final(self) == old(self).spec_push(v).0,
            r == old(self).spec_push(v).1,
    {
        self.prev2 = self.prev1;
        self.prev1 = self.last;
        self.last = Some(v);
        match (self.prev2, self.prev1, self.last) {
            (Some(a), Some(b), Some(c)) => if a < b && b > c {
                Some(Extremum::Maximum(b))
            } else if a > b && b < c {
                Some(Extremum::Minimum(b))
            } else {
                None
            },
            _ => None,
        }
    }
}

/// State of a fresh tracker after pushing the first `n` values of `vals`.
pub open spec fn run_finder(vals: Seq<u64>, n: int) -> ExtremumFinder
    decreases n,
{
    if n <= 0 {
        ExtremumFinder::spec_new()
    } else {
        run_finder(vals, n - 1).spec_push(vals[n - 1]).0
    }
}

/// What a fresh tracker fed `vals` in order reports on the `i`-th push.
pub open spec fn finder_report(vals: Seq<u64>, i: int) -> Option<Extremum> {
    run_finder(vals, i).spec_push(vals[i]).1
}

/// After `n` pushes the tracker holds exactly the last three values pushed,
/// oldest first, and fewer while fewer have been seen.
pub proof fn lemma_run_finder_window(vals: Seq<u64>, n: int)
    requires
        0 <= n <= vals.len(),
    ensures
        run_finder(vals, n).last == (if n >= 1 {
            Some(vals[n - 1])
        } else {
            None::<u64>
        }),
        run_finder(vals, n).prev1 == (if n >= 2 {
            Some(vals[n - 2])
        } else {
            None::<u64>
        }),
        run_finder(vals, n).prev2 == (if n >= 3 {
            Some(vals[n - 3])
        } else {
            None::<u64>
        }),
    decreases n,
{
    if n > 0 {
        lemma_run_finder_window(vals, n - 1);
    }
}

/// Law: on a strictly increasing sequence the tracker never reports an
/// extremum, at any length and any position.
pub proof fn lemma_increasing_never_reports(vals: Seq<u64>, i: int)
    requires
        0 <= i < vals.len(),
        forall|p: int, q: int| 0 <= p < q < vals.len() ==> vals[p] < vals[q],
    ensures
        finder_report(vals, i) is None,
{
    lemma_run_finder_window(vals, i);
}

/// Law: on a strictly decreasing sequence the tracker never reports an
/// extremum, at any length and any position.
pub proof fn lemma_decreasing_never_reports(vals: Seq<u64>, i: int)
    requires
        0 <= i < vals.len(),
        forall|p: int, q: int| 0 <= p < q < vals.len() ==> vals[p] > vals[q],
    ensures
        finder_report(vals, i) is None,
{
    lemma_run_finder_window(vals, i);
}

} // verus!
