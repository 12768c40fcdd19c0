//! Nearest hit over an ordered sequence of objects.
//!
//! A hit distance `t` is carried as the bit pattern of a non-negative IEEE-754
//! single (`f32::to_bits`). For non-negative values, infinity included, the
//! unsigned order of those patterns is the order of the numbers, so the
//! comparisons below are the comparisons of the distances themselves.
//!
//! The scan starts from the caller's upper bound `t_max`. Each object is
//! tested with the current bound, and an accepted hit that is nearer than the
//! bound becomes the new bound and the current answer: the classic narrowing
//! of the interval as the scan proceeds.
use vstd::prelude::*;

verus! {

/// State of a nearest-hit scan.
#[derive(Clone, Copy, Debug, PartialEq, Eq, Structural)]
pub struct NearestHit {
    /// Exclusive upper bound that the next object is tested with; once a hit
    /// was taken, it is that hit's distance.
    pub bound: u32,
    /// Position in the sequence of the nearest object hit so far.
    pub index: Option<usize>,
}

/// Whether a test result is a hit strictly nearer than `bound`.
pub open spec fn below(t: Option<u32>, bound: u32) -> bool {
    t is Some && t->0 < bound
}

/// The scan state after one object's test result `t` is offered.
pub open spec fn offer_spec(s: NearestHit, index: usize, t: Option<u32>) -> NearestHit {
    if below(t, s.bound) {
        NearestHit { bound: t->0, index: Some(index) }
    } else {
        s
    }
}

/// The scan state after offering `ts[0]`, `ts[1]`, ... in order, starting
/// from the bound `t_max`.
pub open spec fn scan(t_max: u32, ts: Seq<Option<u32>>) -> NearestHit
    decreases ts.len(),
{
    if ts.len() == 0 {
        NearestHit { bound: t_max, index: None }
    } else {
        offer_spec(scan(t_max, ts.drop_last()), (ts.len() - 1) as usize, ts.last())
    }
}

/// Whether `i` is the first position whose hit is below `t_max` with the
/// least distance among all such hits.
pub open spec fn is_nearest(ts: Seq<Option<u32>>, t_max: u32, i: int) -> bool {
    &&& 0 <= i < ts.len()
    &&& below(ts[i], t_max)
    &&& forall|j: int| 0 <= j < ts.len() && below(#[trigger] ts[j], t_max) ==> ts[i]->0 <= ts[j]->0
    &&& forall|j: int| 0 <= j < i && below(#[trigger] ts[j], t_max) ==> ts[i]->0 < ts[j]->0
}

impl NearestHit {
    /// A scan that has seen no object yet, bounded above by `t_max`.
    pub fn new(t_max: u32) -> (r: NearestHit)
        ensures
            r == (NearestHit { bound: t_max, index: None }),
    {
        NearestHit { bound: t_max, index: None }
    }

    /// Takes the test result of the object at `index`: a hit nearer than
    /// the current bound replaces the answer and narrows the bound.
    pub fn offer(&mut self, index: usize, t: Option<u32>)
        ensures
            *final(self) == offer_spec(*old(self), index, t),
            final(self).bound <= old(self).bound,
            below(t, old(self).bound) ==> final(self).index == Some(index) && final(self).bound
                == t->0,
            !below(t, old(self).bound) ==> *final(self) == *old(self),
    {
        match t {
            Some(k) => {
                if k < self.bound {
                    self.bound = k;
                    self.index = Some(index);
                }
            },
            None => {},
        }
    }
}

/// Narrowing the bound while scanning gives the same answer as testing every
/// object independently against `t_max` and choosing the least distance: no
/// hit when none is below `t_max`, and otherwise the first object whose hit
/// has the least distance, whose distance becomes the final bound. In
/// particular an accepted hit always lies below `t_max`.
pub proof fn scan_finds_nearest(t_max: u32, ts: Seq<Option<u32>>)
    requires
        ts.len() <= usize::MAX,
    ensures
        scan(t_max, ts).index is None <==> forall|j: int| 0 <= j < ts.len() ==> !below(#[trigger] ts[j], t_max),
        scan(t_max, ts).index is None ==> scan(t_max, ts).bound == t_max,
        scan(t_max, ts).index is Some ==> is_nearest(ts, t_max, scan(t_max, ts).index->0 as int)
            && scan(t_max, ts).bound == ts[scan(t_max, ts).index->0 as int]->0
            && scan(t_max, ts).bound < t_max,
    decreases ts.len(),
{
    if ts.len() > 0 {
        let pre = ts.drop_last();
        let n = ts.len() - 1;
        scan_finds_nearest(t_max, pre);
        let s = scan(t_max, pre);
        assert(forall|j: int| 0 <= j < n ==> pre[j] == ts[j]);
        if below(ts[n], s.bound) {
            assert(scan(t_max, ts).index == Some(n as usize));
            assert(is_nearest(ts, t_max, n));
        } else if s.index is Some {
            assert(is_nearest(ts, t_max, s.index->0 as int));
        } else {
            assert(!below(ts[n], t_max));
        }
    }
}

} // verus!
