//! Bounce control of the path tracer.
//!
//! A ray traced at some depth is first tested against the scene. A miss is
//! shaded with the sky; a hit may be followed one bounce deeper while the
//! bounce budget lasts, and is black once it is spent. Whether the surface's
//! material scatters at all is decided by the caller, who turns a failed
//! scatter into black as well.
use vstd::prelude::*;

verus! {

/// Number of nested scatters after which a ray counts as absorbed.
pub const MAX_DEPTH: usize = 50;

/// What becomes of a ray once it has been tested against the scene.
#[derive(Clone, Copy, Debug, PartialEq, Eq, Structural)]
pub enum Trace {
    /// The ray left the scene: its color is the sky gradient.
    Sky,
    /// The ray hit a surface that may scatter it; the scattered ray is traced at `depth`.
    Scatter { depth: usize },
    /// The bounce budget is spent: the ray contributes black.
    Black,
}

/// The decision for a ray traced at `depth`, given whether it hit the scene.
pub open spec fn trace_step_spec(depth: usize, hit: bool) -> Trace {
    if !hit {
        Trace::Sky
    } else if depth < MAX_DEPTH {
        Trace::Scatter { depth: (depth + 1) as usize }
    } else {
        Trace::Black
    }
}

/// Decides what happens to a ray traced at `depth` after the scene test.
pub fn trace_step(depth: usize, hit: bool) -> (r: Trace)
    ensures
        r == trace_step_spec(depth, hit),
        !hit ==> r == Trace::Sky,
        hit && depth < MAX_DEPTH ==> r == (Trace::Scatter { depth: (depth + 1) as usize }),
        hit && depth >= MAX_DEPTH ==> r == Trace::Black,
{
    if !hit {
        Trace::Sky
    } else if depth < MAX_DEPTH {
        Trace::Scatter { depth: depth + 1 }
    } else {
        Trace::Black
    }
}

/// Whether `k` successive hits, starting from a ray traced at `depth`, are
/// each followed by a scatter.
pub open spec fn scatters_through(depth: usize, k: nat) -> bool
    decreases k,
{
    if k == 0 {
        true
    } else {
        match trace_step_spec(depth, true) {
            Trace::Scatter { depth: next } => scatters_through(next, (k - 1) as nat),
            _ => false,
        }
    }
}

/// From a ray at `depth` within the budget, `k` nested scatters are possible
/// exactly when `depth + k` stays within the budget.
pub proof fn lemma_scatters_through(depth: usize, k: nat)
    requires
        depth <= MAX_DEPTH,
    ensures
        scatters_through(depth, k) <==> depth + k <= MAX_DEPTH,
    decreases k,
{
    if k > 0 && depth < MAX_DEPTH {
        lemma_scatters_through((depth + 1) as usize, (k - 1) as nat);
    }
}

/// A primary ray (depth 0) is followed through at most `MAX_DEPTH` nested
/// scatters, whatever the scene; and the whole budget can be used.
pub proof fn bounces_are_bounded(k: nat)
    ensures
        scatters_through(0, k) <==> k <= MAX_DEPTH,
{
    lemma_scatters_through(0, k);
}

} // verus!
