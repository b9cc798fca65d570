//! When an off-screen render target has to be rebuilt.
//!
//! Both the notch and the edge strips paint through a Direct2D target bound
//! to a memory DIB. Rebuilding it is expensive, so it happens only when the
//! requested size changes or the target is gone; a zero-sized request just
//! releases it. Every rebuild bumps a generation counter that cached brushes
//! and bitmaps compare against to know they have gone stale.

use vstd::prelude::*;

verus! {

/// What to do with the render target for a requested size.
#[derive(Debug, Clone, Copy, PartialEq, Eq, Structural)]
pub enum SurfacePlan {
    /// Same size and still bound: keep it.
    Keep,
    /// Nothing to paint: release it and build nothing.
    Release,
    /// Release it and build one of the requested size.
    Rebuild,
}

/// The plan for a `want_w` x `want_h` request against a target of
/// `cur_w` x `cur_h` that is `ready` (its DC and target both alive).
pub open spec fn spec_surface_plan(cur_w: u32, cur_h: u32, ready: bool, want_w: u32, want_h: u32) -> SurfacePlan {
    if cur_w == want_w && cur_h == want_h && ready {
        SurfacePlan::Keep
    } else if want_w == 0 || want_h == 0 {
        SurfacePlan::Release
    } else {
        SurfacePlan::Rebuild
    }
}

/// Decide what to do with the render target for a requested size.
pub fn surface_plan(cur_w: u32, cur_h: u32, ready: bool, want_w: u32, want_h: u32) -> (r: SurfacePlan)
    ensures
        r == spec_surface_plan(cur_w, cur_h, ready, want_w, want_h),
{
    if cur_w == want_w && cur_h == want_h && ready {
        SurfacePlan::Keep
    } else if want_w == 0 || want_h == 0 {
        SurfacePlan::Release
    } else {
        SurfacePlan::Rebuild
    }
}

/// The generation after a rebuild: one more, wrapping at the top.
pub open spec fn spec_next_generation(g: u64) -> u64 {
    if g == u64::MAX {
        0
    } else {
        (g + 1) as u64
    }
}

/// Bump the rebuild counter.
pub fn next_generation(g: u64) -> (r: u64)
    ensures
        r == spec_next_generation(g),
        r != g,
{
    if g == u64::MAX {
        0
    } else {
        g + 1
    }
}

/// Asking again for the size just built keeps the target: a rebuild is
/// never followed by another one for the same request.
pub proof fn law_rebuild_then_keep(cur_w: u32, cur_h: u32, ready: bool, want_w: u32, want_h: u32)
    requires
        spec_surface_plan(cur_w, cur_h, ready, want_w, want_h) == SurfacePlan::Rebuild,
    ensures
        spec_surface_plan(want_w, want_h, true, want_w, want_h) == SurfacePlan::Keep,
        want_w > 0 && want_h > 0,
{
}

} // verus!
