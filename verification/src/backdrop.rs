//! Bookkeeping for the blurred backdrop behind the frosted themes.
//!
//! The desktop under the notch is captured at a fraction of its size and
//! scaled back up, which is what blurs it. The capture surface is a
//! grow-only capacity: smaller regions reuse its top-left corner, because
//! the notch changes size on every frame of its open animation and
//! reallocating sixty times a second is the one thing here that would cost.
//! This module decides sizes and when to reallocate; the GDI work is the
//! caller's.

use vstd::prelude::*;
use vstd::slice::*;
use crate::config::NotchTheme;
use crate::hook::trunc_div;
use crate::state::clamp_int;

verus! {

/// How far the capture is shrunk before being scaled back up.
pub const DOWNSCALE: i32 = 8;
/// Whether a notch theme sits on a blurred capture of the screen, and the
/// capture's downscale: only the frosted theme does, at [`DOWNSCALE`].
pub open spec fn spec_theme_blur(theme: NotchTheme) -> (bool, i32) {
    match theme {
        NotchTheme::Frosted => (true, DOWNSCALE),
        _ => (false, 0),
    }
}

/// Whether `theme` wants the blurred backdrop, and at what downscale.
pub fn theme_blur(theme: NotchTheme) -> (r: (bool, i32))
    ensures
        r == spec_theme_blur(theme),
{
    match theme {
        NotchTheme::Frosted => (true, DOWNSCALE),
        _ => (false, 0),
    }
}

/// Smallest capture side, in capture pixels.
pub const MIN_DIM: i32 = 2;
/// Largest capture side, in capture pixels.
pub const MAX_DIM: i32 = 512;

/// Capture pixels needed along one side of a region `x` screen pixels long.
pub open spec fn spec_extent_dim(x: i32) -> int {
    clamp_int(trunc_div(x as int, DOWNSCALE as int), MIN_DIM as int, MAX_DIM as int)
}

/// What to do for one capture request.
#[derive(Debug, Clone, Copy, PartialEq, Eq, Structural)]
pub enum CapturePlan {
    /// Capturing is off for good, or the region is empty.
    Skip,
    /// The current surface is large enough; capture into its `uw` x `uh`
    /// corner.
    Reuse { uw: i32, uh: i32 },
    /// Allocate a surface for an `alloc_w` x `alloc_h` screen region first,
    /// then capture into its `uw` x `uh` corner.
    Grow { alloc_w: i32, alloc_h: i32, uw: i32, uh: i32 },
}

/// Capacity of the capture surface, and whether capturing has failed for
/// good.
#[derive(Debug, Clone, Copy, PartialEq, Eq, Structural)]
pub struct CaptureBudget {
    /// Capture pixels the current surface holds; zero when there is none.
    pub capacity_w: i32,
    pub capacity_h: i32,
    /// Whether a surface is currently allocated.
    pub has_surface: bool,
    /// Set once allocation failed, so a machine that cannot capture is not
    /// asked again.
    pub broken: bool,
}

impl CaptureBudget {
    /// A capacity never exceeds what one surface can be.
    pub open spec fn wf(self) -> bool {
        &&& 0 <= self.capacity_w <= MAX_DIM
        &&& 0 <= self.capacity_h <= MAX_DIM
    }

    /// The plan for capturing a `width` x `height` region.
    pub open spec fn spec_plan(self, width: i32, height: i32) -> CapturePlan {
        if self.broken || width <= 0 || height <= 0 {
            CapturePlan::Skip
        } else {
            let uw = spec_extent_dim(width);
            let uh = spec_extent_dim(height);
            if !self.has_surface || uw > self.capacity_w || uh > self.capacity_h {
                let want_w = if uw > self.capacity_w {
                    uw
                } else {
                    self.capacity_w as int
                };
                let want_h = if uh > self.capacity_h {
                    uh
                } else {
                    self.capacity_h as int
                };
                CapturePlan::Grow {
                    alloc_w: (want_w * DOWNSCALE) as i32,
                    alloc_h: (want_h * DOWNSCALE) as i32,
                    uw: uw as i32,
                    uh: uh as i32,
                }
            } else {
                CapturePlan::Reuse { uw: uw as i32, uh: uh as i32 }
            }
        }
    }

    /// The budget after an allocation for an `alloc_w` x `alloc_h` region
    /// succeeded or failed.
    pub open spec fn spec_record_alloc(self, ok: bool, alloc_w: i32, alloc_h: i32) -> CaptureBudget {
        if ok {
            CaptureBudget {
                capacity_w: spec_extent_dim(alloc_w) as i32,
                capacity_h: spec_extent_dim(alloc_h) as i32,
                has_surface: true,
                broken: self.broken,
            }
        } else {
            CaptureBudget { capacity_w: 0, capacity_h: 0, has_surface: false, broken: true }
        }
    }

    /// Nothing allocated, nothing failed.
    pub fn new() -> (r: Self)
        ensures
            r.wf(),
            r == (CaptureBudget { capacity_w: 0, capacity_h: 0, has_surface: false, broken: false }),
    {
        CaptureBudget { capacity_w: 0, capacity_h: 0, has_surface: false, broken: false }
    }

    /// Decide how to capture a `width` x `height` screen region. A surface
    /// that has to grow grows to the union of the old and the new need, so
    /// a notch that gets wider and then taller does not thrash between two
    /// shapes.
    pub fn plan(&self, width: i32, height: i32) -> (r: CapturePlan)
        requires
            self.wf(),
        ensures
            r == self.spec_plan(width, height),
            !self.broken && width > 0 && height > 0 && self.has_surface && spec_extent_dim(width)
                <= self.capacity_w && spec_extent_dim(height) <= self.capacity_h ==> r
                == (CapturePlan::Reuse {
                uw: spec_extent_dim(width) as i32,
                uh: spec_extent_dim(height) as i32,
            }),
    {
        if self.broken || width <= 0 || height <= 0 {
            return CapturePlan::Skip;
        }
        let (uw, uh) = capture_extent(width, height);
        if !self.has_surface || uw > self.capacity_w || uh > self.capacity_h {
            let want_w = uw.max(self.capacity_w);
            let want_h = uh.max(self.capacity_h);
            CapturePlan::Grow { alloc_w: want_w * DOWNSCALE, alloc_h: want_h * DOWNSCALE, uw, uh }
        } else {
            CapturePlan::Reuse { uw, uh }
        }
    }

    /// Note the outcome of allocating a surface for an `alloc_w` x
    /// `alloc_h` region: its capacity on success, or give up for good.
    pub fn record_alloc(&mut self, ok: bool, alloc_w: i32, alloc_h: i32)
        ensures
            *final(self) == old(self).spec_record_alloc(ok, alloc_w, alloc_h),
            final(self).wf(),
    {
        if ok {
            let (w, h) = capture_extent(alloc_w, alloc_h);
            self.capacity_w = w;
            self.capacity_h = h;
            self.has_surface = true;
        } else {
            self.capacity_w = 0;
            self.capacity_h = 0;
            self.has_surface = false;
            self.broken = true;
        }
    }
}

/// Capture pixels for a `width` x `height` screen region: each side divided
/// by [`DOWNSCALE`] and held within [`MIN_DIM`]..=[`MAX_DIM`].
pub fn capture_extent(width: i32, height: i32) -> (r: (i32, i32))
    ensures
        r.0 == spec_extent_dim(width),
        r.1 == spec_extent_dim(height),
        MIN_DIM <= r.0 <= MAX_DIM,
        MIN_DIM <= r.1 <= MAX_DIM,
{
    let w = (width / DOWNSCALE).max(MIN_DIM).min(MAX_DIM);
    let h = (height / DOWNSCALE).max(MIN_DIM).min(MAX_DIM);
    (w, h)
}

/// Whether byte `i` of a BGRA buffer `stride` pixels wide is the alpha byte
/// of a pixel in the top-left `w` x `h` corner.
pub open spec fn in_used_alpha(i: int, stride: int, w: int, h: int) -> bool {
    stride > 0 && i % 4 == 3 && (i / 4) % stride < w && (i / 4) / stride < h
}

/// Whether byte `i` is the alpha byte of one of the first `col` pixels of
/// row `row`.
spec fn in_row_prefix(i: int, stride: int, row: int, col: int) -> bool {
    stride > 0 && i % 4 == 3 && (i / 4) / stride == row && (i / 4) % stride < col
}

proof fn lemma_pixel_of_byte(i: int, stride: int)
    requires
        0 <= i,
        0 < stride,
    ensures
        i == ((i / 4) / stride * stride + (i / 4) % stride) * 4 + i % 4,
        0 <= (i / 4) % stride < stride,
        0 <= (i / 4) / stride,
        0 <= i % 4 < 4,
{
    let p = i / 4;
    assert(i == p * 4 + i % 4 && 0 <= i % 4 < 4 && p >= 0) by (nonlinear_arith)
        requires
            0 <= i,
            p == i / 4,
    ;
    assert(p == (p / stride) * stride + p % stride && 0 <= p % stride < stride && p / stride >= 0)
        by (nonlinear_arith)
        requires
            0 <= p,
            0 < stride,
    ;
}

/// Make the captured `used_w` x `used_h` corner of a 32-bit BGRA buffer
/// `stride_px` pixels wide opaque. The desktop has no alpha channel, and its
/// zero alpha bytes would read as fully transparent; only the pixels
/// actually written are touched, since the rest is stale.
pub fn force_opaque(bits: &mut [u8], stride_px: usize, used_w: usize, used_h: usize)
    requires
        used_w <= stride_px,
        stride_px * used_h * 4 <= old(bits)@.len(),
    ensures
        final(bits)@.len() == old(bits)@.len(),
        forall|i: int|
            0 <= i < old(bits)@.len() ==> #[trigger] final(bits)@[i] == (if in_used_alpha(
                i,
                stride_px as int,
                used_w as int,
                used_h as int,
            ) {
                0xFFu8
            } else {
                old(bits)@[i]
            }),
{
    let ghost orig = bits@;
    let total = bits.len();
    assert(orig.len() == total);
    let ghost s = stride_px as int;
    let ghost w = used_w as int;
    assert forall|i: int| 0 <= i < orig.len() implies !in_used_alpha(i, s, w, 0) by {
        if s > 0 {
            lemma_pixel_of_byte(i, s);
        }
    }
    let mut row: usize = 0;
    let mut base: usize = 0;
    while row < used_h
        invariant
            used_w <= stride_px,
            stride_px * used_h * 4 <= orig.len(),
            orig.len() <= usize::MAX,
            s == stride_px,
            w == used_w,
            bits@.len() == orig.len(),
            row <= used_h,
            base == row * stride_px * 4,
            forall|i: int|
                0 <= i < orig.len() ==> #[trigger] bits@[i] == (if in_used_alpha(
                    i,
                    s,
                    w,
                    row as int,
                ) {
                    0xFFu8
                } else {
                    orig[i]
                }),
        decreases used_h - row,
    {
        assert(row * stride_px * 4 + stride_px * 4 <= stride_px * used_h * 4) by (nonlinear_arith)
            requires
                row < used_h,
        ;
        assert(stride_px * 4 <= stride_px * used_h * 4) by (nonlinear_arith)
            requires
                row < used_h,
        ;
        let row_bytes = stride_px * 4;
        let mut col: usize = 0;
        while col < used_w
            invariant
                used_w <= stride_px,
                stride_px * used_h * 4 <= orig.len(),
                orig.len() <= usize::MAX,
                s == stride_px,
                w == used_w,
                bits@.len() == orig.len(),
                row < used_h,
                col <= used_w,
                base == row * stride_px * 4,
                base + stride_px * 4 <= orig.len(),
                forall|i: int|
                    0 <= i < orig.len() ==> #[trigger] bits@[i] == (if in_used_alpha(
                        i,
                        s,
                        w,
                        row as int,
                    ) || in_row_prefix(i, s, row as int, col as int) {
                        0xFFu8
                    } else {
                        orig[i]
                    }),
            decreases used_w - col,
        {
            let idx = base + col * 4 + 3;
            let ghost q = row * s + col;
            assert(idx == q * 4 + 3 && q / s == row && q % s == col) by (nonlinear_arith)
                requires
                    idx == base + col * 4 + 3,
                    base == row * s * 4,
                    q == row * s + col,
                    0 <= col < s,
                    0 <= row,
            ;
            assert(idx / 4 == q && idx % 4 == 3);
            let ghost before = bits@;
            bits[idx] = 0xFF;
            assert forall|i: int| 0 <= i < orig.len() implies #[trigger] bits@[i] == (if in_used_alpha(
                i,
                s,
                w,
                row as int,
            ) || in_row_prefix(i, s, row as int, col + 1) {
                0xFFu8
            } else {
                orig[i]
            }) by {
                if i != idx {
                    lemma_pixel_of_byte(i, s);
                    assert(bits@[i] == before[i]);
                    if in_row_prefix(i, s, row as int, col + 1) && !in_row_prefix(
                        i,
                        s,
                        row as int,
                        col as int,
                    ) {
                        assert((i / 4) % s == col);
                        assert(i == q * 4 + 3);
                    }
                }
            }
            col = col + 1;
        }
        assert forall|i: int| 0 <= i < orig.len() implies #[trigger] bits@[i] == (if in_used_alpha(
            i,
            s,
            w,
            row + 1,
        ) {
            0xFFu8
        } else {
            orig[i]
        }) by {
            if s > 0 {
                lemma_pixel_of_byte(i, s);
            }
        }
        row = row + 1;
        base = base + row_bytes;
        assert(base == row * stride_px * 4) by (nonlinear_arith)
            requires
                base == (row - 1) * stride_px * 4 + stride_px * 4,
        ;
    }
}

/// A region that fits the surface already allocated is captured into it:
/// the surface is reallocated only when there is none or the region's
/// extent is strictly larger on some side.
pub proof fn law_fitting_region_reuses(b: CaptureBudget, width: i32, height: i32)
    requires
        b.wf(),
        !b.broken,
        width > 0,
        height > 0,
    ensures
        (b.has_surface && spec_extent_dim(width) <= b.capacity_w && spec_extent_dim(height)
            <= b.capacity_h) ==> b.spec_plan(width, height) == (CapturePlan::Reuse {
            uw: spec_extent_dim(width) as i32,
            uh: spec_extent_dim(height) as i32,
        }),
        b.spec_plan(width, height) is Grow ==> !b.has_surface || spec_extent_dim(width)
            > b.capacity_w || spec_extent_dim(height) > b.capacity_h,
{
}

/// After growing for a region and recording the allocation, asking for the
/// same region again reuses the new surface instead of growing once more.
pub proof fn law_grow_then_reuse(b: CaptureBudget, width: i32, height: i32)
    requires
        b.wf(),
        b.spec_plan(width, height) is Grow,
    ensures
        ({
            let n = b.spec_record_alloc(
                true,
                b.spec_plan(width, height)->alloc_w,
                b.spec_plan(width, height)->alloc_h,
            );
            n.spec_plan(width, height) == (CapturePlan::Reuse {
                uw: spec_extent_dim(width) as i32,
                uh: spec_extent_dim(height) as i32,
            })
        }),
{
    law_capacity_grows_and_covers(b, width, height);
}

/// The capture surface only ever grows, and whatever a plan captures fits
/// in the surface it captures into: a reused surface already holds the
/// region, and a grown one holds both the region and everything the old one
/// held.
pub proof fn law_capacity_grows_and_covers(b: CaptureBudget, width: i32, height: i32)
    requires
        b.wf(),
    ensures
        match b.spec_plan(width, height) {
            CapturePlan::Skip => b.broken || width <= 0 || height <= 0,
            CapturePlan::Reuse { uw, uh } => b.has_surface && uw <= b.capacity_w && uh
                <= b.capacity_h,
            CapturePlan::Grow { alloc_w, alloc_h, uw, uh } => {
                let n = b.spec_record_alloc(true, alloc_w, alloc_h);
                &&& n.wf() && n.has_surface
                &&& n.capacity_w >= b.capacity_w && n.capacity_h >= b.capacity_h
                &&& uw <= n.capacity_w && uh <= n.capacity_h
            },
        },
{
    if !(b.broken || width <= 0 || height <= 0) {
        let uw = spec_extent_dim(width);
        let uh = spec_extent_dim(height);
        let want_w = if uw > b.capacity_w { uw } else { b.capacity_w as int };
        let want_h = if uh > b.capacity_h { uh } else { b.capacity_h as int };
        assert(trunc_div(want_w * 8, 8) == want_w);
        assert(trunc_div(want_h * 8, 8) == want_h);
    }
}

} // verus!
