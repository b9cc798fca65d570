//! The edge marquee: which strip windows should exist, where each one sits,
//! how its window is styled, and the repeated phrase it scrolls.

use vstd::prelude::*;
use vstd::string::*;
use crate::config::{AppConfig, EdgeSelection, PaddingConfig};

verus! {

/// A screen edge carrying a strip of the marquee.
#[derive(Debug, Clone, Copy, PartialEq, Eq, Hash, Structural)]
pub enum Edge {
    Top,
    Bottom,
    Left,
    Right,
}

/// Where a strip window goes and how big it is, in screen pixels.
#[derive(Debug, Clone, Copy, PartialEq, Eq, Structural)]
pub struct StripRect {
    pub x: i32,
    pub y: i32,
    pub width: i32,
    pub height: i32,
}

/// One step of bringing the strip windows in line with the configuration.
#[derive(Debug, Clone, Copy, PartialEq, Eq, Structural)]
pub enum SyncAction {
    /// The edge already has its window; re-derive its geometry and styles.
    Recalculate(Edge),
    /// The edge is wanted and has no window yet.
    Create(Edge),
    /// The edge is no longer wanted; tear its window down.
    Remove(Edge),
}

/// `WS_EX_LAYERED`.
pub const WS_EX_LAYERED: u32 = 0x0008_0000;
/// `WS_EX_TOOLWINDOW`.
pub const WS_EX_TOOLWINDOW: u32 = 0x0000_0080;
/// `WS_EX_NOACTIVATE`.
pub const WS_EX_NOACTIVATE: u32 = 0x0800_0000;
/// `WS_EX_TOPMOST`.
pub const WS_EX_TOPMOST: u32 = 0x0000_0008;
/// `WS_EX_TRANSPARENT`.
pub const WS_EX_TRANSPARENT: u32 = 0x0000_0020;

/// The edges in the order the windows are brought in line.
pub open spec fn edge_order() -> Seq<Edge> {
    seq![Edge::Top, Edge::Bottom, Edge::Left, Edge::Right]
}

/// Whether `sel` ticks `edge`.
pub open spec fn has_edge(sel: EdgeSelection, edge: Edge) -> bool {
    match edge {
        Edge::Top => sel.top,
        Edge::Bottom => sel.bottom,
        Edge::Left => sel.left,
        Edge::Right => sel.right,
    }
}

/// `sel` with `edge` set to `on`.
pub open spec fn set_edge(sel: EdgeSelection, edge: Edge, on: bool) -> EdgeSelection {
    match edge {
        Edge::Top => EdgeSelection { top: on, ..sel },
        Edge::Bottom => EdgeSelection { bottom: on, ..sel },
        Edge::Left => EdgeSelection { left: on, ..sel },
        Edge::Right => EdgeSelection { right: on, ..sel },
    }
}

/// The step for one edge, if it needs one.
pub open spec fn spec_edge_action(open: EdgeSelection, want: EdgeSelection, edge: Edge) -> Seq<
    SyncAction,
> {
    if has_edge(want, edge) {
        if has_edge(open, edge) {
            seq![SyncAction::Recalculate(edge)]
        } else {
            seq![SyncAction::Create(edge)]
        }
    } else if has_edge(open, edge) {
        seq![SyncAction::Remove(edge)]
    } else {
        Seq::empty()
    }
}

/// The steps, edge by edge in [`edge_order`].
pub open spec fn spec_sync_plan(open: EdgeSelection, want: EdgeSelection) -> Seq<SyncAction> {
    spec_edge_action(open, want, Edge::Top) + spec_edge_action(open, want, Edge::Bottom)
        + spec_edge_action(open, want, Edge::Left) + spec_edge_action(open, want, Edge::Right)
}

/// The windows that exist after carrying out `plan`, when every creation
/// succeeds.
pub open spec fn spec_apply_plan(open: EdgeSelection, plan: Seq<SyncAction>) -> EdgeSelection
    decreases plan.len(),
{
    if plan.len() == 0 {
        open
    } else {
        let next = match plan[0] {
            SyncAction::Recalculate(_) => open,
            SyncAction::Create(e) => set_edge(open, e, true),
            SyncAction::Remove(e) => set_edge(open, e, false),
        };
        spec_apply_plan(next, plan.drop_first())
    }
}

/// The extended window style of a strip: layered, out of the task bar and
/// never activated; topmost and click-through when asked.
pub open spec fn spec_strip_style(always_on_top: bool, click_through: bool) -> u32 {
    (WS_EX_LAYERED | WS_EX_TOOLWINDOW | WS_EX_NOACTIVATE) | (if always_on_top {
        WS_EX_TOPMOST
    } else {
        0u32
    }) | (if click_through {
        WS_EX_TRANSPARENT
    } else {
        0u32
    })
}

/// A padding as the signed value the geometry works with.
pub open spec fn signed(p: u32) -> int {
    (p as i32) as int
}

/// Whether every intermediate of the strip arithmetic fits in `i32`.
pub open spec fn geometry_fits(
    edge: Edge,
    screen_w: i32,
    screen_h: i32,
    pad: PaddingConfig,
    thickness: u32,
) -> bool {
    let l = signed(pad.left);
    let t = signed(pad.top);
    let r = signed(pad.right);
    let b = signed(pad.bottom);
    let th = signed(thickness);
    let fits = |x: int| i32::MIN <= x <= i32::MAX;
    match edge {
        Edge::Top => fits(screen_w - l) && fits(screen_w - l - r),
        Edge::Bottom => fits(screen_w - l) && fits(screen_w - l - r) && fits(screen_h - b) && fits(
            screen_h - b - th,
        ),
        Edge::Left => fits(screen_h - t) && fits(screen_h - t - b),
        Edge::Right => fits(screen_w - r) && fits(screen_w - r - th) && fits(screen_h - t) && fits(
            screen_h - t - b,
        ),
    }
}

/// `max(x, lo)`.
pub open spec fn at_least(x: int, lo: int) -> int {
    if x < lo {
        lo
    } else {
        x
    }
}

/// Where the strip along `edge` goes: inset by the padding on its own side,
/// spanning the screen between the paddings of its neighbours, `thickness`
/// deep; never narrower than one pixel nor pushed off the top or left.
pub open spec fn spec_strip_rect(
    edge: Edge,
    screen_w: i32,
    screen_h: i32,
    pad: PaddingConfig,
    thickness: u32,
) -> StripRect {
    let l = signed(pad.left);
    let t = signed(pad.top);
    let r = signed(pad.right);
    let b = signed(pad.bottom);
    let th = signed(thickness);
    match edge {
        Edge::Top => StripRect {
            x: l as i32,
            y: t as i32,
            width: at_least(screen_w - l - r, 1) as i32,
            height: th as i32,
        },
        Edge::Bottom => StripRect {
            x: l as i32,
            y: at_least(screen_h - b - th, 0) as i32,
            width: at_least(screen_w - l - r, 1) as i32,
            height: th as i32,
        },
        Edge::Left => StripRect {
            x: l as i32,
            y: t as i32,
            width: th as i32,
            height: at_least(screen_h - t - b, 1) as i32,
        },
        Edge::Right => StripRect {
            x: at_least(screen_w - r - th, 0) as i32,
            y: t as i32,
            width: th as i32,
            height: at_least(screen_h - t - b, 1) as i32,
        },
    }
}

/// `n` copies of `s`, back to back.
pub open spec fn repeat_seq(s: Seq<char>, n: nat) -> Seq<char>
    decreases n,
{
    if n == 0 {
        Seq::empty()
    } else {
        repeat_seq(s, (n - 1) as nat) + s
    }
}

/// `n` spaces.
pub open spec fn spaces(n: nat) -> Seq<char> {
    Seq::new(n, |i: int| ' ')
}

/// Whether the strip along `edge` is wanted.
pub fn edge_enabled(sel: &EdgeSelection, edge: Edge) -> (r: bool)
    ensures
        r == has_edge(*sel, edge),
{
    match edge {
        Edge::Top => sel.top,
        Edge::Bottom => sel.bottom,
        Edge::Left => sel.left,
        Edge::Right => sel.right,
    }
}

/// The steps that bring the open strip windows (`open`) in line with the
/// edges the configuration ticks (`want`): keep and re-derive the ones that
/// stay, create the missing ones, remove the unwanted ones.
pub fn sync_plan(open: &EdgeSelection, want: &EdgeSelection) -> (r: Vec<SyncAction>)
    ensures
        r@ == spec_sync_plan(*open, *want),
{
    let mut plan: Vec<SyncAction> = Vec::new();
    let order = [Edge::Top, Edge::Bottom, Edge::Left, Edge::Right];
    let mut i: usize = 0;
    while i < 4
        invariant
            0 <= i <= 4,
            order@ == edge_order(),
            plan@ == (if i == 0 {
                Seq::empty()
            } else if i == 1 {
                spec_edge_action(*open, *want, Edge::Top)
            } else if i == 2 {
                spec_edge_action(*open, *want, Edge::Top) + spec_edge_action(
                    *open,
                    *want,
                    Edge::Bottom,
                )
            } else if i == 3 {
                spec_edge_action(*open, *want, Edge::Top) + spec_edge_action(
                    *open,
                    *want,
                    Edge::Bottom,
                ) + spec_edge_action(*open, *want, Edge::Left)
            } else {
                spec_sync_plan(*open, *want)
            }),
        decreases 4 - i,
    {
        let edge = order[i];
        let ghost before = plan@;
        if edge_enabled(want, edge) {
            if edge_enabled(open, edge) {
                plan.push(SyncAction::Recalculate(edge));
            } else {
                plan.push(SyncAction::Create(edge));
            }
        } else if edge_enabled(open, edge) {
            plan.push(SyncAction::Remove(edge));
        }
        assert(plan@ =~= before + spec_edge_action(*open, *want, edge));
        i = i + 1;
    }
    plan
}

/// The edges that should carry a strip: the ticked ones while the edge
/// marquee's master switch is on, none while it is off (the selection itself
/// is kept for when it comes back).
pub open spec fn spec_wanted_edges(cfg: AppConfig) -> EdgeSelection {
    if cfg.overlay_enabled {
        cfg.edges
    } else {
        EdgeSelection { top: false, right: false, bottom: false, left: false }
    }
}

/// The edges that should carry a strip under this configuration.
pub fn wanted_edges(cfg: &AppConfig) -> (r: EdgeSelection)
    ensures
        r == spec_wanted_edges(*cfg),
{
    if cfg.overlay_enabled {
        cfg.edges
    } else {
        EdgeSelection { top: false, right: false, bottom: false, left: false }
    }
}

/// The extended window style for a strip window.
pub fn strip_style(always_on_top: bool, click_through: bool) -> (r: u32)
    ensures
        r == spec_strip_style(always_on_top, click_through),
{
    let mut style = WS_EX_LAYERED | WS_EX_TOOLWINDOW | WS_EX_NOACTIVATE;
    if always_on_top {
        style = style | WS_EX_TOPMOST;
    }
    if click_through {
        style = style | WS_EX_TRANSPARENT;
    }
    assert((WS_EX_LAYERED | WS_EX_TOOLWINDOW | WS_EX_NOACTIVATE) | 0u32 == (WS_EX_LAYERED
        | WS_EX_TOOLWINDOW | WS_EX_NOACTIVATE)) by (bit_vector);
    assert(forall|x: u32| #[trigger] (x | 0u32) == x) by (bit_vector);
    style
}

/// Position and size of the strip along `edge` on a `screen_w` by
/// `screen_h` screen.
pub fn strip_rect(
    edge: Edge,
    screen_w: i32,
    screen_h: i32,
    pad: &PaddingConfig,
    thickness: u32,
) -> (r: StripRect)
    requires
        geometry_fits(edge, screen_w, screen_h, *pad, thickness),
    ensures
        r == spec_strip_rect(edge, screen_w, screen_h, *pad, thickness),
{
    let l = pad.left as i32;
    let t = pad.top as i32;
    let rt = pad.right as i32;
    let b = pad.bottom as i32;
    let th = thickness as i32;
    match edge {
        Edge::Top => StripRect { x: l, y: t, width: (screen_w - l - rt).max(1), height: th },
        Edge::Bottom => StripRect {
            x: l,
            y: (screen_h - b - th).max(0),
            width: (screen_w - l - rt).max(1),
            height: th,
        },
        Edge::Left => StripRect { x: l, y: t, width: th, height: (screen_h - t - b).max(1) },
        Edge::Right => StripRect {
            x: (screen_w - rt - th).max(0),
            y: t,
            width: th,
            height: (screen_h - t - b).max(1),
        },
    }
}

/// The marquee phrase: the message followed by `spacing` spaces, so that
/// repeated copies stay apart.
pub fn marquee_phrase(text: &str, spacing: u32) -> (r: String)
    ensures
        r@ == text@ + spaces(spacing as nat),
{
    let mut s = String::from_str(text);
    let mut i: u32 = 0;
    while i < spacing
        invariant
            i <= spacing,
            s@ == text@ + spaces(i as nat),
        decreases spacing - i,
    {
        s.push(' ');
        assert(s@ =~= text@ + spaces((i + 1) as nat));
        i = i + 1;
    }
    s
}

/// `count` copies of `phrase`, back to back.
pub fn repeat_phrase(phrase: &str, count: usize) -> (r: String)
    ensures
        r@ == repeat_seq(phrase@, count as nat),
{
    let mut s = String::new();
    let mut i: usize = 0;
    while i < count
        invariant
            i <= count,
            s@ == repeat_seq(phrase@, i as nat),
        decreases count - i,
    {
        s.append(phrase);
        i = i + 1;
    }
    s
}

} // verus!

verus! {

proof fn lemma_apply_concat(open: EdgeSelection, p: Seq<SyncAction>, q: Seq<SyncAction>)
    ensures
        spec_apply_plan(open, p + q) == spec_apply_plan(spec_apply_plan(open, p), q),
    decreases p.len(),
{
    if p.len() == 0 {
        assert(p + q =~= q);
    } else {
        let next = match p[0] {
            SyncAction::Recalculate(_) => open,
            SyncAction::Create(e) => set_edge(open, e, true),
            SyncAction::Remove(e) => set_edge(open, e, false),
        };
        assert((p + q).drop_first() =~= p.drop_first() + q);
        lemma_apply_concat(next, p.drop_first(), q);
    }
}

proof fn lemma_apply_edge(open: EdgeSelection, want: EdgeSelection, edge: Edge)
    ensures
        spec_apply_plan(open, spec_edge_action(open, want, edge)) == set_edge(
            open,
            edge,
            has_edge(want, edge),
        ),
{
    reveal_with_fuel(spec_apply_plan, 2);
    let a = spec_edge_action(open, want, edge);
    if a.len() > 0 {
        assert(a.drop_first() =~= Seq::<SyncAction>::empty());
    }
    match edge {
        Edge::Top => {},
        Edge::Bottom => {},
        Edge::Left => {},
        Edge::Right => {},
    }
}

/// Carrying out the plan, with every creation succeeding, leaves exactly the
/// wanted strips open.
pub proof fn law_sync_reaches_wanted(open: EdgeSelection, want: EdgeSelection)
    ensures
        spec_apply_plan(open, spec_sync_plan(open, want)) == want,
{
    let t = spec_edge_action(open, want, Edge::Top);
    let b = spec_edge_action(open, want, Edge::Bottom);
    let l = spec_edge_action(open, want, Edge::Left);
    let r = spec_edge_action(open, want, Edge::Right);
    lemma_apply_concat(open, t + b + l, r);
    lemma_apply_concat(open, t + b, l);
    lemma_apply_concat(open, t, b);
    lemma_apply_edge(open, want, Edge::Top);
    let o1 = set_edge(open, Edge::Top, want.top);
    assert(spec_edge_action(o1, want, Edge::Bottom) == b);
    lemma_apply_edge(o1, want, Edge::Bottom);
    let o2 = set_edge(o1, Edge::Bottom, want.bottom);
    assert(spec_edge_action(o2, want, Edge::Left) == l);
    lemma_apply_edge(o2, want, Edge::Left);
    let o3 = set_edge(o2, Edge::Left, want.left);
    assert(spec_edge_action(o3, want, Edge::Right) == r);
    lemma_apply_edge(o3, want, Edge::Right);
}

/// With the master switch off, bringing the strips in line with the
/// configuration tears every one of them down, whichever edges are ticked
/// and whichever strips were open; with it on, exactly the ticked edges end
/// up with a strip.
pub proof fn law_master_switch(open: EdgeSelection, cfg: AppConfig)
    ensures
        !cfg.overlay_enabled ==> spec_apply_plan(open, spec_sync_plan(open, spec_wanted_edges(cfg)))
            == (EdgeSelection { top: false, right: false, bottom: false, left: false }),
        cfg.overlay_enabled ==> spec_apply_plan(open, spec_sync_plan(open, spec_wanted_edges(cfg)))
            == cfg.edges,
{
    law_sync_reaches_wanted(open, spec_wanted_edges(cfg));
}

/// Once in line, syncing again creates and removes nothing: every step is a
/// re-derivation of a strip that stays.
pub proof fn law_sync_is_stable(want: EdgeSelection)
    ensures
        forall|i: int|
            0 <= i < spec_sync_plan(want, want).len() ==> (#[trigger] spec_sync_plan(
                want,
                want,
            )[i]) is Recalculate,
{
    let p = spec_sync_plan(want, want);
    let t = spec_edge_action(want, want, Edge::Top);
    let b = spec_edge_action(want, want, Edge::Bottom);
    let l = spec_edge_action(want, want, Edge::Left);
    let r = spec_edge_action(want, want, Edge::Right);
    assert forall|i: int| 0 <= i < p.len() implies (#[trigger] p[i]) is Recalculate by {
        let tb = t + b;
        let tbl = tb + l;
        if i < t.len() {
            assert(p[i] == t[i]);
        } else if i < tb.len() {
            assert(p[i] == b[i - t.len()]);
        } else if i < tbl.len() {
            assert(p[i] == l[i - tb.len()]);
        } else {
            assert(p[i] == r[i - tbl.len()]);
        }
    }
}

/// The top and bottom strips span the same columns, and the left and right
/// strips the same rows, so the four form one frame.
pub proof fn law_strips_form_a_frame(
    screen_w: i32,
    screen_h: i32,
    pad: PaddingConfig,
    thickness: u32,
)
    ensures
        spec_strip_rect(Edge::Top, screen_w, screen_h, pad, thickness).x == spec_strip_rect(
            Edge::Bottom,
            screen_w,
            screen_h,
            pad,
            thickness,
        ).x,
        spec_strip_rect(Edge::Top, screen_w, screen_h, pad, thickness).width == spec_strip_rect(
            Edge::Bottom,
            screen_w,
            screen_h,
            pad,
            thickness,
        ).width,
        spec_strip_rect(Edge::Left, screen_w, screen_h, pad, thickness).y == spec_strip_rect(
            Edge::Right,
            screen_w,
            screen_h,
            pad,
            thickness,
        ).y,
        spec_strip_rect(Edge::Left, screen_w, screen_h, pad, thickness).height == spec_strip_rect(
            Edge::Right,
            screen_w,
            screen_h,
            pad,
            thickness,
        ).height,
{
}

/// `n` copies of a phrase are `n` times as long as the phrase.
pub proof fn law_repeat_length(s: Seq<char>, n: nat)
    ensures
        repeat_seq(s, n).len() == n * s.len(),
    decreases n,
{
    if n > 0 {
        let m = (n - 1) as nat;
        law_repeat_length(s, m);
        assert(repeat_seq(s, n) == repeat_seq(s, m) + s);
        assert(m * s.len() + s.len() == n * s.len()) by (nonlinear_arith)
            requires
                m + 1 == n,
        ;
    } else {
        assert(0 * s.len() == 0) by (nonlinear_arith);
    }
}

} // verus!
