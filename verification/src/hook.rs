//! Decisions of the low-level mouse hook.
//!
//! The hook watches for two things: the wheel over the open notch, for
//! switching slides, and a left-plus-right button chord over the notch,
//! which toggles click-through. The render thread publishes what the hook
//! needs (the notch's bounds and which of the two features are live) and
//! consumes what it collected; the hook itself only records button state and
//! decides whether each mouse event is swallowed or passed on.

use vstd::prelude::*;

verus! {

/// One wheel notch, in the units Windows reports.
pub const WHEEL_DELTA: i32 = 120;

/// Everything the hook callback reads and writes.
#[derive(Debug, Clone, Copy, PartialEq, Eq, Structural)]
pub struct HookState {
    /// Accumulated notches waiting to be consumed by the render thread.
    pub wheel: i32,
    /// Screen-space bounds of the notch.
    pub bound_l: i32,
    pub bound_t: i32,
    pub bound_r: i32,
    pub bound_b: i32,
    /// False whenever the panel is closed or wheel-switching is off.
    pub wheel_active: bool,
    /// False whenever there is no notch on screen to toggle.
    pub chord_active: bool,
    /// Live button state.
    pub l_down: bool,
    pub r_down: bool,
    /// Latched when both buttons were held together over the notch.
    pub chord: bool,
    /// While a chord is in progress every remaining button event belongs to it.
    pub swallowing: bool,
}

impl Default for HookState {
    fn default() -> (r: Self)
        ensures
            r == (HookState {
                wheel: 0,
                bound_l: 0,
                bound_t: 0,
                bound_r: 0,
                bound_b: 0,
                wheel_active: false,
                chord_active: false,
                l_down: false,
                r_down: false,
                chord: false,
                swallowing: false,
            }),
    {
        HookState {
            wheel: 0,
            bound_l: 0,
            bound_t: 0,
            bound_r: 0,
            bound_b: 0,
            wheel_active: false,
            chord_active: false,
            l_down: false,
            r_down: false,
            chord: false,
            swallowing: false,
        }
    }
}

/// A mouse event as the hook sees it, with the cursor position.
#[derive(Debug, Clone, Copy, PartialEq, Eq, Structural)]
pub enum MouseEvent {
    /// `WM_MOUSEWHEEL`; `mouse_data` carries the signed delta in its high word.
    Wheel { x: i32, y: i32, mouse_data: u32 },
    /// A left or right button going down or up.
    Button { left: bool, down: bool, x: i32, y: i32 },
    /// Moves and everything else.
    Other,
}

/// What the hook does with an event.
#[derive(Debug, Clone, Copy, PartialEq, Eq, Structural)]
pub enum HookVerdict {
    /// Hand it on to the next hook and the window underneath.
    Pass,
    /// Consume it.
    Swallow,
}

/// `x / d` rounded toward zero, as Rust's integer division does.
pub open spec fn trunc_div(x: int, d: int) -> int {
    if x >= 0 {
        x / d
    } else {
        -((-x) / d)
    }
}

/// The signed 16-bit wheel delta held in the high word of `mouse_data`.
pub open spec fn wheel_delta(mouse_data: u32) -> int {
    let hi = mouse_data as int / 0x1_0000;
    if hi >= 0x8000 {
        hi - 0x1_0000
    } else {
        hi
    }
}

/// Whole notches in a wheel event.
pub open spec fn spec_wheel_notches(mouse_data: u32) -> int {
    trunc_div(wheel_delta(mouse_data), WHEEL_DELTA as int)
}

/// Whether the published bounds contain the point (edges included).
pub open spec fn spec_within(s: HookState, x: i32, y: i32) -> bool {
    s.bound_l <= x <= s.bound_r && s.bound_t <= y <= s.bound_b
}

/// The state after publishing bounds and which features are live.
pub open spec fn spec_publish(
    s: HookState,
    wheel: bool,
    chord: bool,
    left: i32,
    top: i32,
    right: i32,
    bottom: i32,
) -> HookState {
    HookState {
        bound_l: left,
        bound_t: top,
        bound_r: right,
        bound_b: bottom,
        wheel_active: wheel,
        chord_active: chord,
        ..s
    }
}

/// The hook's decision on one event, and its state afterwards.
pub open spec fn spec_handle(s: HookState, e: MouseEvent) -> (HookState, HookVerdict) {
    match e {
        MouseEvent::Wheel { x, y, mouse_data } => {
            if s.wheel_active && spec_within(s, x, y) {
                (
                    HookState {
                        wheel: s.wheel.wrapping_add(spec_wheel_notches(mouse_data) as i32),
                        ..s
                    },
                    HookVerdict::Swallow,
                )
            } else {
                (s, HookVerdict::Pass)
            }
        },
        MouseEvent::Button { left, down, x, y } => {
            let r = if left {
                HookState { l_down: down, ..s }
            } else {
                HookState { r_down: down, ..s }
            };
            if r.swallowing {
                (
                    HookState { swallowing: r.l_down || r.r_down, ..r },
                    HookVerdict::Swallow,
                )
            } else if down && r.chord_active && (if left {
                r.r_down
            } else {
                r.l_down
            }) && spec_within(r, x, y) {
                (HookState { chord: true, swallowing: true, ..r }, HookVerdict::Swallow)
            } else {
                (r, HookVerdict::Pass)
            }
        },
        MouseEvent::Other => (s, HookVerdict::Pass),
    }
}

/// Whole wheel notches in an event's `mouse_data`, rounded toward zero.
pub fn wheel_notches(mouse_data: u32) -> (r: i32)
    ensures
        r as int == spec_wheel_notches(mouse_data),
        -273 <= r <= 273,
{
    let hi: u32 = (mouse_data >> 16u32) & 0xFFFFu32;
    assert(hi == mouse_data / 0x1_0000) by (bit_vector)
        requires
            hi == (mouse_data >> 16u32) & 0xFFFFu32,
    ;
    let delta: i32 = if hi >= 0x8000 {
        hi as i32 - 0x1_0000
    } else {
        hi as i32
    };
    if delta >= 0 {
        delta / WHEEL_DELTA
    } else {
        let neg: i32 = -delta;
        -(neg / WHEEL_DELTA)
    }
}

/// Publish what the callback needs to know, once per frame. `wheel` gates
/// slide switching and `chord` gates the click-through toggle.
pub fn publish(
    state: &mut HookState,
    wheel: bool,
    chord: bool,
    left: i32,
    top: i32,
    right: i32,
    bottom: i32,
)
    ensures
        *final(state) == spec_publish(*old(state), wheel, chord, left, top, right, bottom),
{
    state.bound_l = left;
    state.bound_t = top;
    state.bound_r = right;
    state.bound_b = bottom;
    state.wheel_active = wheel;
    state.chord_active = chord;
}

/// Stand everything down, for when there is no notch at all.
pub fn silence(state: &mut HookState)
    ensures
        *final(state) == spec_publish(*old(state), false, false, 0, 0, 0, 0),
{
    publish(state, false, false, 0, 0, 0, 0);
}

/// Consume everything scrolled since the last call.
pub fn take_wheel(state: &mut HookState) -> (r: i32)
    ensures
        r == old(state).wheel,
        *final(state) == (HookState { wheel: 0, ..*old(state) }),
{
    let r = state.wheel;
    state.wheel = 0;
    r
}

/// Consume a pending left-plus-right press over the notch, if there was one.
pub fn take_chord(state: &mut HookState) -> (r: bool)
    ensures
        r == old(state).chord,
        *final(state) == (HookState { chord: false, ..*old(state) }),
{
    let r = state.chord;
    state.chord = false;
    r
}

/// Whether the published bounds contain this point.
pub fn within(state: &HookState, x: i32, y: i32) -> (r: bool)
    ensures
        r == spec_within(*state, x, y),
{
    x >= state.bound_l && x <= state.bound_r && y >= state.bound_t && y <= state.bound_b
}

/// Decide one mouse event: record the buttons, collect wheel notches over
/// the open notch, and catch the two-button chord.
pub fn handle_event(state: &mut HookState, event: MouseEvent) -> (r: HookVerdict)
    ensures
        (*final(state), r) == spec_handle(*old(state), event),
        event matches MouseEvent::Button { left, down, x, y } && down && old(state).chord_active
            && !old(state).swallowing && old(state).bound_l <= x <= old(state).bound_r
            && old(state).bound_t <= y <= old(state).bound_b && (if left {
            old(state).r_down
        } else {
            old(state).l_down
        }) ==> r == HookVerdict::Swallow && final(state).chord && final(state).swallowing,
{
    match event {
        MouseEvent::Wheel { x, y, mouse_data } => {
            if state.wheel_active && within(state, x, y) {
                let n = wheel_notches(mouse_data);
                state.wheel = state.wheel.wrapping_add(n);
                HookVerdict::Swallow
            } else {
                HookVerdict::Pass
            }
        },
        MouseEvent::Button { left, down, x, y } => {
            if left {
                state.l_down = down;
            } else {
                state.r_down = down;
            }
            if state.swallowing {
                if !state.l_down && !state.r_down {
                    state.swallowing = false;
                }
                return HookVerdict::Swallow;
            }
            if down && state.chord_active {
                let other = if left {
                    state.r_down
                } else {
                    state.l_down
                };
                if other && within(state, x, y) {
                    state.chord = true;
                    state.swallowing = true;
                    return HookVerdict::Swallow;
                }
            }
            HookVerdict::Pass
        },
        MouseEvent::Other => HookVerdict::Pass,
    }
}

} // verus!

verus! {

/// The chord does not care which button went down first: pressing either
/// button over the notch while the other is already held latches the chord
/// and swallows the press, as long as the chord is live and no chord is
/// already in progress.
pub proof fn law_chord_in_either_order(s: HookState, left: bool, x: i32, y: i32)
    requires
        s.chord_active,
        !s.swallowing,
        s.bound_l <= x <= s.bound_r,
        s.bound_t <= y <= s.bound_b,
        if left {
            s.r_down
        } else {
            s.l_down
        },
    ensures
        ({
            let (t, v) = spec_handle(s, MouseEvent::Button { left, down: true, x, y });
            &&& v == HookVerdict::Swallow
            &&& t.chord && t.swallowing
            &&& t.l_down && t.r_down
        }),
{
}

/// With everything stood down and no chord in progress, the hook passes
/// every event on and changes nothing but the recorded buttons.
pub proof fn law_silenced_hook_passes_everything(s: HookState, e: MouseEvent)
    requires
        !s.swallowing,
    ensures
        spec_handle(spec_publish(s, false, false, 0, 0, 0, 0), e).1 == HookVerdict::Pass,
        spec_handle(spec_publish(s, false, false, 0, 0, 0, 0), e).0.wheel == s.wheel,
        spec_handle(spec_publish(s, false, false, 0, 0, 0, 0), e).0.chord == s.chord,
{
}

/// A wheel event over the open notch is swallowed and adds its notches; one
/// outside the bounds, or while wheel switching is off, passes through
/// untouched.
pub proof fn law_wheel_over_open_notch(s: HookState, x: i32, y: i32, mouse_data: u32)
    ensures
        ({
            let (t, v) = spec_handle(s, MouseEvent::Wheel { x, y, mouse_data });
            if s.wheel_active && spec_within(s, x, y) {
                v == HookVerdict::Swallow && t.wheel == s.wheel.wrapping_add(
                    spec_wheel_notches(mouse_data) as i32,
                )
            } else {
                v == HookVerdict::Pass && t == s
            }
        }),
{
}

/// Pressing the second button over the notch latches the chord, and every
/// button event until both are released again is swallowed, so neither
/// press nor release reaches the window underneath.
pub proof fn law_chord_is_latched_and_swallowed(s: HookState, x: i32, y: i32)
    requires
        s.chord_active,
        s.l_down,
        !s.r_down,
        !s.swallowing,
        spec_within(s, x, y),
    ensures
        ({
            let (a, va) = spec_handle(s, MouseEvent::Button { left: false, down: true, x, y });
            let (b, vb) = spec_handle(a, MouseEvent::Button { left: true, down: false, x, y });
            let (c, vc) = spec_handle(b, MouseEvent::Button { left: false, down: false, x, y });
            &&& a.chord && va == HookVerdict::Swallow
            &&& b.swallowing && vb == HookVerdict::Swallow
            &&& !c.swallowing && vc == HookVerdict::Swallow
            &&& c.chord
        }),
{
}

} // verus!
