//! Which monitor a full-screen window covers, and the frame it takes there.

use vstd::prelude::*;

verus! {

/// A monitor's rectangle in virtual-screen pixels.
#[derive(Debug, Clone, Copy, PartialEq, Eq, Structural)]
pub struct MonitorRect {
    pub left: i32,
    pub top: i32,
    pub right: i32,
    pub bottom: i32,
}

/// A window's position and size.
#[derive(Debug, Clone, Copy, PartialEq, Eq, Structural)]
pub struct WindowFrame {
    pub x: i32,
    pub y: i32,
    pub width: u32,
    pub height: u32,
}

/// The monitor the configuration names, or the last one when the index is
/// past the end, or the primary screen's `screen_w` x `screen_h` when no
/// monitor was reported at all.
pub open spec fn spec_pick_monitor(
    monitors: Seq<MonitorRect>,
    index: usize,
    screen_w: i32,
    screen_h: i32,
) -> MonitorRect {
    if monitors.len() == 0 {
        MonitorRect { left: 0, top: 0, right: screen_w, bottom: screen_h }
    } else if index < monitors.len() {
        monitors[index as int]
    } else {
        monitors[monitors.len() - 1]
    }
}

/// The frame covering `rect`, at least one pixel each way.
pub open spec fn spec_window_frame(rect: MonitorRect) -> WindowFrame {
    WindowFrame {
        x: rect.left,
        y: rect.top,
        width: (if rect.right - rect.left < 1 {
            1
        } else {
            rect.right - rect.left
        }) as u32,
        height: (if rect.bottom - rect.top < 1 {
            1
        } else {
            rect.bottom - rect.top
        }) as u32,
    }
}

/// The monitor to cover.
pub fn pick_monitor(monitors: &Vec<MonitorRect>, index: usize, screen_w: i32, screen_h: i32) -> (r:
    MonitorRect)
    ensures
        r == spec_pick_monitor(monitors@, index, screen_w, screen_h),
{
    let last = monitors.len().saturating_sub(1);
    let i = index.min(last);
    if i < monitors.len() {
        monitors[i]
    } else {
        MonitorRect { left: 0, top: 0, right: screen_w, bottom: screen_h }
    }
}

/// The frame a window covering `rect` takes.
pub fn window_frame(rect: MonitorRect) -> (r: WindowFrame)
    requires
        i32::MIN <= rect.right - rect.left <= i32::MAX,
        i32::MIN <= rect.bottom - rect.top <= i32::MAX,
    ensures
        r == spec_window_frame(rect),
        r.width >= 1 && r.height >= 1,
{
    let w = (rect.right - rect.left).max(1);
    let h = (rect.bottom - rect.top).max(1);
    WindowFrame { x: rect.left, y: rect.top, width: w as u32, height: h as u32 }
}

} // verus!
