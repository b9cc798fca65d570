//! The notification-area icon: its artwork, and what each message its
//! window receives asks the application to do.

use vstd::prelude::*;
use crate::config::{AppConfig, NotchConfig};

verus! {

/// Side of the tray icon, in pixels.
pub const ICON_SIZE: usize = 32;

/// `WM_USER`.
pub const WM_USER: u32 = 0x0400;
/// The callback message the icon posts to its window.
pub const WM_TRAY_ICON: u32 = 0x0400 + 101;
/// `WM_COMMAND`.
pub const WM_COMMAND: u32 = 0x0111;
/// `WM_LBUTTONUP`.
pub const WM_LBUTTONUP: u32 = 0x0202;
/// `WM_LBUTTONDBLCLK`.
pub const WM_LBUTTONDBLCLK: u32 = 0x0203;
/// `WM_RBUTTONUP`.
pub const WM_RBUTTONUP: u32 = 0x0205;
/// Menu item: open the settings window.
pub const ID_TRAY_SETTINGS: usize = 2001;
/// Menu item: quit.
pub const ID_TRAY_EXIT: usize = 2002;
/// Menu item: show or hide the notch.
pub const ID_TRAY_TOGGLE_NOTCH: usize = 2003;
/// Menu item: show or hide the edge marquee.
pub const ID_TRAY_TOGGLE_MARQUEE: usize = 2004;

/// What a message to the tray window asks for.
#[derive(Debug, Clone, Copy, PartialEq, Eq, Structural)]
pub enum TrayAction {
    /// Bring the settings window back.
    RestoreSettings,
    /// Pop the context menu up at the cursor.
    ShowMenu,
    /// Quit the application.
    Exit,
    /// Switch the notch on or off.
    ToggleNotch,
    /// Switch the edge marquee on or off.
    ToggleMarquee,
    /// Explorer restarted and every tray icon is gone: add ours again.
    ReAddIcon,
    /// Ours, but nothing to do.
    Handled,
    /// Not ours; leave it to the default window procedure.
    Default,
}

/// Whether pixel `(x, y)` lies on the icon's two-pixel outline frame.
pub open spec fn is_stroke(x: int, y: int) -> bool {
    (4 <= x <= 27 && (y == 4 || y == 5 || y == 26 || y == 27)) || (4 <= y <= 27 && (x == 4 || x
        == 5 || x == 26 || x == 27))
}

/// Whether pixel `(x, y)` lies in one of the icon's accented corners.
pub open spec fn is_corner(x: int, y: int) -> bool {
    (x <= 8 || x >= 23) && (y <= 8 || y >= 23)
}

/// The BGRA bytes of icon pixel `(x, y)`: cyan corners, a silver outline,
/// and a transparent interior.
pub open spec fn spec_icon_pixel(x: int, y: int) -> Seq<u8> {
    if is_stroke(x, y) {
        if is_corner(x, y) {
            seq![248u8, 189u8, 56u8, 255u8]
        } else {
            seq![230u8, 230u8, 230u8, 255u8]
        }
    } else {
        seq![0u8, 0u8, 0u8, 0u8]
    }
}

/// The whole icon, row by row from the top, four BGRA bytes per pixel.
pub open spec fn spec_icon_bytes() -> Seq<u8> {
    Seq::new(
        (ICON_SIZE * ICON_SIZE * 4) as nat,
        |i: int| spec_icon_pixel((i / 4) % 32, (i / 4) / 32)[i % 4],
    )
}

/// What a message to the tray window asks for.
pub open spec fn spec_tray_action(msg: u32, wparam: usize, lparam: isize, taskbar_created: u32) -> TrayAction {
    if msg == WM_TRAY_ICON {
        let kind = lparam as u32;
        if kind == WM_LBUTTONDBLCLK || kind == WM_LBUTTONUP {
            TrayAction::RestoreSettings
        } else if kind == WM_RBUTTONUP {
            TrayAction::ShowMenu
        } else {
            TrayAction::Handled
        }
    } else if msg == WM_COMMAND {
        let id = wparam % 0x1_0000;
        if id == ID_TRAY_SETTINGS {
            TrayAction::RestoreSettings
        } else if id == ID_TRAY_EXIT {
            TrayAction::Exit
        } else if id == ID_TRAY_TOGGLE_NOTCH {
            TrayAction::ToggleNotch
        } else if id == ID_TRAY_TOGGLE_MARQUEE {
            TrayAction::ToggleMarquee
        } else {
            TrayAction::Handled
        }
    } else if msg != 0 && msg == taskbar_created {
        TrayAction::ReAddIcon
    } else {
        TrayAction::Default
    }
}

/// One entry of the tray's context menu: the command it posts and its text.
#[derive(Debug, Clone, Copy, PartialEq, Eq)]
pub struct MenuItem {
    pub id: usize,
    pub label: &'static str,
}

/// The context menu, top to bottom: open the settings, quick toggles for the
/// notch and the edge marquee (worded for what a click will do), and exit.
pub open spec fn spec_tray_menu(notch_on: bool, marquee_on: bool) -> Seq<(usize, Seq<char>)> {
    seq![
        (ID_TRAY_SETTINGS, "⚙ Open Settings"@),
        (ID_TRAY_TOGGLE_NOTCH, if notch_on {
            "Hide Notch"@
        } else {
            "Show Notch"@
        }),
        (ID_TRAY_TOGGLE_MARQUEE, if marquee_on {
            "Hide Edge Marquee"@
        } else {
            "Show Edge Marquee"@
        }),
        (ID_TRAY_EXIT, "❌ Exit Application"@),
    ]
}

/// The items of the context menu, given whether the notch and the edge
/// marquee are currently on.
pub fn tray_menu(notch_on: bool, marquee_on: bool) -> (r: Vec<MenuItem>)
    ensures
        r@.len() == spec_tray_menu(notch_on, marquee_on).len(),
        forall|i: int|
            0 <= i < r@.len() ==> (#[trigger] r@[i]).id == spec_tray_menu(notch_on, marquee_on)[i].0
                && r@[i].label@ == spec_tray_menu(notch_on, marquee_on)[i].1,
{
    let mut items: Vec<MenuItem> = Vec::new();
    items.push(MenuItem { id: ID_TRAY_SETTINGS, label: "⚙ Open Settings" });
    let notch = if notch_on {
        "Hide Notch"
    } else {
        "Show Notch"
    };
    items.push(MenuItem { id: ID_TRAY_TOGGLE_NOTCH, label: notch });
    let marquee = if marquee_on {
        "Hide Edge Marquee"
    } else {
        "Show Edge Marquee"
    };
    items.push(MenuItem { id: ID_TRAY_TOGGLE_MARQUEE, label: marquee });
    items.push(MenuItem { id: ID_TRAY_EXIT, label: "❌ Exit Application" });
    items
}

/// The configuration after a tray action: the quick toggles flip the
/// notch's or the edge marquee's switch, and nothing else changes.
pub open spec fn spec_apply_tray(cfg: AppConfig, action: TrayAction) -> AppConfig {
    match action {
        TrayAction::ToggleNotch => AppConfig {
            notch: NotchConfig { enabled: !cfg.notch.enabled, ..cfg.notch },
            ..cfg
        },
        TrayAction::ToggleMarquee => AppConfig { overlay_enabled: !cfg.overlay_enabled, ..cfg },
        _ => cfg,
    }
}

/// Carry out a quick toggle on the configuration. Returns true when the
/// configuration changed and needs saving.
pub fn apply_tray_action(cfg: &mut AppConfig, action: TrayAction) -> (r: bool)
    ensures
        *final(cfg) == spec_apply_tray(*old(cfg), action),
        r == (action == TrayAction::ToggleNotch || action == TrayAction::ToggleMarquee),
{
    match action {
        TrayAction::ToggleNotch => {
            cfg.notch.enabled = !cfg.notch.enabled;
            true
        },
        TrayAction::ToggleMarquee => {
            cfg.overlay_enabled = !cfg.overlay_enabled;
            true
        },
        _ => false,
    }
}

/// Toggling twice from the tray leaves the configuration as it was.
pub proof fn law_tray_toggle_twice(cfg: AppConfig, action: TrayAction)
    ensures
        spec_apply_tray(spec_apply_tray(cfg, action), action) == cfg,
{
}

/// The BGRA bytes of icon pixel `(x, y)`.
pub fn icon_pixel(x: i32, y: i32) -> (r: [u8; 4])
    ensures
        r@ == spec_icon_pixel(x as int, y as int),
{
    let is_stroke = (x >= 4 && x <= 27 && (y == 4 || y == 5 || y == 26 || y == 27)) || (y >= 4 && y
        <= 27 && (x == 4 || x == 5 || x == 26 || x == 27));
    let is_corner = (x <= 8 || x >= 23) && (y <= 8 || y >= 23);
    let r = if is_stroke {
        if is_corner {
            [248u8, 189, 56, 255]
        } else {
            [230u8, 230, 230, 255]
        }
    } else {
        [0u8, 0, 0, 0]
    };
    assert(r@ =~= spec_icon_pixel(x as int, y as int));
    r
}

/// The icon's colour bitmap: 32 rows of 32 BGRA pixels, top row first.
pub fn icon_pixels() -> (r: Vec<u8>)
    ensures
        r@ == spec_icon_bytes(),
{
    let mut out: Vec<u8> = Vec::new();
    let mut y: i32 = 0;
    while y < 32
        invariant
            0 <= y <= 32,
            out@.len() == y * 128,
            forall|i: int| 0 <= i < out@.len() ==> #[trigger] out@[i] == spec_icon_bytes()[i],
        decreases 32 - y,
    {
        let mut x: i32 = 0;
        while x < 32
            invariant
                0 <= y < 32,
                0 <= x <= 32,
                out@.len() == y * 128 + x * 4,
                forall|i: int| 0 <= i < out@.len() ==> #[trigger] out@[i] == spec_icon_bytes()[i],
            decreases 32 - x,
        {
            let px = icon_pixel(x, y);
            let ghost start = out@.len() as int;
            let mut k: usize = 0;
            while k < 4
                invariant
                    0 <= y < 32,
                    0 <= x < 32,
                    k <= 4,
                    start == y * 128 + x * 4,
                    out@.len() == start + k,
                    px@ == spec_icon_pixel(x as int, y as int),
                    forall|i: int|
                        0 <= i < out@.len() ==> #[trigger] out@[i] == spec_icon_bytes()[i],
                decreases 4 - k,
            {
                let ghost i = start + k;
                assert(i / 4 == y * 32 + x);
                assert((i / 4) % 32 == x as int && (i / 4) / 32 == y as int);
                assert(i % 4 == k as int);
                out.push(px[k]);
                k = k + 1;
            }
            x = x + 1;
        }
        y = y + 1;
    }
    assert(out@ =~= spec_icon_bytes());
    out
}

/// What a message to the tray window asks for. `taskbar_created` is the
/// registered message Explorer broadcasts when it (re)starts.
pub fn tray_action(msg: u32, wparam: usize, lparam: isize, taskbar_created: u32) -> (r: TrayAction)
    ensures
        r == spec_tray_action(msg, wparam, lparam, taskbar_created),
{
    if msg == WM_TRAY_ICON {
        let kind = lparam as u32;
        if kind == WM_LBUTTONDBLCLK || kind == WM_LBUTTONUP {
            TrayAction::RestoreSettings
        } else if kind == WM_RBUTTONUP {
            TrayAction::ShowMenu
        } else {
            TrayAction::Handled
        }
    } else if msg == WM_COMMAND {
        let id = wparam & 0xffff;
        assert(wparam & 0xffff == wparam % 0x1_0000) by (bit_vector);
        if id == ID_TRAY_SETTINGS {
            TrayAction::RestoreSettings
        } else if id == ID_TRAY_EXIT {
            TrayAction::Exit
        } else if id == ID_TRAY_TOGGLE_NOTCH {
            TrayAction::ToggleNotch
        } else if id == ID_TRAY_TOGGLE_MARQUEE {
            TrayAction::ToggleMarquee
        } else {
            TrayAction::Handled
        }
    } else if msg != 0 && msg == taskbar_created {
        TrayAction::ReAddIcon
    } else {
        TrayAction::Default
    }
}


} // verus!
