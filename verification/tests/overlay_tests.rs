use movingtext::config::{AppConfig, EdgeSelection, PaddingConfig};
use movingtext::overlay::{
    marquee_phrase, repeat_phrase, strip_rect, strip_style, sync_plan, wanted_edges, Edge,
    StripRect,
    SyncAction, WS_EX_LAYERED, WS_EX_NOACTIVATE, WS_EX_TOOLWINDOW, WS_EX_TOPMOST,
    WS_EX_TRANSPARENT,
};

fn sel(top: bool, right: bool, bottom: bool, left: bool) -> EdgeSelection {
    EdgeSelection { top, right, bottom, left }
}

#[test]
fn sync_plan_orders_and_classifies() {
    let open = sel(true, false, true, false);
    let want = sel(true, true, false, false);
    assert_eq!(
        sync_plan(&open, &want),
        vec![SyncAction::Recalculate(Edge::Top), SyncAction::Remove(Edge::Bottom), SyncAction::Create(Edge::Right)]
    );
    assert_eq!(sync_plan(&sel(false, false, false, false), &sel(false, false, false, false)), vec![]);
}

#[test]
fn sync_plan_reaches_wanted_and_is_stable() {
    let open = sel(false, true, true, false);
    let want = sel(true, false, true, true);
    let mut now = open;
    for step in sync_plan(&open, &want) {
        let (edge, on) = match step {
            SyncAction::Recalculate(e) => (e, true),
            SyncAction::Create(e) => (e, true),
            SyncAction::Remove(e) => (e, false),
        };
        match edge {
            Edge::Top => now.top = on,
            Edge::Bottom => now.bottom = on,
            Edge::Left => now.left = on,
            Edge::Right => now.right = on,
        }
    }
    assert_eq!(now, want);
    assert!(sync_plan(&want, &want).iter().all(|a| matches!(a, SyncAction::Recalculate(_))));
}

#[test]
fn strip_geometry() {
    let pad = PaddingConfig { top: 10, right: 20, bottom: 30, left: 40 };
    assert_eq!(strip_rect(Edge::Top, 1920, 1080, &pad, 36), StripRect { x: 40, y: 10, width: 1860, height: 36 });
    assert_eq!(strip_rect(Edge::Bottom, 1920, 1080, &pad, 36), StripRect { x: 40, y: 1014, width: 1860, height: 36 });
    assert_eq!(strip_rect(Edge::Left, 1920, 1080, &pad, 36), StripRect { x: 40, y: 10, width: 36, height: 1040 });
    assert_eq!(strip_rect(Edge::Right, 1920, 1080, &pad, 36), StripRect { x: 1864, y: 10, width: 36, height: 1040 });
}

#[test]
fn strip_geometry_degenerate_screen() {
    let pad = PaddingConfig { top: 800, right: 800, bottom: 800, left: 800 };
    let top = strip_rect(Edge::Top, 1000, 700, &pad, 50);
    assert_eq!(top.width, 1);
    let bottom = strip_rect(Edge::Bottom, 1000, 700, &pad, 50);
    assert_eq!(bottom.y, 0);
    let right = strip_rect(Edge::Right, 1000, 700, &pad, 50);
    assert_eq!((right.x, right.height), (150, 1));
}

#[test]
fn strip_window_style() {
    let base = WS_EX_LAYERED | WS_EX_TOOLWINDOW | WS_EX_NOACTIVATE;
    assert_eq!(strip_style(false, false), base);
    assert_eq!(strip_style(true, false), base | WS_EX_TOPMOST);
    assert_eq!(strip_style(false, true), base | WS_EX_TRANSPARENT);
    assert_eq!(strip_style(true, true), 0x0808_00A8);
}

#[test]
fn phrase_and_repetition() {
    assert_eq!(marquee_phrase("Hi", 3), "Hi   ");
    assert_eq!(marquee_phrase("नमस्ते", 0), "नमस्ते");
    let p = marquee_phrase("ab", 1);
    assert_eq!(repeat_phrase(&p, 3), "ab ab ab ");
    assert_eq!(repeat_phrase(&p, 0), "");
    assert_eq!(repeat_phrase("xyz", 50).chars().count(), 150);
}

#[test]
fn master_switch_tears_every_strip_down() {
    let mut cfg = AppConfig::default();
    cfg.edges = sel(true, false, true, true);
    assert_eq!(wanted_edges(&cfg), sel(true, false, true, true));
    cfg.overlay_enabled = false;
    let none = sel(false, false, false, false);
    assert_eq!(wanted_edges(&cfg), none);
    let plan = sync_plan(&sel(true, true, false, true), &wanted_edges(&cfg));
    assert_eq!(
        plan,
        vec![
            SyncAction::Remove(Edge::Top),
            SyncAction::Remove(Edge::Left),
            SyncAction::Remove(Edge::Right),
        ]
    );
    // The selection itself survives for when the switch comes back on.
    assert_eq!(cfg.edges, sel(true, false, true, true));
}
