use movingtext::backdrop::{
    capture_extent, force_opaque, theme_blur, CaptureBudget, CapturePlan, DOWNSCALE,
};
use movingtext::config::{AppConfig, NotchTheme, UiTheme};
use movingtext::dialog::{dialog_buffer, dialog_result, image_filter, wide, DIALOG_BUFFER_LEN};
use movingtext::fonts::{eq_ignore_ascii_case, is_private_family, resolve_family};
use movingtext::screen::{pick_monitor, window_frame, MonitorRect, WindowFrame};
use movingtext::settings::{preview_pixels, preview_upload_size, resolve_dark};
use movingtext::surface::{next_generation, surface_plan, SurfacePlan};
use movingtext::tray::{
    apply_tray_action, icon_pixel, icon_pixels, tray_action, tray_menu, TrayAction,
    ID_TRAY_EXIT, ID_TRAY_SETTINGS, ID_TRAY_TOGGLE_MARQUEE, ID_TRAY_TOGGLE_NOTCH,
};

#[test]
fn capture_extents() {
    assert_eq!(capture_extent(760, 208), (95, 26));
    assert_eq!(capture_extent(4, 9), (2, 2));
    assert_eq!(capture_extent(100_000, -50), (512, 2));
}

#[test]
fn capture_budget_grows_only() {
    let mut b = CaptureBudget::new();
    assert_eq!(b.plan(0, 10), CapturePlan::Skip);
    let p = b.plan(760, 208);
    assert_eq!(p, CapturePlan::Grow { alloc_w: 760, alloc_h: 208, uw: 95, uh: 26 });
    b.record_alloc(true, 760, 208);
    assert_eq!((b.capacity_w, b.capacity_h), (95, 26));
    assert_eq!(b.plan(188, 34), CapturePlan::Reuse { uw: 23, uh: 4 });
    // Taller but narrower: grow to the union.
    assert_eq!(b.plan(100, 400), CapturePlan::Grow { alloc_w: 760, alloc_h: 400, uw: 12, uh: 50 });
    b.record_alloc(false, 760, 400);
    assert!(b.broken && !b.has_surface);
    assert_eq!(b.plan(100, 100), CapturePlan::Skip);
}

#[test]
fn force_opaque_touches_only_the_used_corner() {
    let mut bits = vec![0u8; 4 * 3 * 2];
    force_opaque(&mut bits, 4, 2, 1);
    let expect: Vec<u8> = (0..24).map(|i| if i % 4 == 3 && (i / 4) % 4 < 2 && (i / 4) / 4 < 1 { 0xFF } else { 0 }).collect();
    assert_eq!(bits, expect);
    assert_eq!(bits[3], 0xFF);
    assert_eq!(bits[7], 0xFF);
    assert_eq!(bits[11], 0);
}

#[test]
fn monitor_choice_and_frame() {
    let mons = vec![
        MonitorRect { left: 0, top: 0, right: 1920, bottom: 1080 },
        MonitorRect { left: 1920, top: -200, right: 4480, bottom: 1240 },
    ];
    assert_eq!(pick_monitor(&mons, 1, 800, 600), mons[1]);
    assert_eq!(pick_monitor(&mons, 7, 800, 600), mons[1]);
    assert_eq!(pick_monitor(&vec![], 0, 800, 600), MonitorRect { left: 0, top: 0, right: 800, bottom: 600 });
    assert_eq!(window_frame(mons[1]), WindowFrame { x: 1920, y: -200, width: 2560, height: 1440 });
    assert_eq!(window_frame(MonitorRect { left: 5, top: 5, right: 5, bottom: 0 }), WindowFrame { x: 5, y: 5, width: 1, height: 1 });
}

#[test]
fn font_family_resolution() {
    assert_eq!(resolve_family("  "), "Segoe UI");
    assert_eq!(resolve_family(""), "Segoe UI");
    assert_eq!(resolve_family("Consolas"), "Consolas");
    assert!(eq_ignore_ascii_case("Plus JAKARTA sans", "plus jakarta SANS"));
    assert!(!eq_ignore_ascii_case("Noto", "Note"));
    assert!(!eq_ignore_ascii_case("É", "é"));
    let fams = vec!["Plus Jakarta Sans".to_string(), "Noto Sans Devanagari".to_string()];
    assert!(is_private_family(&fams, "noto sans devanagari"));
    assert!(!is_private_family(&fams, "Segoe UI"));
    assert!(!is_private_family(&vec![], "Plus Jakarta Sans"));
}

#[test]
fn settings_theme_and_preview_size() {
    assert!(resolve_dark(UiTheme::Dark, Some(false)));
    assert!(!resolve_dark(UiTheme::Light, Some(true)));
    assert!(!resolve_dark(UiTheme::System, Some(false)));
    assert!(resolve_dark(UiTheme::System, None));
    assert_eq!(preview_upload_size(800, 600), None);
    assert_eq!(preview_upload_size(6000, 4000), Some((1024, 1024)));
    assert_eq!(preview_upload_size(2000, 500), Some((1024, 500)));
    assert_eq!(preview_upload_size(0, 5000), Some((1, 1024)));
}

#[test]
fn tray_icon_artwork() {
    assert_eq!(icon_pixel(4, 4), [248, 189, 56, 255]);
    assert_eq!(icon_pixel(15, 4), [230, 230, 230, 255]);
    assert_eq!(icon_pixel(15, 15), [0, 0, 0, 0]);
    assert_eq!(icon_pixel(0, 0), [0, 0, 0, 0]);
    let px = icon_pixels();
    assert_eq!(px.len(), 32 * 32 * 4);
    for y in 0..32 {
        for x in 0..32 {
            let i = ((y * 32 + x) * 4) as usize;
            assert_eq!(&px[i..i + 4], &icon_pixel(x, y)[..]);
        }
    }
}

#[test]
fn tray_messages() {
    let tray = 0x0400 + 101;
    assert_eq!(tray_action(tray, 0, 0x0202, 0xC123), TrayAction::RestoreSettings);
    assert_eq!(tray_action(tray, 0, 0x0203, 0xC123), TrayAction::RestoreSettings);
    assert_eq!(tray_action(tray, 0, 0x0205, 0xC123), TrayAction::ShowMenu);
    assert_eq!(tray_action(tray, 0, 0x0200, 0xC123), TrayAction::Handled);
    assert_eq!(tray_action(0x0111, 2001, 0, 0xC123), TrayAction::RestoreSettings);
    assert_eq!(tray_action(0x0111, 0x1_0000 + 2002, 0, 0xC123), TrayAction::Exit);
    assert_eq!(tray_action(0x0111, 7, 0, 0xC123), TrayAction::Handled);
    assert_eq!(tray_action(0xC123, 0, 0, 0xC123), TrayAction::ReAddIcon);
    assert_eq!(tray_action(0x0010, 0, 0, 0xC123), TrayAction::Default);
    assert_eq!(tray_action(0, 0, 0, 0), TrayAction::Default);
}

#[test]
fn utf16_wide_strings() {
    assert_eq!(wide("ab"), vec![0x61, 0x62, 0]);
    assert_eq!(wide("é😀"), vec![0xE9, 0xD83D, 0xDE00, 0]);
    let expect: Vec<u16> = "Images\0*.png;*.jpg;*.jpeg;*.jfif;*.bmp;*.gif;*.webp;*.tif;*.tiff;*.ico;*.avif;*.heic;*.heif;*.svg\0All files\0*.*\0\0"
        .encode_utf16()
        .collect();
    assert_eq!(image_filter(), expect);
}

#[test]
fn dialog_buffer_and_result() {
    let buf = dialog_buffer("  C:\\pics\\sea.png  ");
    assert_eq!(buf.len(), DIALOG_BUFFER_LEN);
    let expect: Vec<u16> = "C:\\pics\\sea.png".encode_utf16().collect();
    assert_eq!(&buf[..expect.len()], &expect[..]);
    assert!(buf[expect.len()..].iter().all(|&u| u == 0));
    assert_eq!(dialog_result(&buf), Some("C:\\pics\\sea.png".to_string()));
    let long = "x".repeat(1000);
    assert!(dialog_buffer(&long).iter().all(|&u| u == 0));
    assert_eq!(dialog_result(&dialog_buffer("   ")), None);
    assert_eq!(dialog_result(&[0x20, 0x20, 0]), None);
    assert_eq!(dialog_result(&[0x61, 0xD800, 0x62, 0]), Some("a\u{FFFD}b".to_string()));
    assert_eq!(dialog_result(&[0xDC00, 0xD83D, 0xDE00]), Some("\u{FFFD}😀".to_string()));
    assert_eq!(dialog_result(&[0x61, 0xD83D]), Some("a\u{FFFD}".to_string()));
}

#[test]
fn preview_pixels_shrinks_large_images() {
    // A 2048 x 2 white strip comes back 1024 x 2 and (near enough) white.
    let src = vec![255u8; 2048 * 2 * 4];
    let (px, w, h) = preview_pixels(src, 2048, 2);
    assert_eq!((w, h), (1024, 2));
    assert_eq!(px.len(), 1024 * 2 * 4);
    assert!(px.iter().all(|&b| b >= 254));
}

#[test]
fn preview_pixels_keeps_small_images() {
    let src: Vec<u8> = (0..(3 * 2 * 4)).map(|i| i as u8).collect();
    let (px, w, h) = preview_pixels(src.clone(), 3, 2);
    assert_eq!((w, h), (3, 2));
    assert_eq!(px, src);
}

#[test]
fn tray_menu_has_quick_toggles() {
    let items = tray_menu(true, false);
    let got: Vec<(usize, &str)> = items.iter().map(|i| (i.id, i.label)).collect();
    assert_eq!(
        got,
        vec![
            (ID_TRAY_SETTINGS, "⚙ Open Settings"),
            (ID_TRAY_TOGGLE_NOTCH, "Hide Notch"),
            (ID_TRAY_TOGGLE_MARQUEE, "Show Edge Marquee"),
            (ID_TRAY_EXIT, "❌ Exit Application"),
        ]
    );
    assert_eq!(tray_menu(false, true)[1].label, "Show Notch");
    assert_eq!(tray_menu(false, true)[2].label, "Hide Edge Marquee");
    assert_eq!(tray_action(0x0111, 2003, 0, 0xC123), TrayAction::ToggleNotch);
    assert_eq!(tray_action(0x0111, 2004, 0, 0xC123), TrayAction::ToggleMarquee);
}

#[test]
fn tray_toggles_flip_one_switch() {
    let mut cfg = AppConfig::default();
    assert!(apply_tray_action(&mut cfg, TrayAction::ToggleNotch));
    assert!(!cfg.notch.enabled);
    assert!(cfg.overlay_enabled);
    assert!(apply_tray_action(&mut cfg, TrayAction::ToggleMarquee));
    assert!(!cfg.overlay_enabled);
    assert!(!apply_tray_action(&mut cfg, TrayAction::Exit));
    assert!(apply_tray_action(&mut cfg, TrayAction::ToggleNotch));
    assert!(apply_tray_action(&mut cfg, TrayAction::ToggleMarquee));
    assert!(cfg.notch.enabled && cfg.overlay_enabled);
}

#[test]
fn only_frosted_blurs() {
    assert_eq!(theme_blur(NotchTheme::Frosted), (true, DOWNSCALE));
    assert_eq!(theme_blur(NotchTheme::Dark), (false, 0));
    assert_eq!(theme_blur(NotchTheme::Light), (false, 0));
}

#[test]
fn surface_rebuilds_only_on_change() {
    assert_eq!(surface_plan(760, 208, true, 760, 208), SurfacePlan::Keep);
    assert_eq!(surface_plan(760, 208, false, 760, 208), SurfacePlan::Rebuild);
    assert_eq!(surface_plan(760, 208, true, 800, 208), SurfacePlan::Rebuild);
    assert_eq!(surface_plan(760, 208, true, 0, 208), SurfacePlan::Release);
    assert_eq!(surface_plan(0, 0, false, 0, 0), SurfacePlan::Release);
    assert_eq!(next_generation(4), 5);
    assert_eq!(next_generation(u64::MAX), 0);
}
