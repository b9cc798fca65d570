use movingtext::config::{
    default_phrase_spacing, default_theme, default_true, AppConfig, CollapsedMode, EdgeSelection,
    MarqueeConfig, NotchAlign, NotchConfig, NotchTheme, PaddingConfig, SlideKind, StatusConfig,
    StatusItem, UiTheme, WallpaperConfig,
};

#[test]
fn theme_labels() {
    assert_eq!(NotchTheme::Dark.label(), "Dark");
    assert_eq!(NotchTheme::Light.label(), "Light");
    assert_eq!(NotchTheme::Frosted.label(), "Frosted glass");
    assert_eq!(NotchTheme::ALL, [NotchTheme::Dark, NotchTheme::Light, NotchTheme::Frosted]);
}

#[test]
fn ui_theme_labels_and_default() {
    assert_eq!(UiTheme::System.label(), "System");
    assert_eq!(UiTheme::Light.label(), "Light");
    assert_eq!(UiTheme::Dark.label(), "Dark");
    assert_eq!(UiTheme::default(), UiTheme::System);
    assert_eq!(UiTheme::ALL, [UiTheme::System, UiTheme::Light, UiTheme::Dark]);
}

#[test]
fn slide_labels_and_order() {
    let labels: Vec<&str> = SlideKind::ALL.iter().map(|s| s.label()).collect();
    assert_eq!(labels, vec!["Status", "Clock", "Moving text", "Wallpaper", "Now Playing"]);
}

#[test]
fn serde_style_defaults() {
    assert_eq!(default_theme(), NotchTheme::Dark);
    assert!(default_true());
    assert_eq!(default_phrase_spacing(), 6);
}

#[test]
fn status_item_starts_not_done() {
    let item = StatusItem::new("Review pull requests");
    assert_eq!(item.text, "Review pull requests");
    assert!(!item.done);
}

#[test]
fn status_defaults() {
    let s = StatusConfig::default();
    assert_eq!(s.heading, "TODAY");
    assert_eq!(s.focus, "Set what you are working on");
    let texts: Vec<&str> = s.items.iter().map(|i| i.text.as_str()).collect();
    assert_eq!(
        texts,
        vec!["Ship the notch overlay", "Review pull requests", "Write the release notes"]
    );
    assert!(s.items.iter().all(|i| !i.done));
}

#[test]
fn notch_defaults() {
    let n = NotchConfig::default();
    assert!(n.enabled);
    assert_eq!(n.align, NotchAlign::Center);
    assert_eq!((n.collapsed_width, n.collapsed_height), (188, 34));
    assert_eq!((n.expanded_width, n.expanded_height), (760, 208));
    assert_eq!(n.slides, SlideKind::ALL.to_vec());
    assert_eq!(n.font_family, "Plus Jakarta Sans");
    assert_eq!(n.collapse_delay_ms, 220);
    assert_eq!(n.theme, NotchTheme::Dark);
    assert_eq!(n.default_collapsed, CollapsedMode::LastActive);
    assert!(n.scroll_to_switch && n.always_on_top && !n.click_through && !n.clock_24h);
}

#[test]
fn app_defaults() {
    let c = AppConfig::default();
    assert_eq!(
        c.text,
        "⭐ REMINDER: Stay focused & stay hydrated! • MovingText Desktop Marquee ⭐"
    );
    assert!(c.overlay_enabled);
    assert_eq!(c.phrase_spacing, 6);
    assert_eq!(c.edges, EdgeSelection::default());
    assert_eq!(c.padding, PaddingConfig::default());
    assert_eq!(c.thickness, 36);
    assert_eq!(c.font.family, "Segoe UI");
    assert!(c.font.bold && !c.font.italic);
    assert!(c.click_through && c.always_on_top);
    assert_eq!(c.ui_theme, UiTheme::System);
    assert_eq!(c.marquee, MarqueeConfig::default());
    assert!(c.marquee.scroll);
}

#[test]
fn effective_slides_never_empty() {
    let mut n = NotchConfig::default();
    n.slides.clear();
    assert_eq!(n.effective_slides(), vec![SlideKind::Clock]);
    n.slides = vec![SlideKind::Media, SlideKind::Status];
    assert_eq!(n.effective_slides(), vec![SlideKind::Media, SlideKind::Status]);
}

#[test]
fn clamped_active_stays_on_the_carousel() {
    let mut n = NotchConfig::default();
    n.active_slide = 3;
    assert_eq!(n.clamped_active(), 3);
    n.active_slide = 99;
    assert_eq!(n.clamped_active(), 4);
    n.slides.clear();
    assert_eq!(n.clamped_active(), 0);
}

#[test]
fn wallpaper_has_image_ignores_whitespace() {
    let mut w = WallpaperConfig::default();
    assert!(!w.has_image());
    w.path = " \t\u{3000} ".to_string();
    assert!(!w.has_image());
    w.path = "  C:\\pics\\sea.png ".to_string();
    assert!(w.has_image());
}
