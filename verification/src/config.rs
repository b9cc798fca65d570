//! The configuration model: what the user chose for the edge marquee, the
//! notch, today's status card, the wallpaper slide and the settings window.
//!
//! Colours, type sizes, scroll speeds and the wallpaper framing are stored as
//! floating point by the application and are not part of this model; every
//! field here is one the notch and overlay logic actually reads.

use vstd::prelude::*;

verus! {

/// Which screen edges carry a strip of the edge marquee.
#[derive(Debug, Clone, Copy, PartialEq, Eq, Structural)]
pub struct EdgeSelection {
    pub top: bool,
    pub right: bool,
    pub bottom: bool,
    pub left: bool,
}

impl Default for EdgeSelection {
    fn default() -> (r: Self)
        ensures
            !r.top && !r.right && !r.bottom && !r.left,
    {
        EdgeSelection { top: false, right: false, bottom: false, left: false }
    }
}

/// Clearance between each screen edge and the strip that runs along it.
#[derive(Debug, Clone, Copy, PartialEq, Eq, Structural)]
pub struct PaddingConfig {
    pub top: u32,
    pub right: u32,
    pub bottom: u32,
    pub left: u32,
}

impl Default for PaddingConfig {
    fn default() -> (r: Self)
        ensures
            r.top == 0 && r.right == 0 && r.bottom == 0 && r.left == 0,
    {
        PaddingConfig { top: 0, right: 0, bottom: 0, left: 0 }
    }
}

/// Face and style of the edge marquee's type. The size lives with the
/// application's floating-point settings.
#[derive(Debug, Clone)]
pub struct FontConfig {
    pub family: String,
    pub bold: bool,
    pub italic: bool,
}

impl Default for FontConfig {
    fn default() -> (r: Self)
        ensures
            r.family@ == "Segoe UI"@,
            r.bold,
            !r.italic,
    {
        FontConfig { family: String::from_str("Segoe UI"), bold: true, italic: false }
    }
}

/// Direction of the edge marquee. The speed lives with the application's
/// floating-point settings.
#[derive(Debug, Clone, Copy, PartialEq, Eq, Structural)]
pub struct AnimConfig {
    pub reverse: bool,
}

impl Default for AnimConfig {
    fn default() -> (r: Self)
        ensures
            !r.reverse,
    {
        AnimConfig { reverse: false }
    }
}

/// Horizontal anchor for the notch on its monitor.
#[derive(Debug, Clone, Copy, PartialEq, Eq, Structural)]
pub enum NotchAlign {
    Left,
    Center,
    Right,
}

/// How the notch is finished: a surface treatment, never a re-skin.
#[derive(Debug, Clone, Copy, PartialEq, Eq, Structural)]
pub enum NotchTheme {
    /// Near-black obsidian; the one that vanishes into a laptop bezel.
    Dark,
    /// Bone-white panel with dark type, for light desktops.
    Light,
    /// Translucent, with the screen behind it blurred through the panel.
    Frosted,
}

/// The theme a configuration without one falls back to.
pub open spec fn spec_default_theme() -> NotchTheme {
    NotchTheme::Dark
}

/// The theme a stored configuration that predates themes is given.
pub fn default_theme() -> (r: NotchTheme)
    ensures
        r == spec_default_theme(),
{
    NotchTheme::Dark
}

/// The value a stored configuration that predates the master switch is given.
pub fn default_true() -> (r: bool)
    ensures
        r,
{
    true
}

/// Spaces between repeated copies of the marquee phrase when a stored
/// configuration predates the setting.
pub fn default_phrase_spacing() -> (r: u32)
    ensures
        r == 6,
{
    6
}

impl NotchTheme {
    /// Every theme, in the order the settings window lists them.
    pub const ALL: [NotchTheme; 3] = [NotchTheme::Dark, NotchTheme::Light, NotchTheme::Frosted];

    /// Name shown in the settings window.
    pub fn label(self) -> (r: &'static str)
        ensures
            r@ == (match self {
                NotchTheme::Dark => "Dark"@,
                NotchTheme::Light => "Light"@,
                NotchTheme::Frosted => "Frosted glass"@,
            }),
    {
        match self {
            NotchTheme::Dark => "Dark",
            NotchTheme::Light => "Light",
            NotchTheme::Frosted => "Frosted glass",
        }
    }
}

/// How the settings window is painted. `System` follows what Windows reports.
#[derive(Debug, Clone, Copy, PartialEq, Eq, Structural)]
pub enum UiTheme {
    System,
    Light,
    Dark,
}

impl Default for UiTheme {
    fn default() -> (r: Self)
        ensures
            r == UiTheme::System,
    {
        UiTheme::System
    }
}

impl UiTheme {
    /// Every settings-window theme, in menu order.
    pub const ALL: [UiTheme; 3] = [UiTheme::System, UiTheme::Light, UiTheme::Dark];

    /// Name shown in the settings window.
    pub fn label(self) -> (r: &'static str)
        ensures
            r@ == (match self {
                UiTheme::System => "System"@,
                UiTheme::Light => "Light"@,
                UiTheme::Dark => "Dark"@,
            }),
    {
        match self {
            UiTheme::System => "System",
            UiTheme::Light => "Light",
            UiTheme::Dark => "Dark",
        }
    }
}

/// The faces the notch can show. The order of [`NotchConfig::slides`] is the
/// carousel order the scroll wheel walks through.
#[derive(Debug, Clone, Copy, PartialEq, Eq, Structural)]
pub enum SlideKind {
    /// What today is about, and today's short list.
    Status,
    /// Oversized clock plus the date.
    Clock,
    /// The scrolling marquee, inside the notch.
    Marquee,
    /// A picture with an optional caption.
    Wallpaper,
    /// Whatever the system's media session is playing.
    Media,
}

impl SlideKind {
    /// Every slide, in the default carousel order.
    pub const ALL: [SlideKind; 5] = [
        SlideKind::Status,
        SlideKind::Clock,
        SlideKind::Marquee,
        SlideKind::Wallpaper,
        SlideKind::Media,
    ];

    /// Name shown in the settings window.
    pub fn label(self) -> (r: &'static str)
        ensures
            r@ == (match self {
                SlideKind::Status => "Status"@,
                SlideKind::Clock => "Clock"@,
                SlideKind::Marquee => "Moving text"@,
                SlideKind::Wallpaper => "Wallpaper"@,
                SlideKind::Media => "Now Playing"@,
            }),
    {
        match self {
            SlideKind::Status => "Status",
            SlideKind::Clock => "Clock",
            SlideKind::Marquee => "Moving text",
            SlideKind::Wallpaper => "Wallpaper",
            SlideKind::Media => "Now Playing",
        }
    }
}

/// Which slide the notch settles on when it collapses.
#[derive(Debug, Clone, Copy, PartialEq, Eq, Structural)]
pub enum CollapsedMode {
    /// Stay on whatever slide was showing.
    LastActive,
    Status,
    Clock,
    Marquee,
    Wallpaper,
    Media,
    /// Media while something plays, otherwise the clock, otherwise status.
    Auto,
}

/// One line on today's short list.
#[derive(Debug, Clone)]
pub struct StatusItem {
    pub text: String,
    pub done: bool,
}

impl StatusItem {
    /// A fresh, not yet done item.
    pub fn new(text: &str) -> (r: Self)
        ensures
            r.text@ == text@,
            !r.done,
    {
        StatusItem { text: String::from_str(text), done: false }
    }
}

/// Today's status card: a heading, the one focus line, and a short list.
#[derive(Debug, Clone)]
pub struct StatusConfig {
    /// Small tracked label above the focus line, e.g. "TODAY".
    pub heading: String,
    /// The one thing being worked on right now.
    pub focus: String,
    /// Everything else today is about.
    pub items: Vec<StatusItem>,
}

/// The status card a fresh configuration starts with.
pub open spec fn is_default_status(s: StatusConfig) -> bool {
    &&& s.heading@ == "TODAY"@
    &&& s.focus@ == "Set what you are working on"@
    &&& s.items.len() == 3
    &&& s.items[0].text@ == "Ship the notch overlay"@
    &&& s.items[1].text@ == "Review pull requests"@
    &&& s.items[2].text@ == "Write the release notes"@
    &&& forall|i: int| 0 <= i < 3 ==> !(#[trigger] s.items[i]).done
}

impl Default for StatusConfig {
    fn default() -> (r: Self)
        ensures
            is_default_status(r),
    {
        let mut items: Vec<StatusItem> = Vec::new();
        items.push(StatusItem::new("Ship the notch overlay"));
        items.push(StatusItem::new("Review pull requests"));
        items.push(StatusItem::new("Write the release notes"));
        StatusConfig {
            heading: String::from_str("TODAY"),
            focus: String::from_str("Set what you are working on"),
            items,
        }
    }
}

/// The wallpaper slide: which picture, its caption, and the panel size it
/// asks for (zero meaning the notch's normal expanded size).
#[derive(Debug, Clone)]
pub struct WallpaperConfig {
    pub path: String,
    pub caption: String,
    pub panel_width: u32,
    pub panel_height: u32,
}

impl Default for WallpaperConfig {
    fn default() -> (r: Self)
        ensures
            r.path@.len() == 0,
            r.caption@.len() == 0,
            r.panel_width == 0,
            r.panel_height == 0,
    {
        WallpaperConfig {
            path: String::new(),
            caption: String::new(),
            panel_width: 0,
            panel_height: 0,
        }
    }
}

impl WallpaperConfig {
    /// Whether a picture has been chosen: the path is more than whitespace.
    pub fn has_image(&self) -> (r: bool)
        ensures
            r == !crate::text::is_blank(self.path@),
    {
        let t = self.path.as_str().trim();
        proof {
            crate::text::lemma_trim_empty_iff_blank(self.path@);
        }
        !t.is_empty()
    }
}

/// Per-slide overrides for the moving-text slide; zero means "whatever the
/// notch itself is set to".
#[derive(Debug, Clone, Copy, PartialEq, Eq, Structural)]
pub struct MarqueeConfig {
    /// Whether the line scrolls or is held still.
    pub scroll: bool,
    pub collapsed_width: u32,
    pub collapsed_height: u32,
    pub panel_width: u32,
    pub panel_height: u32,
}

impl Default for MarqueeConfig {
    fn default() -> (r: Self)
        ensures
            r.scroll,
            r.collapsed_width == 0 && r.collapsed_height == 0,
            r.panel_width == 0 && r.panel_height == 0,
    {
        MarqueeConfig {
            scroll: true,
            collapsed_width: 0,
            collapsed_height: 0,
            panel_width: 0,
            panel_height: 0,
        }
    }
}

/// Placement, shape and behaviour of the notch.
#[derive(Debug, Clone)]
pub struct NotchConfig {
    pub enabled: bool,
    pub monitor_index: usize,
    pub align: NotchAlign,
    /// Nudge from the anchor, in pixels. Positive is right.
    pub offset_x: i32,
    /// Distance from the top of the monitor.
    pub offset_y: i32,
    pub collapsed_width: u32,
    pub collapsed_height: u32,
    pub expanded_width: u32,
    pub expanded_height: u32,
    /// The carousel, in scroll order.
    pub slides: Vec<SlideKind>,
    /// The slide the notch rests on when collapsed.
    pub active_slide: usize,
    pub theme: NotchTheme,
    pub font_family: String,
    pub clock_24h: bool,
    /// Grace period after the cursor leaves before collapsing.
    pub collapse_delay_ms: u32,
    pub scroll_to_switch: bool,
    pub always_on_top: bool,
    /// When on, clicks land on whatever is underneath the notch.
    pub click_through: bool,
    /// Which slide to settle on when the panel collapses.
    pub default_collapsed: CollapsedMode,
}

/// The carousel the notch really uses: the configured slides, or the clock
/// alone when every slide was switched off.
pub open spec fn spec_effective_slides(slides: Seq<SlideKind>) -> Seq<SlideKind> {
    if slides.len() == 0 {
        seq![SlideKind::Clock]
    } else {
        slides
    }
}

/// The configured resting slide, pulled back onto the carousel.
pub open spec fn spec_clamped_active(slides: Seq<SlideKind>, active: usize) -> usize {
    let len = spec_effective_slides(slides).len();
    if active < len {
        active
    } else {
        (len - 1) as usize
    }
}

/// The notch a fresh configuration starts with.
pub open spec fn is_default_notch(n: NotchConfig) -> bool {
    &&& n.enabled
    &&& n.monitor_index == 0
    &&& n.align == NotchAlign::Center
    &&& n.offset_x == 0 && n.offset_y == 0
    &&& n.collapsed_width == 188 && n.collapsed_height == 34
    &&& n.expanded_width == 760 && n.expanded_height == 208
    &&& n.slides@ == SlideKind::ALL@
    &&& n.active_slide == 0
    &&& n.theme == NotchTheme::Dark
    &&& n.font_family@ == "Plus Jakarta Sans"@
    &&& !n.clock_24h
    &&& n.collapse_delay_ms == 220
    &&& n.scroll_to_switch
    &&& n.always_on_top
    &&& !n.click_through
    &&& n.default_collapsed == CollapsedMode::LastActive
}

impl Default for NotchConfig {
    fn default() -> (r: Self)
        ensures
            is_default_notch(r),
    {
        let mut slides: Vec<SlideKind> = Vec::new();
        slides.push(SlideKind::Status);
        slides.push(SlideKind::Clock);
        slides.push(SlideKind::Marquee);
        slides.push(SlideKind::Wallpaper);
        slides.push(SlideKind::Media);
        assert(slides@ =~= SlideKind::ALL@);
        NotchConfig {
            enabled: true,
            monitor_index: 0,
            align: NotchAlign::Center,
            offset_x: 0,
            offset_y: 0,
            collapsed_width: 188,
            collapsed_height: 34,
            expanded_width: 760,
            expanded_height: 208,
            slides,
            active_slide: 0,
            theme: NotchTheme::Dark,
            font_family: String::from_str("Plus Jakarta Sans"),
            clock_24h: false,
            collapse_delay_ms: 220,
            scroll_to_switch: true,
            always_on_top: true,
            click_through: false,
            default_collapsed: CollapsedMode::LastActive,
        }
    }
}

impl NotchConfig {
    /// Slides, guaranteed non-empty, so the carousel always has something to
    /// land on even if every slide was unchecked in settings.
    pub fn effective_slides(&self) -> (r: Vec<SlideKind>)
        ensures
            r@ == spec_effective_slides(self.slides@),
            r@.len() >= 1,
    {
        if self.slides.len() == 0 {
            let mut v: Vec<SlideKind> = Vec::new();
            v.push(SlideKind::Clock);
            assert(v@ =~= seq![SlideKind::Clock]);
            v
        } else {
            self.slides.clone()
        }
    }

    /// The resting slide, pulled onto the last slide when it points past the
    /// end of the carousel.
    pub fn clamped_active(&self) -> (r: usize)
        ensures
            r == spec_clamped_active(self.slides@, self.active_slide),
            r < spec_effective_slides(self.slides@).len(),
    {
        let len = self.effective_slides().len();
        self.active_slide.min(len - 1)
    }
}

/// Everything the marquee, the notch and the settings window are set to.
#[derive(Debug, Clone)]
pub struct AppConfig {
    /// The edge marquee's message.
    pub text: String,
    /// Master switch for the edge marquee strips.
    pub overlay_enabled: bool,
    /// Spaces between repeated copies of the phrase.
    pub phrase_spacing: u32,
    pub edges: EdgeSelection,
    pub padding: PaddingConfig,
    /// Strip thickness in pixels.
    pub thickness: u32,
    pub font: FontConfig,
    pub animation: AnimConfig,
    pub click_through: bool,
    pub always_on_top: bool,
    pub monitor_index: usize,
    pub notch: NotchConfig,
    pub status: StatusConfig,
    pub wallpaper: WallpaperConfig,
    pub marquee: MarqueeConfig,
    /// How the settings window itself is painted.
    pub ui_theme: UiTheme,
}

impl Default for AppConfig {
    fn default() -> (r: Self)
        ensures
            r.text@ == "⭐ REMINDER: Stay focused & stay hydrated! • MovingText Desktop Marquee ⭐"@,
            r.overlay_enabled,
            r.phrase_spacing == 6,
            r.edges == (EdgeSelection { top: false, right: false, bottom: false, left: false }),
            r.padding == (PaddingConfig { top: 0, right: 0, bottom: 0, left: 0 }),
            r.thickness == 36,
            r.font.family@ == "Segoe UI"@ && r.font.bold && !r.font.italic,
            !r.animation.reverse,
            r.click_through,
            r.always_on_top,
            r.monitor_index == 0,
            is_default_notch(r.notch),
            is_default_status(r.status),
            r.wallpaper.path@.len() == 0 && r.wallpaper.caption@.len() == 0,
            r.wallpaper.panel_width == 0 && r.wallpaper.panel_height == 0,
            r.marquee == (MarqueeConfig {
                scroll: true,
                collapsed_width: 0,
                collapsed_height: 0,
                panel_width: 0,
                panel_height: 0,
            }),
            r.ui_theme == UiTheme::System,
    {
        AppConfig {
            text: String::from_str(
                "⭐ REMINDER: Stay focused & stay hydrated! • MovingText Desktop Marquee ⭐",
            ),
            overlay_enabled: true,
            phrase_spacing: 6,
            edges: EdgeSelection::default(),
            padding: PaddingConfig::default(),
            thickness: 36,
            font: FontConfig::default(),
            animation: AnimConfig::default(),
            click_through: true,
            always_on_top: true,
            monitor_index: 0,
            notch: NotchConfig::default(),
            status: StatusConfig::default(),
            wallpaper: WallpaperConfig::default(),
            marquee: MarqueeConfig::default(),
            ui_theme: UiTheme::default(),
        }
    }
}

} // verus!
