//! Runtime state of the notch that is not motion: which slide it rests on,
//! whether the cursor is over it, whether it is pinned, and the inline editor
//! for the focus line.
//!
//! Time enters as milliseconds on the caller's monotonic clock, and the
//! caret's blink clock as microseconds of frame time, so every transition is
//! a plain function of the state and its inputs. The springs that animate the
//! panel belong to the renderer.

use vstd::prelude::*;
use vstd::string::*;
use crate::config::{AppConfig, CollapsedMode, SlideKind, spec_clamped_active, spec_effective_slides};
use crate::text::{is_blank, is_control, is_control_char, lemma_trim_empty_iff_blank, lemma_trim_idempotent, trim_seq};

verus! {

/// Shown when the focus line has been cleared entirely.
pub open spec fn empty_focus() -> Seq<char> {
    "What are you working on?"@
}

/// The focus line holds one thought, not a paragraph.
pub const FOCUS_LIMIT: usize = 160;

/// Half a blink period of the caret, in microseconds.
pub const CARET_HALF_PERIOD_US: u64 = 530_000;

/// The notch's discrete state.
#[derive(Debug)]
pub struct NotchState {
    /// The slide the notch rests on.
    pub active: usize,
    pub hovered: bool,
    /// When the cursor left, in milliseconds; collapsing waits out a grace
    /// period from here.
    pub left_at: Option<u64>,
    /// Holds the panel open regardless of hover.
    pub pinned: bool,
    pub editing: bool,
    pub edit_buffer: String,
    pub caret_on: bool,
    /// Time since the caret last changed, in microseconds.
    pub caret_clock_us: u64,
    /// Notification being inspected, if any.
    pub selected_notification_id: Option<u64>,
    /// Something the user changed needs writing back to disk.
    pub dirty: bool,
}

/// The mathematical content of a [`NotchState`].
pub struct NotchView {
    pub active: usize,
    pub hovered: bool,
    pub left_at: Option<u64>,
    pub pinned: bool,
    pub editing: bool,
    pub buffer: Seq<char>,
    pub caret_on: bool,
    pub caret_clock_us: u64,
    pub selected_notification_id: Option<u64>,
    pub dirty: bool,
}

impl View for NotchState {
    type V = NotchView;

    open spec fn view(&self) -> NotchView {
        NotchView {
            active: self.active,
            hovered: self.hovered,
            left_at: self.left_at,
            pinned: self.pinned,
            editing: self.editing,
            buffer: self.edit_buffer@,
            caret_on: self.caret_on,
            caret_clock_us: self.caret_clock_us,
            selected_notification_id: self.selected_notification_id,
            dirty: self.dirty,
        }
    }
}

/// `x` held inside `lo..=hi`.
pub open spec fn clamp_int(x: int, lo: int, hi: int) -> int {
    if x < lo {
        lo
    } else if x > hi {
        hi
    } else {
        x
    }
}

/// `later - earlier`, or zero when the clock reads earlier than the mark.
pub open spec fn elapsed_ms(earlier: u64, later: u64) -> int {
    if later >= earlier {
        later - earlier
    } else {
        0
    }
}

/// A freshly shown notch resting on the configured slide.
pub open spec fn spec_new(slides: Seq<SlideKind>, active_slide: usize) -> NotchView {
    NotchView {
        active: spec_clamped_active(slides, active_slide),
        hovered: false,
        left_at: None,
        pinned: false,
        editing: false,
        buffer: Seq::empty(),
        caret_on: true,
        caret_clock_us: 0,
        selected_notification_id: None,
        dirty: false,
    }
}

/// Pin toggling: unpinning while the cursor is away starts the grace period.
pub open spec fn spec_toggle_pinned(v: NotchView, now_ms: u64) -> NotchView {
    let pinned = !v.pinned;
    NotchView {
        pinned,
        left_at: if !pinned && !v.hovered {
            Some(now_ms)
        } else {
            v.left_at
        },
        ..v
    }
}

/// State after feeding one frame's hover result: the grace period starts on
/// the frame the cursor leaves, and a notch that was never hovered starts
/// none.
pub open spec fn spec_hover_state(v: NotchView, hovered: bool, now_ms: u64) -> NotchView {
    NotchView {
        hovered,
        left_at: if hovered {
            None
        } else if v.hovered {
            Some(now_ms)
        } else {
            v.left_at
        },
        ..v
    }
}

/// Whether the panel should be open after feeding this hover result: the
/// cursor, typing or a pin hold it open; otherwise it stays open until the
/// grace period since the cursor left has run out.
pub open spec fn spec_wants_open(v: NotchView, hovered: bool, delay_ms: u64, now_ms: u64) -> bool {
    let s = spec_hover_state(v, hovered, now_ms);
    if hovered || s.editing || s.pinned {
        true
    } else {
        match s.left_at {
            Some(at) => elapsed_ms(at, now_ms) < delay_ms,
            None => false,
        }
    }
}

/// The slide `steps` away from `active`, held against both ends of a
/// carousel of `len` slides.
pub open spec fn spec_stepped(active: usize, steps: i32, len: int) -> usize {
    clamp_int((active as i32) + steps, 0, len - 1) as usize
}

/// Leaving the editor without keeping what was typed.
pub open spec fn spec_cancel_edit(v: NotchView) -> NotchView {
    NotchView { editing: false, buffer: Seq::empty(), ..v }
}

/// Walking the carousel; a real move marks the state dirty and abandons an
/// edit in progress.
pub open spec fn spec_step_slide(v: NotchView, steps: i32, len: int) -> NotchView {
    let next = spec_stepped(v.active, steps, len);
    if next != v.active {
        NotchView { active: next, dirty: true, ..spec_cancel_edit(v) }
    } else {
        v
    }
}

/// Entering the editor with the saved focus line.
pub open spec fn spec_begin_edit(v: NotchView, focus: Seq<char>) -> NotchView {
    if v.editing {
        v
    } else {
        NotchView { editing: true, buffer: focus, caret_on: true, caret_clock_us: 0, ..v }
    }
}

/// One typed character: kept while editing, under the length ceiling, and
/// not a control character.
pub open spec fn spec_type_char(v: NotchView, ch: char) -> NotchView {
    if v.editing && v.buffer.len() < FOCUS_LIMIT && !is_control_char(ch) {
        NotchView { buffer: v.buffer.push(ch), caret_on: true, caret_clock_us: 0, ..v }
    } else {
        v
    }
}

/// Deleting the last character while editing.
pub open spec fn spec_backspace(v: NotchView) -> NotchView {
    if v.editing {
        NotchView {
            buffer: if v.buffer.len() > 0 {
                v.buffer.drop_last()
            } else {
                v.buffer
            },
            caret_on: true,
            caret_clock_us: 0,
            ..v
        }
    } else {
        v
    }
}

/// What committing the editor writes into the focus line.
pub open spec fn spec_committed_focus(v: NotchView, focus: Seq<char>) -> Seq<char> {
    if v.editing {
        trim_seq(v.buffer)
    } else {
        focus
    }
}

/// Whether committing changes the saved focus line.
pub open spec fn spec_commit_changes(v: NotchView, focus: Seq<char>) -> bool {
    v.editing && trim_seq(v.buffer) != focus
}

/// The editor state after a commit.
pub open spec fn spec_commit_edit(v: NotchView, focus: Seq<char>) -> NotchView {
    if v.editing {
        NotchView {
            editing: false,
            buffer: Seq::empty(),
            dirty: v.dirty || spec_commit_changes(v, focus),
            ..v
        }
    } else {
        v
    }
}

/// The focus line as rendered: the live buffer while typing, otherwise the
/// saved line, or a prompt when that is blank.
pub open spec fn spec_display_focus(v: NotchView, focus: Seq<char>) -> Seq<char> {
    if v.editing {
        v.buffer
    } else if is_blank(focus) {
        empty_focus()
    } else {
        focus
    }
}

/// The caret after `dt_us` more microseconds: blinking while editing,
/// steadily on otherwise.
pub open spec fn spec_advance_caret(v: NotchView, dt_us: u64) -> NotchView {
    if v.editing {
        let clock = if v.caret_clock_us + dt_us > u64::MAX {
            u64::MAX as int
        } else {
            v.caret_clock_us + dt_us
        };
        if clock >= CARET_HALF_PERIOD_US {
            NotchView { caret_clock_us: 0, caret_on: !v.caret_on, ..v }
        } else {
            NotchView { caret_clock_us: clock as u64, ..v }
        }
    } else {
        NotchView { caret_on: true, caret_clock_us: 0, ..v }
    }
}

/// The slide kind a collapse should settle on, if the mode asks for one.
pub open spec fn spec_collapsed_target(
    mode: CollapsedMode,
    slides: Seq<SlideKind>,
    media_active: bool,
) -> Option<SlideKind> {
    match mode {
        CollapsedMode::LastActive => None,
        CollapsedMode::Status => Some(SlideKind::Status),
        CollapsedMode::Clock => Some(SlideKind::Clock),
        CollapsedMode::Marquee => Some(SlideKind::Marquee),
        CollapsedMode::Wallpaper => Some(SlideKind::Wallpaper),
        CollapsedMode::Media => Some(SlideKind::Media),
        CollapsedMode::Auto => if media_active && slides.contains(SlideKind::Media) {
            Some(SlideKind::Media)
        } else if slides.contains(SlideKind::Clock) {
            Some(SlideKind::Clock)
        } else {
            Some(SlideKind::Status)
        },
    }
}

/// `i` is where `kind` first occurs in `slides`.
pub open spec fn is_first_position(slides: Seq<SlideKind>, kind: SlideKind, i: int) -> bool {
    &&& 0 <= i < slides.len()
    &&& slides[i] == kind
    &&& forall|j: int| 0 <= j < i ==> slides[j] != kind
}

/// Where `kind` first occurs in `slides`, if anywhere.
pub fn position_of(slides: &Vec<SlideKind>, kind: SlideKind) -> (r: Option<usize>)
    ensures
        match r {
            Some(i) => is_first_position(slides@, kind, i as int),
            None => !slides@.contains(kind),
        },
{
    let mut i: usize = 0;
    while i < slides.len()
        invariant
            i <= slides.len(),
            forall|j: int| 0 <= j < i ==> slides@[j] != kind,
        decreases slides.len() - i,
    {
        if slides[i] == kind {
            return Some(i);
        }
        i = i + 1;
    }
    None
}

/// Whether `kind` occurs in `slides`.
fn contains_slide(slides: &Vec<SlideKind>, kind: SlideKind) -> (r: bool)
    ensures
        r == slides@.contains(kind),
{
    match position_of(slides, kind) {
        Some(_) => true,
        None => false,
    }
}

impl NotchState {
    /// A collapsed notch resting on the configured slide.
    pub fn new(cfg: &AppConfig) -> (r: Self)
        ensures
            r@ == spec_new(cfg.notch.slides@, cfg.notch.active_slide),
            r.active < spec_effective_slides(cfg.notch.slides@).len(),
    {
        let active = cfg.notch.clamped_active();
        NotchState {
            active,
            hovered: false,
            left_at: None,
            pinned: false,
            editing: false,
            edit_buffer: String::new(),
            caret_on: true,
            caret_clock_us: 0,
            selected_notification_id: None,
            dirty: false,
        }
    }

    /// Flip the pin; unpinning with the cursor already gone starts the
    /// collapse grace period now.
    pub fn toggle_pinned(&mut self, now_ms: u64)
        ensures
            final(self)@ == spec_toggle_pinned(old(self)@, now_ms),
    {
        self.pinned = !self.pinned;
        if !self.pinned && !self.hovered {
            self.left_at = Some(now_ms);
        }
    }

    /// Feed this frame's hover result; returns whether the panel should be
    /// open.
    pub fn set_hovered(&mut self, hovered: bool, collapse_delay_ms: u64, now_ms: u64) -> (r: bool)
        ensures
            final(self)@ == spec_hover_state(old(self)@, hovered, now_ms),
            r == spec_wants_open(old(self)@, hovered, collapse_delay_ms, now_ms),
    {
        let was_hovered = self.hovered;
        self.hovered = hovered;
        if hovered {
            self.left_at = None;
        } else if was_hovered {
            self.left_at = Some(now_ms);
        }
        if hovered || self.editing || self.pinned {
            return true;
        }
        match self.left_at {
            Some(at) => {
                let elapsed = now_ms.saturating_sub(at);
                elapsed < collapse_delay_ms
            },
            None => false,
        }
    }

    /// Settle on the slide the collapse mode asks for, when the carousel has
    /// one of that kind; otherwise stay put.
    pub fn apply_default_collapsed(
        &mut self,
        cfg: &AppConfig,
        media_active: bool,
        unread_notifs: bool,
    )
        ensures
            ({
                let slides = spec_effective_slides(cfg.notch.slides@);
                match spec_collapsed_target(cfg.notch.default_collapsed, slides, media_active) {
                    Some(kind) => if slides.contains(kind) {
                        final(self)@ == (NotchView { active: final(self).active, ..old(self)@ })
                            && is_first_position(slides, kind, final(self).active as int)
                    } else {
                        final(self)@ == old(self)@
                    },
                    None => final(self)@ == old(self)@,
                }
            }),
            ({
                let slides = spec_effective_slides(cfg.notch.slides@);
                let media = media_active && slides.contains(SlideKind::Media);
                cfg.notch.default_collapsed == CollapsedMode::Auto ==> {
                    &&& media ==> is_first_position(slides, SlideKind::Media, final(self).active as int)
                    &&& !media && slides.contains(SlideKind::Clock) ==> is_first_position(
                        slides,
                        SlideKind::Clock,
                        final(self).active as int,
                    )
                }
            }),
    {
        let slides = cfg.notch.effective_slides();
        let target = match cfg.notch.default_collapsed {
            CollapsedMode::LastActive => {
                return ;
            },
            CollapsedMode::Status => SlideKind::Status,
            CollapsedMode::Clock => SlideKind::Clock,
            CollapsedMode::Marquee => SlideKind::Marquee,
            CollapsedMode::Wallpaper => SlideKind::Wallpaper,
            CollapsedMode::Media => SlideKind::Media,
            CollapsedMode::Auto => {
                if media_active && contains_slide(&slides, SlideKind::Media) {
                    SlideKind::Media
                } else if contains_slide(&slides, SlideKind::Clock) {
                    SlideKind::Clock
                } else {
                    SlideKind::Status
                }
            },
        };
        if let Some(idx) = position_of(&slides, target) {
            if self.active != idx {
                self.active = idx;
            }
        }
    }

    /// The focus line to render.
    pub fn display_focus(&self, cfg: &AppConfig) -> (r: String)
        ensures
            r@ == spec_display_focus(self@, cfg.status.focus@),
    {
        if self.editing {
            self.edit_buffer.clone()
        } else {
            let t = cfg.status.focus.as_str().trim();
            proof {
                lemma_trim_empty_iff_blank(cfg.status.focus@);
            }
            if t.is_empty() {
                String::from_str("What are you working on?")
            } else {
                cfg.status.focus.clone()
            }
        }
    }

    /// Whether the marquee slide can currently be seen: it is the resting
    /// slide, or the panel is open far enough and the carousel holds it.
    pub fn marquee_visible(&self, cfg: &AppConfig, panel_showing: bool) -> (r: bool)
        ensures
            r == ({
                let slides = spec_effective_slides(cfg.notch.slides@);
                (self.active < slides.len() && slides[self.active as int] == SlideKind::Marquee)
                    || (panel_showing && slides.contains(SlideKind::Marquee))
            }),
    {
        let slides = cfg.notch.effective_slides();
        let resting = self.active < slides.len() && slides[self.active] == SlideKind::Marquee;
        resting || (panel_showing && contains_slide(&slides, SlideKind::Marquee))
    }

    /// Advance the caret's blink clock by `dt_us` microseconds of frame time.
    pub fn advance_caret(&mut self, dt_us: u64)
        ensures
            final(self)@ == spec_advance_caret(old(self)@, dt_us),
    {
        if self.editing {
            self.caret_clock_us = self.caret_clock_us.saturating_add(dt_us);
            if self.caret_clock_us >= CARET_HALF_PERIOD_US {
                self.caret_clock_us = 0;
                self.caret_on = !self.caret_on;
            }
        } else {
            self.caret_on = true;
            self.caret_clock_us = 0;
        }
    }

    /// Advance the carousel by `steps` slides, held against both ends rather
    /// than wrapping.
    pub fn step_slide(&mut self, steps: i32, cfg: &AppConfig)
        requires
            spec_effective_slides(cfg.notch.slides@).len() <= i32::MAX,
            i32::MIN <= (old(self).active as i32) + steps <= i32::MAX,
        ensures
            final(self)@ == spec_step_slide(
                old(self)@,
                steps,
                spec_effective_slides(cfg.notch.slides@).len() as int,
            ),
            final(self).active < spec_effective_slides(cfg.notch.slides@).len(),
    {
        let len = cfg.notch.effective_slides().len();
        let target: i32 = self.active as i32 + steps;
        let last: i32 = len as i32 - 1;
        let clamped: i32 = if target < 0 {
            0
        } else if target > last {
            last
        } else {
            target
        };
        let next = clamped as usize;
        if next != self.active {
            self.active = next;
            self.dirty = true;
            self.cancel_edit();
        }
    }

    /// Pull the resting slide back onto the carousel after slides were
    /// removed. Returns true when it moved, so the carousel animation can be
    /// snapped to match.
    pub fn clamp_active(&mut self, cfg: &AppConfig) -> (r: bool)
        ensures
            ({
                let len = spec_effective_slides(cfg.notch.slides@).len();
                &&& r == (old(self).active >= len)
                &&& final(self)@ == (NotchView {
                    active: if r {
                        (len - 1) as usize
                    } else {
                        old(self).active
                    },
                    ..old(self)@
                })
            }),
            final(self).active < spec_effective_slides(cfg.notch.slides@).len(),
    {
        let len = cfg.notch.effective_slides().len();
        if self.active >= len {
            self.active = len - 1;
            true
        } else {
            false
        }
    }

    /// Open the editor on the saved focus line.
    pub fn begin_edit(&mut self, cfg: &AppConfig)
        ensures
            final(self)@ == spec_begin_edit(old(self)@, cfg.status.focus@),
    {
        if self.editing {
            return ;
        }
        self.editing = true;
        self.edit_buffer = cfg.status.focus.clone();
        self.caret_on = true;
        self.caret_clock_us = 0;
    }

    /// Close the editor, discarding what was typed.
    pub fn cancel_edit(&mut self)
        ensures
            final(self)@ == spec_cancel_edit(old(self)@),
    {
        self.editing = false;
        self.edit_buffer.clear();
    }

    /// Write the trimmed buffer into the focus line. Returns true when the
    /// saved line changed.
    pub fn commit_edit(&mut self, cfg: &mut AppConfig) -> (r: bool)
        ensures
            final(self)@ == spec_commit_edit(old(self)@, old(cfg).status.focus@),
            r == spec_commit_changes(old(self)@, old(cfg).status.focus@),
            old(self).editing ==> final(cfg).status.focus@ == trim_seq(old(self).edit_buffer@)
                && r == (trim_seq(old(self).edit_buffer@) != old(cfg).status.focus@),
            !old(self).editing ==> !r && final(cfg).status.focus == old(cfg).status.focus,
            old(self).editing ==> !final(self).editing && final(self).edit_buffer@.len() == 0,
            final(cfg).status.focus@ == spec_committed_focus(old(self)@, old(cfg).status.focus@),
            final(cfg).status.heading == old(cfg).status.heading,
            final(cfg).status.items == old(cfg).status.items,
            final(cfg).text == old(cfg).text,
            final(cfg).notch == old(cfg).notch,
            final(cfg).wallpaper == old(cfg).wallpaper,
            final(cfg).font == old(cfg).font,
            final(cfg).edges == old(cfg).edges && final(cfg).padding == old(cfg).padding,
            final(cfg).marquee == old(cfg).marquee && final(cfg).animation == old(cfg).animation,
            final(cfg).overlay_enabled == old(cfg).overlay_enabled,
            final(cfg).phrase_spacing == old(cfg).phrase_spacing,
            final(cfg).thickness == old(cfg).thickness,
            final(cfg).click_through == old(cfg).click_through,
            final(cfg).always_on_top == old(cfg).always_on_top,
            final(cfg).monitor_index == old(cfg).monitor_index,
            final(cfg).ui_theme == old(cfg).ui_theme,
    {
        if !self.editing {
            return false;
        }
        let next = String::from_str(self.edit_buffer.as_str().trim());
        self.editing = false;
        self.edit_buffer.clear();
        if !(next == cfg.status.focus) {
            cfg.status.focus = next;
            self.dirty = true;
            true
        } else {
            false
        }
    }

    /// Handle one typed character; control characters and characters past
    /// the length ceiling are dropped.
    pub fn type_char(&mut self, ch: char)
        ensures
            final(self)@ == spec_type_char(old(self)@, ch),
    {
        if !self.editing {
            return ;
        }
        if self.edit_buffer.as_str().unicode_len() >= FOCUS_LIMIT {
            return ;
        }
        if !is_control(ch) {
            self.edit_buffer.push(ch);
            self.caret_on = true;
            self.caret_clock_us = 0;
        }
    }

    /// Delete the last typed character.
    pub fn backspace(&mut self)
        ensures
            final(self)@ == spec_backspace(old(self)@),
    {
        if self.editing {
            self.edit_buffer.pop();
            self.caret_on = true;
            self.caret_clock_us = 0;
        }
    }
}

} // verus!

verus! {

/// One thing that can happen to the notch's discrete state.
pub enum NotchEvent {
    TogglePinned { now_ms: u64 },
    Hover { hovered: bool, now_ms: u64 },
    Step { steps: i32, len: int },
    BeginEdit { focus: Seq<char> },
    CancelEdit,
    CommitEdit { focus: Seq<char> },
    TypeChar { ch: char },
    Backspace,
    Caret { dt_us: u64 },
}

/// The state after `e`.
pub open spec fn spec_apply(v: NotchView, e: NotchEvent) -> NotchView {
    match e {
        NotchEvent::TogglePinned { now_ms } => spec_toggle_pinned(v, now_ms),
        NotchEvent::Hover { hovered, now_ms } => spec_hover_state(v, hovered, now_ms),
        NotchEvent::Step { steps, len } => spec_step_slide(v, steps, len),
        NotchEvent::BeginEdit { focus } => spec_begin_edit(v, focus),
        NotchEvent::CancelEdit => spec_cancel_edit(v),
        NotchEvent::CommitEdit { focus } => spec_commit_edit(v, focus),
        NotchEvent::TypeChar { ch } => spec_type_char(v, ch),
        NotchEvent::Backspace => spec_backspace(v),
        NotchEvent::Caret { dt_us } => spec_advance_caret(v, dt_us),
    }
}

/// Outside the editor the edit buffer holds nothing.
pub open spec fn idle_buffer_empty(v: NotchView) -> bool {
    !v.editing ==> v.buffer.len() == 0
}

/// A new notch starts outside the editor with an empty buffer, and every
/// event keeps it so: whatever was typed never outlives the edit.
pub proof fn law_idle_buffer_stays_empty(v: NotchView, e: NotchEvent, slides: Seq<SlideKind>, active_slide: usize)
    requires
        idle_buffer_empty(v),
    ensures
        idle_buffer_empty(spec_new(slides, active_slide)),
        idle_buffer_empty(spec_apply(v, e)),
{
}

/// Cancelling an edit that was just begun puts the state back, apart from
/// the caret being reset to visible.
pub proof fn law_cancel_undoes_begin(v: NotchView, focus: Seq<char>)
    requires
        !v.editing,
        idle_buffer_empty(v),
    ensures
        spec_cancel_edit(spec_begin_edit(v, focus)) == (NotchView {
            caret_on: true,
            caret_clock_us: 0,
            ..v
        }),
{
    assert(v.buffer =~= Seq::<char>::empty());
}

/// Backspace removes exactly the character that was just typed.
pub proof fn law_backspace_undoes_type_char(v: NotchView, ch: char)
    requires
        v.editing,
        v.buffer.len() < FOCUS_LIMIT,
        !is_control_char(ch),
    ensures
        spec_backspace(spec_type_char(v, ch)).buffer == v.buffer,
        spec_type_char(v, ch).buffer.len() == v.buffer.len() + 1,
{
    assert(v.buffer.push(ch).drop_last() =~= v.buffer);
}

/// Typing never takes the buffer past the length ceiling, and a full buffer
/// ignores further characters.
pub proof fn law_type_char_respects_limit(v: NotchView, ch: char)
    ensures
        v.buffer.len() >= FOCUS_LIMIT ==> spec_type_char(v, ch) == v,
        v.buffer.len() <= FOCUS_LIMIT ==> spec_type_char(v, ch).buffer.len() <= FOCUS_LIMIT,
{
}

/// Opening the editor and committing without typing saves the focus line
/// trimmed; doing it a second time changes nothing.
pub proof fn law_commit_untouched_edit(v: NotchView, focus: Seq<char>)
    requires
        !v.editing,
    ensures
        spec_committed_focus(spec_begin_edit(v, focus), focus) == trim_seq(focus),
        spec_commit_changes(spec_begin_edit(v, focus), focus) == (trim_seq(focus) != focus),
        !spec_commit_changes(spec_begin_edit(v, trim_seq(focus)), trim_seq(focus)),
{
    lemma_trim_idempotent(focus);
}

/// The cursor, an edit in progress, or the pin each hold the panel open.
pub proof fn law_hover_edit_or_pin_hold_open(v: NotchView, hovered: bool, delay_ms: u64, now_ms: u64)
    requires
        hovered || v.editing || v.pinned,
    ensures
        spec_wants_open(v, hovered, delay_ms, now_ms),
{
}

/// Committing writes exactly the trimmed buffer as the focus line, whatever
/// was typed (a buffer left blank clears the line, and the notch then shows
/// its prompt), and reports a change exactly when that differs from the line
/// saved before.
pub proof fn law_commit_writes_trimmed_buffer(v: NotchView, focus: Seq<char>)
    requires
        v.editing,
    ensures
        spec_committed_focus(v, focus) == trim_seq(v.buffer),
        spec_commit_changes(v, focus) == (trim_seq(v.buffer) != focus),
        is_blank(v.buffer) ==> spec_committed_focus(v, focus).len() == 0,
        is_blank(v.buffer) ==> spec_commit_changes(v, focus) == (focus.len() != 0),
        is_blank(v.buffer) ==> spec_display_focus(spec_commit_edit(v, focus), spec_committed_focus(v, focus)) == empty_focus(),
        !spec_commit_edit(v, focus).editing && spec_commit_edit(v, focus).buffer.len() == 0,
{
    lemma_trim_empty_iff_blank(v.buffer);
    lemma_trim_empty_iff_blank(trim_seq(v.buffer));
    if is_blank(v.buffer) {
        assert(trim_seq(v.buffer) =~= Seq::<char>::empty());
        if focus.len() == 0 {
            assert(focus =~= Seq::<char>::empty());
        }
    }
}

/// On collapse in automatic mode the notch shows what is playing only when
/// something plays and the carousel has a media slide; otherwise the clock
/// when the carousel has one, otherwise the status card. Every other mode
/// names its slide, and staying on the last slide names none.
pub proof fn law_collapse_target(slides: Seq<SlideKind>, media_active: bool)
    ensures
        media_active && slides.contains(SlideKind::Media) ==> spec_collapsed_target(
            CollapsedMode::Auto,
            slides,
            media_active,
        ) == Some(SlideKind::Media),
        !(media_active && slides.contains(SlideKind::Media)) && slides.contains(SlideKind::Clock)
            ==> spec_collapsed_target(CollapsedMode::Auto, slides, media_active) == Some(
            SlideKind::Clock,
        ),
        !slides.contains(SlideKind::Media) && !slides.contains(SlideKind::Clock)
            ==> spec_collapsed_target(CollapsedMode::Auto, slides, media_active) == Some(
            SlideKind::Status,
        ),
        spec_collapsed_target(CollapsedMode::LastActive, slides, media_active) is None,
        spec_collapsed_target(CollapsedMode::Status, slides, media_active) == Some(SlideKind::Status),
        spec_collapsed_target(CollapsedMode::Clock, slides, media_active) == Some(SlideKind::Clock),
        spec_collapsed_target(CollapsedMode::Marquee, slides, media_active) == Some(SlideKind::Marquee),
        spec_collapsed_target(CollapsedMode::Wallpaper, slides, media_active) == Some(
            SlideKind::Wallpaper,
        ),
        spec_collapsed_target(CollapsedMode::Media, slides, media_active) == Some(SlideKind::Media),
{
}

/// A notch the cursor has not left (nor been unpinned away from) has no
/// grace period to wait out: unless typing or a pin holds it, it stays shut.
pub proof fn law_never_hovered_stays_closed(v: NotchView, delay_ms: u64, now_ms: u64)
    requires
        !v.hovered,
        v.left_at is None,
        !v.editing,
        !v.pinned,
    ensures
        !spec_wants_open(v, false, delay_ms, now_ms),
        spec_hover_state(v, false, now_ms).left_at is None,
{
}

/// Once the cursor, having been over the panel, leaves at `left_ms`, the
/// panel stays open exactly until the grace period has run out.
pub proof fn law_collapse_waits_out_grace(
    v: NotchView,
    left_ms: u64,
    now_ms: u64,
    delay_ms: u64,
)
    requires
        !v.editing,
        !v.pinned,
        left_ms <= now_ms,
    ensures
        ({
            let gone = spec_hover_state(spec_hover_state(v, true, left_ms), false, left_ms);
            spec_wants_open(gone, false, delay_ms, now_ms) == (now_ms - left_ms < delay_ms)
        }),
{
}

/// Walking the carousel stays on it: a step never leaves `0..len`, a step
/// past either end stops at that end, and a step forward then back returns
/// to where it started when there was room to move.
pub proof fn law_step_slide_clamps(v: NotchView, steps: i32, len: int)
    requires
        1 <= len <= i32::MAX,
        v.active < len,
        i32::MIN <= (v.active as i32) + steps <= i32::MAX,
    ensures
        spec_step_slide(v, steps, len).active < len,
        (v.active as i32) + steps >= len - 1 ==> spec_step_slide(v, steps, len).active == len - 1,
        (v.active as i32) + steps <= 0 ==> spec_step_slide(v, steps, len).active == 0,
        v.active + 1 < len ==> spec_step_slide(spec_step_slide(v, 1, len), -1i32, len).active
            == v.active,
{
    assert((v.active as i32) as int == v.active as int);
    let w = spec_step_slide(v, 1, len);
    if v.active + 1 < len {
        assert(w.active == v.active + 1);
        assert((w.active as i32) as int == w.active as int);
    }
}

} // verus!
