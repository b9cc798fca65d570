use movingtext::config::{AppConfig, CollapsedMode, SlideKind};
use movingtext::state::NotchState;

fn cfg() -> AppConfig {
    AppConfig::default()
}

#[test]
fn new_rests_on_clamped_slide() {
    let mut c = cfg();
    c.notch.active_slide = 42;
    let s = NotchState::new(&c);
    assert_eq!(s.active, 4);
    assert!(!s.editing && !s.pinned && !s.hovered && !s.dirty && s.caret_on);
    assert_eq!(s.left_at, None);
    assert_eq!(s.edit_buffer, "");
}

#[test]
fn step_slide_is_clamped_not_wrapped() {
    let c = cfg();
    let mut s = NotchState::new(&c);
    s.step_slide(-1, &c);
    assert_eq!(s.active, 0);
    assert!(!s.dirty);
    s.step_slide(10, &c);
    assert_eq!(s.active, 4);
    assert!(s.dirty);
    s.step_slide(-1, &c);
    assert_eq!(s.active, 3);
    s.step_slide(1, &c);
    assert_eq!(s.active, 4);
}

#[test]
fn step_slide_abandons_edit() {
    let c = cfg();
    let mut s = NotchState::new(&c);
    s.begin_edit(&c);
    assert!(s.editing);
    s.step_slide(1, &c);
    assert!(!s.editing);
    assert_eq!(s.edit_buffer, "");
}

#[test]
fn clamp_active_reports_a_snap() {
    let mut c = cfg();
    let mut s = NotchState::new(&c);
    s.active = 4;
    c.notch.slides = vec![SlideKind::Clock, SlideKind::Status];
    assert!(s.clamp_active(&c));
    assert_eq!(s.active, 1);
    assert!(!s.clamp_active(&c));
}

#[test]
fn edit_commit_trims_and_reports_change() {
    let mut c = cfg();
    let mut s = NotchState::new(&c);
    s.begin_edit(&c);
    assert_eq!(s.edit_buffer, "Set what you are working on");
    for _ in 0.."Set what you are working on".len() {
        s.backspace();
    }
    assert_eq!(s.edit_buffer, "");
    for ch in "  ship it  ".chars() {
        s.type_char(ch);
    }
    assert!(s.commit_edit(&mut c));
    assert_eq!(c.status.focus, "ship it");
    assert!(s.dirty && !s.editing);
    assert_eq!(s.edit_buffer, "");
    // An untouched edit of an already trimmed line changes nothing.
    s.dirty = false;
    s.begin_edit(&c);
    assert!(!s.commit_edit(&mut c));
    assert!(!s.dirty);
}

#[test]
fn commit_without_edit_does_nothing() {
    let mut c = cfg();
    let mut s = NotchState::new(&c);
    assert!(!s.commit_edit(&mut c));
    assert_eq!(c.status.focus, "Set what you are working on");
}

#[test]
fn cancel_undoes_begin() {
    let c = cfg();
    let mut s = NotchState::new(&c);
    s.begin_edit(&c);
    s.type_char('x');
    s.cancel_edit();
    assert!(!s.editing);
    assert_eq!(s.edit_buffer, "");
    assert_eq!(c.status.focus, "Set what you are working on");
}

#[test]
fn typing_filters_controls_and_caps_length() {
    let mut c = cfg();
    c.status.focus = String::new();
    let mut s = NotchState::new(&c);
    s.type_char('a');
    assert_eq!(s.edit_buffer, "", "typing outside the editor is ignored");
    s.begin_edit(&c);
    s.type_char('\n');
    s.type_char('\u{7f}');
    s.type_char('\u{85}');
    assert_eq!(s.edit_buffer, "");
    for _ in 0..200 {
        s.type_char('é');
    }
    assert_eq!(s.edit_buffer.chars().count(), 160);
    s.backspace();
    assert_eq!(s.edit_buffer.chars().count(), 159);
    s.type_char('z');
    assert!(s.edit_buffer.ends_with('z'));
    s.backspace();
    assert_eq!(s.edit_buffer.chars().count(), 159);
}

#[test]
fn display_focus_prompts_when_blank() {
    let mut c = cfg();
    let mut s = NotchState::new(&c);
    assert_eq!(s.display_focus(&c), "Set what you are working on");
    c.status.focus = "   ".to_string();
    assert_eq!(s.display_focus(&c), "What are you working on?");
    s.begin_edit(&c);
    assert_eq!(s.display_focus(&c), "   ");
}

#[test]
fn hover_grace_period() {
    let c = cfg();
    let mut s = NotchState::new(&c);
    // Never hovered: no grace period, the panel stays shut.
    assert!(!s.set_hovered(false, 220, 500));
    assert_eq!(s.left_at, None);
    assert!(s.set_hovered(true, 220, 1_000));
    assert_eq!(s.left_at, None);
    assert!(s.set_hovered(false, 220, 2_000));
    assert_eq!(s.left_at, Some(2_000));
    assert!(s.set_hovered(false, 220, 2_219));
    assert!(!s.set_hovered(false, 220, 2_220));
    assert_eq!(s.left_at, Some(2_000));
}

#[test]
fn pin_and_edit_hold_open() {
    let c = cfg();
    let mut s = NotchState::new(&c);
    s.toggle_pinned(0);
    assert!(s.pinned);
    assert!(s.set_hovered(false, 10, 1_000_000));
    s.toggle_pinned(5_000);
    assert!(!s.pinned);
    // Unpinning with the cursor away restarts the grace period.
    assert_eq!(s.left_at, Some(5_000));
    assert!(s.set_hovered(false, 10, 5_005));
    assert!(!s.set_hovered(false, 10, 5_010));
    s.begin_edit(&c);
    assert!(s.set_hovered(false, 10, 9_000_000));
}

#[test]
fn caret_blinks_only_while_editing() {
    let c = cfg();
    let mut s = NotchState::new(&c);
    s.advance_caret(600_000);
    assert!(s.caret_on);
    assert_eq!(s.caret_clock_us, 0);
    s.begin_edit(&c);
    s.advance_caret(500_000);
    assert!(s.caret_on);
    assert_eq!(s.caret_clock_us, 500_000);
    s.advance_caret(30_000);
    assert!(!s.caret_on);
    assert_eq!(s.caret_clock_us, 0);
    s.type_char('q');
    assert!(s.caret_on);
}

#[test]
fn marquee_visibility() {
    let c = cfg();
    let mut s = NotchState::new(&c);
    assert!(!s.marquee_visible(&c, false));
    assert!(s.marquee_visible(&c, true));
    s.active = 2;
    assert!(s.marquee_visible(&c, false));
    let mut c2 = cfg();
    c2.notch.slides = vec![SlideKind::Clock];
    s.active = 0;
    assert!(!s.marquee_visible(&c2, true));
}

#[test]
fn collapse_modes() {
    let mut c = cfg();
    let mut s = NotchState::new(&c);
    s.active = 3;
    s.apply_default_collapsed(&c, true, false);
    assert_eq!(s.active, 3, "last active stays put");
    c.notch.default_collapsed = CollapsedMode::Clock;
    s.apply_default_collapsed(&c, false, false);
    assert_eq!(s.active, 1);
    c.notch.default_collapsed = CollapsedMode::Auto;
    s.apply_default_collapsed(&c, true, false);
    assert_eq!(s.active, 4, "media while something plays");
    s.apply_default_collapsed(&c, false, true);
    assert_eq!(s.active, 1, "otherwise the clock");
    c.notch.slides = vec![SlideKind::Wallpaper, SlideKind::Status];
    s.apply_default_collapsed(&c, false, false);
    assert_eq!(s.active, 1, "otherwise status");
    c.notch.default_collapsed = CollapsedMode::Media;
    s.active = 0;
    s.apply_default_collapsed(&c, true, false);
    assert_eq!(s.active, 0, "no media slide: stay");
}
