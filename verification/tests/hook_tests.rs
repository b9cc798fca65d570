use movingtext::hook::{
    handle_event, publish, silence, take_chord, take_wheel, wheel_notches, within, HookState,
    HookVerdict, MouseEvent,
};

fn wheel_data(delta: i16) -> u32 {
    ((delta as u16 as u32) << 16) | 0x0000_0001
}

#[test]
fn wheel_notch_conversion() {
    assert_eq!(wheel_notches(wheel_data(120)), 1);
    assert_eq!(wheel_notches(wheel_data(-120)), -1);
    assert_eq!(wheel_notches(wheel_data(240)), 2);
    assert_eq!(wheel_notches(wheel_data(119)), 0);
    assert_eq!(wheel_notches(wheel_data(-119)), 0);
    assert_eq!(wheel_notches(wheel_data(-361)), -3);
    assert_eq!(wheel_notches(wheel_data(i16::MIN)), -273);
    assert_eq!(wheel_notches(wheel_data(i16::MAX)), 273);
}

#[test]
fn bounds_are_inclusive() {
    let mut s = HookState::default();
    publish(&mut s, true, true, 10, 20, 30, 40);
    assert!(within(&s, 10, 20));
    assert!(within(&s, 30, 40));
    assert!(!within(&s, 31, 40));
    assert!(!within(&s, 10, 19));
}

#[test]
fn wheel_over_open_notch_is_collected() {
    let mut s = HookState::default();
    publish(&mut s, true, false, 0, 0, 100, 50);
    let v = handle_event(&mut s, MouseEvent::Wheel { x: 5, y: 5, mouse_data: wheel_data(240) });
    assert_eq!(v, HookVerdict::Swallow);
    let v = handle_event(&mut s, MouseEvent::Wheel { x: 5, y: 5, mouse_data: wheel_data(-120) });
    assert_eq!(v, HookVerdict::Swallow);
    let v = handle_event(&mut s, MouseEvent::Wheel { x: 500, y: 5, mouse_data: wheel_data(120) });
    assert_eq!(v, HookVerdict::Pass);
    assert_eq!(take_wheel(&mut s), 1);
    assert_eq!(take_wheel(&mut s), 0);
}

#[test]
fn wheel_while_closed_passes() {
    let mut s = HookState::default();
    publish(&mut s, false, true, 0, 0, 100, 50);
    let v = handle_event(&mut s, MouseEvent::Wheel { x: 5, y: 5, mouse_data: wheel_data(120) });
    assert_eq!(v, HookVerdict::Pass);
    assert_eq!(take_wheel(&mut s), 0);
}

#[test]
fn chord_toggles_and_swallows_until_release() {
    let mut s = HookState::default();
    publish(&mut s, false, true, 0, 0, 100, 50);
    let ev = |left, down| MouseEvent::Button { left, down, x: 10, y: 10 };
    assert_eq!(handle_event(&mut s, ev(true, true)), HookVerdict::Pass);
    assert_eq!(handle_event(&mut s, ev(false, true)), HookVerdict::Swallow);
    assert!(s.swallowing);
    assert_eq!(handle_event(&mut s, ev(true, false)), HookVerdict::Swallow);
    assert!(s.swallowing);
    assert_eq!(handle_event(&mut s, ev(false, false)), HookVerdict::Swallow);
    assert!(!s.swallowing);
    assert!(take_chord(&mut s));
    assert!(!take_chord(&mut s));
    assert_eq!(handle_event(&mut s, ev(true, true)), HookVerdict::Pass);
}

#[test]
fn chord_outside_bounds_or_silenced_passes() {
    let mut s = HookState::default();
    publish(&mut s, false, true, 0, 0, 100, 50);
    let far = |left, down| MouseEvent::Button { left, down, x: 1000, y: 10 };
    assert_eq!(handle_event(&mut s, far(true, true)), HookVerdict::Pass);
    assert_eq!(handle_event(&mut s, far(false, true)), HookVerdict::Pass);
    assert!(!take_chord(&mut s));
    let mut t = HookState::default();
    silence(&mut t);
    assert!(!t.wheel_active && !t.chord_active);
    let near = |left, down| MouseEvent::Button { left, down, x: 0, y: 0 };
    assert_eq!(handle_event(&mut t, near(true, true)), HookVerdict::Pass);
    assert_eq!(handle_event(&mut t, near(false, true)), HookVerdict::Pass);
    assert_eq!(handle_event(&mut t, MouseEvent::Other), HookVerdict::Pass);
    assert!(!take_chord(&mut t));
}
