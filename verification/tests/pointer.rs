use scrollviews::gestures::DRAG_THRESHOLD;
use scrollviews::{px, Axis, CursorPoint, Gestures, Key, MoveOutcome, PressOutcome, WheelSource};

const MS: u128 = 1_000_000;

fn at(x: i32, y: i32) -> CursorPoint {
    CursorPoint { x: px(x), y: px(y) }
}

fn drag(gestures: &mut Gestures, to: CursorPoint, scrolled: CursorPoint, now: u128) -> MoveOutcome {
    gestures.pointer_move_at(true, to, at(0, 0), scrolled, at(0, 0), now)
}

/// A swipe up that ends in a fling.
fn flung() -> Gestures {
    let mut gestures = Gestures::new();
    gestures.pointer_down(true, at(50, 200));
    drag(&mut gestures, at(50, 190), at(0, -40), 10 * MS);
    drag(&mut gestures, at(50, 170), at(0, -50), 20 * MS);
    let outcome = gestures.pointer_press(true);
    assert_eq!(outcome, PressOutcome { prevent_default: true, fling: Some((0, px(-2000))) });
    gestures
}

#[test]
fn new_gestures_are_at_rest() {
    let gestures = Gestures::new();
    assert!(!gestures.is_scrolling().0);
    assert!(!gestures.is_momentum_running());
    assert_eq!(gestures.clicking_scrollbar(), None);
}

#[test]
fn tap_is_left_to_the_children() {
    let mut gestures = Gestures::new();
    assert!(!gestures.pointer_down(true, at(10, 10)));
    assert_eq!(drag(&mut gestures, at(12, 8), at(0, 0), 0), MoveOutcome::Ignored);
    assert!(!gestures.is_scrolling().0);
    assert_eq!(gestures.pointer_press(true), PressOutcome { prevent_default: false, fling: None });
}

#[test]
fn drag_begins_beyond_the_threshold() {
    let mut gestures = Gestures::new();
    gestures.pointer_down(true, CursorPoint { x: 0, y: 0 });
    let edge = CursorPoint { x: 0, y: DRAG_THRESHOLD };
    assert_eq!(drag(&mut gestures, edge, at(0, -40), 0), MoveOutcome::Ignored);
    let beyond = CursorPoint { x: 0, y: DRAG_THRESHOLD + 1 };
    assert_eq!(drag(&mut gestures, beyond, at(0, -40), 0), MoveOutcome::Drag { x: 0, y: -37 });
    assert!(gestures.is_scrolling().0);
    assert_eq!(DRAG_THRESHOLD, px(2));
}

#[test]
fn drag_follows_the_pointer() {
    let mut gestures = Gestures::new();
    gestures.pointer_down(true, at(100, 100));
    let first = drag(&mut gestures, at(105, 90), at(-20, -40), 0);
    assert_eq!(first, MoveOutcome::Drag { x: -15, y: -50 });
    let second = drag(&mut gestures, at(105, 89), at(-15, -50), MS);
    assert_eq!(second, MoveOutcome::Drag { x: -15, y: -51 });
}

#[test]
fn slow_drag_ends_without_fling() {
    let mut gestures = Gestures::new();
    gestures.pointer_down(true, at(0, 0));
    drag(&mut gestures, at(0, 10), at(0, 0), 0);
    drag(&mut gestures, at(0, 12), at(0, 0), 90 * MS);
    assert_eq!(gestures.pointer_press(true), PressOutcome { prevent_default: true, fling: None });
    assert!(!gestures.is_scrolling().0);
    assert!(!gestures.is_momentum_running());
}

#[test]
fn fling_needs_more_than_the_minimum_along_an_axis() {
    for (moved, expected) in [(15, None), (16, Some((0, px(160))))] {
        let mut gestures = Gestures::new();
        gestures.pointer_down(true, at(0, 0));
        drag(&mut gestures, at(0, 10), at(0, 0), 0);
        drag(&mut gestures, at(0, 10 + moved), at(0, 0), 100 * MS);
        assert_eq!(gestures.pointer_press(true).fling, expected);
    }
}

#[test]
fn fling_scrolls_until_its_momentum_ends() {
    let mut gestures = flung();
    assert!(gestures.is_momentum_running());
    assert!(gestures.is_scrolling().0);
    assert!(gestures.stop_momentum());
    assert!(!gestures.is_scrolling().0);
    assert!(!gestures.stop_momentum());
}

#[test]
fn press_stops_momentum_and_is_no_tap() {
    let mut gestures = flung();
    assert!(gestures.pointer_down(true, at(10, 10)));
    assert!(!gestures.is_momentum_running());
    assert!(!gestures.is_scrolling().0);
    assert_eq!(gestures.pointer_press(true), PressOutcome { prevent_default: true, fling: None });
    assert!(!gestures.pointer_down(true, at(10, 10)));
    assert_eq!(gestures.pointer_press(true), PressOutcome { prevent_default: false, fling: None });
}

#[test]
fn swipe_after_stopping_momentum_needs_no_second_press() {
    let mut gestures = flung();
    gestures.pointer_down(true, at(10, 10));
    let outcome = drag(&mut gestures, at(10, 40), at(0, -100), 0);
    assert_eq!(outcome, MoveOutcome::Drag { x: 0, y: -70 });
    assert!(gestures.is_scrolling().0);
}

#[test]
fn release_leaves_nothing_for_the_next_drag() {
    let mut gestures = flung();
    gestures.pointer_down(true, at(0, 0));
    drag(&mut gestures, at(0, 10), at(0, 0), 30 * MS);
    assert_eq!(gestures.pointer_press(true).fling, None);
    assert_eq!(drag(&mut gestures, at(0, 90), at(0, 0), 31 * MS), MoveOutcome::Ignored);
}

#[test]
fn drag_scrolling_off_leaves_the_pointer_alone() {
    let mut gestures = flung();
    assert!(!gestures.pointer_down(false, at(0, 0)));
    assert!(gestures.is_momentum_running());
    let outcome = gestures.pointer_move(false, at(90, 90), at(0, 0), at(0, 0), at(0, 0));
    assert_eq!(outcome, MoveOutcome::Ignored);
    assert_eq!(gestures.pointer_press(false), PressOutcome { prevent_default: false, fling: None });
    assert!(gestures.is_momentum_running());
}

#[test]
fn scrollbar_follows_the_pointer_until_release() {
    let mut gestures = Gestures::new();
    gestures.click_scrollbar(Axis::Y, px(5));
    assert_eq!(gestures.clicking_scrollbar(), Some((Axis::Y, px(5))));
    let outcome = gestures.pointer_move(true, at(0, 0), at(30, 80), at(0, 0), at(3, 20));
    assert_eq!(outcome, MoveOutcome::Scrollbar { axis: Axis::Y, cursor: px(55) as i128 });
    assert_eq!(gestures.pointer_press(true), PressOutcome { prevent_default: true, fling: None });
    assert_eq!(gestures.clicking_scrollbar(), None);
    gestures.click_scrollbar(Axis::X, px(1));
    let outcome = gestures.pointer_move(false, at(0, 0), at(30, 80), at(0, 0), at(3, 20));
    assert_eq!(outcome, MoveOutcome::Scrollbar { axis: Axis::X, cursor: px(26) as i128 });
    assert_eq!(gestures.pointer_press(false), PressOutcome { prevent_default: true, fling: None });
}

#[test]
fn content_drag_goes_before_the_scrollbar() {
    let mut gestures = Gestures::new();
    gestures.click_scrollbar(Axis::Y, 0);
    gestures.pointer_down(true, at(0, 0));
    assert_eq!(drag(&mut gestures, at(1, 1), at(0, 0), 0), MoveOutcome::Ignored);
    assert_eq!(drag(&mut gestures, at(9, 0), at(0, 0), 0), MoveOutcome::Drag { x: 9, y: 0 });
}

#[test]
fn wheel_axes_turn_with_shift_or_setting() {
    for (shift, setting, turned) in
        [(false, false, false), (true, false, true), (false, true, true), (true, true, false)]
    {
        let mut gestures = Gestures::new();
        if shift {
            gestures.global_key_down(Key::Shift);
        }
        let device = gestures.wheel(WheelSource::Device, 3, 7, setting);
        let expected = if turned { (7, 3) } else { (3, 7) };
        assert_eq!((device.x_movement, device.y_movement), expected);
        let custom = gestures.wheel(WheelSource::Custom, 3, 7, setting);
        assert_eq!((custom.x_movement, custom.y_movement), (3, 7));
    }
}

#[test]
fn shift_is_followed_down_and_up() {
    let mut gestures = Gestures::new();
    gestures.global_key_down(Key::Other);
    assert_eq!(gestures.wheel(WheelSource::Device, 1, 2, false).x_movement, 1);
    gestures.global_key_down(Key::Shift);
    gestures.global_key_up(Key::Other);
    assert_eq!(gestures.wheel(WheelSource::Device, 1, 2, false).x_movement, 2);
    gestures.global_key_up(Key::Shift);
    assert_eq!(gestures.wheel(WheelSource::Device, 1, 2, false).x_movement, 1);
}

#[test]
fn wheel_stops_momentum() {
    let mut gestures = flung();
    assert!(gestures.wheel(WheelSource::Device, 0, 1, false).cancel_momentum);
    assert!(!gestures.is_momentum_running());
    assert!(!gestures.is_scrolling().0);
    assert!(!gestures.wheel(WheelSource::Device, 0, 1, false).cancel_momentum);
}
