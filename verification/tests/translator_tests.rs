use winput::keyboard::{Keyboard, KeyState};
use winput::mouse::{Mouse, MouseState};
use winput::notification::{
    get_wheel_delta_wparam, make_points, translate, Button, CaptureAction, InputSystem,
    RawNotification,
};

fn fresh() -> (Keyboard, Mouse) {
    (Keyboard::new(), Mouse::new())
}

#[test]
fn key_down_without_repeat_flag() {
    let (mut kb, mut m) = fresh();
    let r = translate(
        RawNotification::KeyDown { key_code: 13, flags: 0 },
        &mut kb,
        &mut m,
        100,
        100,
    );
    assert_eq!(r, Ok(CaptureAction::NoChange));
    assert!(!kb.auto_repeat_enabled);
    assert!(kb.key_is_pressed(13));
    assert_eq!(kb.key_queue.len(), 1);
    let e = kb.read_key().unwrap();
    assert_eq!(e.key_state, KeyState::Press);
    assert_eq!(e.key_code, 13);
}

#[test]
fn enter_press_then_release_scenario() {
    let (mut kb, mut m) = fresh();
    translate(RawNotification::KeyDown { key_code: 13, flags: 0 }, &mut kb, &mut m, 100, 100)
        .unwrap();
    assert!(!kb.auto_repeat_enabled);
    assert!(kb.key_is_pressed(13));
    translate(RawNotification::KeyUp { key_code: 13 }, &mut kb, &mut m, 100, 100).unwrap();
    assert!(!kb.key_is_pressed(13));
    assert_eq!(kb.key_queue.len(), 2);
    let first = kb.read_key().unwrap();
    assert_eq!(first.key_state, KeyState::Press);
    assert_eq!(first.key_code, 13);
    let second = kb.read_key().unwrap();
    assert_eq!(second.key_state, KeyState::Release);
    assert_eq!(second.key_code, 13);
}

#[test]
fn repeat_flag_enables_auto_repeat() {
    let (mut kb, mut m) = fresh();
    translate(
        RawNotification::KeyDown { key_code: 65, flags: 1 << 30 },
        &mut kb,
        &mut m,
        100,
        100,
    )
    .unwrap();
    assert!(kb.auto_repeat_enabled);
    translate(RawNotification::KeyUp { key_code: 65 }, &mut kb, &mut m, 100, 100).unwrap();
    assert!(!kb.auto_repeat_enabled);
}

#[test]
fn sys_key_notifications_behave_like_key_ones() {
    let (mut kb, mut m) = fresh();
    translate(
        RawNotification::SysKeyDown { key_code: 18, flags: 1 << 30 },
        &mut kb,
        &mut m,
        100,
        100,
    )
    .unwrap();
    assert!(kb.auto_repeat_enabled);
    assert!(kb.key_is_pressed(18));
    translate(RawNotification::SysKeyUp { key_code: 18 }, &mut kb, &mut m, 100, 100).unwrap();
    assert!(!kb.auto_repeat_enabled);
    assert!(!kb.key_is_pressed(18));
}

#[test]
fn char_notification_queues_character() {
    let (mut kb, mut m) = fresh();
    let r = translate(RawNotification::Char { char_code: 104 }, &mut kb, &mut m, 100, 100);
    assert_eq!(r, Ok(CaptureAction::NoChange));
    assert_eq!(kb.read_char(), Some('h'));
}

#[test]
fn invalid_char_notification_fails_and_changes_nothing() {
    let (mut kb, mut m) = fresh();
    let r = translate(RawNotification::Char { char_code: 0xDFFF }, &mut kb, &mut m, 100, 100);
    let err = r.unwrap_err();
    assert_eq!(err.char_code, 0xDFFF);
    assert!(kb.char_queue_is_empty());
    assert!(kb.key_queue_is_empty());
}

#[test]
fn outside_to_inside_produces_enter_then_move() {
    let (mut kb, mut m) = fresh();
    let r = translate(
        RawNotification::PointerMove { x: 10, y: 20, button_flags: 0 },
        &mut kb,
        &mut m,
        100,
        100,
    );
    assert_eq!(r, Ok(CaptureAction::Acquire));
    assert!(m.is_in_window);
    let first = m.read().unwrap();
    assert_eq!(first.mouse_state, MouseState::Enter);
    let second = m.read().unwrap();
    assert_eq!(second.mouse_state, MouseState::Move);
    assert_eq!((second.x, second.y), (10, 20));
    assert!(m.read().is_none());

    let r = translate(
        RawNotification::PointerMove { x: 11, y: 21, button_flags: 0 },
        &mut kb,
        &mut m,
        100,
        100,
    );
    assert_eq!(r, Ok(CaptureAction::NoChange));
    let third = m.read().unwrap();
    assert_eq!(third.mouse_state, MouseState::Move);
    assert!(m.read().is_none());
}

#[test]
fn drag_outside_with_button_held_stays_a_move() {
    let (mut kb, mut m) = fresh();
    translate(
        RawNotification::PointerMove { x: 10, y: 10, button_flags: 0 },
        &mut kb,
        &mut m,
        100,
        100,
    )
    .unwrap();
    translate(RawNotification::ButtonDown { button: Button::Left }, &mut kb, &mut m, 100, 100)
        .unwrap();
    while m.read().is_some() {}

    let r = translate(
        RawNotification::PointerMove { x: 200, y: 10, button_flags: 0x0001 },
        &mut kb,
        &mut m,
        100,
        100,
    );
    assert_eq!(r, Ok(CaptureAction::NoChange));
    assert!(m.is_in_window);
    let e = m.read().unwrap();
    assert_eq!(e.mouse_state, MouseState::Move);
    assert_eq!((e.x, e.y), (200, 10));
    assert!(m.read().is_none());
}

#[test]
fn inside_to_outside_without_button_produces_one_leave() {
    let (mut kb, mut m) = fresh();
    translate(
        RawNotification::PointerMove { x: 10, y: 10, button_flags: 0 },
        &mut kb,
        &mut m,
        100,
        100,
    )
    .unwrap();
    while m.read().is_some() {}

    let r = translate(
        RawNotification::PointerMove { x: -5, y: 10, button_flags: 0 },
        &mut kb,
        &mut m,
        100,
        100,
    );
    assert_eq!(r, Ok(CaptureAction::Release));
    assert!(!m.is_in_window);
    let e = m.read().unwrap();
    assert_eq!(e.mouse_state, MouseState::Leave);
    assert!(m.read().is_none());

    let r = translate(
        RawNotification::PointerMove { x: -6, y: 10, button_flags: 0 },
        &mut kb,
        &mut m,
        100,
        100,
    );
    assert_eq!(r, Ok(CaptureAction::NoChange));
    assert!(m.read().is_none());
}

#[test]
fn button_notifications_reach_the_pointer() {
    let (mut kb, mut m) = fresh();
    translate(RawNotification::ButtonDown { button: Button::Right }, &mut kb, &mut m, 100, 100)
        .unwrap();
    assert!(m.right_pressed);
    translate(RawNotification::ButtonUp { button: Button::Right }, &mut kb, &mut m, 100, 100)
        .unwrap();
    assert!(!m.right_pressed);
    translate(RawNotification::ButtonDown { button: Button::Wheel }, &mut kb, &mut m, 100, 100)
        .unwrap();
    assert!(m.wheel_pressed);
    translate(RawNotification::ButtonUp { button: Button::Wheel }, &mut kb, &mut m, 100, 100)
        .unwrap();
    assert!(!m.wheel_pressed);
    assert_eq!(m.read().unwrap().mouse_state, MouseState::RPress);
    assert_eq!(m.read().unwrap().mouse_state, MouseState::RRelease);
    assert_eq!(m.read().unwrap().mouse_state, MouseState::WheelPress);
    assert_eq!(m.read().unwrap().mouse_state, MouseState::WheelRelease);
}

#[test]
fn wheel_notification_drains_notches() {
    let (mut kb, mut m) = fresh();
    translate(
        RawNotification::WheelRotate { x: 4, y: 5, delta: 250 },
        &mut kb,
        &mut m,
        100,
        100,
    )
    .unwrap();
    assert_eq!(m.wheel_delta_carry, 10);
    let e = m.read().unwrap();
    assert_eq!(e.mouse_state, MouseState::WheelUp);
    assert_eq!((e.x, e.y), (4, 5));
    assert_eq!(m.read().unwrap().mouse_state, MouseState::WheelUp);
    assert!(m.read().is_none());
}

#[test]
fn focus_loss_resets_keyboard_but_not_pointer() {
    let (mut kb, mut m) = fresh();
    translate(RawNotification::KeyDown { key_code: 20, flags: 0 }, &mut kb, &mut m, 100, 100)
        .unwrap();
    translate(RawNotification::Char { char_code: 120 }, &mut kb, &mut m, 100, 100).unwrap();
    translate(
        RawNotification::PointerMove { x: 30, y: 40, button_flags: 0 },
        &mut kb,
        &mut m,
        100,
        100,
    )
    .unwrap();
    translate(RawNotification::ButtonDown { button: Button::Left }, &mut kb, &mut m, 100, 100)
        .unwrap();

    let r = translate(RawNotification::FocusLost, &mut kb, &mut m, 100, 100);
    assert_eq!(r, Ok(CaptureAction::NoChange));
    assert!(!kb.key_is_pressed(20));
    assert!(kb.key_queue_is_empty());
    assert!(kb.char_queue_is_empty());
    assert!(m.left_pressed);
    assert!(m.is_in_window);
    assert_eq!(m.get_pos(), (30, 40));
    assert!(m.read().is_some());
}

#[test]
fn input_system_wires_everything_together() {
    let mut sys = InputSystem::new(640, 480);
    assert_eq!(sys.width, 640);
    assert_eq!(sys.height, 480);
    sys.handle_notification(RawNotification::KeyDown { key_code: 13, flags: 0 }).unwrap();
    assert!(sys.keyboard.key_is_pressed(13));
    let act = sys
        .handle_notification(RawNotification::PointerMove { x: 5, y: 5, button_flags: 0 })
        .unwrap();
    assert_eq!(act, CaptureAction::Acquire);
    assert!(sys.mouse.is_in_window);
    let err = sys
        .handle_notification(RawNotification::Char { char_code: 0xD800 })
        .unwrap_err();
    assert_eq!(err.char_code, 0xD800);
}

#[test]
fn make_points_splits_packed_coordinates() {
    assert_eq!(make_points(0x0014_000A), (10, 20));
    assert_eq!(make_points(0xFFF6_000A), (10, -10));
    assert_eq!(make_points(0x0000_FFF6), (-10, 0));
    assert_eq!(make_points(0), (0, 0));
}

#[test]
fn wheel_delta_comes_from_high_word() {
    assert_eq!(get_wheel_delta_wparam(120u32 << 16), 120);
    assert_eq!(get_wheel_delta_wparam(0xFF88_0000), -120);
    assert_eq!(get_wheel_delta_wparam(0x0000_FFFF), 0);
}
