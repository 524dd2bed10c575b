use winput::mouse::{Mouse, MouseState};

#[test]
fn new_mouse_is_zeroed() {
    let mut m = Mouse::new();
    assert_eq!(m.get_pos(), (0, 0));
    assert!(!m.is_in_window);
    assert!(!m.left_pressed);
    assert!(!m.right_pressed);
    assert!(!m.wheel_pressed);
    assert_eq!(m.wheel_delta_carry, 0);
    assert!(m.read().is_none());
}

#[test]
fn move_updates_position_and_queues_event() {
    let mut m = Mouse::new();
    m.on_mouse_move(10, -20);
    assert_eq!(m.get_pos(), (10, -20));
    let e = m.read().unwrap();
    assert_eq!(e.mouse_state, MouseState::Move);
    assert_eq!((e.x, e.y), (10, -20));
    assert!(!e.left_pressed && !e.right_pressed && !e.wheel_pressed);
}

#[test]
fn button_events_snapshot_state() {
    let mut m = Mouse::new();
    m.on_mouse_move(7, 8);
    m.on_left_press();
    m.on_right_press();
    m.on_wheel_press();
    m.on_right_release();
    assert!(m.left_pressed && !m.right_pressed && m.wheel_pressed);

    let mv = m.read().unwrap();
    assert_eq!(mv.mouse_state, MouseState::Move);

    let lp = m.read().unwrap();
    assert_eq!(lp.mouse_state, MouseState::LPress);
    assert!(lp.left_pressed && !lp.right_pressed && !lp.wheel_pressed);
    assert_eq!((lp.x, lp.y), (7, 8));

    let rp = m.read().unwrap();
    assert_eq!(rp.mouse_state, MouseState::RPress);
    assert!(rp.left_pressed && rp.right_pressed);

    let wp = m.read().unwrap();
    assert_eq!(wp.mouse_state, MouseState::WheelPress);
    assert!(wp.wheel_pressed);

    let rr = m.read().unwrap();
    assert_eq!(rr.mouse_state, MouseState::RRelease);
    assert!(!rr.right_pressed && rr.left_pressed && rr.wheel_pressed);

    assert!(m.read().is_none());
}

#[test]
fn left_and_wheel_release_events() {
    let mut m = Mouse::new();
    m.on_left_press();
    m.on_wheel_press();
    m.on_left_release();
    m.on_wheel_release();
    assert!(!m.left_pressed && !m.wheel_pressed);
    m.read();
    m.read();
    assert_eq!(m.read().unwrap().mouse_state, MouseState::LRelease);
    assert_eq!(m.read().unwrap().mouse_state, MouseState::WheelRelease);
}

#[test]
fn enter_and_leave_toggle_inside_flag() {
    let mut m = Mouse::new();
    m.on_mouse_enter();
    assert!(m.is_in_window);
    m.on_mouse_leave();
    assert!(!m.is_in_window);
    assert_eq!(m.read().unwrap().mouse_state, MouseState::Enter);
    assert_eq!(m.read().unwrap().mouse_state, MouseState::Leave);
}

#[test]
fn wheel_single_notch_up_and_down() {
    let mut m = Mouse::new();
    m.on_wheel_delta(1, 2, 120);
    assert_eq!(m.wheel_delta_carry, 0);
    let e = m.read().unwrap();
    assert_eq!(e.mouse_state, MouseState::WheelUp);
    assert_eq!((e.x, e.y), (1, 2));

    m.on_wheel_delta(3, 4, -120);
    assert_eq!(m.wheel_delta_carry, 0);
    let e = m.read().unwrap();
    assert_eq!(e.mouse_state, MouseState::WheelDown);
    assert_eq!((e.x, e.y), (3, 4));
}

#[test]
fn wheel_240_at_once_gives_two_ups_and_no_carry() {
    let mut m = Mouse::new();
    m.on_wheel_delta(0, 0, 240);
    assert_eq!(m.wheel_delta_carry, 0);
    assert_eq!(m.read().unwrap().mouse_state, MouseState::WheelUp);
    assert_eq!(m.read().unwrap().mouse_state, MouseState::WheelUp);
    assert!(m.read().is_none());
}

#[test]
fn wheel_240_split_in_five_gives_two_ups_and_no_carry() {
    let mut m = Mouse::new();
    for _ in 0..5 {
        m.on_wheel_delta(0, 0, 48);
    }
    assert_eq!(m.wheel_delta_carry, 0);
    assert_eq!(m.read().unwrap().mouse_state, MouseState::WheelUp);
    assert_eq!(m.read().unwrap().mouse_state, MouseState::WheelUp);
    assert!(m.read().is_none());
}

#[test]
fn wheel_keeps_sub_notch_carry() {
    let mut m = Mouse::new();
    m.on_wheel_delta(0, 0, 100);
    assert_eq!(m.wheel_delta_carry, 100);
    assert!(m.read().is_none());
    m.on_wheel_delta(0, 0, 30);
    assert_eq!(m.wheel_delta_carry, 10);
    assert_eq!(m.read().unwrap().mouse_state, MouseState::WheelUp);
    m.on_wheel_delta(0, 0, -20);
    assert_eq!(m.wheel_delta_carry, -10);
    assert!(m.read().is_none());
}

#[test]
fn wheel_large_negative_delta_drains_downs() {
    let mut m = Mouse::new();
    m.on_wheel_delta(0, 0, -250);
    assert_eq!(m.wheel_delta_carry, -10);
    assert_eq!(m.read().unwrap().mouse_state, MouseState::WheelDown);
    assert_eq!(m.read().unwrap().mouse_state, MouseState::WheelDown);
    assert!(m.read().is_none());
}

#[test]
fn wheel_extreme_delta_fills_queue_within_capacity() {
    let mut m = Mouse::new();
    m.on_wheel_delta(0, 0, i16::MAX);
    assert_eq!(m.wheel_delta_carry, i16::MAX % 120);
    assert_eq!(m.event_queue.len(), 16);
    while let Some(e) = m.read() {
        assert_eq!(e.mouse_state, MouseState::WheelUp);
    }
}

#[test]
fn event_queue_evicts_oldest_at_capacity() {
    let mut m = Mouse::new();
    for i in 0..17i16 {
        m.on_mouse_move(i, i);
    }
    assert_eq!(m.event_queue.len(), 16);
    let first = m.read().unwrap();
    assert_eq!((first.x, first.y), (1, 1));
}

#[test]
fn reset_clears_queue_but_keeps_state() {
    let mut m = Mouse::new();
    m.on_mouse_move(5, 6);
    m.on_left_press();
    m.on_wheel_delta(0, 0, 60);
    m.reset();
    assert!(m.read().is_none());
    assert_eq!(m.get_pos(), (5, 6));
    assert!(m.left_pressed);
    assert_eq!(m.wheel_delta_carry, 60);
}
