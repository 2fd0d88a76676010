use libusbd::input::{button_for_key, InputAggregator, KeyEvent, MouseEvent};

fn motion(dx: i16, wheel_dy: i8) -> MouseEvent {
    MouseEvent { button: 0, pressed: false, dx, dy: 0, wheel_dx: 0, wheel_dy }
}

#[test]
fn presses_take_free_slots_once() {
    let mut a = InputAggregator::new();
    a.press(0x16);
    a.press(0x16);
    a.press(0x104);
    assert_eq!(a.slots(), vec![0x16, 0x04, 0, 0, 0, 0]);
    a.release(0x16);
    assert_eq!(a.slots(), vec![0, 0x04, 0, 0, 0, 0]);
    a.press(0x50);
    assert_eq!(a.slots(), vec![0x50, 0x04, 0, 0, 0, 0]);
}

#[test]
fn full_slots_drop_further_presses() {
    let mut a = InputAggregator::new();
    for k in 1..=7u32 {
        a.press(k);
    }
    assert_eq!(a.slots(), vec![1, 2, 3, 4, 5, 6]);
    a.release(9);
    assert_eq!(a.slots(), vec![1, 2, 3, 4, 5, 6]);
    a.key_events(&[KeyEvent { scancode: 3, pressed: false }, KeyEvent { scancode: 7, pressed: true }]);
    assert_eq!(a.slots(), vec![1, 2, 7, 4, 5, 6]);
}

#[test]
fn zero_key_is_ignored() {
    let mut a = InputAggregator::new();
    a.press(0x100);
    assert_eq!(a.slots(), vec![0; 6]);
}

#[test]
fn keys_map_to_buttons() {
    assert_eq!(button_for_key(0x16), 0x080000);
    assert_eq!(button_for_key(0x09), 0x800000);
    assert_eq!(button_for_key(0x99), 0);
    let mut a = InputAggregator::new();
    a.press(0x16);
    a.press(0x50);
    assert_eq!(a.snapshot().buttons, 0x088008);
    assert_eq!(InputAggregator::new().snapshot().buttons, 0x008000);
}

#[test]
fn keys_move_sticks() {
    let mut a = InputAggregator::new();
    let s = a.snapshot();
    assert_eq!((s.left_x, s.left_y, s.right_x, s.right_y), (0x800, 0x800, 0x800, 0x800));
    a.press(0x2c);
    a.press(0x0e);
    let s = a.snapshot();
    assert_eq!((s.left_x, s.left_y, s.right_x, s.right_y), (0x200, 0x800, 0xe00, 0x200));
    a.press(0x0d);
    assert_eq!(a.snapshot().right_x, 0x200);
}

#[test]
fn motion_pushes_left_stick_until_idle() {
    let mut a = InputAggregator::new();
    a.mouse_tick(&[motion(5, 0), motion(-2, 0)]);
    assert_eq!(a.snapshot().left_x, 0xe00);
    a.mouse_tick(&[]);
    a.mouse_tick(&[]);
    a.mouse_tick(&[]);
    assert_eq!(a.snapshot().left_x, 0xe00);
    a.mouse_tick(&[]);
    assert_eq!(a.snapshot().left_x, 0x800);
}

#[test]
fn wheel_moves_both_sticks_and_is_bounded() {
    let mut a = InputAggregator::new();
    a.mouse_tick(&[motion(0, -100), motion(0, -100)]);
    let s = a.snapshot();
    assert_eq!((s.left_x, s.right_x), (0x200, 0xe00));
    a.mouse_tick(&[motion(0, 127), motion(0, 127)]);
    let s = a.snapshot();
    assert_eq!((s.left_x, s.right_x), (0xe00, 0x200));
    for _ in 0..10 {
        a.mouse_tick(&[]);
    }
    let s = a.snapshot();
    assert_eq!((s.left_x, s.right_x), (0x800, 0x800));
}

#[test]
fn motion_saturates() {
    let mut a = InputAggregator::new();
    let burst: Vec<MouseEvent> = (0..1000).map(|_| motion(i16::MAX, 0)).collect();
    for _ in 0..100 {
        a.mouse_tick(&burst);
    }
    assert_eq!(a.snapshot().left_x, 0xe00);
}
