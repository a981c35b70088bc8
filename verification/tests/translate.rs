use anland::ffi::{
    InputEvent, INPUT_ACTION_DOWN, INPUT_ACTION_MOVE, INPUT_ACTION_UP, INPUT_TYPE_CLIPBOARD,
    INPUT_TYPE_KEY, INPUT_TYPE_POINTER_AXIS, INPUT_TYPE_POINTER_BUTTON, INPUT_TYPE_POINTER_MOTION,
    INPUT_TYPE_TOUCH, INPUT_TYPE_TOUCH_FRAME,
};
use anland::input::{
    translate, AnlandEventBase, AnlandInputBackend, AnlandInputEvent, AnlandKeyboardKeyEvent,
    AnlandPointerAxisEvent, Axis, AxisRelativeDirection, AxisSource, ButtonState, KeyState,
};

fn backend() -> AnlandInputBackend {
    AnlandInputBackend { native_w: 1080, native_h: 2400, time_offset: 1_000 }
}

fn raw(type_: u32, data: [u32; 4]) -> InputEvent {
    InputEvent { type_, data }
}

fn words(a: i32, b: i32, c: i32, d: i32) -> [u32; 4] {
    [a as u32, b as u32, c as u32, d as u32]
}

fn base(time_usec: u64, x_bits: u32, y_bits: u32) -> AnlandEventBase {
    AnlandEventBase { time_usec, native_w: 1080, native_h: 2400, x_bits, y_bits }
}

#[test]
fn key_down_is_pressed() {
    let ev = translate(&backend(), &raw(INPUT_TYPE_KEY, words(INPUT_ACTION_DOWN, 30, 0, 0)), 5_000);
    let expected = AnlandKeyboardKeyEvent { base: base(4_000, 0, 0), keycode: 30, state: KeyState::Pressed };
    assert_eq!(ev, Some(AnlandInputEvent::Keyboard { event: expected }));
    match ev {
        Some(AnlandInputEvent::Keyboard { event }) => {
            assert_eq!(event.key_code(), 38);
            assert_eq!(event.count(), 1);
            assert_eq!(event.time(), 4_000);
        }
        _ => panic!("expected a key event"),
    }
}

#[test]
fn key_other_action_is_released() {
    for action in [INPUT_ACTION_UP, INPUT_ACTION_MOVE, 7, -1] {
        let ev = translate(&backend(), &raw(INPUT_TYPE_KEY, words(action, 30, 0, 0)), 5_000);
        match ev {
            Some(AnlandInputEvent::Keyboard { event }) => assert_eq!(event.state(), KeyState::Released),
            _ => panic!("expected a key event"),
        }
    }
}

#[test]
fn negative_key_code_counts_as_zero() {
    let ev = translate(&backend(), &raw(INPUT_TYPE_KEY, words(0, -5, 0, 0)), 5_000);
    match ev {
        Some(AnlandInputEvent::Keyboard { event }) => {
            assert_eq!(event.keycode, 0);
            assert_eq!(event.key_code(), 8);
        }
        _ => panic!("expected a key event"),
    }
}

#[test]
fn largest_key_code_fits() {
    let ev = translate(&backend(), &raw(INPUT_TYPE_KEY, words(0, i32::MAX, 0, 0)), 5_000);
    match ev {
        Some(AnlandInputEvent::Keyboard { event }) => assert_eq!(event.key_code(), i32::MAX as u32 + 8),
        _ => panic!("expected a key event"),
    }
}

#[test]
fn pointer_motion_is_absolute_at_reported_position() {
    let x = 12.5f32.to_bits();
    let y = 700.25f32.to_bits();
    let dx = 1.0f32.to_bits();
    let ev = translate(&backend(), &raw(INPUT_TYPE_POINTER_MOTION, [x, y, dx, dx]), 2_000);
    match ev {
        Some(AnlandInputEvent::PointerMotionAbsolute { event }) => {
            assert_eq!(event.0, base(1_000, x, y));
            assert_eq!(f32::from_bits(event.0.x_bits), 12.5);
            assert_eq!(f32::from_bits(event.0.y_bits), 700.25);
        }
        _ => panic!("expected absolute motion"),
    }
}

#[test]
fn button_pressed_when_flag_non_zero() {
    for (flag, state) in [(1, ButtonState::Pressed), (-3, ButtonState::Pressed), (0, ButtonState::Released)] {
        let ev = translate(&backend(), &raw(INPUT_TYPE_POINTER_BUTTON, words(0x110, flag, 0, 0)), 1_500);
        match ev {
            Some(AnlandInputEvent::PointerButton { event }) => {
                assert_eq!(event.button_code(), 0x110);
                assert_eq!(event.state(), state);
                assert_eq!(event.base, base(500, 0, 0));
            }
            _ => panic!("expected a button event"),
        }
    }
}

#[test]
fn axis_event_keeps_axis_amount_and_clicks() {
    let value = (-15.0f32).to_bits();
    let ev = translate(&backend(), &raw(INPUT_TYPE_POINTER_AXIS, [0, value, (-1i32) as u32, 0]), 1_000);
    match ev {
        Some(AnlandInputEvent::PointerAxis { event }) => {
            assert_eq!(event.axis, 0);
            assert_eq!(event.discrete, -1);
            assert_eq!(event.amount(Axis::Vertical), Some(value));
            assert_eq!(event.amount(Axis::Horizontal), None);
            assert_eq!(event.amount_v120(Axis::Vertical), Some(-120));
            assert_eq!(event.amount_v120(Axis::Horizontal), None);
            assert_eq!(event.source(), AxisSource::Wheel);
            assert_eq!(event.relative_direction(Axis::Vertical), AxisRelativeDirection::Identical);
            assert_eq!(event.base, base(0, 0, 0));
        }
        _ => panic!("expected an axis event"),
    }
}

#[test]
fn horizontal_and_unknown_axes() {
    let mk = |axis: u32, discrete: i32| AnlandPointerAxisEvent {
        base: base(0, 0, 0),
        axis,
        value_bits: 3.0f32.to_bits(),
        discrete,
    };
    let h = mk(1, 2);
    assert_eq!(h.amount(Axis::Horizontal), Some(3.0f32.to_bits()));
    assert_eq!(h.amount_v120(Axis::Horizontal), Some(240));
    assert_eq!(h.amount(Axis::Vertical), None);
    let other = mk(2, 5);
    assert_eq!(other.amount(Axis::Vertical), None);
    assert_eq!(other.amount(Axis::Horizontal), None);
    assert_eq!(other.amount_v120(Axis::Vertical), None);
    let extreme = mk(0, i32::MIN);
    assert_eq!(extreme.amount_v120(Axis::Vertical), Some(i32::MIN as i64 * 120));
}

#[test]
fn touch_actions() {
    let x = 100.0f32.to_bits();
    let y = 200.0f32.to_bits();
    let down = translate(&backend(), &raw(INPUT_TYPE_TOUCH, [INPUT_ACTION_DOWN as u32, x, y, 3]), 1_001);
    match down {
        Some(AnlandInputEvent::TouchDown { event }) => {
            assert_eq!(event.slot(), Some(3));
            assert_eq!(event.base, base(1, x, y));
        }
        _ => panic!("expected touch down"),
    }
    let moved = translate(&backend(), &raw(INPUT_TYPE_TOUCH, [INPUT_ACTION_MOVE as u32, x, y, 3]), 1_001);
    match moved {
        Some(AnlandInputEvent::TouchMotion { event }) => {
            assert_eq!(event.slot(), Some(3));
            assert_eq!(event.base, base(1, x, y));
        }
        _ => panic!("expected touch motion"),
    }
    let up = translate(&backend(), &raw(INPUT_TYPE_TOUCH, [INPUT_ACTION_UP as u32, x, y, 3]), 1_001);
    match up {
        Some(AnlandInputEvent::TouchUp { event }) => {
            assert_eq!(event.slot(), Some(3));
            assert_eq!(event.base, base(1, x, y));
        }
        _ => panic!("expected touch up"),
    }
}

#[test]
fn touch_with_other_action_is_dropped() {
    for action in [3, -1, 100] {
        let ev = translate(&backend(), &raw(INPUT_TYPE_TOUCH, words(action, 0, 0, 1)), 1_000);
        assert_eq!(ev, None);
    }
}

#[test]
fn negative_pointer_id_is_slot_zero() {
    let ev = translate(&backend(), &raw(INPUT_TYPE_TOUCH, words(INPUT_ACTION_DOWN, 0, 0, -7)), 1_000);
    match ev {
        Some(AnlandInputEvent::TouchDown { event }) => assert_eq!(event.slot, Some(0)),
        _ => panic!("expected touch down"),
    }
}

#[test]
fn touch_frame() {
    let ev = translate(&backend(), &raw(INPUT_TYPE_TOUCH_FRAME, [9, 9, 9, 9]), 3_000);
    match ev {
        Some(AnlandInputEvent::TouchFrame { event }) => assert_eq!(event.base, base(2_000, 0, 0)),
        _ => panic!("expected a touch frame"),
    }
}

#[test]
fn other_event_types_are_dropped() {
    for type_ in [0, INPUT_TYPE_CLIPBOARD, 7, 10, 11, 12, 13, u32::MAX] {
        assert_eq!(translate(&backend(), &raw(type_, [1, 2, 3, 4]), 5_000), None);
    }
}

#[test]
fn time_before_offset_is_zero() {
    let ev = translate(&backend(), &raw(INPUT_TYPE_TOUCH_FRAME, [0; 4]), 999);
    match ev {
        Some(AnlandInputEvent::TouchFrame { event }) => assert_eq!(event.base.time_usec, 0),
        _ => panic!("expected a touch frame"),
    }
}

#[test]
fn timestamps_never_run_backwards() {
    let b = backend();
    let mut last = 0u64;
    for now in [0u64, 500, 1_000, 1_001, 4_000, u64::MAX] {
        let ev = translate(&b, &raw(INPUT_TYPE_KEY, [0; 4]), now);
        match ev {
            Some(AnlandInputEvent::Keyboard { event }) => {
                assert!(event.base.time_usec >= last);
                last = event.base.time_usec;
            }
            _ => panic!("expected a key event"),
        }
    }
    assert_eq!(last, u64::MAX - 1_000);
}

#[test]
fn default_backend_keeps_clock() {
    let b = AnlandInputBackend::default();
    assert_eq!((b.native_w, b.native_h, b.time_offset), (0, 0, 0));
    let ev = translate(&b, &raw(INPUT_TYPE_KEY, [0; 4]), 123_456);
    match ev {
        Some(AnlandInputEvent::Keyboard { event }) => {
            assert_eq!(event.base, AnlandEventBase { time_usec: 123_456, native_w: 0, native_h: 0, x_bits: 0, y_bits: 0 })
        }
        _ => panic!("expected a key event"),
    }
}

#[test]
fn stamp_depends_only_on_offset_and_extent() {
    let r = raw(INPUT_TYPE_TOUCH, [INPUT_ACTION_MOVE as u32, 1, 2, 3]);
    let b1 = AnlandInputBackend { native_w: 5, native_h: 6, time_offset: 100 };
    let b2 = AnlandInputBackend { native_w: 5, native_h: 6, time_offset: 300 };
    assert_eq!(translate(&b1, &r, 1_100), translate(&b2, &r, 1_300));
}

#[test]
fn backend_base_stamps() {
    let b = backend();
    assert_eq!(b.base(10_000, 7, 8), base(9_000, 7, 8));
    assert_eq!(b.base(10, 7, 8).time_usec, 0);
}
