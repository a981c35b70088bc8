//! Properties of event conversion that hold across all inputs and calls.

use vstd::prelude::*;

use crate::ffi::InputEvent;
use crate::ffi::{
    INPUT_ACTION_DOWN, INPUT_ACTION_MOVE, INPUT_ACTION_UP, INPUT_TYPE_KEY, INPUT_TYPE_POINTER_AXIS,
    INPUT_TYPE_POINTER_BUTTON, INPUT_TYPE_POINTER_MOTION, INPUT_TYPE_TOUCH, INPUT_TYPE_TOUCH_FRAME,
};
use crate::input::{
    axis_is, is_translatable, time_since, translated, AnlandInputBackend, AnlandInputEvent,
    AnlandPointerAxisEvent, Axis, ButtonState, KeyState, XKB_KEYCODE_OFFSET,
};

verus! {

/// A raw event is translated exactly when it is a key, pointer motion, button,
/// scroll or touch-frame event, or a touch whose action is down, up or move.
pub proof fn lemma_translated_exactly_when_translatable(
    backend: AnlandInputBackend,
    raw: InputEvent,
    now_usec: u64,
)
    ensures
        translated(backend, raw, now_usec) is Some <==> is_translatable(raw),
        translated(backend, raw, now_usec) is Some <==> {
            ||| raw.type_ == INPUT_TYPE_KEY
            ||| raw.type_ == INPUT_TYPE_POINTER_MOTION
            ||| raw.type_ == INPUT_TYPE_POINTER_BUTTON
            ||| raw.type_ == INPUT_TYPE_POINTER_AXIS
            ||| raw.type_ == INPUT_TYPE_TOUCH_FRAME
            ||| raw.type_ == INPUT_TYPE_TOUCH && 0 <= (raw.data[0] as i32) <= 2
        },
        match translated(backend, raw, now_usec) {
            Some(AnlandInputEvent::Keyboard { .. }) => raw.type_ == INPUT_TYPE_KEY,
            Some(AnlandInputEvent::PointerMotionAbsolute { .. }) => raw.type_
                == INPUT_TYPE_POINTER_MOTION,
            Some(AnlandInputEvent::PointerButton { .. }) => raw.type_ == INPUT_TYPE_POINTER_BUTTON,
            Some(AnlandInputEvent::PointerAxis { .. }) => raw.type_ == INPUT_TYPE_POINTER_AXIS,
            Some(AnlandInputEvent::TouchDown { .. }) => raw.type_ == INPUT_TYPE_TOUCH,
            Some(AnlandInputEvent::TouchMotion { .. }) => raw.type_ == INPUT_TYPE_TOUCH,
            Some(AnlandInputEvent::TouchUp { .. }) => raw.type_ == INPUT_TYPE_TOUCH,
            Some(AnlandInputEvent::TouchFrame { .. }) => raw.type_ == INPUT_TYPE_TOUCH_FRAME,
            None => true,
        },
{
}

/// Every translated event is stamped with the monotonic time less the
/// backend's offset (floored at zero) and carries the backend's native extent.
pub proof fn lemma_translation_stamps_every_event(
    backend: AnlandInputBackend,
    raw: InputEvent,
    now_usec: u64,
)
    requires
        translated(backend, raw, now_usec) is Some,
    ensures
        translated(backend, raw, now_usec)->0.base().time_usec == time_since(
            now_usec,
            backend.time_offset,
        ),
        translated(backend, raw, now_usec)->0.base().time_usec == (if now_usec
            >= backend.time_offset {
            now_usec - backend.time_offset
        } else {
            0
        }),
        translated(backend, raw, now_usec)->0.base().native_w == backend.native_w,
        translated(backend, raw, now_usec)->0.base().native_h == backend.native_h,
{
}

/// With no time offset, an event is stamped with the monotonic time itself.
pub proof fn lemma_zero_offset_keeps_time(
    backend: AnlandInputBackend,
    raw: InputEvent,
    now_usec: u64,
)
    requires
        backend.time_offset == 0,
        translated(backend, raw, now_usec) is Some,
    ensures
        translated(backend, raw, now_usec)->0.base().time_usec == now_usec,
{
}

/// Timestamps never run backwards: of two events translated by one backend,
/// the one observed later is not stamped earlier.
pub proof fn lemma_timestamps_monotone(
    backend: AnlandInputBackend,
    first: InputEvent,
    first_usec: u64,
    second: InputEvent,
    second_usec: u64,
)
    requires
        translated(backend, first, first_usec) is Some,
        translated(backend, second, second_usec) is Some,
        first_usec <= second_usec,
    ensures
        translated(backend, first, first_usec)->0.base().time_usec <= translated(
            backend,
            second,
            second_usec,
        )->0.base().time_usec,
{
}

/// Only the stamp depends on the backend and the time: two translations of one
/// raw event agree in everything but the time and the native extent.
pub proof fn lemma_translation_depends_on_backend_only_through_stamp(
    b1: AnlandInputBackend,
    now1: u64,
    b2: AnlandInputBackend,
    now2: u64,
    raw: InputEvent,
)
    requires
        b1.native_w == b2.native_w,
        b1.native_h == b2.native_h,
        time_since(now1, b1.time_offset) == time_since(now2, b2.time_offset),
    ensures
        translated(b1, raw, now1) == translated(b2, raw, now2),
{
}

/// A translated key event carries a non-negative evdev code whose xkb code
/// (the code plus 8) is representable, so asking for it never overflows; and
/// the key is pressed exactly when the raw action is down.
pub proof fn lemma_key_codes_in_range(backend: AnlandInputBackend, raw: InputEvent, now_usec: u64)
    requires
        raw.type_ == INPUT_TYPE_KEY,
    ensures
        translated(backend, raw, now_usec) matches Some(AnlandInputEvent::Keyboard { event }) && {
            &&& event.keycode <= i32::MAX
            &&& XKB_KEYCODE_OFFSET <= event.keycode + XKB_KEYCODE_OFFSET <= u32::MAX
            &&& (event.state == crate::input::KeyState::Pressed <==> raw.data[0] as i32
                == INPUT_ACTION_DOWN)
        },
{
}

/// A translated touch event always names a slot, and the slot id fits a
/// non-negative `i32`.
pub proof fn lemma_touch_slots_in_range(backend: AnlandInputBackend, raw: InputEvent, now_usec: u64)
    requires
        raw.type_ == INPUT_TYPE_TOUCH,
    ensures
        match translated(backend, raw, now_usec) {
            Some(AnlandInputEvent::TouchDown { event }) => event.slot matches Some(id) && id
                <= i32::MAX,
            Some(AnlandInputEvent::TouchMotion { event }) => event.slot matches Some(id) && id
                <= i32::MAX,
            Some(AnlandInputEvent::TouchUp { event }) => event.slot matches Some(id) && id
                <= i32::MAX,
            None => true,
            _ => false,
        },
{
}

/// Events that carry no position of their own (keys, buttons, scrolls and
/// touch frames) sit at the origin; touches and pointer motion keep the
/// reported position bit for bit.
pub proof fn lemma_positions(backend: AnlandInputBackend, raw: InputEvent, now_usec: u64)
    ensures
        match translated(backend, raw, now_usec) {
            Some(AnlandInputEvent::PointerMotionAbsolute { event }) => event.0.x_bits
                == raw.data[0] && event.0.y_bits == raw.data[1],
            Some(AnlandInputEvent::TouchDown { event }) => event.base.x_bits == raw.data[1]
                && event.base.y_bits == raw.data[2],
            Some(AnlandInputEvent::TouchMotion { event }) => event.base.x_bits == raw.data[1]
                && event.base.y_bits == raw.data[2],
            Some(AnlandInputEvent::TouchUp { event }) => event.base.x_bits == raw.data[1]
                && event.base.y_bits == raw.data[2],
            Some(ev) => ev.base().x_bits == 0 && ev.base().y_bits == 0,
            None => true,
        },
{
}

/// A scroll event scrolls along at most one axis, and along an axis it reports
/// an amount exactly when it reports clicks, 120 units per click.
pub proof fn lemma_scroll_on_one_axis_at_most(event: AnlandPointerAxisEvent, axis: Axis)
    ensures
        !(axis_is(event.axis, Axis::Vertical) && axis_is(event.axis, Axis::Horizontal)),
        event.amount_along(Axis::Vertical) is None || event.amount_along(Axis::Horizontal) is None,
        event.amount_along(axis) is Some <==> event.amount_v120_along(axis) is Some,
        event.amount_v120_along(axis) matches Some(v) ==> v == event.discrete * 120,
{
}

/// A word read as a signed protocol integer and counted as zero when negative
/// is the word itself when non-negative.
proof fn lemma_word_clamped(w: u32)
    ensures
        (w as i32) >= 0 ==> ((w as i32) as u32) == w,
        (w as i32) < 0 <==> w > i32::MAX,
{
    assert((w as i32) >= 0 ==> ((w as i32) as u32) == w) by (bit_vector);
    assert((w as i32) < 0 <==> w > 0x7fff_ffffu32) by (bit_vector);
}

/// A key event is reported for the raw key code, counted as zero when
/// negative, whatever the action: the release of a key names the same key as
/// its press. It is pressed exactly when the action is down, and sits at the
/// origin.
pub proof fn lemma_key_event_keeps_key(backend: AnlandInputBackend, raw: InputEvent, now_usec: u64)
    requires
        raw.type_ == INPUT_TYPE_KEY,
    ensures
        translated(backend, raw, now_usec) matches Some(AnlandInputEvent::Keyboard { event }) && {
            &&& event.keycode == (if (raw.data[1] as i32) < 0 { 0 } else { raw.data[1] })
            &&& (event.state == KeyState::Pressed) == ((raw.data[0] as i32) == INPUT_ACTION_DOWN)
            &&& (event.state == KeyState::Released) == ((raw.data[0] as i32) != INPUT_ACTION_DOWN)
            &&& event.base.x_bits == 0 && event.base.y_bits == 0
        },
{
    lemma_word_clamped(raw.data[1]);
}

/// Two key events that differ only in their action (such as a press and its
/// release) report the same key.
pub proof fn lemma_press_and_release_name_one_key(
    backend: AnlandInputBackend,
    press: InputEvent,
    release: InputEvent,
    now_usec: u64,
)
    requires
        press.type_ == INPUT_TYPE_KEY,
        release.type_ == INPUT_TYPE_KEY,
        press.data[1] == release.data[1],
    ensures
        translated(backend, press, now_usec) matches Some(AnlandInputEvent::Keyboard { event: p })
            && translated(backend, release, now_usec) matches Some(
            AnlandInputEvent::Keyboard { event: r },
        ) && p.keycode == r.keycode,
{
    lemma_key_event_keeps_key(backend, press, now_usec);
    lemma_key_event_keeps_key(backend, release, now_usec);
}

/// A touch down, move or up is reported in the slot of its raw pointer id,
/// counted as zero when negative, and with the kind its action names.
pub proof fn lemma_touch_keeps_slot(backend: AnlandInputBackend, raw: InputEvent, now_usec: u64)
    requires
        raw.type_ == INPUT_TYPE_TOUCH,
    ensures
        ({
            let slot = Some(if (raw.data[3] as i32) < 0 { 0u32 } else { raw.data[3] });
            let action = raw.data[0] as i32;
            match translated(backend, raw, now_usec) {
                Some(AnlandInputEvent::TouchDown { event }) => action == INPUT_ACTION_DOWN
                    && event.slot == slot,
                Some(AnlandInputEvent::TouchMotion { event }) => action == INPUT_ACTION_MOVE
                    && event.slot == slot,
                Some(AnlandInputEvent::TouchUp { event }) => action == INPUT_ACTION_UP
                    && event.slot == slot,
                None => action != INPUT_ACTION_DOWN && action != INPUT_ACTION_MOVE && action
                    != INPUT_ACTION_UP,
                _ => false,
            }
        }),
{
    lemma_word_clamped(raw.data[3]);
}

/// Two touches with distinct non-negative pointer ids are reported in distinct
/// slots.
pub proof fn lemma_distinct_fingers_distinct_slots(
    backend: AnlandInputBackend,
    a: InputEvent,
    b: InputEvent,
    now_usec: u64,
)
    requires
        a.type_ == INPUT_TYPE_TOUCH,
        b.type_ == INPUT_TYPE_TOUCH,
        (a.data[0] as i32) == INPUT_ACTION_DOWN,
        (b.data[0] as i32) == INPUT_ACTION_DOWN,
        (a.data[3] as i32) >= 0,
        (b.data[3] as i32) >= 0,
        a.data[3] != b.data[3],
    ensures
        translated(backend, a, now_usec) matches Some(AnlandInputEvent::TouchDown { event: ea })
            && translated(backend, b, now_usec) matches Some(
            AnlandInputEvent::TouchDown { event: eb },
        ) && ea.slot != eb.slot,
{
    lemma_touch_keeps_slot(backend, a, now_usec);
    lemma_touch_keeps_slot(backend, b, now_usec);
}

/// A scroll is reported with the raw axis number, amount and clicks unchanged,
/// at the origin.
pub proof fn lemma_scroll_keeps_fields(backend: AnlandInputBackend, raw: InputEvent, now_usec: u64)
    requires
        raw.type_ == INPUT_TYPE_POINTER_AXIS,
    ensures
        translated(backend, raw, now_usec) matches Some(AnlandInputEvent::PointerAxis { event }) && {
            &&& event.axis == raw.data[0]
            &&& event.value_bits == raw.data[1]
            &&& event.discrete == raw.data[2] as i32
            &&& event.base.x_bits == 0 && event.base.y_bits == 0
        },
{
}

/// A button event is reported with the raw button code unchanged, pressed
/// exactly when the raw flag is non-zero.
pub proof fn lemma_button_keeps_code(backend: AnlandInputBackend, raw: InputEvent, now_usec: u64)
    requires
        raw.type_ == INPUT_TYPE_POINTER_BUTTON,
    ensures
        translated(backend, raw, now_usec) matches Some(AnlandInputEvent::PointerButton { event })
            && {
            &&& event.button == raw.data[0]
            &&& (event.state == ButtonState::Pressed) == (raw.data[1] != 0)
            &&& (event.state == ButtonState::Released) == (raw.data[1] == 0)
        },
{
    let flag = raw.data[1];
    assert(((flag as i32) != 0) == (flag != 0)) by (bit_vector);
}

/// Along its own axis (protocol axis 0 vertical, 1 horizontal) a scroll reports
/// exactly its value and its clicks times 120; along the other axis, and for
/// any other axis number, it reports nothing.
pub proof fn lemma_scroll_amounts(event: AnlandPointerAxisEvent)
    ensures
        event.axis == 0 ==> event.amount_along(Axis::Vertical) == Some(event.value_bits)
            && event.amount_along(Axis::Horizontal) is None && event.amount_v120_along(
            Axis::Vertical,
        ) == Some((event.discrete * 120) as i64) && event.amount_v120_along(Axis::Horizontal) is None,
        event.axis == 1 ==> event.amount_along(Axis::Horizontal) == Some(event.value_bits)
            && event.amount_along(Axis::Vertical) is None && event.amount_v120_along(
            Axis::Horizontal,
        ) == Some((event.discrete * 120) as i64) && event.amount_v120_along(Axis::Vertical) is None,
        event.axis != 0 && event.axis != 1 ==> event.amount_along(Axis::Vertical) is None
            && event.amount_along(Axis::Horizontal) is None && event.amount_v120_along(
            Axis::Vertical,
        ) is None && event.amount_v120_along(Axis::Horizontal) is None,
        forall|axis: Axis| #[trigger]
            event.amount_along(axis) matches Some(v) ==> v == event.value_bits,
{
}

} // verus!
