//! Conversion of raw consumer input events into compositor input events.
//!
//! The consumer reports keyboard, pointer and touch activity of a single
//! virtual device. `translate` decides which compositor event a raw event
//! stands for, stamps it with the backend's clock offset and native extent,
//! and carries the coordinates through unchanged (as single-float bit
//! patterns, which a caller widens exactly to double precision).

use vstd::prelude::*;

use crate::ffi::InputEvent;
use crate::ffi::{
    INPUT_ACTION_DOWN, INPUT_ACTION_MOVE, INPUT_ACTION_UP, INPUT_TYPE_KEY,
    INPUT_TYPE_POINTER_AXIS, INPUT_TYPE_POINTER_BUTTON, INPUT_TYPE_POINTER_MOTION,
    INPUT_TYPE_TOUCH, INPUT_TYPE_TOUCH_FRAME,
};

verus! {

/// What kind of input a device can produce.
#[derive(Debug, Clone, Copy, PartialEq, Eq, Structural)]
pub enum DeviceCapability {
    Keyboard,
    Pointer,
    Touch,
    TabletTool,
    TabletPad,
    Gesture,
    Switch,
}

/// State of a key: released or pressed.
#[derive(Debug, Clone, Copy, PartialEq, Eq, Structural)]
pub enum KeyState {
    Released,
    Pressed,
}

/// State of a pointer button: released or pressed.
#[derive(Debug, Clone, Copy, PartialEq, Eq, Structural)]
pub enum ButtonState {
    Released,
    Pressed,
}

/// A scroll axis.
#[derive(Debug, Clone, Copy, PartialEq, Eq, Structural)]
pub enum Axis {
    Vertical,
    Horizontal,
}

/// Where a scroll comes from.
#[derive(Debug, Clone, Copy, PartialEq, Eq, Structural)]
pub enum AxisSource {
    Finger,
    Continuous,
    Wheel,
    WheelTilt,
}

/// Whether physical motion matches the axis direction.
#[derive(Debug, Clone, Copy, PartialEq, Eq, Structural)]
pub enum AxisRelativeDirection {
    Identical,
    Inverted,
}

/// A negative protocol integer counts as zero.
pub open spec fn clamp_nonneg(v: i32) -> u32 {
    if v < 0 { 0 } else { v as u32 }
}

fn clamp_to_u32(v: i32) -> (r: u32)
    ensures r == clamp_nonneg(v),
{
    if v < 0 { 0 } else { v as u32 }
}

/// A timestamp in microseconds taken relative to an offset, floored at zero.
pub open spec fn time_since(now_usec: u64, offset: u64) -> u64 {
    if now_usec >= offset { (now_usec - offset) as u64 } else { 0 }
}

/// The single virtual device that aggregates keyboard, pointer and touch input
/// from the consumer.
#[derive(Debug, Clone, Copy, PartialEq, Eq, Hash)]
pub struct AnlandDevice;

impl AnlandDevice {
    /// Stable identifier of the device.
    pub fn id(&self) -> (s: String)
        ensures s@ == "anland"@,
    {
        "anland".to_owned()
    }

    /// Human-readable name of the device.
    pub fn name(&self) -> (s: String)
        ensures s@ == "anland consumer input"@,
    {
        "anland consumer input".to_owned()
    }

    /// The device has exactly the keyboard, pointer and touch capabilities.
    pub fn has_capability(&self, capability: DeviceCapability) -> (b: bool)
        ensures
            b == (capability == DeviceCapability::Keyboard || capability == DeviceCapability::Pointer
                || capability == DeviceCapability::Touch),
    {
        match capability {
            DeviceCapability::Keyboard | DeviceCapability::Pointer | DeviceCapability::Touch => true,
            _ => false,
        }
    }

    /// The virtual device has no USB vendor and product id.
    pub fn usb_id(&self) -> (r: Option<(u32, u32)>)
        ensures r is None,
    {
        None
    }
}

/// Fields common to every translated event.
///
/// The consumer reports coordinates in its native (physical) pixel space, which
/// may differ from the buffer size; `native_w` and `native_h` are that extent,
/// kept so that positions can be scaled into a target space. `x_bits` and
/// `y_bits` are the single-float bit patterns of the reported position (zero,
/// the bits of `0.0`, for events without a position).
#[derive(Debug, Clone, Copy, PartialEq, Eq, Structural)]
pub struct AnlandEventBase {
    pub time_usec: u64,
    pub native_w: u32,
    pub native_h: u32,
    pub x_bits: u32,
    pub y_bits: u32,
}

impl AnlandEventBase {
    /// Timestamp of the event in microseconds.
    pub fn time(&self) -> (t: u64)
        ensures t == self.time_usec,
    {
        self.time_usec
    }

    /// The virtual device that produced the event.
    pub fn device(&self) -> (d: AnlandDevice)
        ensures d == AnlandDevice,
    {
        AnlandDevice
    }
}

/// A key press or release. `keycode` is the evdev key code.
#[derive(Debug, Clone, Copy, PartialEq, Eq, Structural)]
pub struct AnlandKeyboardKeyEvent {
    pub base: AnlandEventBase,
    pub keycode: u32,
    pub state: KeyState,
}

/// Distance between evdev key codes and xkb key codes.
pub const XKB_KEYCODE_OFFSET: u32 = 8;

impl AnlandKeyboardKeyEvent {
    /// The xkb key code: evdev key codes are turned into xkb key codes by adding 8.
    pub fn key_code(&self) -> (k: u32)
        requires
            self.keycode + XKB_KEYCODE_OFFSET <= u32::MAX,
        ensures
            k == self.keycode + XKB_KEYCODE_OFFSET,
    {
        self.keycode + XKB_KEYCODE_OFFSET
    }

    pub fn state(&self) -> (s: KeyState)
        ensures s == self.state,
    {
        self.state
    }

    /// Every key event reports a single key transition.
    pub fn count(&self) -> (c: u32)
        ensures c == 1,
    {
        1
    }

    pub fn time(&self) -> (t: u64)
        ensures t == self.base.time_usec,
    {
        self.base.time()
    }
}

/// Absolute pointer motion, at the position held in the base.
#[derive(Debug, Clone, Copy, PartialEq, Eq, Structural)]
pub struct AnlandPointerMotionAbsoluteEvent(pub AnlandEventBase);

impl AnlandPointerMotionAbsoluteEvent {
    pub fn time(&self) -> (t: u64)
        ensures t == self.0.time_usec,
    {
        self.0.time()
    }
}

/// A pointer button press or release.
#[derive(Debug, Clone, Copy, PartialEq, Eq, Structural)]
pub struct AnlandPointerButtonEvent {
    pub base: AnlandEventBase,
    pub button: u32,
    pub state: ButtonState,
}

impl AnlandPointerButtonEvent {
    pub fn button_code(&self) -> (b: u32)
        ensures b == self.button,
    {
        self.button
    }

    pub fn state(&self) -> (s: ButtonState)
        ensures s == self.state,
    {
        self.state
    }

    pub fn time(&self) -> (t: u64)
        ensures t == self.base.time_usec,
    {
        self.base.time()
    }
}

/// A scroll on one axis: protocol axis 0 is vertical, 1 is horizontal.
/// `value_bits` is the single-float bit pattern of the scroll amount and
/// `discrete` the number of wheel clicks.
#[derive(Debug, Clone, Copy, PartialEq, Eq, Structural)]
pub struct AnlandPointerAxisEvent {
    pub base: AnlandEventBase,
    pub axis: u32,
    pub value_bits: u32,
    pub discrete: i32,
}

/// The protocol axis number `axis` names the axis `which`.
pub open spec fn axis_is(axis: u32, which: Axis) -> bool {
    ||| axis == 0 && which == Axis::Vertical
    ||| axis == 1 && which == Axis::Horizontal
}

/// One wheel click is 120 units of the high-resolution scroll scale.
pub const V120_PER_CLICK: i64 = 120;

impl AnlandPointerAxisEvent {
    /// The scroll amount along `axis`, as single-float bits, when the event scrolls along it.
    pub open spec fn amount_along(self, axis: Axis) -> Option<u32> {
        if axis_is(self.axis, axis) { Some(self.value_bits) } else { None }
    }

    /// The scroll along `axis` in 1/120 wheel clicks, when the event scrolls along it.
    pub open spec fn amount_v120_along(self, axis: Axis) -> Option<i64> {
        if axis_is(self.axis, axis) { Some((self.discrete * V120_PER_CLICK) as i64) } else { None }
    }

    /// Whether this event scrolls along `axis`.
    pub fn reports(&self, axis: Axis) -> (b: bool)
        ensures b == axis_is(self.axis, axis),
    {
        match axis {
            Axis::Vertical => self.axis == 0,
            Axis::Horizontal => self.axis == 1,
        }
    }

    /// The scroll amount along `axis` (as single-float bits), if the event scrolls along it.
    pub fn amount(&self, axis: Axis) -> (r: Option<u32>)
        ensures
            r == self.amount_along(axis),
    {
        if self.reports(axis) { Some(self.value_bits) } else { None }
    }

    /// The scroll along `axis` in 1/120 wheel clicks, if the event scrolls along it.
    pub fn amount_v120(&self, axis: Axis) -> (r: Option<i64>)
        ensures
            r == self.amount_v120_along(axis),
    {
        if self.reports(axis) {
            Some(self.discrete as i64 * V120_PER_CLICK)
        } else {
            None
        }
    }

    /// Scrolls from the consumer come from a wheel.
    pub fn source(&self) -> (s: AxisSource)
        ensures s == AxisSource::Wheel,
    {
        AxisSource::Wheel
    }

    /// Physical motion always matches the axis direction.
    pub fn relative_direction(&self, axis: Axis) -> (d: AxisRelativeDirection)
        ensures d == AxisRelativeDirection::Identical,
    {
        AxisRelativeDirection::Identical
    }

    pub fn time(&self) -> (t: u64)
        ensures t == self.base.time_usec,
    {
        self.base.time()
    }
}

/// A touch point going down; `slot` is the multi-touch slot id.
#[derive(Debug, Clone, Copy, PartialEq, Eq, Structural)]
pub struct AnlandTouchDownEvent {
    pub base: AnlandEventBase,
    pub slot: Option<u32>,
}

/// A touch point moving; `slot` is the multi-touch slot id.
#[derive(Debug, Clone, Copy, PartialEq, Eq, Structural)]
pub struct AnlandTouchMotionEvent {
    pub base: AnlandEventBase,
    pub slot: Option<u32>,
}

/// A touch point lifting; `slot` is the multi-touch slot id.
#[derive(Debug, Clone, Copy, PartialEq, Eq, Structural)]
pub struct AnlandTouchUpEvent {
    pub base: AnlandEventBase,
    pub slot: Option<u32>,
}

/// The end of a set of touch updates that belong together.
#[derive(Debug, Clone, Copy, PartialEq, Eq, Structural)]
pub struct AnlandTouchFrameEvent {
    pub base: AnlandEventBase,
}

impl AnlandTouchDownEvent {
    pub fn slot(&self) -> (s: Option<u32>)
        ensures s == self.slot,
    {
        self.slot
    }
}

impl AnlandTouchMotionEvent {
    pub fn slot(&self) -> (s: Option<u32>)
        ensures s == self.slot,
    {
        self.slot
    }
}

impl AnlandTouchUpEvent {
    pub fn slot(&self) -> (s: Option<u32>)
        ensures s == self.slot,
    {
        self.slot
    }
}

/// A compositor input event produced from the consumer.
#[derive(Debug, Clone, Copy, PartialEq, Eq, Structural)]
pub enum AnlandInputEvent {
    Keyboard { event: AnlandKeyboardKeyEvent },
    PointerMotionAbsolute { event: AnlandPointerMotionAbsoluteEvent },
    PointerButton { event: AnlandPointerButtonEvent },
    PointerAxis { event: AnlandPointerAxisEvent },
    TouchDown { event: AnlandTouchDownEvent },
    TouchMotion { event: AnlandTouchMotionEvent },
    TouchUp { event: AnlandTouchUpEvent },
    TouchFrame { event: AnlandTouchFrameEvent },
}

impl AnlandInputEvent {
    /// The common fields of the event, whatever its kind.
    pub open spec fn base(self) -> AnlandEventBase {
        match self {
            AnlandInputEvent::Keyboard { event } => event.base,
            AnlandInputEvent::PointerMotionAbsolute { event } => event.0,
            AnlandInputEvent::PointerButton { event } => event.base,
            AnlandInputEvent::PointerAxis { event } => event.base,
            AnlandInputEvent::TouchDown { event } => event.base,
            AnlandInputEvent::TouchMotion { event } => event.base,
            AnlandInputEvent::TouchUp { event } => event.base,
            AnlandInputEvent::TouchFrame { event } => event.base,
        }
    }
}

/// The input backend of the anland consumer. It never produces events on its
/// own; they are handed to `translate` as they come from the consumer.
///
/// `native_w` and `native_h` are the consumer's native extent; `time_offset`
/// (microseconds) is subtracted from the monotonic clock to timestamp events.
#[derive(Debug)]
pub struct AnlandInputBackend {
    pub native_w: u32,
    pub native_h: u32,
    pub time_offset: u64,
}

impl Default for AnlandInputBackend {
    fn default() -> (b: Self)
        ensures
            b.native_w == 0,
            b.native_h == 0,
            b.time_offset == 0,
    {
        AnlandInputBackend { native_w: 0, native_h: 0, time_offset: 0 }
    }
}

impl AnlandInputBackend {
    /// The common fields of an event observed at monotonic time `now_usec` at
    /// position (`x_bits`, `y_bits`).
    pub open spec fn base_at(self, now_usec: u64, x_bits: u32, y_bits: u32) -> AnlandEventBase {
        AnlandEventBase {
            time_usec: time_since(now_usec, self.time_offset),
            native_w: self.native_w,
            native_h: self.native_h,
            x_bits,
            y_bits,
        }
    }

    /// Stamps an event observed at monotonic time `now_usec` (microseconds).
    pub fn base(&self, now_usec: u64, x_bits: u32, y_bits: u32) -> (b: AnlandEventBase)
        ensures
            b == self.base_at(now_usec, x_bits, y_bits),
    {
        AnlandEventBase {
            time_usec: now_usec.saturating_sub(self.time_offset),
            native_w: self.native_w,
            native_h: self.native_h,
            x_bits,
            y_bits,
        }
    }
}

/// The key state that a protocol key action stands for.
pub open spec fn key_state_of(action: i32) -> KeyState {
    if action == INPUT_ACTION_DOWN { KeyState::Pressed } else { KeyState::Released }
}

/// The button state that a protocol `pressed` flag stands for.
pub open spec fn button_state_of(pressed: i32) -> ButtonState {
    if pressed != 0 { ButtonState::Pressed } else { ButtonState::Released }
}

/// Whether a raw event stands for a compositor event: keys, pointer motion,
/// buttons and scrolls, touch frames, and touches whose action is down, up or
/// move. Every other event type, and a touch with another action, is dropped.
pub open spec fn is_translatable(raw: InputEvent) -> bool {
    ||| raw.type_ == INPUT_TYPE_KEY
    ||| raw.type_ == INPUT_TYPE_POINTER_MOTION
    ||| raw.type_ == INPUT_TYPE_POINTER_BUTTON
    ||| raw.type_ == INPUT_TYPE_POINTER_AXIS
    ||| raw.type_ == INPUT_TYPE_TOUCH_FRAME
    ||| raw.type_ == INPUT_TYPE_TOUCH && {
        let action = raw.data[0] as i32;
        action == INPUT_ACTION_DOWN || action == INPUT_ACTION_UP || action == INPUT_ACTION_MOVE
    }
}

/// The compositor event that `raw`, observed at monotonic time `now_usec`,
/// stands for.
///
/// Keys: the action decides the state (down is pressed, anything else
/// released) and a negative key code counts as zero. Pointer motion is
/// reported as absolute motion to the reported position, which keeps the
/// cursor in sync. Buttons are pressed when the flag is non-zero. Scrolls keep
/// axis, amount and clicks. Touches keep their position, and a negative
/// pointer id counts as slot zero. Events without a position sit at (0, 0).
pub open spec fn translated(
    backend: AnlandInputBackend,
    raw: InputEvent,
    now_usec: u64,
) -> Option<AnlandInputEvent> {
    let at_origin = backend.base_at(now_usec, 0, 0);
    if raw.type_ == INPUT_TYPE_KEY {
        Some(
            AnlandInputEvent::Keyboard {
                event: AnlandKeyboardKeyEvent {
                    base: at_origin,
                    keycode: clamp_nonneg(raw.data[1] as i32),
                    state: key_state_of(raw.data[0] as i32),
                },
            },
        )
    } else if raw.type_ == INPUT_TYPE_POINTER_MOTION {
        Some(
            AnlandInputEvent::PointerMotionAbsolute {
                event: AnlandPointerMotionAbsoluteEvent(
                    backend.base_at(now_usec, raw.data[0], raw.data[1]),
                ),
            },
        )
    } else if raw.type_ == INPUT_TYPE_POINTER_BUTTON {
        Some(
            AnlandInputEvent::PointerButton {
                event: AnlandPointerButtonEvent {
                    base: at_origin,
                    button: raw.data[0],
                    state: button_state_of(raw.data[1] as i32),
                },
            },
        )
    } else if raw.type_ == INPUT_TYPE_POINTER_AXIS {
        Some(
            AnlandInputEvent::PointerAxis {
                event: AnlandPointerAxisEvent {
                    base: at_origin,
                    axis: raw.data[0],
                    value_bits: raw.data[1],
                    discrete: raw.data[2] as i32,
                },
            },
        )
    } else if raw.type_ == INPUT_TYPE_TOUCH {
        let action = raw.data[0] as i32;
        let at = backend.base_at(now_usec, raw.data[1], raw.data[2]);
        let slot = Some(clamp_nonneg(raw.data[3] as i32));
        if action == INPUT_ACTION_DOWN {
            Some(AnlandInputEvent::TouchDown { event: AnlandTouchDownEvent { base: at, slot } })
        } else if action == INPUT_ACTION_MOVE {
            Some(AnlandInputEvent::TouchMotion { event: AnlandTouchMotionEvent { base: at, slot } })
        } else if action == INPUT_ACTION_UP {
            Some(AnlandInputEvent::TouchUp { event: AnlandTouchUpEvent { base: at, slot } })
        } else {
            None
        }
    } else if raw.type_ == INPUT_TYPE_TOUCH_FRAME {
        Some(AnlandInputEvent::TouchFrame { event: AnlandTouchFrameEvent { base: at_origin } })
    } else {
        None
    }
}

/// Converts a raw consumer event, observed at monotonic time `now_usec`
/// (microseconds), into the compositor event it stands for; `None` for an
/// event that stands for none.
pub fn translate(backend: &AnlandInputBackend, raw: &InputEvent, now_usec: u64) -> (r: Option<
    AnlandInputEvent,
>)
    ensures
        r == translated(*backend, *raw, now_usec),
        r is Some <==> is_translatable(*raw),
{
    let type_ = raw.type_;
    if type_ == INPUT_TYPE_KEY {
        let key = raw.key();
        let state = if key.action == INPUT_ACTION_DOWN {
            KeyState::Pressed
        } else {
            KeyState::Released
        };
        Some(
            AnlandInputEvent::Keyboard {
                event: AnlandKeyboardKeyEvent {
                    base: backend.base(now_usec, 0, 0),
                    keycode: clamp_to_u32(key.keycode),
                    state,
                },
            },
        )
    } else if type_ == INPUT_TYPE_POINTER_MOTION {
        // The consumer provides an absolute position alongside the deltas, so
        // it is reported as absolute motion to keep the cursor in sync.
        let m = raw.pointer_motion();
        Some(
            AnlandInputEvent::PointerMotionAbsolute {
                event: AnlandPointerMotionAbsoluteEvent(backend.base(now_usec, m.x_bits, m.y_bits)),
            },
        )
    } else if type_ == INPUT_TYPE_POINTER_BUTTON {
        let b = raw.pointer_button();
        let state = if b.pressed != 0 {
            ButtonState::Pressed
        } else {
            ButtonState::Released
        };
        Some(
            AnlandInputEvent::PointerButton {
                event: AnlandPointerButtonEvent {
                    base: backend.base(now_usec, 0, 0),
                    button: b.button,
                    state,
                },
            },
        )
    } else if type_ == INPUT_TYPE_POINTER_AXIS {
        let a = raw.pointer_axis();
        Some(
            AnlandInputEvent::PointerAxis {
                event: AnlandPointerAxisEvent {
                    base: backend.base(now_usec, 0, 0),
                    axis: a.axis,
                    value_bits: a.value_bits,
                    discrete: a.discrete,
                },
            },
        )
    } else if type_ == INPUT_TYPE_TOUCH {
        let t = raw.touch();
        let slot = Some(clamp_to_u32(t.pointer_id));
        if t.action == INPUT_ACTION_DOWN {
            Some(
                AnlandInputEvent::TouchDown {
                    event: AnlandTouchDownEvent {
                        base: backend.base(now_usec, t.x_bits, t.y_bits),
                        slot,
                    },
                },
            )
        } else if t.action == INPUT_ACTION_MOVE {
            Some(
                AnlandInputEvent::TouchMotion {
                    event: AnlandTouchMotionEvent {
                        base: backend.base(now_usec, t.x_bits, t.y_bits),
                        slot,
                    },
                },
            )
        } else if t.action == INPUT_ACTION_UP {
            Some(
                AnlandInputEvent::TouchUp {
                    event: AnlandTouchUpEvent {
                        base: backend.base(now_usec, t.x_bits, t.y_bits),
                        slot,
                    },
                },
            )
        } else {
            None
        }
    } else if type_ == INPUT_TYPE_TOUCH_FRAME {
        Some(
            AnlandInputEvent::TouchFrame {
                event: AnlandTouchFrameEvent { base: backend.base(now_usec, 0, 0) },
            },
        )
    } else {
        None
    }
}

} // verus!
