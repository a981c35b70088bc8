//! The anland protocol: event type numbers and payload layouts.
//!
//! Every payload is a sequence of 32-bit fields, and the payload of an event is
//! four such words. A field that the protocol carries as an IEEE-754 single is
//! held here by its bit pattern, so that it travels through the library
//! unchanged.
#![allow(non_camel_case_types)]

use vstd::prelude::*;

verus! {

pub const MAX_BUFS: usize = 8;

// Input event types (consumer -> producer).
pub const INPUT_TYPE_TOUCH: u32 = 1;
pub const INPUT_TYPE_KEY: u32 = 2;
pub const INPUT_TYPE_POINTER_MOTION: u32 = 3;
pub const INPUT_TYPE_POINTER_BUTTON: u32 = 4;
pub const INPUT_TYPE_POINTER_AXIS: u32 = 5;
pub const INPUT_TYPE_TOUCH_FRAME: u32 = 6;
pub const INPUT_TYPE_DISPLAY_REFRESH: u32 = 7;
pub const INPUT_TYPE_CLIPBOARD: u32 = 8;
pub const INPUT_TYPE_TEXT_INPUT: u32 = 9;
pub const INPUT_TYPE_ACTION: u32 = 10;
pub const INPUT_TYPE_RESOURCE: u32 = 11;
pub const INPUT_TYPE_RESOURCE_INVALID: u32 = 12;

pub const INPUT_ACTION_DOWN: i32 = 0;
pub const INPUT_ACTION_UP: i32 = 1;
pub const INPUT_ACTION_MOVE: i32 = 2;

// Output event types (producer -> consumer).
pub const OUTPUT_TYPE_CLIPBOARD: u32 = 1;
pub const OUTPUT_TYPE_RESOURCES_REQUEST: u32 = 2;
pub const OUTPUT_TYPE_SET_CONSUMER_VAR: u32 = 3;

pub const SERVICE_TYPE_CAMERA: u32 = 1;

/// Description of one shared display buffer.
#[derive(Debug, Clone, Copy, Default)]
pub struct buf_info {
    pub stride: u32,
    pub width: u32,
    pub height: u32,
    pub format: u32,
    pub modifier: u64,
    pub offset: u32,
}

/// Touch payload; `x_bits` and `y_bits` are the bit patterns of single floats.
#[derive(Debug, Clone, Copy)]
pub struct TouchEvent {
    pub action: i32,
    pub x_bits: u32,
    pub y_bits: u32,
    pub pointer_id: i32,
}

/// Key payload: an action and an evdev key code.
#[derive(Debug, Clone, Copy)]
pub struct KeyEvent {
    pub action: i32,
    pub keycode: i32,
}

/// Pointer motion payload: absolute position and deltas, as single-float bit patterns.
#[derive(Debug, Clone, Copy)]
pub struct PointerMotionEvent {
    pub x_bits: u32,
    pub y_bits: u32,
    pub dx_bits: u32,
    pub dy_bits: u32,
}

/// Pointer button payload.
#[derive(Debug, Clone, Copy)]
pub struct PointerButtonEvent {
    pub button: u32,
    pub pressed: i32,
}

/// Pointer axis payload; `value_bits` is the bit pattern of a single float.
#[derive(Debug, Clone, Copy)]
pub struct PointerAxisEvent {
    pub axis: u32,
    pub value_bits: u32,
    pub discrete: i32,
}

#[derive(Debug, Clone, Copy)]
pub struct DisplayEvent {
    pub refresh_mhz: u32,
}

#[derive(Debug, Clone, Copy)]
pub struct SizeEvent {
    pub size: u32,
}

#[derive(Debug, Clone, Copy)]
pub struct InputActionEvent {
    pub action: u32,
    pub value: i32,
}

#[derive(Debug, Clone, Copy)]
pub struct ResourceEvent {
    pub type_: u32,
    pub fdnum: u32,
}

#[derive(Debug, Clone, Copy)]
pub struct ResourceRequestEvent {
    pub type_: u32,
    pub args: [u32; 3],
}

#[derive(Debug, Clone, Copy)]
pub struct SetConsumerVarEvent {
    pub var: u32,
    pub value: u32,
}

/// An input event as it arrives: its type and the four payload words.
#[derive(Debug, Clone, Copy)]
pub struct InputEvent {
    pub type_: u32,
    pub data: [u32; 4],
}

/// An output event as it is sent: its type and the four payload words.
#[derive(Debug, Clone, Copy)]
pub struct OutputEvent {
    pub type_: u32,
    pub data: [u32; 4],
}

impl InputEvent {
    /// The payload read as a key event.
    pub fn key(&self) -> (k: KeyEvent)
        ensures
            k.action == self.data[0] as i32,
            k.keycode == self.data[1] as i32,
    {
        KeyEvent { action: self.data[0] as i32, keycode: self.data[1] as i32 }
    }

    /// The payload read as a touch event.
    pub fn touch(&self) -> (t: TouchEvent)
        ensures
            t.action == self.data[0] as i32,
            t.x_bits == self.data[1],
            t.y_bits == self.data[2],
            t.pointer_id == self.data[3] as i32,
    {
        TouchEvent {
            action: self.data[0] as i32,
            x_bits: self.data[1],
            y_bits: self.data[2],
            pointer_id: self.data[3] as i32,
        }
    }

    /// The payload read as a pointer motion event.
    pub fn pointer_motion(&self) -> (m: PointerMotionEvent)
        ensures
            m.x_bits == self.data[0],
            m.y_bits == self.data[1],
            m.dx_bits == self.data[2],
            m.dy_bits == self.data[3],
    {
        PointerMotionEvent {
            x_bits: self.data[0],
            y_bits: self.data[1],
            dx_bits: self.data[2],
            dy_bits: self.data[3],
        }
    }

    /// The payload read as a pointer button event.
    pub fn pointer_button(&self) -> (b: PointerButtonEvent)
        ensures
            b.button == self.data[0],
            b.pressed == self.data[1] as i32,
    {
        PointerButtonEvent { button: self.data[0], pressed: self.data[1] as i32 }
    }

    /// The payload read as a pointer axis event.
    pub fn pointer_axis(&self) -> (a: PointerAxisEvent)
        ensures
            a.axis == self.data[0],
            a.value_bits == self.data[1],
            a.discrete == self.data[2] as i32,
    {
        PointerAxisEvent {
            axis: self.data[0],
            value_bits: self.data[1],
            discrete: self.data[2] as i32,
        }
    }
}

} // verus!
