use anland::ffi::{InputEvent, INPUT_TYPE_TOUCH};
use anland::input::{AnlandDevice, DeviceCapability};

#[test]
fn device_identity() {
    let d = AnlandDevice;
    assert_eq!(d.id(), "anland");
    assert_eq!(d.name(), "anland consumer input");
    assert_eq!(d.usb_id(), None);
}

#[test]
fn device_capabilities() {
    let d = AnlandDevice;
    assert!(d.has_capability(DeviceCapability::Keyboard));
    assert!(d.has_capability(DeviceCapability::Pointer));
    assert!(d.has_capability(DeviceCapability::Touch));
    assert!(!d.has_capability(DeviceCapability::TabletTool));
    assert!(!d.has_capability(DeviceCapability::TabletPad));
    assert!(!d.has_capability(DeviceCapability::Gesture));
    assert!(!d.has_capability(DeviceCapability::Switch));
}

#[test]
fn payload_views() {
    let raw = InputEvent { type_: INPUT_TYPE_TOUCH, data: [2, 1.5f32.to_bits(), 2.5f32.to_bits(), (-4i32) as u32] };
    let t = raw.touch();
    assert_eq!(t.action, 2);
    assert_eq!(f32::from_bits(t.x_bits), 1.5);
    assert_eq!(f32::from_bits(t.y_bits), 2.5);
    assert_eq!(t.pointer_id, -4);
    let k = raw.key();
    assert_eq!((k.action, k.keycode), (2, 1.5f32.to_bits() as i32));
    let b = raw.pointer_button();
    assert_eq!((b.button, b.pressed), (2, 1.5f32.to_bits() as i32));
    let a = raw.pointer_axis();
    assert_eq!((a.axis, a.value_bits, a.discrete), (2, 1.5f32.to_bits(), 2.5f32.to_bits() as i32));
    let m = raw.pointer_motion();
    assert_eq!((m.x_bits, m.y_bits, m.dx_bits, m.dy_bits), (2, 1.5f32.to_bits(), 2.5f32.to_bits(), (-4i32) as u32));
}
