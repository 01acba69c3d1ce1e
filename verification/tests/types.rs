use sdl2::controller::{Axis, Button};
use sdl2::event::mk_keysym;
use sdl2::event_type::EventType;
use sdl2::joystick::HatState;
use sdl2::keyboard::{Keycode, Mod, Scancode};
use sdl2::mouse::{MouseButton, MouseWheelDirection};
use sdl2::window::WindowEvent;

#[test]
fn event_type_numbers() {
    assert_eq!(EventType::from_i64(0x100), Some(EventType::Quit));
    assert_eq!(EventType::from_i64(0x1_0000_0100), Some(EventType::Quit));
    assert_eq!(EventType::from_i64(0x201), None);
    assert_eq!(EventType::from_u64(0x8000), Some(EventType::User));
    assert_eq!(EventType::from_u64(0xffff), Some(EventType::Last));
    assert_eq!(EventType::from_u64(0x1000), Some(EventType::DropFile));
    assert_eq!(EventType::Window.to_u32(), 0x200);
    assert_eq!(EventType::ControllerDeviceRemapped.to_u32(), 0x655);
}

#[test]
fn window_event_codes() {
    assert_eq!(WindowEvent::from_ll(4, 7, 8), WindowEvent::Moved(7, 8));
    assert_eq!(WindowEvent::from_ll(1, 7, 8), WindowEvent::Shown);
    assert_eq!(WindowEvent::from_ll(200, 1, 2), WindowEvent::NoEvent);
    assert_eq!(WindowEvent::Close.to_ll(), (14, 0, 0));
    assert_eq!(WindowEvent::SizeChanged(-3, 4).to_ll(), (6, -3, 4));
    let w = WindowEvent::HitTest;
    let (id, d1, d2) = w.to_ll();
    assert_eq!(WindowEvent::from_ll(id, d1, d2), w);
}

#[test]
fn keysym_from_keys() {
    let k = mk_keysym(None, None, Mod::empty());
    assert_eq!((k.scancode, k.sym, k.mod_, k.unused), (0, 0, 0, 0));
    let k = mk_keysym(Some(Scancode::F1), Some(Keycode::F1), Mod::all());
    assert_eq!((k.scancode, k.sym, k.mod_), (58, 58 | (1 << 30), 0xffc3));
}

#[test]
fn key_codes() {
    assert_eq!(Scancode::from_i32(20), Some(Scancode::Q));
    assert_eq!(Scancode::from_i32(0), None);
    assert_eq!(Scancode::from_i32(512), Some(Scancode::Num));
    assert_eq!(Scancode::Escape.to_i32(), 41);
    assert_eq!(Keycode::from_i32(114), Some(Keycode::R));
    assert_eq!(Keycode::from_i32(0), None);
    assert_eq!(Keycode::from_i32(57 | (1 << 30)), Some(Keycode::CapsLock));
    assert_eq!(Keycode::Delete.to_i32(), 127);
}

#[test]
fn modifier_masks() {
    assert_eq!(Mod::all().bits(), 0xffc3);
    assert_eq!(Mod::empty().bits(), 0);
    assert_eq!(Mod::from_bits(0x0041).map(|m| m.bits()), Some(0x0041));
    assert_eq!(Mod::from_bits(0x0004), None);
    assert_eq!(Mod::from_bits(0x1_0000), None);
}

#[test]
fn device_codes() {
    assert_eq!(MouseButton::from_ll(3), MouseButton::Right);
    assert_eq!(MouseButton::from_ll(9), MouseButton::Unknown);
    assert_eq!(MouseButton::X2.to_u8(), 5);
    assert_eq!(MouseWheelDirection::from_ll(1), MouseWheelDirection::Flipped);
    assert_eq!(MouseWheelDirection::Unknown(5).to_ll(), 5);
    assert_eq!(HatState::from_raw(9), HatState::LeftUp);
    assert_eq!(HatState::from_raw(5), HatState::Centered);
    assert_eq!(HatState::RightDown.to_raw(), 6);
    assert_eq!(Axis::from_ll(5), Some(Axis::TriggerRight));
    assert_eq!(Axis::from_ll(-1), None);
    assert_eq!(Button::from_ll(14), Some(Button::DPadRight));
    assert_eq!(Button::from_ll(15), None);
    assert_eq!(Button::Start.to_ll(), 6);
}
