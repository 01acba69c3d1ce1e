use sdl2::controller::{Axis, Button};
use sdl2::event::{Event, RawEventError};
use sdl2::joystick::HatState;
use sdl2::keyboard::{Keycode, Mod, Scancode};
use sdl2::mouse::{MouseButton, MouseState, MouseWheelDirection};
use sdl2::raw::RawEvent;
use sdl2::window::WindowEvent;

fn raw_with(fields: &[(usize, &[u8])]) -> RawEvent {
    let mut bytes = [0u8; 56];
    for (off, data) in fields {
        bytes[*off..*off + data.len()].copy_from_slice(data);
    }
    RawEvent::from_bytes(&bytes, &[])
}

// Tests a round-trip conversion from an Event type to
// the SDL event type and back, to make sure it's sane.
#[test]
fn test_to_from_ll() {
    {
        let e = Event::Quit { timestamp: 0 };
        let e2 = Event::from_ll(&e.clone().to_ll().unwrap());
        assert!(e == e2);
    }
    {
        let e = Event::Window {
            timestamp: 0,
            window_id: 0,
            win_event: WindowEvent::Resized(1, 2),
        };
        let e2 = Event::from_ll(&e.clone().to_ll().unwrap());
        assert!(e == e2);
    }
    {
        let e = Event::KeyDown {
            timestamp: 0,
            window_id: 1,
            keycode: None,
            scancode: Some(Scancode::Q),
            keymod: Mod::all(),
            repeat: false,
        };
        let e2 = Event::from_ll(&e.clone().to_ll().unwrap());
        assert!(e == e2);
    }
    {
        let e = Event::KeyUp {
            timestamp: 123,
            window_id: 0,
            keycode: Some(Keycode::R),
            scancode: Some(Scancode::R),
            keymod: Mod::empty(),
            repeat: true,
        };
        let e2 = Event::from_ll(&e.clone().to_ll().unwrap());
        assert!(e == e2);
    }
    {
        let e = Event::MouseMotion {
            timestamp: 0,
            window_id: 0,
            which: 1,
            mousestate: MouseState::from_sdl_state(1),
            x: 3,
            y: 91,
            xrel: -1,
            yrel: 43,
        };
        let e2 = Event::from_ll(&e.clone().to_ll().unwrap());
        assert!(e == e2);
    }
    {
        let e = Event::MouseButtonDown {
            timestamp: 5634,
            window_id: 2,
            which: 0,
            mouse_btn: MouseButton::Left,
            x: 543,
            y: 345,
        };
        let e2 = Event::from_ll(&e.clone().to_ll().unwrap());
        assert!(e == e2);
    }
    {
        let e = Event::MouseButtonUp {
            timestamp: 0,
            window_id: 2,
            which: 0,
            mouse_btn: MouseButton::Left,
            x: 543,
            y: 345,
        };
        let e2 = Event::from_ll(&e.clone().to_ll().unwrap());
        assert!(e == e2);
    }
    {
        let e = Event::MouseWheel {
            timestamp: 1,
            window_id: 0,
            which: 32,
            x: 23,
            y: 91,
            direction: MouseWheelDirection::Flipped,
        };
        let e2 = Event::from_ll(&e.clone().to_ll().unwrap());
        assert!(e == e2);
    }
    {
        let e = Event::JoyAxisMotion {
            timestamp: 0,
            which: 1,
            axis_idx: 1,
            value: 12,
        };
        let e2 = Event::from_ll(&e.clone().to_ll().unwrap());
        assert!(e == e2);
    }
    {
        let e = Event::JoyBallMotion {
            timestamp: 0,
            which: 0,
            ball_idx: 1,
            xrel: 123,
            yrel: 321,
        };
        let e2 = Event::from_ll(&e.clone().to_ll().unwrap());
        assert!(e == e2);
    }
    {
        let e = Event::JoyHatMotion {
            timestamp: 0,
            which: 3,
            hat_idx: 1,
            state: HatState::Left,
        };
        let e2 = Event::from_ll(&e.clone().to_ll().unwrap());
        assert!(e == e2);
    }
    {
        let e = Event::JoyButtonDown {
            timestamp: 0,
            which: 0,
            button_idx: 3,
        };
        let e2 = Event::from_ll(&e.clone().to_ll().unwrap());
        assert!(e == e2);
    }
    {
        let e = Event::JoyButtonUp {
            timestamp: 9876,
            which: 1,
            button_idx: 2,
        };
        let e2 = Event::from_ll(&e.clone().to_ll().unwrap());
        assert!(e == e2);
    }
    {
        let e = Event::JoyDeviceAdded {
            timestamp: 0,
            which: 1,
        };
        let e2 = Event::from_ll(&e.clone().to_ll().unwrap());
        assert!(e == e2);
    }
    {
        let e = Event::JoyDeviceRemoved {
            timestamp: 0,
            which: 2,
        };
        let e2 = Event::from_ll(&e.clone().to_ll().unwrap());
        assert!(e == e2);
    }
    {
        let e = Event::ControllerAxisMotion {
            timestamp: 53,
            which: 0,
            axis: Axis::LeftX,
            value: 3,
        };
        let e2 = Event::from_ll(&e.clone().to_ll().unwrap());
        assert!(e == e2);
    }
    {
        let e = Event::ControllerButtonDown {
            timestamp: 0,
            which: 1,
            button: Button::Guide,
        };
        let e2 = Event::from_ll(&e.clone().to_ll().unwrap());
        assert!(e == e2);
    }
    {
        let e = Event::ControllerButtonUp {
            timestamp: 654214,
            which: 0,
            button: Button::DPadRight,
        };
        let e2 = Event::from_ll(&e.clone().to_ll().unwrap());
        assert!(e == e2);
    }
    {
        let e = Event::ControllerDeviceAdded {
            timestamp: 543,
            which: 3,
        };
        let e2 = Event::from_ll(&e.clone().to_ll().unwrap());
        assert!(e == e2);
    }
    {
        let e = Event::ControllerDeviceRemoved {
            timestamp: 555,
            which: 3,
        };
        let e2 = Event::from_ll(&e.clone().to_ll().unwrap());
        assert!(e == e2);
    }
    {
        let e = Event::ControllerDeviceRemapped {
            timestamp: 654,
            which: 0,
        };
        let e2 = Event::from_ll(&e.clone().to_ll().unwrap());
        assert!(e == e2);
    }
}

#[test]
fn quit_event_bytes_follow_the_c_layout() {
    let raw = Event::Quit { timestamp: 0x0102_0304 }.to_ll().unwrap();
    let bytes = raw.bytes();
    assert_eq!(&bytes[0..4], &[0x00, 0x01, 0x00, 0x00]);
    assert_eq!(&bytes[4..8], &[0x04, 0x03, 0x02, 0x01]);
    assert!(bytes[8..].iter().all(|b| *b == 0));
}

#[test]
fn key_down_bytes_hold_the_key_description() {
    let e = Event::KeyDown {
        timestamp: 7,
        window_id: 2,
        keycode: Some(Keycode::A),
        scancode: Some(Scancode::A),
        keymod: Mod::all(),
        repeat: true,
    };
    let raw = e.to_ll().unwrap();
    let b = raw.bytes();
    assert_eq!(&b[0..4], &[0x00, 0x03, 0x00, 0x00]);
    assert_eq!(b[12], 1);
    assert_eq!(b[13], 1);
    assert_eq!(&b[16..20], &[4, 0, 0, 0]);
    assert_eq!(&b[20..24], &[97, 0, 0, 0]);
    assert_eq!(&b[24..26], &[0xc3, 0xff]);
}

#[test]
fn unconvertible_events_give_none() {
    assert!(Event::TextInput { timestamp: 0, window_id: 0, text: "a".to_string() }.to_ll().is_none());
    assert!(Event::ClipboardUpdate { timestamp: 0 }.to_ll().is_none());
    assert!(Event::AppLowMemory { timestamp: 0 }.to_ll().is_none());
    assert!(Event::Unknown { timestamp: 0, type_: 0x201 }.to_ll().is_none());
}

#[test]
fn user_event_round_trips() {
    let e = Event::User {
        timestamp: 9,
        window_id: 4,
        type_: 0x8001,
        code: -5,
        data1: 0x1234_5678_9abc_def0,
        data2: 0x5678,
    };
    let e2 = Event::from_ll(&e.clone().to_ll().unwrap());
    assert!(e == e2);
    assert!(e2.is_user_event());
}

#[test]
fn user_event_with_a_known_type_number_is_read_as_that_type() {
    let e = Event::User { timestamp: 9, window_id: 4, type_: 0x100, code: 0, data1: 0, data2: 0 };
    let e2 = Event::from_ll(&e.to_ll().unwrap());
    assert!(e2 == Event::Quit { timestamp: 9 });
}

#[test]
fn unknown_type_numbers_below_user_events_are_unknown_events() {
    let raw = raw_with(&[(0, &0x201u32.to_le_bytes()), (4, &5u32.to_le_bytes())]);
    assert!(Event::from_ll(&raw) == Event::Unknown { timestamp: 5, type_: 0x201 });
    let raw = raw_with(&[(0, &0x9000u32.to_le_bytes()), (8, &3u32.to_le_bytes()), (12, &7i32.to_le_bytes())]);
    assert!(Event::from_ll(&raw) == Event::User { timestamp: 0, window_id: 3, type_: 0x9000, code: 7, data1: 0, data2: 0 });
}

#[test]
fn rejected_raw_events() {
    let first = raw_with(&[(0, &0u32.to_le_bytes())]);
    assert!(Event::checked_from_ll(&first) == Err(RawEventError::UnusedFirst));
    let last = raw_with(&[(0, &0xffffu32.to_le_bytes())]);
    assert!(Event::checked_from_ll(&last) == Err(RawEventError::UnusableLast));
    let bad_mod = raw_with(&[(0, &0x300u32.to_le_bytes()), (24, &0x0004u16.to_le_bytes())]);
    assert!(Event::checked_from_ll(&bad_mod) == Err(RawEventError::InvalidKeymod));
    let bad_axis = raw_with(&[(0, &0x650u32.to_le_bytes()), (12, &[9])]);
    assert!(Event::checked_from_ll(&bad_axis) == Err(RawEventError::InvalidControllerAxis));
    let bad_button = raw_with(&[(0, &0x652u32.to_le_bytes()), (12, &[15])]);
    assert!(Event::checked_from_ll(&bad_button) == Err(RawEventError::InvalidControllerButton));
    let bad_edit = raw_with(&[(0, &0x302u32.to_le_bytes()), (12, &[0xff, 0xfe])]);
    assert!(Event::checked_from_ll(&bad_edit) == Err(RawEventError::InvalidTextEditing));
    let bad_input = raw_with(&[(0, &0x303u32.to_le_bytes()), (12, &[0xc3])]);
    assert!(Event::checked_from_ll(&bad_input) == Err(RawEventError::InvalidTextInput));
}

#[test]
fn text_input_is_read_up_to_the_nul() {
    let raw = raw_with(&[(0, &0x303u32.to_le_bytes()), (4, &11u32.to_le_bytes()), (8, &2u32.to_le_bytes()), (12, b"h\xc3\xa9llo\0xyz")]);
    let e = Event::checked_from_ll(&raw).ok().unwrap();
    assert!(e == Event::TextInput { timestamp: 11, window_id: 2, text: "héllo".to_string() });
}

#[test]
fn text_editing_without_nul_takes_the_whole_field() {
    let text = [b'a'; 32];
    let raw = raw_with(&[(0, &0x302u32.to_le_bytes()), (12, &text), (44, &3i32.to_le_bytes()), (48, &(-1i32).to_le_bytes())]);
    let e = Event::from_ll(&raw);
    assert!(e == Event::TextEditing { timestamp: 0, window_id: 0, text: "a".repeat(32), start: 3, length: -1 });
}

#[test]
fn drop_file_name_is_decoded_lossily() {
    let mut bytes = [0u8; 56];
    bytes[0..4].copy_from_slice(&0x1000u32.to_le_bytes());
    bytes[4..8].copy_from_slice(&12u32.to_le_bytes());
    let raw = RawEvent::from_bytes(&bytes, b"/tmp/a.txt");
    assert!(Event::from_ll(&raw) == Event::DropFile { timestamp: 12, filename: "/tmp/a.txt".to_string() });
    let raw = RawEvent::from_bytes(&bytes, b"a\xffb");
    assert!(Event::from_ll(&raw) == Event::DropFile { timestamp: 12, filename: "a\u{fffd}b".to_string() });
}

#[test]
fn finger_event_fields_keep_their_bits() {
    let raw = raw_with(&[
        (0, &0x700u32.to_le_bytes()),
        (8, &(-3i64).to_le_bytes()),
        (16, &44i64.to_le_bytes()),
        (24, &0.5f32.to_bits().to_le_bytes()),
        (40, &1.0f32.to_bits().to_le_bytes()),
    ]);
    match Event::from_ll(&raw) {
        Event::FingerDown { touch_id, finger_id, x, pressure, .. } => {
            assert_eq!(touch_id, -3);
            assert_eq!(finger_id, 44);
            assert_eq!(f32::from_bits(x), 0.5);
            assert_eq!(f32::from_bits(pressure), 1.0);
        }
        _ => panic!("not a finger event"),
    }
}

#[test]
fn window_event_decodes_unknown_numbers_as_no_event() {
    let raw = raw_with(&[(0, &0x200u32.to_le_bytes()), (8, &6u32.to_le_bytes()), (12, &[99]), (16, &5i32.to_le_bytes())]);
    assert!(Event::from_ll(&raw) == Event::Window { timestamp: 0, window_id: 6, win_event: WindowEvent::NoEvent });
}

#[test]
fn mouse_wheel_unknown_direction_numbers_are_kept() {
    let raw = raw_with(&[(0, &0x403u32.to_le_bytes()), (24, &7u32.to_le_bytes())]);
    match Event::from_ll(&raw) {
        Event::MouseWheel { direction, .. } => assert_eq!(direction, MouseWheelDirection::Unknown(7)),
        _ => panic!("not a wheel event"),
    }
}

#[test]
fn debug_names() {
    assert_eq!(Event::Quit { timestamp: 0 }.debug_name(), "Event::Quit");
    assert_eq!(Event::Unknown { timestamp: 0, type_: 1 }.debug_name(), "Event::Unknown");
    assert_eq!(Event::DropFile { timestamp: 0, filename: String::new() }.debug_name(), "Event::DropFile");
}

#[test]
fn is_user_event_only_for_user_events() {
    assert!(!Event::Quit { timestamp: 0 }.is_user_event());
    assert!(Event::User { timestamp: 0, window_id: 0, type_: 0x8000, code: 0, data1: 0, data2: 0 }.is_user_event());
}
