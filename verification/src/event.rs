//! SDL events and their conversion to and from SDL's raw event union.

use vstd::prelude::*;
use vstd::utf8::decode_utf8;
use vstd::utf8::valid_utf8;

use crate::controller::Axis;
use crate::controller::Button;
use crate::custom::CustomEventTypeMaps;
use crate::custom::CustomEventTypesView;
use crate::event_type::SDL_QUIT;
use crate::event_type::SDL_LASTEVENT;
use crate::event_type::SDL_WINDOWEVENT;
use crate::event_type::SDL_KEYDOWN;
use crate::event_type::SDL_KEYUP;
use crate::event_type::SDL_MOUSEMOTION;
use crate::event_type::SDL_MOUSEBUTTONDOWN;
use crate::event_type::SDL_MOUSEBUTTONUP;
use crate::event_type::SDL_MOUSEWHEEL;
use crate::event_type::SDL_JOYAXISMOTION;
use crate::event_type::SDL_JOYBALLMOTION;
use crate::event_type::SDL_JOYHATMOTION;
use crate::event_type::SDL_JOYBUTTONDOWN;
use crate::event_type::SDL_JOYBUTTONUP;
use crate::event_type::SDL_JOYDEVICEADDED;
use crate::event_type::SDL_JOYDEVICEREMOVED;
use crate::event_type::SDL_CONTROLLERAXISMOTION;
use crate::event_type::SDL_CONTROLLERBUTTONDOWN;
use crate::event_type::SDL_CONTROLLERBUTTONUP;
use crate::event_type::SDL_CONTROLLERDEVICEADDED;
use crate::event_type::SDL_CONTROLLERDEVICEREMOVED;
use crate::event_type::SDL_CONTROLLERDEVICEREMAPPED;
use crate::event_type::EventType;
use crate::joystick::HatState;
use crate::keyboard::Keycode;
use crate::keyboard::Keysym;
use crate::keyboard::Mod;
use crate::keyboard::Scancode;
use crate::mouse::MouseButton;
use crate::mouse::MouseState;
use crate::mouse::MouseWheelDirection;
use crate::raw::RawEvent;
use crate::raw::RawEventView;
use crate::raw::RAW_EVENT_SIZE;
use crate::raw::zero_bytes;
use crate::raw::zeroed_bytes;
use crate::raw::put_u8;
use crate::raw::put_u16;
use crate::raw::put_u32;
use crate::raw::put_u64;
use crate::raw::write_u16;
use crate::raw::write_u32;
use crate::raw::write_u64;
use crate::raw::read_u16;
use crate::raw::read_u32;
use crate::raw::read_u64;
use crate::raw::read_i16;
use crate::raw::read_i32;
use crate::raw::read_i64;
use crate::raw::lemma_read_u16_bytes;
use crate::raw::lemma_read_u32_bytes;
use crate::raw::lemma_read_u64_bytes;
use crate::raw::lemma_i16_bits;
use crate::raw::lemma_i32_bits;
use crate::raw::lemma_i64_bits;
use crate::text::c_string;
use crate::text::c_string_at;
use crate::text::string_from_utf8;
use crate::text::string_from_utf8_lossy;
use crate::text::utf8_lossy;
use crate::window::WindowEvent;

verus! {

/// SDL's value for a pressed key or button.
pub const SDL_PRESSED: u8 = 1;

/// SDL's value for a released key or button.
pub const SDL_RELEASED: u8 = 0;

/// SDL's scan code for an unknown key.
pub const SDL_SCANCODE_UNKNOWN: u32 = 0;

/// SDL's key code for an unknown key.
pub const SDLK_UNKNOWN: i32 = 0;

/// The smallest event type number that SDL hands out for events that applications register.
pub const USER_EVENT_BASE: u32 = 32768;

/// Different event types.
///
/// Floating-point fields hold the IEEE-754 bit pattern of SDL's `float`; pointer fields hold
/// the address.
#[derive(Clone, PartialEq)]
#[allow(inconsistent_fields)]
pub enum Event {
    Quit { timestamp: u32 },
    AppTerminating { timestamp: u32 },
    AppLowMemory { timestamp: u32 },
    AppWillEnterBackground { timestamp: u32 },
    AppDidEnterBackground { timestamp: u32 },
    AppWillEnterForeground { timestamp: u32 },
    AppDidEnterForeground { timestamp: u32 },
    Window { timestamp: u32, window_id: u32, win_event: WindowEvent },
    KeyDown {
        timestamp: u32,
        window_id: u32,
        keycode: Option<Keycode>,
        scancode: Option<Scancode>,
        keymod: Mod,
        repeat: bool,
    },
    KeyUp {
        timestamp: u32,
        window_id: u32,
        keycode: Option<Keycode>,
        scancode: Option<Scancode>,
        keymod: Mod,
        repeat: bool,
    },
    TextEditing { timestamp: u32, window_id: u32, text: String, start: i32, length: i32 },
    TextInput { timestamp: u32, window_id: u32, text: String },
    MouseMotion {
        timestamp: u32,
        window_id: u32,
        which: u32,
        mousestate: MouseState,
        x: i32,
        y: i32,
        xrel: i32,
        yrel: i32,
    },
    MouseButtonDown {
        timestamp: u32,
        window_id: u32,
        which: u32,
        mouse_btn: MouseButton,
        x: i32,
        y: i32,
    },
    MouseButtonUp {
        timestamp: u32,
        window_id: u32,
        which: u32,
        mouse_btn: MouseButton,
        x: i32,
        y: i32,
    },
    MouseWheel {
        timestamp: u32,
        window_id: u32,
        which: u32,
        x: i32,
        y: i32,
        direction: MouseWheelDirection,
    },
    JoyAxisMotion { timestamp: u32, which: i32, axis_idx: u8, value: i16 },
    JoyBallMotion { timestamp: u32, which: i32, ball_idx: u8, xrel: i16, yrel: i16 },
    JoyHatMotion { timestamp: u32, which: i32, hat_idx: u8, state: HatState },
    JoyButtonDown { timestamp: u32, which: i32, button_idx: u8 },
    JoyButtonUp { timestamp: u32, which: i32, button_idx: u8 },
    JoyDeviceAdded { timestamp: u32, which: i32 },
    JoyDeviceRemoved { timestamp: u32, which: i32 },
    ControllerAxisMotion { timestamp: u32, which: i32, axis: Axis, value: i16 },
    ControllerButtonDown { timestamp: u32, which: i32, button: Button },
    ControllerButtonUp { timestamp: u32, which: i32, button: Button },
    ControllerDeviceAdded { timestamp: u32, which: i32 },
    ControllerDeviceRemoved { timestamp: u32, which: i32 },
    ControllerDeviceRemapped { timestamp: u32, which: i32 },
    FingerDown {
        timestamp: u32,
        touch_id: i64,
        finger_id: i64,
        x: u32,
        y: u32,
        dx: u32,
        dy: u32,
        pressure: u32,
    },
    FingerUp {
        timestamp: u32,
        touch_id: i64,
        finger_id: i64,
        x: u32,
        y: u32,
        dx: u32,
        dy: u32,
        pressure: u32,
    },
    FingerMotion {
        timestamp: u32,
        touch_id: i64,
        finger_id: i64,
        x: u32,
        y: u32,
        dx: u32,
        dy: u32,
        pressure: u32,
    },
    DollarGesture {
        timestamp: u32,
        touch_id: i64,
        gesture_id: i64,
        num_fingers: u32,
        error: u32,
        x: u32,
        y: u32,
    },
    DollarRecord {
        timestamp: u32,
        touch_id: i64,
        gesture_id: i64,
        num_fingers: u32,
        error: u32,
        x: u32,
        y: u32,
    },
    MultiGesture {
        timestamp: u32,
        touch_id: i64,
        d_theta: u32,
        d_dist: u32,
        x: u32,
        y: u32,
        num_fingers: u16,
    },
    ClipboardUpdate { timestamp: u32 },
    DropFile { timestamp: u32, filename: String },
    User { timestamp: u32, window_id: u32, type_: u32, code: i32, data1: u64, data2: u64 },
    Unknown { timestamp: u32, type_: u32 },
}

/// The key description that `mk_keysym` builds: the codes of the given keys (SDL's codes
/// for an unknown key where there is none) and the modifier mask.
pub open spec fn spec_mk_keysym(
    scancode: Option<Scancode>,
    keycode: Option<Keycode>,
    keymod: Mod,
) -> Keysym {
    Keysym {
        scancode: match scancode {
            Some(sc) => sc.spec_to_i32() as u32,
            None => SDL_SCANCODE_UNKNOWN,
        },
        sym: match keycode {
            Some(kc) => kc.spec_to_i32(),
            None => SDLK_UNKNOWN,
        },
        mod_: keymod.spec_bits() as u16,
        unused: 0,
    }
}

/// Builds SDL's description of a key from its scan code, key code and modifiers.
pub fn mk_keysym(scancode: Option<Scancode>, keycode: Option<Keycode>, keymod: Mod) -> (r: Keysym)
    ensures
        r == spec_mk_keysym(scancode, keycode, keymod),
{
    let scancode: u32 = match scancode {
        Some(sc) => sc.to_i32() as u32,
        None => SDL_SCANCODE_UNKNOWN,
    };
    let keycode: i32 = match keycode {
        Some(kc) => kc.to_i32(),
        None => SDLK_UNKNOWN,
    };
    let keymod: u16 = keymod.bits() as u16;
    Keysym { scancode, sym: keycode, mod_: keymod, unused: 0 }
}

/// The union bytes of an event whose common header holds `event_type` and `timestamp`,
/// all other bytes zero.
pub open spec fn header(event_type: u32, timestamp: u32) -> Seq<u8> {
    write_u32(write_u32(zero_bytes(), 0, event_type), 4, timestamp)
}

/// The union bytes of a keyboard event.
pub open spec fn keyboard_bytes(
    event_type: u32,
    timestamp: u32,
    window_id: u32,
    state: u8,
    repeat: bool,
    keysym: Keysym,
) -> Seq<u8> {
    let b = write_u32(header(event_type, timestamp), 8, window_id);
    let b = b.update(12, state);
    let b = b.update(13, if repeat { 1u8 } else { 0u8 });
    let b = write_u32(b, 16, keysym.scancode);
    let b = write_u32(b, 20, keysym.sym as u32);
    write_u16(b, 24, keysym.mod_)
}

/// The union bytes of a mouse button event.
pub open spec fn mouse_button_bytes(
    event_type: u32,
    timestamp: u32,
    window_id: u32,
    which: u32,
    button: u8,
    state: u8,
    x: i32,
    y: i32,
) -> Seq<u8> {
    let b = write_u32(header(event_type, timestamp), 8, window_id);
    let b = write_u32(b, 12, which);
    let b = b.update(16, button);
    let b = b.update(17, state);
    let b = write_u32(b, 20, x as u32);
    write_u32(b, 24, y as u32)
}

/// The union bytes of a joystick or controller button event.
pub open spec fn button_bytes(
    event_type: u32,
    timestamp: u32,
    which: i32,
    button: u8,
    state: u8,
) -> Seq<u8> {
    let b = write_u32(header(event_type, timestamp), 8, which as u32);
    let b = b.update(12, button);
    b.update(13, state)
}

/// The union bytes of a joystick or controller device event.
pub open spec fn device_bytes(event_type: u32, timestamp: u32, which: i32) -> Seq<u8> {
    write_u32(header(event_type, timestamp), 8, which as u32)
}

/// The union bytes of a joystick or controller axis event.
pub open spec fn axis_bytes(event_type: u32, timestamp: u32, which: i32, axis: u8, value: i16) -> Seq<u8> {
    let b = write_u32(header(event_type, timestamp), 8, which as u32);
    let b = b.update(12, axis);
    write_u16(b, 16, value as u16)
}

impl Event {
    /// SDL's raw event union for this event, as the C structures lay it out on a
    /// little-endian machine with 64-bit pointers; bytes that no field covers are zero.
    /// `None` for the events that cannot be converted: text, touch, gesture, clipboard,
    /// drop, application life-cycle and unknown events.
    pub open spec fn spec_to_ll(self) -> Option<Seq<u8>> {
        match self {
            Event::User { timestamp, window_id, type_, code, data1, data2 } => {
                let b = write_u32(header(type_, timestamp), 8, window_id);
                let b = write_u32(b, 12, code as u32);
                let b = write_u64(b, 16, data1);
                Some(write_u64(b, 24, data2))
            },
            Event::Quit { timestamp } => Some(header(SDL_QUIT, timestamp)),
            Event::Window { timestamp, window_id, win_event } => {
                let (id, data1, data2) = win_event.spec_to_ll();
                let b = write_u32(header(SDL_WINDOWEVENT, timestamp), 8, window_id);
                let b = b.update(12, id);
                let b = write_u32(b, 16, data1 as u32);
                Some(write_u32(b, 20, data2 as u32))
            },
            Event::KeyDown { timestamp, window_id, keycode, scancode, keymod, repeat } => Some(
                keyboard_bytes(
                    SDL_KEYDOWN,
                    timestamp,
                    window_id,
                    SDL_PRESSED,
                    repeat,
                    spec_mk_keysym(scancode, keycode, keymod),
                ),
            ),
            Event::KeyUp { timestamp, window_id, keycode, scancode, keymod, repeat } => Some(
                keyboard_bytes(
                    SDL_KEYUP,
                    timestamp,
                    window_id,
                    SDL_RELEASED,
                    repeat,
                    spec_mk_keysym(scancode, keycode, keymod),
                ),
            ),
            Event::MouseMotion { timestamp, window_id, which, mousestate, x, y, xrel, yrel } => {
                let b = write_u32(header(SDL_MOUSEMOTION, timestamp), 8, window_id);
                let b = write_u32(b, 12, which);
                let b = write_u32(b, 16, mousestate.spec_sdl_state());
                let b = write_u32(b, 20, x as u32);
                let b = write_u32(b, 24, y as u32);
                let b = write_u32(b, 28, xrel as u32);
                Some(write_u32(b, 32, yrel as u32))
            },
            Event::MouseButtonDown { timestamp, window_id, which, mouse_btn, x, y } => Some(
                mouse_button_bytes(
                    SDL_MOUSEBUTTONDOWN,
                    timestamp,
                    window_id,
                    which,
                    mouse_btn.spec_to_u8(),
                    SDL_PRESSED,
                    x,
                    y,
                ),
            ),
            Event::MouseButtonUp { timestamp, window_id, which, mouse_btn, x, y } => Some(
                mouse_button_bytes(
                    SDL_MOUSEBUTTONUP,
                    timestamp,
                    window_id,
                    which,
                    mouse_btn.spec_to_u8(),
                    SDL_RELEASED,
                    x,
                    y,
                ),
            ),
            Event::MouseWheel { timestamp, window_id, which, x, y, direction } => {
                let b = write_u32(header(SDL_MOUSEWHEEL, timestamp), 8, window_id);
                let b = write_u32(b, 12, which);
                let b = write_u32(b, 16, x as u32);
                let b = write_u32(b, 20, y as u32);
                Some(write_u32(b, 24, direction.spec_to_ll()))
            },
            Event::JoyAxisMotion { timestamp, which, axis_idx, value } => Some(
                axis_bytes(SDL_JOYAXISMOTION, timestamp, which, axis_idx, value),
            ),
            Event::JoyBallMotion { timestamp, which, ball_idx, xrel, yrel } => {
                let b = write_u32(header(SDL_JOYBALLMOTION, timestamp), 8, which as u32);
                let b = b.update(12, ball_idx);
                let b = write_u16(b, 16, xrel as u16);
                Some(write_u16(b, 18, yrel as u16))
            },
            Event::JoyHatMotion { timestamp, which, hat_idx, state } => {
                let b = write_u32(header(SDL_JOYHATMOTION, timestamp), 8, which as u32);
                let b = b.update(12, hat_idx);
                Some(b.update(13, state.spec_to_raw()))
            },
            Event::JoyButtonDown { timestamp, which, button_idx } => Some(
                button_bytes(SDL_JOYBUTTONDOWN, timestamp, which, button_idx, SDL_PRESSED),
            ),
            Event::JoyButtonUp { timestamp, which, button_idx } => Some(
                button_bytes(SDL_JOYBUTTONUP, timestamp, which, button_idx, SDL_RELEASED),
            ),
            Event::JoyDeviceAdded { timestamp, which } => Some(
                device_bytes(SDL_JOYDEVICEADDED, timestamp, which),
            ),
            Event::JoyDeviceRemoved { timestamp, which } => Some(
                device_bytes(SDL_JOYDEVICEREMOVED, timestamp, which),
            ),
            Event::ControllerAxisMotion { timestamp, which, axis, value } => Some(
                axis_bytes(SDL_CONTROLLERAXISMOTION, timestamp, which, axis.spec_to_ll() as u8, value),
            ),
            Event::ControllerButtonDown { timestamp, which, button } => Some(
                button_bytes(
                    SDL_CONTROLLERBUTTONDOWN,
                    timestamp,
                    which,
                    button.spec_to_ll() as u8,
                    SDL_PRESSED,
                ),
            ),
            Event::ControllerButtonUp { timestamp, which, button } => Some(
                button_bytes(
                    SDL_CONTROLLERBUTTONUP,
                    timestamp,
                    which,
                    button.spec_to_ll() as u8,
                    SDL_RELEASED,
                ),
            ),
            Event::ControllerDeviceAdded { timestamp, which } => Some(
                device_bytes(SDL_CONTROLLERDEVICEADDED, timestamp, which),
            ),
            Event::ControllerDeviceRemoved { timestamp, which } => Some(
                device_bytes(SDL_CONTROLLERDEVICEREMOVED, timestamp, which),
            ),
            Event::ControllerDeviceRemapped { timestamp, which } => Some(
                device_bytes(SDL_CONTROLLERDEVICEREMAPPED, timestamp, which),
            ),
            _ => None,
        }
    }
}

/// The kind of event that a raw event whose type field is `t` is read as: the event type
/// that `t` identifies, and otherwise a user event.
pub open spec fn raw_kind(t: u32) -> EventType {
    match EventType::spec_from_u32(t) {
        Some(k) => k,
        None => EventType::User,
    }
}

/// Why a raw event cannot be converted to an event.
#[derive(Copy, Clone, Debug, PartialEq, Eq, Structural)]
pub enum RawEventError {
    /// The type field holds `SDL_FIRSTEVENT`, which is never used.
    UnusedFirst,
    /// The type field holds `SDL_LASTEVENT`, which is not usable.
    UnusableLast,
    /// A keyboard event's modifier mask sets a bit that names no modifier.
    InvalidKeymod,
    /// A controller axis event names no axis.
    InvalidControllerAxis,
    /// A controller button event names no button.
    InvalidControllerButton,
    /// A text editing event's text is not valid UTF-8.
    InvalidTextEditing,
    /// A text input event's text is not valid UTF-8.
    InvalidTextInput,
}

/// The text of a text editing or text input event: the bytes of its text field up to the
/// first NUL.
pub open spec fn event_text(b: Seq<u8>) -> Seq<u8> {
    c_string(b.subrange(12, 44))
}

/// Why the raw event `v` cannot be converted, if it cannot.
pub open spec fn spec_rejection(v: RawEventView) -> Option<RawEventError> {
    let b = v.bytes;
    match raw_kind(read_u32(b, 0)) {
        EventType::First => Some(RawEventError::UnusedFirst),
        EventType::Last => Some(RawEventError::UnusableLast),
        EventType::KeyDown | EventType::KeyUp => if Mod::is_valid_bits(read_u16(b, 24) as u32) {
            None
        } else {
            Some(RawEventError::InvalidKeymod)
        },
        EventType::ControllerAxisMotion => if Axis::spec_from_ll(b[12] as i32) is Some {
            None
        } else {
            Some(RawEventError::InvalidControllerAxis)
        },
        EventType::ControllerButtonDown | EventType::ControllerButtonUp => if Button::spec_from_ll(
            b[12] as i32,
        ) is Some {
            None
        } else {
            Some(RawEventError::InvalidControllerButton)
        },
        EventType::TextEditing => if valid_utf8(event_text(b)) {
            None
        } else {
            Some(RawEventError::InvalidTextEditing)
        },
        EventType::TextInput => if valid_utf8(event_text(b)) {
            None
        } else {
            Some(RawEventError::InvalidTextInput)
        },
        _ => None,
    }
}

/// The raw event `v` can be converted to an event.
pub open spec fn raw_event_accepted(v: RawEventView) -> bool {
    spec_rejection(v) is None
}

/// `e` is the event that the raw event `v` describes: its type field selects the C
/// structure, whose fields give the event's fields. An identifier that names no known
/// event type gives an unknown event below `USER_EVENT_BASE` and a user event from there on.
pub open spec fn decodes_to(v: RawEventView, e: Event) -> bool {
    let b = v.bytes;
    let t = read_u32(b, 0);
    let ts = read_u32(b, 4);
    match raw_kind(t) {
        EventType::Quit => e == Event::Quit { timestamp: ts },
        EventType::AppTerminating => e == Event::AppTerminating { timestamp: ts },
        EventType::AppLowMemory => e == Event::AppLowMemory { timestamp: ts },
        EventType::AppWillEnterBackground => e == Event::AppWillEnterBackground { timestamp: ts },
        EventType::AppDidEnterBackground => e == Event::AppDidEnterBackground { timestamp: ts },
        EventType::AppWillEnterForeground => e == Event::AppWillEnterForeground { timestamp: ts },
        EventType::AppDidEnterForeground => e == Event::AppDidEnterForeground { timestamp: ts },
        EventType::Window => e == Event::Window {
            timestamp: ts,
            window_id: read_u32(b, 8),
            win_event: WindowEvent::spec_from_ll(b[12], read_i32(b, 16), read_i32(b, 20)),
        },
        EventType::KeyDown => e == Event::KeyDown {
            timestamp: ts,
            window_id: read_u32(b, 8),
            keycode: Keycode::spec_from_i32(read_i32(b, 20)),
            scancode: Scancode::spec_from_i32(read_i32(b, 16)),
            keymod: Mod::spec_from_bits(read_u16(b, 24) as u32).unwrap(),
            repeat: b[13] != 0,
        },
        EventType::KeyUp => e == Event::KeyUp {
            timestamp: ts,
            window_id: read_u32(b, 8),
            keycode: Keycode::spec_from_i32(read_i32(b, 20)),
            scancode: Scancode::spec_from_i32(read_i32(b, 16)),
            keymod: Mod::spec_from_bits(read_u16(b, 24) as u32).unwrap(),
            repeat: b[13] != 0,
        },
        EventType::TextEditing => match e {
            Event::TextEditing { timestamp, window_id, text, start, length } => {
                &&& timestamp == ts
                &&& window_id == read_u32(b, 8)
                &&& text@ == decode_utf8(event_text(b))
                &&& start == read_i32(b, 44)
                &&& length == read_i32(b, 48)
            },
            _ => false,
        },
        EventType::TextInput => match e {
            Event::TextInput { timestamp, window_id, text } => {
                &&& timestamp == ts
                &&& window_id == read_u32(b, 8)
                &&& text@ == decode_utf8(event_text(b))
            },
            _ => false,
        },
        EventType::MouseMotion => e == Event::MouseMotion {
            timestamp: ts,
            window_id: read_u32(b, 8),
            which: read_u32(b, 12),
            mousestate: MouseState::spec_from_sdl_state(read_u32(b, 16)),
            x: read_i32(b, 20),
            y: read_i32(b, 24),
            xrel: read_i32(b, 28),
            yrel: read_i32(b, 32),
        },
        EventType::MouseButtonDown => e == Event::MouseButtonDown {
            timestamp: ts,
            window_id: read_u32(b, 8),
            which: read_u32(b, 12),
            mouse_btn: MouseButton::spec_from_ll(b[16]),
            x: read_i32(b, 20),
            y: read_i32(b, 24),
        },
        EventType::MouseButtonUp => e == Event::MouseButtonUp {
            timestamp: ts,
            window_id: read_u32(b, 8),
            which: read_u32(b, 12),
            mouse_btn: MouseButton::spec_from_ll(b[16]),
            x: read_i32(b, 20),
            y: read_i32(b, 24),
        },
        EventType::MouseWheel => e == Event::MouseWheel {
            timestamp: ts,
            window_id: read_u32(b, 8),
            which: read_u32(b, 12),
            x: read_i32(b, 16),
            y: read_i32(b, 20),
            direction: MouseWheelDirection::spec_from_ll(read_u32(b, 24)),
        },
        EventType::JoyAxisMotion => e == Event::JoyAxisMotion {
            timestamp: ts,
            which: read_i32(b, 8),
            axis_idx: b[12],
            value: read_i16(b, 16),
        },
        EventType::JoyBallMotion => e == Event::JoyBallMotion {
            timestamp: ts,
            which: read_i32(b, 8),
            ball_idx: b[12],
            xrel: read_i16(b, 16),
            yrel: read_i16(b, 18),
        },
        EventType::JoyHatMotion => e == Event::JoyHatMotion {
            timestamp: ts,
            which: read_i32(b, 8),
            hat_idx: b[12],
            state: HatState::spec_from_raw(b[13]),
        },
        EventType::JoyButtonDown => e == Event::JoyButtonDown {
            timestamp: ts,
            which: read_i32(b, 8),
            button_idx: b[12],
        },
        EventType::JoyButtonUp => e == Event::JoyButtonUp {
            timestamp: ts,
            which: read_i32(b, 8),
            button_idx: b[12],
        },
        EventType::JoyDeviceAdded => e == Event::JoyDeviceAdded {
            timestamp: ts,
            which: read_i32(b, 8),
        },
        EventType::JoyDeviceRemoved => e == Event::JoyDeviceRemoved {
            timestamp: ts,
            which: read_i32(b, 8),
        },
        EventType::ControllerAxisMotion => e == Event::ControllerAxisMotion {
            timestamp: ts,
            which: read_i32(b, 8),
            axis: Axis::spec_from_ll(b[12] as i32).unwrap(),
            value: read_i16(b, 16),
        },
        EventType::ControllerButtonDown => e == Event::ControllerButtonDown {
            timestamp: ts,
            which: read_i32(b, 8),
            button: Button::spec_from_ll(b[12] as i32).unwrap(),
        },
        EventType::ControllerButtonUp => e == Event::ControllerButtonUp {
            timestamp: ts,
            which: read_i32(b, 8),
            button: Button::spec_from_ll(b[12] as i32).unwrap(),
        },
        EventType::ControllerDeviceAdded => e == Event::ControllerDeviceAdded {
            timestamp: ts,
            which: read_i32(b, 8),
        },
        EventType::ControllerDeviceRemoved => e == Event::ControllerDeviceRemoved {
            timestamp: ts,
            which: read_i32(b, 8),
        },
        EventType::ControllerDeviceRemapped => e == Event::ControllerDeviceRemapped {
            timestamp: ts,
            which: read_i32(b, 8),
        },
        EventType::FingerDown => e == Event::FingerDown {
            timestamp: ts,
            touch_id: read_i64(b, 8),
            finger_id: read_i64(b, 16),
            x: read_u32(b, 24),
            y: read_u32(b, 28),
            dx: read_u32(b, 32),
            dy: read_u32(b, 36),
            pressure: read_u32(b, 40),
        },
        EventType::FingerUp => e == Event::FingerUp {
            timestamp: ts,
            touch_id: read_i64(b, 8),
            finger_id: read_i64(b, 16),
            x: read_u32(b, 24),
            y: read_u32(b, 28),
            dx: read_u32(b, 32),
            dy: read_u32(b, 36),
            pressure: read_u32(b, 40),
        },
        EventType::FingerMotion => e == Event::FingerMotion {
            timestamp: ts,
            touch_id: read_i64(b, 8),
            finger_id: read_i64(b, 16),
            x: read_u32(b, 24),
            y: read_u32(b, 28),
            dx: read_u32(b, 32),
            dy: read_u32(b, 36),
            pressure: read_u32(b, 40),
        },
        EventType::DollarGesture => e == Event::DollarGesture {
            timestamp: ts,
            touch_id: read_i64(b, 8),
            gesture_id: read_i64(b, 16),
            num_fingers: read_u32(b, 24),
            error: read_u32(b, 28),
            x: read_u32(b, 32),
            y: read_u32(b, 36),
        },
        EventType::DollarRecord => e == Event::DollarRecord {
            timestamp: ts,
            touch_id: read_i64(b, 8),
            gesture_id: read_i64(b, 16),
            num_fingers: read_u32(b, 24),
            error: read_u32(b, 28),
            x: read_u32(b, 32),
            y: read_u32(b, 36),
        },
        EventType::MultiGesture => e == Event::MultiGesture {
            timestamp: ts,
            touch_id: read_i64(b, 8),
            d_theta: read_u32(b, 16),
            d_dist: read_u32(b, 20),
            x: read_u32(b, 24),
            y: read_u32(b, 28),
            num_fingers: read_u16(b, 32),
        },
        EventType::ClipboardUpdate => e == Event::ClipboardUpdate { timestamp: ts },
        EventType::DropFile => match e {
            Event::DropFile { timestamp, filename } => {
                &&& timestamp == ts
                &&& filename@ == utf8_lossy(v.dropped_file)
            },
            _ => false,
        },
        EventType::User => if t < USER_EVENT_BASE {
            e == Event::Unknown { timestamp: ts, type_: t }
        } else {
            e == Event::User {
                timestamp: ts,
                window_id: read_u32(b, 8),
                type_: t,
                code: read_i32(b, 12),
                data1: read_u64(b, 16),
                data2: read_u64(b, 24),
            }
        },
        EventType::First | EventType::Last => false,
    }
}

/// The header bytes of an event, in a fresh buffer.
fn header_buf(event_type: u32, timestamp: u32) -> (r: Vec<u8>)
    ensures
        r@ == header(event_type, timestamp),
        r@.len() == RAW_EVENT_SIZE,
{
    let mut b = zeroed_bytes();
    put_u32(&mut b, 0, event_type);
    put_u32(&mut b, 4, timestamp);
    b
}

fn keyboard_buf(
    event_type: u32,
    timestamp: u32,
    window_id: u32,
    state: u8,
    repeat: bool,
    keysym: Keysym,
) -> (r: Vec<u8>)
    ensures
        r@ == keyboard_bytes(event_type, timestamp, window_id, state, repeat, keysym),
        r@.len() == RAW_EVENT_SIZE,
{
    let mut b = header_buf(event_type, timestamp);
    put_u32(&mut b, 8, window_id);
    put_u8(&mut b, 12, state);
    put_u8(&mut b, 13, if repeat { 1u8 } else { 0u8 });
    put_u32(&mut b, 16, keysym.scancode);
    put_u32(&mut b, 20, keysym.sym as u32);
    put_u16(&mut b, 24, keysym.mod_);
    b
}

fn mouse_button_buf(
    event_type: u32,
    timestamp: u32,
    window_id: u32,
    which: u32,
    button: u8,
    state: u8,
    x: i32,
    y: i32,
) -> (r: Vec<u8>)
    ensures
        r@ == mouse_button_bytes(event_type, timestamp, window_id, which, button, state, x, y),
        r@.len() == RAW_EVENT_SIZE,
{
    let mut b = header_buf(event_type, timestamp);
    put_u32(&mut b, 8, window_id);
    put_u32(&mut b, 12, which);
    put_u8(&mut b, 16, button);
    put_u8(&mut b, 17, state);
    put_u32(&mut b, 20, x as u32);
    put_u32(&mut b, 24, y as u32);
    b
}

fn button_buf(event_type: u32, timestamp: u32, which: i32, button: u8, state: u8) -> (r: Vec<u8>)
    ensures
        r@ == button_bytes(event_type, timestamp, which, button, state),
        r@.len() == RAW_EVENT_SIZE,
{
    let mut b = header_buf(event_type, timestamp);
    put_u32(&mut b, 8, which as u32);
    put_u8(&mut b, 12, button);
    put_u8(&mut b, 13, state);
    b
}

fn device_buf(event_type: u32, timestamp: u32, which: i32) -> (r: Vec<u8>)
    ensures
        r@ == device_bytes(event_type, timestamp, which),
        r@.len() == RAW_EVENT_SIZE,
{
    let mut b = header_buf(event_type, timestamp);
    put_u32(&mut b, 8, which as u32);
    b
}

fn axis_buf(event_type: u32, timestamp: u32, which: i32, axis: u8, value: i16) -> (r: Vec<u8>)
    ensures
        r@ == axis_bytes(event_type, timestamp, which, axis, value),
        r@.len() == RAW_EVENT_SIZE,
{
    let mut b = header_buf(event_type, timestamp);
    put_u32(&mut b, 8, which as u32);
    put_u8(&mut b, 12, axis);
    put_u16(&mut b, 16, value as u16);
    b
}

impl Event {
    /// Converts this event to SDL's raw event union; `None` for the events that cannot be
    /// converted.
    pub fn to_ll(self) -> (r: Option<RawEvent>)
        ensures
            r is Some <==> self.spec_to_ll() is Some,
            r matches Some(raw) ==> raw@.bytes == self.spec_to_ll().unwrap()
                && raw@.dropped_file == Seq::<u8>::empty(),
    {
        let bytes: Vec<u8> = match self {
            Event::User { window_id, type_, code, data1, data2, timestamp } => {
                let mut b = header_buf(type_, timestamp);
                put_u32(&mut b, 8, window_id);
                put_u32(&mut b, 12, code as u32);
                put_u64(&mut b, 16, data1);
                put_u64(&mut b, 24, data2);
                b
            },
            Event::Quit { timestamp } => header_buf(SDL_QUIT, timestamp),
            Event::Window { timestamp, window_id, win_event } => {
                let (win_event_id, data1, data2) = win_event.to_ll();
                let mut b = header_buf(SDL_WINDOWEVENT, timestamp);
                put_u32(&mut b, 8, window_id);
                put_u8(&mut b, 12, win_event_id);
                put_u32(&mut b, 16, data1 as u32);
                put_u32(&mut b, 20, data2 as u32);
                b
            },
            Event::KeyDown { timestamp, window_id, keycode, scancode, keymod, repeat } => {
                let keysym = mk_keysym(scancode, keycode, keymod);
                keyboard_buf(SDL_KEYDOWN, timestamp, window_id, SDL_PRESSED, repeat, keysym)
            },
            Event::KeyUp { timestamp, window_id, keycode, scancode, keymod, repeat } => {
                let keysym = mk_keysym(scancode, keycode, keymod);
                keyboard_buf(SDL_KEYUP, timestamp, window_id, SDL_RELEASED, repeat, keysym)
            },
            Event::MouseMotion { timestamp, window_id, which, mousestate, x, y, xrel, yrel } => {
                let state = mousestate.to_sdl_state();
                let mut b = header_buf(SDL_MOUSEMOTION, timestamp);
                put_u32(&mut b, 8, window_id);
                put_u32(&mut b, 12, which);
                put_u32(&mut b, 16, state);
                put_u32(&mut b, 20, x as u32);
                put_u32(&mut b, 24, y as u32);
                put_u32(&mut b, 28, xrel as u32);
                put_u32(&mut b, 32, yrel as u32);
                b
            },
            Event::MouseButtonDown { timestamp, window_id, which, mouse_btn, x, y } => {
                mouse_button_buf(
                    SDL_MOUSEBUTTONDOWN,
                    timestamp,
                    window_id,
                    which,
                    mouse_btn.to_u8(),
                    SDL_PRESSED,
                    x,
                    y,
                )
            },
            Event::MouseButtonUp { timestamp, window_id, which, mouse_btn, x, y } => {
                mouse_button_buf(
                    SDL_MOUSEBUTTONUP,
                    timestamp,
                    window_id,
                    which,
                    mouse_btn.to_u8(),
                    SDL_RELEASED,
                    x,
                    y,
                )
            },
            Event::MouseWheel { timestamp, window_id, which, x, y, direction } => {
                let mut b = header_buf(SDL_MOUSEWHEEL, timestamp);
                put_u32(&mut b, 8, window_id);
                put_u32(&mut b, 12, which);
                put_u32(&mut b, 16, x as u32);
                put_u32(&mut b, 20, y as u32);
                put_u32(&mut b, 24, direction.to_ll());
                b
            },
            Event::JoyAxisMotion { timestamp, which, axis_idx, value } => {
                axis_buf(SDL_JOYAXISMOTION, timestamp, which, axis_idx, value)
            },
            Event::JoyBallMotion { timestamp, which, ball_idx, xrel, yrel } => {
                let mut b = header_buf(SDL_JOYBALLMOTION, timestamp);
                put_u32(&mut b, 8, which as u32);
                put_u8(&mut b, 12, ball_idx);
                put_u16(&mut b, 16, xrel as u16);
                put_u16(&mut b, 18, yrel as u16);
                b
            },
            Event::JoyHatMotion { timestamp, which, hat_idx, state } => {
                let hatvalue = state.to_raw();
                let mut b = header_buf(SDL_JOYHATMOTION, timestamp);
                put_u32(&mut b, 8, which as u32);
                put_u8(&mut b, 12, hat_idx);
                put_u8(&mut b, 13, hatvalue);
                b
            },
            Event::JoyButtonDown { timestamp, which, button_idx } => {
                button_buf(SDL_JOYBUTTONDOWN, timestamp, which, button_idx, SDL_PRESSED)
            },
            Event::JoyButtonUp { timestamp, which, button_idx } => {
                button_buf(SDL_JOYBUTTONUP, timestamp, which, button_idx, SDL_RELEASED)
            },
            Event::JoyDeviceAdded { timestamp, which } => {
                device_buf(SDL_JOYDEVICEADDED, timestamp, which)
            },
            Event::JoyDeviceRemoved { timestamp, which } => {
                device_buf(SDL_JOYDEVICEREMOVED, timestamp, which)
            },
            Event::ControllerAxisMotion { timestamp, which, axis, value } => {
                let axisval = axis.to_ll();
                axis_buf(SDL_CONTROLLERAXISMOTION, timestamp, which, axisval as u8, value)
            },
            Event::ControllerButtonDown { timestamp, which, button } => {
                let buttonval = button.to_ll();
                button_buf(SDL_CONTROLLERBUTTONDOWN, timestamp, which, buttonval as u8, SDL_PRESSED)
            },
            Event::ControllerButtonUp { timestamp, which, button } => {
                let buttonval = button.to_ll();
                button_buf(SDL_CONTROLLERBUTTONUP, timestamp, which, buttonval as u8, SDL_RELEASED)
            },
            Event::ControllerDeviceAdded { timestamp, which } => {
                device_buf(SDL_CONTROLLERDEVICEADDED, timestamp, which)
            },
            Event::ControllerDeviceRemoved { timestamp, which } => {
                device_buf(SDL_CONTROLLERDEVICEREMOVED, timestamp, which)
            },
            Event::ControllerDeviceRemapped { timestamp, which } => {
                device_buf(SDL_CONTROLLERDEVICEREMAPPED, timestamp, which)
            },
            _ => {
                return None;
            },
        };
        Some(RawEvent::from_vec(bytes))
    }
}

impl Event {
    /// Converts SDL's raw event union to an event. The raw event must be convertible: see
    /// `checked_from_ll` for the check.
    pub fn from_ll(raw: &RawEvent) -> (e: Event)
        requires
            raw_event_accepted(raw@),
        ensures
            decodes_to(raw@, e),
    {
        raw.reveal_size();
        let raw_type = raw.get_u32(0);
        let timestamp = raw.get_u32(4);
        let event_type = match EventType::from_u64(raw_type as u64) {
            Some(t) => t,
            None => EventType::User,
        };
        match event_type {
            EventType::Quit => Event::Quit { timestamp },
            EventType::AppTerminating => Event::AppTerminating { timestamp },
            EventType::AppLowMemory => Event::AppLowMemory { timestamp },
            EventType::AppWillEnterBackground => Event::AppWillEnterBackground { timestamp },
            EventType::AppDidEnterBackground => Event::AppDidEnterBackground { timestamp },
            EventType::AppWillEnterForeground => Event::AppWillEnterForeground { timestamp },
            EventType::AppDidEnterForeground => Event::AppDidEnterForeground { timestamp },
            EventType::Window => Event::Window {
                timestamp,
                window_id: raw.get_u32(8),
                win_event: WindowEvent::from_ll(
                    raw.get_u8(12),
                    raw.get_u32(16) as i32,
                    raw.get_u32(20) as i32,
                ),
            },
            EventType::KeyDown => Event::KeyDown {
                timestamp,
                window_id: raw.get_u32(8),
                keycode: Keycode::from_i32(raw.get_u32(20) as i32),
                scancode: Scancode::from_i32(raw.get_u32(16) as i32),
                keymod: Mod::from_bits(raw.get_u16(24) as u32).unwrap(),
                repeat: raw.get_u8(13) != 0,
            },
            EventType::KeyUp => Event::KeyUp {
                timestamp,
                window_id: raw.get_u32(8),
                keycode: Keycode::from_i32(raw.get_u32(20) as i32),
                scancode: Scancode::from_i32(raw.get_u32(16) as i32),
                keymod: Mod::from_bits(raw.get_u16(24) as u32).unwrap(),
                repeat: raw.get_u8(13) != 0,
            },
            EventType::TextEditing => {
                let text = string_from_utf8(c_string_at(raw, 12, 32)).unwrap();
                Event::TextEditing {
                    timestamp,
                    window_id: raw.get_u32(8),
                    text,
                    start: raw.get_u32(44) as i32,
                    length: raw.get_u32(48) as i32,
                }
            },
            EventType::TextInput => {
                let text = string_from_utf8(c_string_at(raw, 12, 32)).unwrap();
                Event::TextInput { timestamp, window_id: raw.get_u32(8), text }
            },
            EventType::MouseMotion => Event::MouseMotion {
                timestamp,
                window_id: raw.get_u32(8),
                which: raw.get_u32(12),
                mousestate: MouseState::from_sdl_state(raw.get_u32(16)),
                x: raw.get_u32(20) as i32,
                y: raw.get_u32(24) as i32,
                xrel: raw.get_u32(28) as i32,
                yrel: raw.get_u32(32) as i32,
            },
            EventType::MouseButtonDown => Event::MouseButtonDown {
                timestamp,
                window_id: raw.get_u32(8),
                which: raw.get_u32(12),
                mouse_btn: MouseButton::from_ll(raw.get_u8(16)),
                x: raw.get_u32(20) as i32,
                y: raw.get_u32(24) as i32,
            },
            EventType::MouseButtonUp => Event::MouseButtonUp {
                timestamp,
                window_id: raw.get_u32(8),
                which: raw.get_u32(12),
                mouse_btn: MouseButton::from_ll(raw.get_u8(16)),
                x: raw.get_u32(20) as i32,
                y: raw.get_u32(24) as i32,
            },
            EventType::MouseWheel => Event::MouseWheel {
                timestamp,
                window_id: raw.get_u32(8),
                which: raw.get_u32(12),
                x: raw.get_u32(16) as i32,
                y: raw.get_u32(20) as i32,
                direction: MouseWheelDirection::from_ll(raw.get_u32(24)),
            },
            EventType::JoyAxisMotion => Event::JoyAxisMotion {
                timestamp,
                which: raw.get_u32(8) as i32,
                axis_idx: raw.get_u8(12),
                value: raw.get_u16(16) as i16,
            },
            EventType::JoyBallMotion => Event::JoyBallMotion {
                timestamp,
                which: raw.get_u32(8) as i32,
                ball_idx: raw.get_u8(12),
                xrel: raw.get_u16(16) as i16,
                yrel: raw.get_u16(18) as i16,
            },
            EventType::JoyHatMotion => Event::JoyHatMotion {
                timestamp,
                which: raw.get_u32(8) as i32,
                hat_idx: raw.get_u8(12),
                state: HatState::from_raw(raw.get_u8(13)),
            },
            EventType::JoyButtonDown => Event::JoyButtonDown {
                timestamp,
                which: raw.get_u32(8) as i32,
                button_idx: raw.get_u8(12),
            },
            EventType::JoyButtonUp => Event::JoyButtonUp {
                timestamp,
                which: raw.get_u32(8) as i32,
                button_idx: raw.get_u8(12),
            },
            EventType::JoyDeviceAdded => Event::JoyDeviceAdded {
                timestamp,
                which: raw.get_u32(8) as i32,
            },
            EventType::JoyDeviceRemoved => Event::JoyDeviceRemoved {
                timestamp,
                which: raw.get_u32(8) as i32,
            },
            EventType::ControllerAxisMotion => {
                let axis = Axis::from_ll(raw.get_u8(12) as i32).unwrap();
                Event::ControllerAxisMotion {
                    timestamp,
                    which: raw.get_u32(8) as i32,
                    axis,
                    value: raw.get_u16(16) as i16,
                }
            },
            EventType::ControllerButtonDown => {
                let button = Button::from_ll(raw.get_u8(12) as i32).unwrap();
                Event::ControllerButtonDown { timestamp, which: raw.get_u32(8) as i32, button }
            },
            EventType::ControllerButtonUp => {
                let button = Button::from_ll(raw.get_u8(12) as i32).unwrap();
                Event::ControllerButtonUp { timestamp, which: raw.get_u32(8) as i32, button }
            },
            EventType::ControllerDeviceAdded => Event::ControllerDeviceAdded {
                timestamp,
                which: raw.get_u32(8) as i32,
            },
            EventType::ControllerDeviceRemoved => Event::ControllerDeviceRemoved {
                timestamp,
                which: raw.get_u32(8) as i32,
            },
            EventType::ControllerDeviceRemapped => Event::ControllerDeviceRemapped {
                timestamp,
                which: raw.get_u32(8) as i32,
            },
            EventType::FingerDown => Event::FingerDown {
                timestamp,
                touch_id: raw.get_u64(8) as i64,
                finger_id: raw.get_u64(16) as i64,
                x: raw.get_u32(24),
                y: raw.get_u32(28),
                dx: raw.get_u32(32),
                dy: raw.get_u32(36),
                pressure: raw.get_u32(40),
            },
            EventType::FingerUp => Event::FingerUp {
                timestamp,
                touch_id: raw.get_u64(8) as i64,
                finger_id: raw.get_u64(16) as i64,
                x: raw.get_u32(24),
                y: raw.get_u32(28),
                dx: raw.get_u32(32),
                dy: raw.get_u32(36),
                pressure: raw.get_u32(40),
            },
            EventType::FingerMotion => Event::FingerMotion {
                timestamp,
                touch_id: raw.get_u64(8) as i64,
                finger_id: raw.get_u64(16) as i64,
                x: raw.get_u32(24),
                y: raw.get_u32(28),
                dx: raw.get_u32(32),
                dy: raw.get_u32(36),
                pressure: raw.get_u32(40),
            },
            EventType::DollarGesture => Event::DollarGesture {
                timestamp,
                touch_id: raw.get_u64(8) as i64,
                gesture_id: raw.get_u64(16) as i64,
                num_fingers: raw.get_u32(24),
                error: raw.get_u32(28),
                x: raw.get_u32(32),
                y: raw.get_u32(36),
            },
            EventType::DollarRecord => Event::DollarRecord {
                timestamp,
                touch_id: raw.get_u64(8) as i64,
                gesture_id: raw.get_u64(16) as i64,
                num_fingers: raw.get_u32(24),
                error: raw.get_u32(28),
                x: raw.get_u32(32),
                y: raw.get_u32(36),
            },
            EventType::MultiGesture => Event::MultiGesture {
                timestamp,
                touch_id: raw.get_u64(8) as i64,
                d_theta: raw.get_u32(16),
                d_dist: raw.get_u32(20),
                x: raw.get_u32(24),
                y: raw.get_u32(28),
                num_fingers: raw.get_u16(32),
            },
            EventType::ClipboardUpdate => Event::ClipboardUpdate { timestamp },
            EventType::DropFile => {
                let filename = string_from_utf8_lossy(raw.dropped_file());
                Event::DropFile { timestamp, filename }
            },
            EventType::User => {
                if raw_type < USER_EVENT_BASE {
                    Event::Unknown { timestamp, type_: raw_type }
                } else {
                    Event::User {
                        timestamp,
                        window_id: raw.get_u32(8),
                        type_: raw_type,
                        code: raw.get_u32(12) as i32,
                        data1: raw.get_u64(16),
                        data2: raw.get_u64(24),
                    }
                }
            },
            EventType::First | EventType::Last => {
                proof {
                    assert(false);
                }
                Event::Unknown { timestamp, type_: raw_type }
            },
        }
    }

    /// Checks that the raw event can be converted, and converts it; otherwise says why not.
    pub fn checked_from_ll(raw: &RawEvent) -> (r: Result<Event, RawEventError>)
        ensures
            r matches Ok(e) ==> raw_event_accepted(raw@) && decodes_to(raw@, e),
            r matches Err(err) ==> spec_rejection(raw@) == Some(err),
            r is Ok <==> raw_event_accepted(raw@),
    {
        raw.reveal_size();
        let raw_type = raw.get_u32(0);
        let event_type = match EventType::from_u64(raw_type as u64) {
            Some(t) => t,
            None => EventType::User,
        };
        match event_type {
            EventType::First => {
                return Err(RawEventError::UnusedFirst);
            },
            EventType::Last => {
                return Err(RawEventError::UnusableLast);
            },
            EventType::KeyDown | EventType::KeyUp => {
                if Mod::from_bits(raw.get_u16(24) as u32).is_none() {
                    return Err(RawEventError::InvalidKeymod);
                }
            },
            EventType::ControllerAxisMotion => {
                if Axis::from_ll(raw.get_u8(12) as i32).is_none() {
                    return Err(RawEventError::InvalidControllerAxis);
                }
            },
            EventType::ControllerButtonDown | EventType::ControllerButtonUp => {
                if Button::from_ll(raw.get_u8(12) as i32).is_none() {
                    return Err(RawEventError::InvalidControllerButton);
                }
            },
            EventType::TextEditing => {
                if string_from_utf8(c_string_at(raw, 12, 32)).is_none() {
                    return Err(RawEventError::InvalidTextEditing);
                }
            },
            EventType::TextInput => {
                if string_from_utf8(c_string_at(raw, 12, 32)).is_none() {
                    return Err(RawEventError::InvalidTextInput);
                }
            },
            _ => {},
        }
        Ok(Event::from_ll(raw))
    }
}

impl Event {
    /// The event is one that converting to SDL's raw union and back gives unchanged: every
    /// convertible event is, except user events whose type lies below `USER_EVENT_BASE` or
    /// is `SDL_LASTEVENT`, mouse motion whose state carries a pointer position, and wheel
    /// directions of unknown kind that carry the number of a known one. Keyboard events
    /// need a valid modifier set.
    pub open spec fn round_trips(self) -> bool {
        match self {
            Event::User { type_, .. } => USER_EVENT_BASE <= type_ && type_ != SDL_LASTEVENT,
            Event::KeyDown { keymod, .. } => keymod.is_valid(),
            Event::KeyUp { keymod, .. } => keymod.is_valid(),
            Event::MouseMotion { mousestate, .. } => mousestate.spec_x() == 0
                && mousestate.spec_y() == 0,
            Event::MouseWheel { direction, .. } => direction != MouseWheelDirection::Unknown(0)
                && direction != MouseWheelDirection::Unknown(1),
            _ => true,
        }
    }
}

impl Event {
    /// Whether this is a user event.
    pub fn is_user_event(&self) -> (r: bool)
        ensures
            r == (self is User),
    {
        match self {
            Event::User { .. } => true,
            _ => false,
        }
    }

    /// The payload address of a user event whose event type is registered for the type with
    /// key `type_id`; `None` for other events.
    pub open spec fn spec_user_event_data(self, maps: CustomEventTypesView, type_id: u64) -> Option<u64> {
        match self {
            Event::User { type_, data1, .. } => if maps.sdl_id_to_type_id[type_] == type_id {
                Some(data1)
            } else {
                None
            },
            _ => None,
        }
    }

    /// The payload address of this event when it is a user event of the custom type with key
    /// `type_id`; `None` for other events. A user event's type must be registered.
    pub fn as_user_event_type(&self, maps: &CustomEventTypeMaps, type_id: u64) -> (r: Option<u64>)
        requires
            *self matches Event::User { type_, .. } ==> maps@.sdl_id_to_type_id.contains_key(type_),
        ensures
            r == self.spec_user_event_data(maps@, type_id),
    {
        let (event_id, event_box_ptr) = match self {
            Event::User { type_, data1, .. } => (*type_, *data1),
            _ => {
                return None;
            },
        };
        let event_type_id = match maps.type_id_of(event_id) {
            Some(id) => id,
            None => {
                proof {
                    assert(false);
                }
                return None;
            },
        };
        if type_id != event_type_id {
            return None;
        }
        Some(event_box_ptr)
    }

    /// The name under which this event is shown for debugging.
    pub open spec fn spec_debug_name(self) -> Seq<char> {
        match self {
            Event::Quit { .. } => "Event::Quit"@,
            Event::AppTerminating { .. } => "Event::AppTerminating"@,
            Event::AppLowMemory { .. } => "Event::AppLowMemory"@,
            Event::AppWillEnterBackground { .. } => "Event::AppWillEnterBackground"@,
            Event::AppDidEnterBackground { .. } => "Event::AppDidEnterBackground"@,
            Event::AppWillEnterForeground { .. } => "Event::AppWillEnterForeground"@,
            Event::AppDidEnterForeground { .. } => "Event::AppDidEnterForeground"@,
            Event::Window { .. } => "Event::Window"@,
            Event::KeyDown { .. } => "Event::KeyDown"@,
            Event::KeyUp { .. } => "Event::KeyUp"@,
            Event::TextEditing { .. } => "Event::TextEditing"@,
            Event::TextInput { .. } => "Event::TextInput"@,
            Event::MouseMotion { .. } => "Event::MouseMotion"@,
            Event::MouseButtonDown { .. } => "Event::MouseButtonDown"@,
            Event::MouseButtonUp { .. } => "Event::MouseButtonUp"@,
            Event::MouseWheel { .. } => "Event::MouseWheel"@,
            Event::JoyAxisMotion { .. } => "Event::JoyAxisMotion"@,
            Event::JoyBallMotion { .. } => "Event::JoyBallMotion"@,
            Event::JoyHatMotion { .. } => "Event::JoyHatMotion"@,
            Event::JoyButtonDown { .. } => "Event::JoyButtonDown"@,
            Event::JoyButtonUp { .. } => "Event::JoyButtonUp"@,
            Event::JoyDeviceAdded { .. } => "Event::JoyDeviceAdded"@,
            Event::JoyDeviceRemoved { .. } => "Event::JoyDeviceRemoved"@,
            Event::ControllerAxisMotion { .. } => "Event::ControllerAxisMotion"@,
            Event::ControllerButtonDown { .. } => "Event::ControllerButtonDown"@,
            Event::ControllerButtonUp { .. } => "Event::ControllerButtonUp"@,
            Event::ControllerDeviceAdded { .. } => "Event::ControllerDeviceAdded"@,
            Event::ControllerDeviceRemoved { .. } => "Event::ControllerDeviceRemoved"@,
            Event::ControllerDeviceRemapped { .. } => "Event::ControllerDeviceRemapped"@,
            Event::FingerDown { .. } => "Event::FingerDown"@,
            Event::FingerUp { .. } => "Event::FingerUp"@,
            Event::FingerMotion { .. } => "Event::FingerMotion"@,
            Event::DollarGesture { .. } => "Event::DollarGesture"@,
            Event::DollarRecord { .. } => "Event::DollarRecord"@,
            Event::MultiGesture { .. } => "Event::MultiGesture"@,
            Event::ClipboardUpdate { .. } => "Event::ClipboardUpdate"@,
            Event::DropFile { .. } => "Event::DropFile"@,
            Event::User { .. } => "Event::User"@,
            Event::Unknown { .. } => "Event::Unknown"@,
        }
    }

    /// The name under which this event is shown for debugging.
    pub fn debug_name(&self) -> (r: &'static str)
        ensures
            r@ == self.spec_debug_name(),
    {
        match self {
            Event::Quit { .. } => "Event::Quit",
            Event::AppTerminating { .. } => "Event::AppTerminating",
            Event::AppLowMemory { .. } => "Event::AppLowMemory",
            Event::AppWillEnterBackground { .. } => "Event::AppWillEnterBackground",
            Event::AppDidEnterBackground { .. } => "Event::AppDidEnterBackground",
            Event::AppWillEnterForeground { .. } => "Event::AppWillEnterForeground",
            Event::AppDidEnterForeground { .. } => "Event::AppDidEnterForeground",
            Event::Window { .. } => "Event::Window",
            Event::KeyDown { .. } => "Event::KeyDown",
            Event::KeyUp { .. } => "Event::KeyUp",
            Event::TextEditing { .. } => "Event::TextEditing",
            Event::TextInput { .. } => "Event::TextInput",
            Event::MouseMotion { .. } => "Event::MouseMotion",
            Event::MouseButtonDown { .. } => "Event::MouseButtonDown",
            Event::MouseButtonUp { .. } => "Event::MouseButtonUp",
            Event::MouseWheel { .. } => "Event::MouseWheel",
            Event::JoyAxisMotion { .. } => "Event::JoyAxisMotion",
            Event::JoyBallMotion { .. } => "Event::JoyBallMotion",
            Event::JoyHatMotion { .. } => "Event::JoyHatMotion",
            Event::JoyButtonDown { .. } => "Event::JoyButtonDown",
            Event::JoyButtonUp { .. } => "Event::JoyButtonUp",
            Event::JoyDeviceAdded { .. } => "Event::JoyDeviceAdded",
            Event::JoyDeviceRemoved { .. } => "Event::JoyDeviceRemoved",
            Event::ControllerAxisMotion { .. } => "Event::ControllerAxisMotion",
            Event::ControllerButtonDown { .. } => "Event::ControllerButtonDown",
            Event::ControllerButtonUp { .. } => "Event::ControllerButtonUp",
            Event::ControllerDeviceAdded { .. } => "Event::ControllerDeviceAdded",
            Event::ControllerDeviceRemoved { .. } => "Event::ControllerDeviceRemoved",
            Event::ControllerDeviceRemapped { .. } => "Event::ControllerDeviceRemapped",
            Event::FingerDown { .. } => "Event::FingerDown",
            Event::FingerUp { .. } => "Event::FingerUp",
            Event::FingerMotion { .. } => "Event::FingerMotion",
            Event::DollarGesture { .. } => "Event::DollarGesture",
            Event::DollarRecord { .. } => "Event::DollarRecord",
            Event::MultiGesture { .. } => "Event::MultiGesture",
            Event::ClipboardUpdate { .. } => "Event::ClipboardUpdate",
            Event::DropFile { .. } => "Event::DropFile",
            Event::User { .. } => "Event::User",
            Event::Unknown { .. } => "Event::Unknown",
        }
    }
}

/// Reads of the common header of `b`.
proof fn lemma_header_reads(b: Seq<u8>, event_type: u32, timestamp: u32)
    requires
        b.len() == RAW_EVENT_SIZE,
        b[0] == (event_type & 0xff) as u8,
        b[1] == ((event_type >> 8) & 0xff) as u8,
        b[2] == ((event_type >> 16) & 0xff) as u8,
        b[3] == ((event_type >> 24) & 0xff) as u8,
        b[4] == (timestamp & 0xff) as u8,
        b[5] == ((timestamp >> 8) & 0xff) as u8,
        b[6] == ((timestamp >> 16) & 0xff) as u8,
        b[7] == ((timestamp >> 24) & 0xff) as u8,
    ensures
        read_u32(b, 0) == event_type,
        read_u32(b, 4) == timestamp,
{
    lemma_read_u32_bytes(b, 0, event_type);
    lemma_read_u32_bytes(b, 4, timestamp);
}

/// Reads of the union bytes of a keyboard event.
proof fn lemma_keyboard_reads(
    event_type: u32,
    timestamp: u32,
    window_id: u32,
    state: u8,
    repeat: bool,
    keycode: Option<Keycode>,
    scancode: Option<Scancode>,
    keymod: Mod,
)
    requires
        keymod.is_valid(),
    ensures
        ({
            let b = keyboard_bytes(
                event_type,
                timestamp,
                window_id,
                state,
                repeat,
                spec_mk_keysym(scancode, keycode, keymod),
            );
            &&& b.len() == RAW_EVENT_SIZE
            &&& read_u32(b, 0) == event_type
            &&& read_u32(b, 4) == timestamp
            &&& read_u32(b, 8) == window_id
            &&& b[12] == state
            &&& (b[13] != 0) == repeat
            &&& Keycode::spec_from_i32(read_i32(b, 20)) == keycode
            &&& Scancode::spec_from_i32(read_i32(b, 16)) == scancode
            &&& Mod::spec_from_bits(read_u16(b, 24) as u32) == Some(keymod)
            &&& Mod::is_valid_bits(read_u16(b, 24) as u32)
        }),
{
    let k = spec_mk_keysym(scancode, keycode, keymod);
    let b = keyboard_bytes(event_type, timestamp, window_id, state, repeat, k);
    lemma_read_u32_bytes(b, 0, event_type);
    lemma_read_u32_bytes(b, 4, timestamp);
    lemma_read_u32_bytes(b, 8, window_id);
    lemma_read_u32_bytes(b, 16, k.scancode);
    lemma_read_u32_bytes(b, 20, k.sym as u32);
    lemma_read_u16_bytes(b, 24, k.mod_);
    lemma_i32_bits(k.sym);
    match scancode {
        Some(sc) => {
            lemma_i32_bits(sc.spec_to_i32());
            Scancode::lemma_from_to_i32(sc);
        },
        None => {},
    }
    match keycode {
        Some(kc) => {
            Keycode::lemma_from_to_i32(kc);
        },
        None => {},
    }
    Mod::lemma_valid_fits_u16(keymod);
    Mod::lemma_from_to_bits(keymod);
    Mod::lemma_from_bits(read_u16(b, 24) as u32);
}

/// Reads of the union bytes of a mouse button event.
proof fn lemma_mouse_button_reads(
    event_type: u32,
    timestamp: u32,
    window_id: u32,
    which: u32,
    button: u8,
    state: u8,
    x: i32,
    y: i32,
)
    ensures
        ({
            let b = mouse_button_bytes(event_type, timestamp, window_id, which, button, state, x, y);
            &&& b.len() == RAW_EVENT_SIZE
            &&& read_u32(b, 0) == event_type
            &&& read_u32(b, 4) == timestamp
            &&& read_u32(b, 8) == window_id
            &&& read_u32(b, 12) == which
            &&& b[16] == button
            &&& b[17] == state
            &&& read_i32(b, 20) == x
            &&& read_i32(b, 24) == y
        }),
{
    let b = mouse_button_bytes(event_type, timestamp, window_id, which, button, state, x, y);
    lemma_read_u32_bytes(b, 0, event_type);
    lemma_read_u32_bytes(b, 4, timestamp);
    lemma_read_u32_bytes(b, 8, window_id);
    lemma_read_u32_bytes(b, 12, which);
    lemma_read_u32_bytes(b, 20, x as u32);
    lemma_read_u32_bytes(b, 24, y as u32);
    lemma_i32_bits(x);
    lemma_i32_bits(y);
}

/// Reads of the union bytes of a joystick or controller button event.
proof fn lemma_button_reads(event_type: u32, timestamp: u32, which: i32, button: u8, state: u8)
    ensures
        ({
            let b = button_bytes(event_type, timestamp, which, button, state);
            &&& b.len() == RAW_EVENT_SIZE
            &&& read_u32(b, 0) == event_type
            &&& read_u32(b, 4) == timestamp
            &&& read_i32(b, 8) == which
            &&& b[12] == button
            &&& b[13] == state
        }),
{
    let b = button_bytes(event_type, timestamp, which, button, state);
    lemma_read_u32_bytes(b, 0, event_type);
    lemma_read_u32_bytes(b, 4, timestamp);
    lemma_read_u32_bytes(b, 8, which as u32);
    lemma_i32_bits(which);
}

/// Reads of the union bytes of a joystick or controller device event.
proof fn lemma_device_reads(event_type: u32, timestamp: u32, which: i32)
    ensures
        ({
            let b = device_bytes(event_type, timestamp, which);
            &&& b.len() == RAW_EVENT_SIZE
            &&& read_u32(b, 0) == event_type
            &&& read_u32(b, 4) == timestamp
            &&& read_i32(b, 8) == which
        }),
{
    let b = device_bytes(event_type, timestamp, which);
    lemma_read_u32_bytes(b, 0, event_type);
    lemma_read_u32_bytes(b, 4, timestamp);
    lemma_read_u32_bytes(b, 8, which as u32);
    lemma_i32_bits(which);
}

/// Reads of the union bytes of a joystick or controller axis event.
proof fn lemma_axis_reads(event_type: u32, timestamp: u32, which: i32, axis: u8, value: i16)
    ensures
        ({
            let b = axis_bytes(event_type, timestamp, which, axis, value);
            &&& b.len() == RAW_EVENT_SIZE
            &&& read_u32(b, 0) == event_type
            &&& read_u32(b, 4) == timestamp
            &&& read_i32(b, 8) == which
            &&& b[12] == axis
            &&& read_i16(b, 16) == value
        }),
{
    let b = axis_bytes(event_type, timestamp, which, axis, value);
    lemma_read_u32_bytes(b, 0, event_type);
    lemma_read_u32_bytes(b, 4, timestamp);
    lemma_read_u32_bytes(b, 8, which as u32);
    lemma_i32_bits(which);
    lemma_read_u16_bytes(b, 16, value as u16);
    lemma_i16_bits(value);
}

/// Converting an event to SDL's raw event union and back gives the same event: the raw
/// event is accepted, and the one event it decodes to is `e` (whatever dropped file name
/// comes with it).
#[verifier::spinoff_prover]
#[verifier::rlimit(60)]
pub proof fn lemma_to_ll_from_ll(e: Event, dropped_file: Seq<u8>)
    requires
        e.spec_to_ll() is Some,
        e.round_trips(),
    ensures
        ({
            let v = RawEventView { bytes: e.spec_to_ll().unwrap(), dropped_file };
            &&& raw_event_accepted(v)
            &&& forall|e2: Event| decodes_to(v, e2) <==> e2 == e
        }),
{
    let b = e.spec_to_ll().unwrap();
    let v = RawEventView { bytes: b, dropped_file };
    match e {
        Event::Quit { timestamp } => {
            lemma_header_reads(b, SDL_QUIT, timestamp);
        },
        Event::Window { timestamp, window_id, win_event } => {
            lemma_header_reads(b, SDL_WINDOWEVENT, timestamp);
            let (id, d1, d2) = win_event.spec_to_ll();
            lemma_read_u32_bytes(b, 8, window_id);
            lemma_read_u32_bytes(b, 16, d1 as u32);
            lemma_read_u32_bytes(b, 20, d2 as u32);
            lemma_i32_bits(d1);
            lemma_i32_bits(d2);
            WindowEvent::lemma_from_to_ll(win_event);
        },
        Event::KeyDown { timestamp, window_id, keycode, scancode, keymod, repeat } => {
            lemma_keyboard_reads(SDL_KEYDOWN, timestamp, window_id, SDL_PRESSED, repeat, keycode, scancode, keymod);
        },
        Event::KeyUp { timestamp, window_id, keycode, scancode, keymod, repeat } => {
            lemma_keyboard_reads(SDL_KEYUP, timestamp, window_id, SDL_RELEASED, repeat, keycode, scancode, keymod);
        },
        Event::MouseMotion { timestamp, window_id, which, mousestate, x, y, xrel, yrel } => {
            lemma_header_reads(b, SDL_MOUSEMOTION, timestamp);
            lemma_read_u32_bytes(b, 8, window_id);
            lemma_read_u32_bytes(b, 12, which);
            lemma_read_u32_bytes(b, 16, mousestate.spec_sdl_state());
            lemma_read_u32_bytes(b, 20, x as u32);
            lemma_read_u32_bytes(b, 24, y as u32);
            lemma_read_u32_bytes(b, 28, xrel as u32);
            lemma_read_u32_bytes(b, 32, yrel as u32);
            lemma_i32_bits(x);
            lemma_i32_bits(y);
            lemma_i32_bits(xrel);
            lemma_i32_bits(yrel);
            MouseState::lemma_from_to_sdl_state(mousestate);
        },
        Event::MouseButtonDown { timestamp, window_id, which, mouse_btn, x, y } => {
            lemma_mouse_button_reads(SDL_MOUSEBUTTONDOWN, timestamp, window_id, which, mouse_btn.spec_to_u8(), SDL_PRESSED, x, y);
            MouseButton::lemma_from_to_ll(mouse_btn);
        },
        Event::MouseButtonUp { timestamp, window_id, which, mouse_btn, x, y } => {
            lemma_mouse_button_reads(SDL_MOUSEBUTTONUP, timestamp, window_id, which, mouse_btn.spec_to_u8(), SDL_RELEASED, x, y);
            MouseButton::lemma_from_to_ll(mouse_btn);
        },
        Event::MouseWheel { timestamp, window_id, which, x, y, direction } => {
            lemma_header_reads(b, SDL_MOUSEWHEEL, timestamp);
            lemma_read_u32_bytes(b, 8, window_id);
            lemma_read_u32_bytes(b, 12, which);
            lemma_read_u32_bytes(b, 16, x as u32);
            lemma_read_u32_bytes(b, 20, y as u32);
            lemma_read_u32_bytes(b, 24, direction.spec_to_ll());
            lemma_i32_bits(x);
            lemma_i32_bits(y);
            MouseWheelDirection::lemma_from_to_ll(direction);
        },
        Event::JoyAxisMotion { timestamp, which, axis_idx, value } => {
            lemma_axis_reads(SDL_JOYAXISMOTION, timestamp, which, axis_idx, value);
        },
        Event::JoyBallMotion { timestamp, which, ball_idx, xrel, yrel } => {
            lemma_header_reads(b, SDL_JOYBALLMOTION, timestamp);
            lemma_read_u32_bytes(b, 8, which as u32);
            lemma_i32_bits(which);
            lemma_read_u16_bytes(b, 16, xrel as u16);
            lemma_read_u16_bytes(b, 18, yrel as u16);
            lemma_i16_bits(xrel);
            lemma_i16_bits(yrel);
        },
        Event::JoyHatMotion { timestamp, which, hat_idx, state } => {
            lemma_header_reads(b, SDL_JOYHATMOTION, timestamp);
            lemma_read_u32_bytes(b, 8, which as u32);
            lemma_i32_bits(which);
            HatState::lemma_from_to_raw(state);
        },
        Event::JoyButtonDown { timestamp, which, button_idx } => {
            lemma_button_reads(SDL_JOYBUTTONDOWN, timestamp, which, button_idx, SDL_PRESSED);
        },
        Event::JoyButtonUp { timestamp, which, button_idx } => {
            lemma_button_reads(SDL_JOYBUTTONUP, timestamp, which, button_idx, SDL_RELEASED);
        },
        Event::JoyDeviceAdded { timestamp, which } => {
            lemma_device_reads(SDL_JOYDEVICEADDED, timestamp, which);
        },
        Event::JoyDeviceRemoved { timestamp, which } => {
            lemma_device_reads(SDL_JOYDEVICEREMOVED, timestamp, which);
        },
        Event::ControllerAxisMotion { timestamp, which, axis, value } => {
            lemma_axis_reads(SDL_CONTROLLERAXISMOTION, timestamp, which, axis.spec_to_ll() as u8, value);
            Axis::lemma_from_to_ll(axis);
        },
        Event::ControllerButtonDown { timestamp, which, button } => {
            lemma_button_reads(SDL_CONTROLLERBUTTONDOWN, timestamp, which, button.spec_to_ll() as u8, SDL_PRESSED);
            Button::lemma_from_to_ll(button);
        },
        Event::ControllerButtonUp { timestamp, which, button } => {
            lemma_button_reads(SDL_CONTROLLERBUTTONUP, timestamp, which, button.spec_to_ll() as u8, SDL_RELEASED);
            Button::lemma_from_to_ll(button);
        },
        Event::ControllerDeviceAdded { timestamp, which } => {
            lemma_device_reads(SDL_CONTROLLERDEVICEADDED, timestamp, which);
        },
        Event::ControllerDeviceRemoved { timestamp, which } => {
            lemma_device_reads(SDL_CONTROLLERDEVICEREMOVED, timestamp, which);
        },
        Event::ControllerDeviceRemapped { timestamp, which } => {
            lemma_device_reads(SDL_CONTROLLERDEVICEREMAPPED, timestamp, which);
        },
        Event::User { timestamp, window_id, type_, code, data1, data2 } => {
            lemma_header_reads(b, type_, timestamp);
            lemma_read_u32_bytes(b, 8, window_id);
            lemma_read_u32_bytes(b, 12, code as u32);
            lemma_i32_bits(code);
            lemma_read_u32_bytes(b, 16, (data1 & 0xffff_ffff) as u32);
            lemma_read_u32_bytes(b, 20, (data1 >> 32) as u32);
            lemma_read_u64_bytes(b, 16, data1);
            lemma_read_u32_bytes(b, 24, (data2 & 0xffff_ffff) as u32);
            lemma_read_u32_bytes(b, 28, (data2 >> 32) as u32);
            lemma_read_u64_bytes(b, 24, data2);
        },
        _ => {},
    }
}


/// What converting an event to SDL's raw union writes, in SDL's numbers: exactly user
/// events, quit, window, keyboard, mouse, joystick and controller events convert; the type
/// field holds the number that SDL gives the event's kind (a user event's own type number);
/// key and button events hold `SDL_PRESSED` (1) in their state byte when pressed and
/// `SDL_RELEASED` (0) when released.
pub proof fn lemma_to_ll_type_and_state(e: Event)
    ensures
        e.spec_to_ll() is Some <==> (e is User || e is Quit || e is Window || e is KeyDown || e is KeyUp || e is MouseMotion || e is MouseButtonDown || e is MouseButtonUp || e is MouseWheel || e is JoyAxisMotion || e is JoyBallMotion || e is JoyHatMotion || e is JoyButtonDown || e is JoyButtonUp || e is JoyDeviceAdded || e is JoyDeviceRemoved || e is ControllerAxisMotion || e is ControllerButtonDown || e is ControllerButtonUp || e is ControllerDeviceAdded || e is ControllerDeviceRemoved || e is ControllerDeviceRemapped),
        e.spec_to_ll() matches Some(b) ==> b.len() == RAW_EVENT_SIZE,
        e is Quit ==> read_u32(e.spec_to_ll().unwrap(), 0) == 0x100,
        e is Window ==> read_u32(e.spec_to_ll().unwrap(), 0) == 0x200,
        e is KeyDown ==> read_u32(e.spec_to_ll().unwrap(), 0) == 0x300,
        e is KeyUp ==> read_u32(e.spec_to_ll().unwrap(), 0) == 0x301,
        e is MouseMotion ==> read_u32(e.spec_to_ll().unwrap(), 0) == 0x400,
        e is MouseButtonDown ==> read_u32(e.spec_to_ll().unwrap(), 0) == 0x401,
        e is MouseButtonUp ==> read_u32(e.spec_to_ll().unwrap(), 0) == 0x402,
        e is MouseWheel ==> read_u32(e.spec_to_ll().unwrap(), 0) == 0x403,
        e is JoyAxisMotion ==> read_u32(e.spec_to_ll().unwrap(), 0) == 0x600,
        e is JoyBallMotion ==> read_u32(e.spec_to_ll().unwrap(), 0) == 0x601,
        e is JoyHatMotion ==> read_u32(e.spec_to_ll().unwrap(), 0) == 0x602,
        e is JoyButtonDown ==> read_u32(e.spec_to_ll().unwrap(), 0) == 0x603,
        e is JoyButtonUp ==> read_u32(e.spec_to_ll().unwrap(), 0) == 0x604,
        e is JoyDeviceAdded ==> read_u32(e.spec_to_ll().unwrap(), 0) == 0x605,
        e is JoyDeviceRemoved ==> read_u32(e.spec_to_ll().unwrap(), 0) == 0x606,
        e is ControllerAxisMotion ==> read_u32(e.spec_to_ll().unwrap(), 0) == 0x650,
        e is ControllerButtonDown ==> read_u32(e.spec_to_ll().unwrap(), 0) == 0x651,
        e is ControllerButtonUp ==> read_u32(e.spec_to_ll().unwrap(), 0) == 0x652,
        e is ControllerDeviceAdded ==> read_u32(e.spec_to_ll().unwrap(), 0) == 0x653,
        e is ControllerDeviceRemoved ==> read_u32(e.spec_to_ll().unwrap(), 0) == 0x654,
        e is ControllerDeviceRemapped ==> read_u32(e.spec_to_ll().unwrap(), 0) == 0x655,
        e matches Event::User { type_, .. } ==> read_u32(e.spec_to_ll().unwrap(), 0) == type_,
        e is KeyDown ==> e.spec_to_ll().unwrap()[12] == 1,
        e is KeyUp ==> e.spec_to_ll().unwrap()[12] == 0,
        e is MouseButtonDown ==> e.spec_to_ll().unwrap()[17] == 1,
        e is MouseButtonUp ==> e.spec_to_ll().unwrap()[17] == 0,
        e is JoyButtonDown ==> e.spec_to_ll().unwrap()[13] == 1,
        e is JoyButtonUp ==> e.spec_to_ll().unwrap()[13] == 0,
        e is ControllerButtonDown ==> e.spec_to_ll().unwrap()[13] == 1,
        e is ControllerButtonUp ==> e.spec_to_ll().unwrap()[13] == 0,
{
    if let Some(b) = e.spec_to_ll() {
        let t = read_u32(b, 0);
        match e {
            Event::Quit { .. } => {
                lemma_read_u32_bytes(b, 0, SDL_QUIT);
            },
            Event::Window { .. } => {
                lemma_read_u32_bytes(b, 0, SDL_WINDOWEVENT);
            },
            Event::KeyDown { .. } => {
                lemma_read_u32_bytes(b, 0, SDL_KEYDOWN);
            },
            Event::KeyUp { .. } => {
                lemma_read_u32_bytes(b, 0, SDL_KEYUP);
            },
            Event::MouseMotion { .. } => {
                lemma_read_u32_bytes(b, 0, SDL_MOUSEMOTION);
            },
            Event::MouseButtonDown { .. } => {
                lemma_read_u32_bytes(b, 0, SDL_MOUSEBUTTONDOWN);
            },
            Event::MouseButtonUp { .. } => {
                lemma_read_u32_bytes(b, 0, SDL_MOUSEBUTTONUP);
            },
            Event::MouseWheel { .. } => {
                lemma_read_u32_bytes(b, 0, SDL_MOUSEWHEEL);
            },
            Event::JoyAxisMotion { .. } => {
                lemma_read_u32_bytes(b, 0, SDL_JOYAXISMOTION);
            },
            Event::JoyBallMotion { .. } => {
                lemma_read_u32_bytes(b, 0, SDL_JOYBALLMOTION);
            },
            Event::JoyHatMotion { .. } => {
                lemma_read_u32_bytes(b, 0, SDL_JOYHATMOTION);
            },
            Event::JoyButtonDown { .. } => {
                lemma_read_u32_bytes(b, 0, SDL_JOYBUTTONDOWN);
            },
            Event::JoyButtonUp { .. } => {
                lemma_read_u32_bytes(b, 0, SDL_JOYBUTTONUP);
            },
            Event::JoyDeviceAdded { .. } => {
                lemma_read_u32_bytes(b, 0, SDL_JOYDEVICEADDED);
            },
            Event::JoyDeviceRemoved { .. } => {
                lemma_read_u32_bytes(b, 0, SDL_JOYDEVICEREMOVED);
            },
            Event::ControllerAxisMotion { .. } => {
                lemma_read_u32_bytes(b, 0, SDL_CONTROLLERAXISMOTION);
            },
            Event::ControllerButtonDown { .. } => {
                lemma_read_u32_bytes(b, 0, SDL_CONTROLLERBUTTONDOWN);
            },
            Event::ControllerButtonUp { .. } => {
                lemma_read_u32_bytes(b, 0, SDL_CONTROLLERBUTTONUP);
            },
            Event::ControllerDeviceAdded { .. } => {
                lemma_read_u32_bytes(b, 0, SDL_CONTROLLERDEVICEADDED);
            },
            Event::ControllerDeviceRemoved { .. } => {
                lemma_read_u32_bytes(b, 0, SDL_CONTROLLERDEVICEREMOVED);
            },
            Event::ControllerDeviceRemapped { .. } => {
                lemma_read_u32_bytes(b, 0, SDL_CONTROLLERDEVICEREMAPPED);
            },
            Event::User { type_, .. } => {
                lemma_read_u32_bytes(b, 0, type_);
            },
            _ => {},
        }
    }
}

/// Which event a raw event is read as, by SDL's type number in its first four bytes: each
/// number that SDL defines gives the event of the same name.
pub proof fn lemma_decoded_kind(v: RawEventView, e: Event)
    requires
        decodes_to(v, e),
    ensures
        read_u32(v.bytes, 0) == 0x100 ==> e is Quit,
        read_u32(v.bytes, 0) == 0x101 ==> e is AppTerminating,
        read_u32(v.bytes, 0) == 0x102 ==> e is AppLowMemory,
        read_u32(v.bytes, 0) == 0x103 ==> e is AppWillEnterBackground,
        read_u32(v.bytes, 0) == 0x104 ==> e is AppDidEnterBackground,
        read_u32(v.bytes, 0) == 0x105 ==> e is AppWillEnterForeground,
        read_u32(v.bytes, 0) == 0x106 ==> e is AppDidEnterForeground,
        read_u32(v.bytes, 0) == 0x200 ==> e is Window,
        read_u32(v.bytes, 0) == 0x300 ==> e is KeyDown,
        read_u32(v.bytes, 0) == 0x301 ==> e is KeyUp,
        read_u32(v.bytes, 0) == 0x302 ==> e is TextEditing,
        read_u32(v.bytes, 0) == 0x303 ==> e is TextInput,
        read_u32(v.bytes, 0) == 0x400 ==> e is MouseMotion,
        read_u32(v.bytes, 0) == 0x401 ==> e is MouseButtonDown,
        read_u32(v.bytes, 0) == 0x402 ==> e is MouseButtonUp,
        read_u32(v.bytes, 0) == 0x403 ==> e is MouseWheel,
        read_u32(v.bytes, 0) == 0x600 ==> e is JoyAxisMotion,
        read_u32(v.bytes, 0) == 0x601 ==> e is JoyBallMotion,
        read_u32(v.bytes, 0) == 0x602 ==> e is JoyHatMotion,
        read_u32(v.bytes, 0) == 0x603 ==> e is JoyButtonDown,
        read_u32(v.bytes, 0) == 0x604 ==> e is JoyButtonUp,
        read_u32(v.bytes, 0) == 0x605 ==> e is JoyDeviceAdded,
        read_u32(v.bytes, 0) == 0x606 ==> e is JoyDeviceRemoved,
        read_u32(v.bytes, 0) == 0x650 ==> e is ControllerAxisMotion,
        read_u32(v.bytes, 0) == 0x651 ==> e is ControllerButtonDown,
        read_u32(v.bytes, 0) == 0x652 ==> e is ControllerButtonUp,
        read_u32(v.bytes, 0) == 0x653 ==> e is ControllerDeviceAdded,
        read_u32(v.bytes, 0) == 0x654 ==> e is ControllerDeviceRemoved,
        read_u32(v.bytes, 0) == 0x655 ==> e is ControllerDeviceRemapped,
        read_u32(v.bytes, 0) == 0x700 ==> e is FingerDown,
        read_u32(v.bytes, 0) == 0x701 ==> e is FingerUp,
        read_u32(v.bytes, 0) == 0x702 ==> e is FingerMotion,
        read_u32(v.bytes, 0) == 0x800 ==> e is DollarGesture,
        read_u32(v.bytes, 0) == 0x801 ==> e is DollarRecord,
        read_u32(v.bytes, 0) == 0x802 ==> e is MultiGesture,
        read_u32(v.bytes, 0) == 0x900 ==> e is ClipboardUpdate,
        read_u32(v.bytes, 0) == 0x1000 ==> e is DropFile,
        0x8000 <= read_u32(v.bytes, 0) < 0xffff ==> e is User,
{
}

/// A raw text editing (0x302) or text input (0x303) event is refused exactly when the bytes
/// of its 32-byte text field (from offset 12) before the first NUL are not valid UTF-8, an
/// empty text included; otherwise it is read as that event, whose text is those bytes
/// decoded.
pub proof fn lemma_text_events(v: RawEventView, e: Event)
    requires
        v.bytes.len() == RAW_EVENT_SIZE,
        read_u32(v.bytes, 0) == 0x302 || read_u32(v.bytes, 0) == 0x303,
    ensures
        raw_event_accepted(v) <==> valid_utf8(c_string(v.bytes.subrange(12, 44))),
        read_u32(v.bytes, 0) == 0x302 && !raw_event_accepted(v)
            ==> spec_rejection(v) == Some(RawEventError::InvalidTextEditing),
        read_u32(v.bytes, 0) == 0x303 && !raw_event_accepted(v)
            ==> spec_rejection(v) == Some(RawEventError::InvalidTextInput),
        read_u32(v.bytes, 0) == 0x302 && decodes_to(v, e) ==> (e matches Event::TextEditing {
            window_id,
            text,
            start,
            length,
            ..
        } && window_id == read_u32(v.bytes, 8) && text@ == decode_utf8(
            c_string(v.bytes.subrange(12, 44)),
        ) && start == read_i32(v.bytes, 44) && length == read_i32(v.bytes, 48)),
        read_u32(v.bytes, 0) == 0x303 && decodes_to(v, e) ==> (e matches Event::TextInput {
            window_id,
            text,
            ..
        } && window_id == read_u32(v.bytes, 8) && text@ == decode_utf8(
            c_string(v.bytes.subrange(12, 44)),
        )),
{
}

/// An event's debug name is `Event::` followed by the name of its own variant.
pub proof fn lemma_debug_names(e: Event)
    ensures
        e is Quit ==> e.spec_debug_name() == "Event::Quit"@,
        e is AppTerminating ==> e.spec_debug_name() == "Event::AppTerminating"@,
        e is AppLowMemory ==> e.spec_debug_name() == "Event::AppLowMemory"@,
        e is AppWillEnterBackground ==> e.spec_debug_name() == "Event::AppWillEnterBackground"@,
        e is AppDidEnterBackground ==> e.spec_debug_name() == "Event::AppDidEnterBackground"@,
        e is AppWillEnterForeground ==> e.spec_debug_name() == "Event::AppWillEnterForeground"@,
        e is AppDidEnterForeground ==> e.spec_debug_name() == "Event::AppDidEnterForeground"@,
        e is Window ==> e.spec_debug_name() == "Event::Window"@,
        e is KeyDown ==> e.spec_debug_name() == "Event::KeyDown"@,
        e is KeyUp ==> e.spec_debug_name() == "Event::KeyUp"@,
        e is TextEditing ==> e.spec_debug_name() == "Event::TextEditing"@,
        e is TextInput ==> e.spec_debug_name() == "Event::TextInput"@,
        e is MouseMotion ==> e.spec_debug_name() == "Event::MouseMotion"@,
        e is MouseButtonDown ==> e.spec_debug_name() == "Event::MouseButtonDown"@,
        e is MouseButtonUp ==> e.spec_debug_name() == "Event::MouseButtonUp"@,
        e is MouseWheel ==> e.spec_debug_name() == "Event::MouseWheel"@,
        e is JoyAxisMotion ==> e.spec_debug_name() == "Event::JoyAxisMotion"@,
        e is JoyBallMotion ==> e.spec_debug_name() == "Event::JoyBallMotion"@,
        e is JoyHatMotion ==> e.spec_debug_name() == "Event::JoyHatMotion"@,
        e is JoyButtonDown ==> e.spec_debug_name() == "Event::JoyButtonDown"@,
        e is JoyButtonUp ==> e.spec_debug_name() == "Event::JoyButtonUp"@,
        e is JoyDeviceAdded ==> e.spec_debug_name() == "Event::JoyDeviceAdded"@,
        e is JoyDeviceRemoved ==> e.spec_debug_name() == "Event::JoyDeviceRemoved"@,
        e is ControllerAxisMotion ==> e.spec_debug_name() == "Event::ControllerAxisMotion"@,
        e is ControllerButtonDown ==> e.spec_debug_name() == "Event::ControllerButtonDown"@,
        e is ControllerButtonUp ==> e.spec_debug_name() == "Event::ControllerButtonUp"@,
        e is ControllerDeviceAdded ==> e.spec_debug_name() == "Event::ControllerDeviceAdded"@,
        e is ControllerDeviceRemoved ==> e.spec_debug_name() == "Event::ControllerDeviceRemoved"@,
        e is ControllerDeviceRemapped ==> e.spec_debug_name() == "Event::ControllerDeviceRemapped"@,
        e is FingerDown ==> e.spec_debug_name() == "Event::FingerDown"@,
        e is FingerUp ==> e.spec_debug_name() == "Event::FingerUp"@,
        e is FingerMotion ==> e.spec_debug_name() == "Event::FingerMotion"@,
        e is DollarGesture ==> e.spec_debug_name() == "Event::DollarGesture"@,
        e is DollarRecord ==> e.spec_debug_name() == "Event::DollarRecord"@,
        e is MultiGesture ==> e.spec_debug_name() == "Event::MultiGesture"@,
        e is ClipboardUpdate ==> e.spec_debug_name() == "Event::ClipboardUpdate"@,
        e is DropFile ==> e.spec_debug_name() == "Event::DropFile"@,
        e is User ==> e.spec_debug_name() == "Event::User"@,
        e is Unknown ==> e.spec_debug_name() == "Event::Unknown"@,
{
}


/// The key description built for a key: its scan code and key code as SDL numbers them, 0
/// (SDL's code for an unknown key) where a code is missing, the modifier mask, and zero in
/// the unused field.
pub proof fn lemma_keysym_fields(scancode: Option<Scancode>, keycode: Option<Keycode>, keymod: Mod)
    requires
        keymod.is_valid(),
    ensures
        ({
            let k = spec_mk_keysym(scancode, keycode, keymod);
            &&& scancode is None ==> k.scancode == 0
            &&& scancode matches Some(sc) ==> k.scancode == sc.spec_to_i32()
            &&& keycode is None ==> k.sym == 0
            &&& keycode matches Some(kc) ==> k.sym == kc.spec_to_i32()
            &&& k.mod_ == keymod.spec_bits()
            &&& k.unused == 0
        }),
{
    Mod::lemma_valid_fits_u16(keymod);
    match scancode {
        Some(sc) => {
            assert(sc.spec_to_i32() >= 0);
        },
        None => {},
    }
}


/// Where SDL's C event structures keep each field, by the type number in the first four
/// bytes (little-endian, 64-bit pointers): the timestamp at offset 4, then the structure's
/// own fields, each read from its offset and given its meaning (window event numbers, key
/// and scan codes, modifier mask, mouse button numbers, hat values, controller axes and
/// buttons); a dropped file's name is the name handed over, decoded leniently, and a number
/// from 0x8000 to 0xfffe gives a user event with its own fields.
#[verifier::rlimit(30)]
pub proof fn lemma_decoded_fields(v: RawEventView, e: Event)
    requires
        decodes_to(v, e),
    ensures
        ({
        let b = v.bytes;
        let t = read_u32(b, 0);
        &&& t == 0x100 ==> (e == Event::Quit { timestamp: read_u32(b, 4) })
        &&& t == 0x101 ==> (e == Event::AppTerminating { timestamp: read_u32(b, 4) })
        &&& t == 0x102 ==> (e == Event::AppLowMemory { timestamp: read_u32(b, 4) })
        &&& t == 0x103 ==> (e == Event::AppWillEnterBackground { timestamp: read_u32(b, 4) })
        &&& t == 0x104 ==> (e == Event::AppDidEnterBackground { timestamp: read_u32(b, 4) })
        &&& t == 0x105 ==> (e == Event::AppWillEnterForeground { timestamp: read_u32(b, 4) })
        &&& t == 0x106 ==> (e == Event::AppDidEnterForeground { timestamp: read_u32(b, 4) })
        &&& t == 0x200 ==> (e == Event::Window {
                timestamp: read_u32(b, 4),
                window_id: read_u32(b, 8),
                win_event: WindowEvent::spec_from_ll(b[12], read_i32(b, 16), read_i32(b, 20)),
            })
        &&& t == 0x300 ==> (e == Event::KeyDown {
                timestamp: read_u32(b, 4),
                window_id: read_u32(b, 8),
                keycode: Keycode::spec_from_i32(read_i32(b, 20)),
                scancode: Scancode::spec_from_i32(read_i32(b, 16)),
                keymod: Mod::spec_from_bits(read_u16(b, 24) as u32).unwrap(),
                repeat: b[13] != 0,
            })
        &&& t == 0x301 ==> (e == Event::KeyUp {
                timestamp: read_u32(b, 4),
                window_id: read_u32(b, 8),
                keycode: Keycode::spec_from_i32(read_i32(b, 20)),
                scancode: Scancode::spec_from_i32(read_i32(b, 16)),
                keymod: Mod::spec_from_bits(read_u16(b, 24) as u32).unwrap(),
                repeat: b[13] != 0,
            })
        &&& t == 0x400 ==> (e == Event::MouseMotion {
                timestamp: read_u32(b, 4),
                window_id: read_u32(b, 8),
                which: read_u32(b, 12),
                mousestate: MouseState::spec_from_sdl_state(read_u32(b, 16)),
                x: read_i32(b, 20),
                y: read_i32(b, 24),
                xrel: read_i32(b, 28),
                yrel: read_i32(b, 32),
            })
        &&& t == 0x401 ==> (e == Event::MouseButtonDown {
                timestamp: read_u32(b, 4),
                window_id: read_u32(b, 8),
                which: read_u32(b, 12),
                mouse_btn: MouseButton::spec_from_ll(b[16]),
                x: read_i32(b, 20),
                y: read_i32(b, 24),
            })
        &&& t == 0x402 ==> (e == Event::MouseButtonUp {
                timestamp: read_u32(b, 4),
                window_id: read_u32(b, 8),
                which: read_u32(b, 12),
                mouse_btn: MouseButton::spec_from_ll(b[16]),
                x: read_i32(b, 20),
                y: read_i32(b, 24),
            })
        &&& t == 0x403 ==> (e == Event::MouseWheel {
                timestamp: read_u32(b, 4),
                window_id: read_u32(b, 8),
                which: read_u32(b, 12),
                x: read_i32(b, 16),
                y: read_i32(b, 20),
                direction: MouseWheelDirection::spec_from_ll(read_u32(b, 24)),
            })
        &&& t == 0x600 ==> (e == Event::JoyAxisMotion {
                timestamp: read_u32(b, 4),
                which: read_i32(b, 8),
                axis_idx: b[12],
                value: read_i16(b, 16),
            })
        &&& t == 0x601 ==> (e == Event::JoyBallMotion {
                timestamp: read_u32(b, 4),
                which: read_i32(b, 8),
                ball_idx: b[12],
                xrel: read_i16(b, 16),
                yrel: read_i16(b, 18),
            })
        &&& t == 0x602 ==> (e == Event::JoyHatMotion {
                timestamp: read_u32(b, 4),
                which: read_i32(b, 8),
                hat_idx: b[12],
                state: HatState::spec_from_raw(b[13]),
            })
        &&& t == 0x603 ==> (e == Event::JoyButtonDown {
                timestamp: read_u32(b, 4),
                which: read_i32(b, 8),
                button_idx: b[12],
            })
        &&& t == 0x604 ==> (e == Event::JoyButtonUp {
                timestamp: read_u32(b, 4),
                which: read_i32(b, 8),
                button_idx: b[12],
            })
        &&& t == 0x605 ==> (e == Event::JoyDeviceAdded {
                timestamp: read_u32(b, 4),
                which: read_i32(b, 8),
            })
        &&& t == 0x606 ==> (e == Event::JoyDeviceRemoved {
                timestamp: read_u32(b, 4),
                which: read_i32(b, 8),
            })
        &&& t == 0x650 ==> (e == Event::ControllerAxisMotion {
                timestamp: read_u32(b, 4),
                which: read_i32(b, 8),
                axis: Axis::spec_from_ll(b[12] as i32).unwrap(),
                value: read_i16(b, 16),
            })
        &&& t == 0x651 ==> (e == Event::ControllerButtonDown {
                timestamp: read_u32(b, 4),
                which: read_i32(b, 8),
                button: Button::spec_from_ll(b[12] as i32).unwrap(),
            })
        &&& t == 0x652 ==> (e == Event::ControllerButtonUp {
                timestamp: read_u32(b, 4),
                which: read_i32(b, 8),
                button: Button::spec_from_ll(b[12] as i32).unwrap(),
            })
        &&& t == 0x653 ==> (e == Event::ControllerDeviceAdded {
                timestamp: read_u32(b, 4),
                which: read_i32(b, 8),
            })
        &&& t == 0x654 ==> (e == Event::ControllerDeviceRemoved {
                timestamp: read_u32(b, 4),
                which: read_i32(b, 8),
            })
        &&& t == 0x655 ==> (e == Event::ControllerDeviceRemapped {
                timestamp: read_u32(b, 4),
                which: read_i32(b, 8),
            })
        &&& t == 0x700 ==> (e == Event::FingerDown {
                timestamp: read_u32(b, 4),
                touch_id: read_i64(b, 8),
                finger_id: read_i64(b, 16),
                x: read_u32(b, 24),
                y: read_u32(b, 28),
                dx: read_u32(b, 32),
                dy: read_u32(b, 36),
                pressure: read_u32(b, 40),
            })
        &&& t == 0x701 ==> (e == Event::FingerUp {
                timestamp: read_u32(b, 4),
                touch_id: read_i64(b, 8),
                finger_id: read_i64(b, 16),
                x: read_u32(b, 24),
                y: read_u32(b, 28),
                dx: read_u32(b, 32),
                dy: read_u32(b, 36),
                pressure: read_u32(b, 40),
            })
        &&& t == 0x702 ==> (e == Event::FingerMotion {
                timestamp: read_u32(b, 4),
                touch_id: read_i64(b, 8),
                finger_id: read_i64(b, 16),
                x: read_u32(b, 24),
                y: read_u32(b, 28),
                dx: read_u32(b, 32),
                dy: read_u32(b, 36),
                pressure: read_u32(b, 40),
            })
        &&& t == 0x800 ==> (e == Event::DollarGesture {
                timestamp: read_u32(b, 4),
                touch_id: read_i64(b, 8),
                gesture_id: read_i64(b, 16),
                num_fingers: read_u32(b, 24),
                error: read_u32(b, 28),
                x: read_u32(b, 32),
                y: read_u32(b, 36),
            })
        &&& t == 0x801 ==> (e == Event::DollarRecord {
                timestamp: read_u32(b, 4),
                touch_id: read_i64(b, 8),
                gesture_id: read_i64(b, 16),
                num_fingers: read_u32(b, 24),
                error: read_u32(b, 28),
                x: read_u32(b, 32),
                y: read_u32(b, 36),
            })
        &&& t == 0x802 ==> (e == Event::MultiGesture {
                timestamp: read_u32(b, 4),
                touch_id: read_i64(b, 8),
                d_theta: read_u32(b, 16),
                d_dist: read_u32(b, 20),
                x: read_u32(b, 24),
                y: read_u32(b, 28),
                num_fingers: read_u16(b, 32),
            })
        &&& t == 0x900 ==> (e == Event::ClipboardUpdate { timestamp: read_u32(b, 4) })
        &&& t == 0x1000 ==> (e matches Event::DropFile { timestamp, filename } && timestamp
            == read_u32(b, 4) && filename@ == utf8_lossy(v.dropped_file))
        &&& 0x8000 <= t < 0xffff ==> e == Event::User {
            timestamp: read_u32(b, 4),
            window_id: read_u32(b, 8),
            type_: t,
            code: read_i32(b, 12),
            data1: read_u64(b, 16),
            data2: read_u64(b, 24),
        }
        }),
{
}

} // verus!
