//! Identifiers of SDL event types.

use vstd::prelude::*;

verus! {

pub const SDL_FIRSTEVENT: u32 = 0x0;
pub const SDL_QUIT: u32 = 0x100;
pub const SDL_APP_TERMINATING: u32 = 0x101;
pub const SDL_APP_LOWMEMORY: u32 = 0x102;
pub const SDL_APP_WILLENTERBACKGROUND: u32 = 0x103;
pub const SDL_APP_DIDENTERBACKGROUND: u32 = 0x104;
pub const SDL_APP_WILLENTERFOREGROUND: u32 = 0x105;
pub const SDL_APP_DIDENTERFOREGROUND: u32 = 0x106;
pub const SDL_WINDOWEVENT: u32 = 0x200;
pub const SDL_KEYDOWN: u32 = 0x300;
pub const SDL_KEYUP: u32 = 0x301;
pub const SDL_TEXTEDITING: u32 = 0x302;
pub const SDL_TEXTINPUT: u32 = 0x303;
pub const SDL_MOUSEMOTION: u32 = 0x400;
pub const SDL_MOUSEBUTTONDOWN: u32 = 0x401;
pub const SDL_MOUSEBUTTONUP: u32 = 0x402;
pub const SDL_MOUSEWHEEL: u32 = 0x403;
pub const SDL_JOYAXISMOTION: u32 = 0x600;
pub const SDL_JOYBALLMOTION: u32 = 0x601;
pub const SDL_JOYHATMOTION: u32 = 0x602;
pub const SDL_JOYBUTTONDOWN: u32 = 0x603;
pub const SDL_JOYBUTTONUP: u32 = 0x604;
pub const SDL_JOYDEVICEADDED: u32 = 0x605;
pub const SDL_JOYDEVICEREMOVED: u32 = 0x606;
pub const SDL_CONTROLLERAXISMOTION: u32 = 0x650;
pub const SDL_CONTROLLERBUTTONDOWN: u32 = 0x651;
pub const SDL_CONTROLLERBUTTONUP: u32 = 0x652;
pub const SDL_CONTROLLERDEVICEADDED: u32 = 0x653;
pub const SDL_CONTROLLERDEVICEREMOVED: u32 = 0x654;
pub const SDL_CONTROLLERDEVICEREMAPPED: u32 = 0x655;
pub const SDL_FINGERDOWN: u32 = 0x700;
pub const SDL_FINGERUP: u32 = 0x701;
pub const SDL_FINGERMOTION: u32 = 0x702;
pub const SDL_DOLLARGESTURE: u32 = 0x800;
pub const SDL_DOLLARRECORD: u32 = 0x801;
pub const SDL_MULTIGESTURE: u32 = 0x802;
pub const SDL_CLIPBOARDUPDATE: u32 = 0x900;
pub const SDL_DROPFILE: u32 = 0x1000;
pub const SDL_USEREVENT: u32 = 0x8000;
pub const SDL_LASTEVENT: u32 = 0xffff;

/// Types of events that can be delivered.
#[derive(Copy, Clone, Debug, PartialEq, Eq, Structural, Hash)]
pub enum EventType {
    First,
    Quit,
    AppTerminating,
    AppLowMemory,
    AppWillEnterBackground,
    AppDidEnterBackground,
    AppWillEnterForeground,
    AppDidEnterForeground,
    Window,
    KeyDown,
    KeyUp,
    TextEditing,
    TextInput,
    MouseMotion,
    MouseButtonDown,
    MouseButtonUp,
    MouseWheel,
    JoyAxisMotion,
    JoyBallMotion,
    JoyHatMotion,
    JoyButtonDown,
    JoyButtonUp,
    JoyDeviceAdded,
    JoyDeviceRemoved,
    ControllerAxisMotion,
    ControllerButtonDown,
    ControllerButtonUp,
    ControllerDeviceAdded,
    ControllerDeviceRemoved,
    ControllerDeviceRemapped,
    FingerDown,
    FingerUp,
    FingerMotion,
    DollarGesture,
    DollarRecord,
    MultiGesture,
    ClipboardUpdate,
    DropFile,
    User,
    Last,
}

impl EventType {
    /// The SDL identifier of this event type.
    pub open spec fn spec_to_u32(self) -> u32 {
        match self {
            EventType::First => SDL_FIRSTEVENT,
            EventType::Quit => SDL_QUIT,
            EventType::AppTerminating => SDL_APP_TERMINATING,
            EventType::AppLowMemory => SDL_APP_LOWMEMORY,
            EventType::AppWillEnterBackground => SDL_APP_WILLENTERBACKGROUND,
            EventType::AppDidEnterBackground => SDL_APP_DIDENTERBACKGROUND,
            EventType::AppWillEnterForeground => SDL_APP_WILLENTERFOREGROUND,
            EventType::AppDidEnterForeground => SDL_APP_DIDENTERFOREGROUND,
            EventType::Window => SDL_WINDOWEVENT,
            EventType::KeyDown => SDL_KEYDOWN,
            EventType::KeyUp => SDL_KEYUP,
            EventType::TextEditing => SDL_TEXTEDITING,
            EventType::TextInput => SDL_TEXTINPUT,
            EventType::MouseMotion => SDL_MOUSEMOTION,
            EventType::MouseButtonDown => SDL_MOUSEBUTTONDOWN,
            EventType::MouseButtonUp => SDL_MOUSEBUTTONUP,
            EventType::MouseWheel => SDL_MOUSEWHEEL,
            EventType::JoyAxisMotion => SDL_JOYAXISMOTION,
            EventType::JoyBallMotion => SDL_JOYBALLMOTION,
            EventType::JoyHatMotion => SDL_JOYHATMOTION,
            EventType::JoyButtonDown => SDL_JOYBUTTONDOWN,
            EventType::JoyButtonUp => SDL_JOYBUTTONUP,
            EventType::JoyDeviceAdded => SDL_JOYDEVICEADDED,
            EventType::JoyDeviceRemoved => SDL_JOYDEVICEREMOVED,
            EventType::ControllerAxisMotion => SDL_CONTROLLERAXISMOTION,
            EventType::ControllerButtonDown => SDL_CONTROLLERBUTTONDOWN,
            EventType::ControllerButtonUp => SDL_CONTROLLERBUTTONUP,
            EventType::ControllerDeviceAdded => SDL_CONTROLLERDEVICEADDED,
            EventType::ControllerDeviceRemoved => SDL_CONTROLLERDEVICEREMOVED,
            EventType::ControllerDeviceRemapped => SDL_CONTROLLERDEVICEREMAPPED,
            EventType::FingerDown => SDL_FINGERDOWN,
            EventType::FingerUp => SDL_FINGERUP,
            EventType::FingerMotion => SDL_FINGERMOTION,
            EventType::DollarGesture => SDL_DOLLARGESTURE,
            EventType::DollarRecord => SDL_DOLLARRECORD,
            EventType::MultiGesture => SDL_MULTIGESTURE,
            EventType::ClipboardUpdate => SDL_CLIPBOARDUPDATE,
            EventType::DropFile => SDL_DROPFILE,
            EventType::User => SDL_USEREVENT,
            EventType::Last => SDL_LASTEVENT,
        }
    }

    /// The event type that SDL identifies by `n`, if any.
    pub open spec fn spec_from_u32(n: u32) -> Option<EventType> {
        if n == SDL_FIRSTEVENT {
            Some(EventType::First)
        } else if n == SDL_QUIT {
            Some(EventType::Quit)
        } else if n == SDL_APP_TERMINATING {
            Some(EventType::AppTerminating)
        } else if n == SDL_APP_LOWMEMORY {
            Some(EventType::AppLowMemory)
        } else if n == SDL_APP_WILLENTERBACKGROUND {
            Some(EventType::AppWillEnterBackground)
        } else if n == SDL_APP_DIDENTERBACKGROUND {
            Some(EventType::AppDidEnterBackground)
        } else if n == SDL_APP_WILLENTERFOREGROUND {
            Some(EventType::AppWillEnterForeground)
        } else if n == SDL_APP_DIDENTERFOREGROUND {
            Some(EventType::AppDidEnterForeground)
        } else if n == SDL_WINDOWEVENT {
            Some(EventType::Window)
        } else if n == SDL_KEYDOWN {
            Some(EventType::KeyDown)
        } else if n == SDL_KEYUP {
            Some(EventType::KeyUp)
        } else if n == SDL_TEXTEDITING {
            Some(EventType::TextEditing)
        } else if n == SDL_TEXTINPUT {
            Some(EventType::TextInput)
        } else if n == SDL_MOUSEMOTION {
            Some(EventType::MouseMotion)
        } else if n == SDL_MOUSEBUTTONDOWN {
            Some(EventType::MouseButtonDown)
        } else if n == SDL_MOUSEBUTTONUP {
            Some(EventType::MouseButtonUp)
        } else if n == SDL_MOUSEWHEEL {
            Some(EventType::MouseWheel)
        } else if n == SDL_JOYAXISMOTION {
            Some(EventType::JoyAxisMotion)
        } else if n == SDL_JOYBALLMOTION {
            Some(EventType::JoyBallMotion)
        } else if n == SDL_JOYHATMOTION {
            Some(EventType::JoyHatMotion)
        } else if n == SDL_JOYBUTTONDOWN {
            Some(EventType::JoyButtonDown)
        } else if n == SDL_JOYBUTTONUP {
            Some(EventType::JoyButtonUp)
        } else if n == SDL_JOYDEVICEADDED {
            Some(EventType::JoyDeviceAdded)
        } else if n == SDL_JOYDEVICEREMOVED {
            Some(EventType::JoyDeviceRemoved)
        } else if n == SDL_CONTROLLERAXISMOTION {
            Some(EventType::ControllerAxisMotion)
        } else if n == SDL_CONTROLLERBUTTONDOWN {
            Some(EventType::ControllerButtonDown)
        } else if n == SDL_CONTROLLERBUTTONUP {
            Some(EventType::ControllerButtonUp)
        } else if n == SDL_CONTROLLERDEVICEADDED {
            Some(EventType::ControllerDeviceAdded)
        } else if n == SDL_CONTROLLERDEVICEREMOVED {
            Some(EventType::ControllerDeviceRemoved)
        } else if n == SDL_CONTROLLERDEVICEREMAPPED {
            Some(EventType::ControllerDeviceRemapped)
        } else if n == SDL_FINGERDOWN {
            Some(EventType::FingerDown)
        } else if n == SDL_FINGERUP {
            Some(EventType::FingerUp)
        } else if n == SDL_FINGERMOTION {
            Some(EventType::FingerMotion)
        } else if n == SDL_DOLLARGESTURE {
            Some(EventType::DollarGesture)
        } else if n == SDL_DOLLARRECORD {
            Some(EventType::DollarRecord)
        } else if n == SDL_MULTIGESTURE {
            Some(EventType::MultiGesture)
        } else if n == SDL_CLIPBOARDUPDATE {
            Some(EventType::ClipboardUpdate)
        } else if n == SDL_DROPFILE {
            Some(EventType::DropFile)
        } else if n == SDL_USEREVENT {
            Some(EventType::User)
        } else if n == SDL_LASTEVENT {
            Some(EventType::Last)
        } else {
            None
        }
    }

    /// The SDL identifier of this event type.
    pub fn to_u32(self) -> (r: u32)
        ensures
            r == self.spec_to_u32(),
    {
        match self {
            EventType::First => SDL_FIRSTEVENT,
            EventType::Quit => SDL_QUIT,
            EventType::AppTerminating => SDL_APP_TERMINATING,
            EventType::AppLowMemory => SDL_APP_LOWMEMORY,
            EventType::AppWillEnterBackground => SDL_APP_WILLENTERBACKGROUND,
            EventType::AppDidEnterBackground => SDL_APP_DIDENTERBACKGROUND,
            EventType::AppWillEnterForeground => SDL_APP_WILLENTERFOREGROUND,
            EventType::AppDidEnterForeground => SDL_APP_DIDENTERFOREGROUND,
            EventType::Window => SDL_WINDOWEVENT,
            EventType::KeyDown => SDL_KEYDOWN,
            EventType::KeyUp => SDL_KEYUP,
            EventType::TextEditing => SDL_TEXTEDITING,
            EventType::TextInput => SDL_TEXTINPUT,
            EventType::MouseMotion => SDL_MOUSEMOTION,
            EventType::MouseButtonDown => SDL_MOUSEBUTTONDOWN,
            EventType::MouseButtonUp => SDL_MOUSEBUTTONUP,
            EventType::MouseWheel => SDL_MOUSEWHEEL,
            EventType::JoyAxisMotion => SDL_JOYAXISMOTION,
            EventType::JoyBallMotion => SDL_JOYBALLMOTION,
            EventType::JoyHatMotion => SDL_JOYHATMOTION,
            EventType::JoyButtonDown => SDL_JOYBUTTONDOWN,
            EventType::JoyButtonUp => SDL_JOYBUTTONUP,
            EventType::JoyDeviceAdded => SDL_JOYDEVICEADDED,
            EventType::JoyDeviceRemoved => SDL_JOYDEVICEREMOVED,
            EventType::ControllerAxisMotion => SDL_CONTROLLERAXISMOTION,
            EventType::ControllerButtonDown => SDL_CONTROLLERBUTTONDOWN,
            EventType::ControllerButtonUp => SDL_CONTROLLERBUTTONUP,
            EventType::ControllerDeviceAdded => SDL_CONTROLLERDEVICEADDED,
            EventType::ControllerDeviceRemoved => SDL_CONTROLLERDEVICEREMOVED,
            EventType::ControllerDeviceRemapped => SDL_CONTROLLERDEVICEREMAPPED,
            EventType::FingerDown => SDL_FINGERDOWN,
            EventType::FingerUp => SDL_FINGERUP,
            EventType::FingerMotion => SDL_FINGERMOTION,
            EventType::DollarGesture => SDL_DOLLARGESTURE,
            EventType::DollarRecord => SDL_DOLLARRECORD,
            EventType::MultiGesture => SDL_MULTIGESTURE,
            EventType::ClipboardUpdate => SDL_CLIPBOARDUPDATE,
            EventType::DropFile => SDL_DROPFILE,
            EventType::User => SDL_USEREVENT,
            EventType::Last => SDL_LASTEVENT,
        }
    }

    /// The event type whose identifier is `n` truncated to 32 bits, if there is one.
    pub fn from_i64(n: i64) -> (r: Option<EventType>)
        ensures
            r == Self::spec_from_u32(n as u32),
    {
        let n: u32 = n as u32;
        if n == SDL_FIRSTEVENT {
            Some(EventType::First)
        } else if n == SDL_QUIT {
            Some(EventType::Quit)
        } else if n == SDL_APP_TERMINATING {
            Some(EventType::AppTerminating)
        } else if n == SDL_APP_LOWMEMORY {
            Some(EventType::AppLowMemory)
        } else if n == SDL_APP_WILLENTERBACKGROUND {
            Some(EventType::AppWillEnterBackground)
        } else if n == SDL_APP_DIDENTERBACKGROUND {
            Some(EventType::AppDidEnterBackground)
        } else if n == SDL_APP_WILLENTERFOREGROUND {
            Some(EventType::AppWillEnterForeground)
        } else if n == SDL_APP_DIDENTERFOREGROUND {
            Some(EventType::AppDidEnterForeground)
        } else if n == SDL_WINDOWEVENT {
            Some(EventType::Window)
        } else if n == SDL_KEYDOWN {
            Some(EventType::KeyDown)
        } else if n == SDL_KEYUP {
            Some(EventType::KeyUp)
        } else if n == SDL_TEXTEDITING {
            Some(EventType::TextEditing)
        } else if n == SDL_TEXTINPUT {
            Some(EventType::TextInput)
        } else if n == SDL_MOUSEMOTION {
            Some(EventType::MouseMotion)
        } else if n == SDL_MOUSEBUTTONDOWN {
            Some(EventType::MouseButtonDown)
        } else if n == SDL_MOUSEBUTTONUP {
            Some(EventType::MouseButtonUp)
        } else if n == SDL_MOUSEWHEEL {
            Some(EventType::MouseWheel)
        } else if n == SDL_JOYAXISMOTION {
            Some(EventType::JoyAxisMotion)
        } else if n == SDL_JOYBALLMOTION {
            Some(EventType::JoyBallMotion)
        } else if n == SDL_JOYHATMOTION {
            Some(EventType::JoyHatMotion)
        } else if n == SDL_JOYBUTTONDOWN {
            Some(EventType::JoyButtonDown)
        } else if n == SDL_JOYBUTTONUP {
            Some(EventType::JoyButtonUp)
        } else if n == SDL_JOYDEVICEADDED {
            Some(EventType::JoyDeviceAdded)
        } else if n == SDL_JOYDEVICEREMOVED {
            Some(EventType::JoyDeviceRemoved)
        } else if n == SDL_CONTROLLERAXISMOTION {
            Some(EventType::ControllerAxisMotion)
        } else if n == SDL_CONTROLLERBUTTONDOWN {
            Some(EventType::ControllerButtonDown)
        } else if n == SDL_CONTROLLERBUTTONUP {
            Some(EventType::ControllerButtonUp)
        } else if n == SDL_CONTROLLERDEVICEADDED {
            Some(EventType::ControllerDeviceAdded)
        } else if n == SDL_CONTROLLERDEVICEREMOVED {
            Some(EventType::ControllerDeviceRemoved)
        } else if n == SDL_CONTROLLERDEVICEREMAPPED {
            Some(EventType::ControllerDeviceRemapped)
        } else if n == SDL_FINGERDOWN {
            Some(EventType::FingerDown)
        } else if n == SDL_FINGERUP {
            Some(EventType::FingerUp)
        } else if n == SDL_FINGERMOTION {
            Some(EventType::FingerMotion)
        } else if n == SDL_DOLLARGESTURE {
            Some(EventType::DollarGesture)
        } else if n == SDL_DOLLARRECORD {
            Some(EventType::DollarRecord)
        } else if n == SDL_MULTIGESTURE {
            Some(EventType::MultiGesture)
        } else if n == SDL_CLIPBOARDUPDATE {
            Some(EventType::ClipboardUpdate)
        } else if n == SDL_DROPFILE {
            Some(EventType::DropFile)
        } else if n == SDL_USEREVENT {
            Some(EventType::User)
        } else if n == SDL_LASTEVENT {
            Some(EventType::Last)
        } else {
            None
        }
    }

    /// The event type whose identifier is `n` truncated to 32 bits, if there is one.
    pub fn from_u64(n: u64) -> (r: Option<EventType>)
        ensures
            r == Self::spec_from_u32(n as u32),
    {
        let m: i64 = n as i64;
        proof {
            assert((m as u32) == (n as u32)) by (bit_vector)
                requires
                    m == n as i64,
            ;
        }
        Self::from_i64(m)
    }

    /// Every event type is found again from its identifier.
    pub proof fn lemma_from_to_u32(t: EventType)
        ensures
            Self::spec_from_u32(t.spec_to_u32()) == Some(t),
    {
    }

    /// An identifier that names an event type is that type's identifier.
    pub proof fn lemma_to_from_u32(n: u32)
        ensures
            Self::spec_from_u32(n) matches Some(t) ==> t.spec_to_u32() == n,
    {
    }

    /// SDL's event type numbers: each event type has the number that SDL gives the event type
    /// of the same name (`SDL_QUIT` = 0x100, `SDL_APP_WILLENTERBACKGROUND` = 0x103, ...), each of
    /// these numbers names that type, and every other number names none.
    pub proof fn lemma_event_type_numbers(n: u32)
        ensures
            EventType::First.spec_to_u32() == 0x0,
            EventType::Quit.spec_to_u32() == 0x100,
            EventType::AppTerminating.spec_to_u32() == 0x101,
            EventType::AppLowMemory.spec_to_u32() == 0x102,
            EventType::AppWillEnterBackground.spec_to_u32() == 0x103,
            EventType::AppDidEnterBackground.spec_to_u32() == 0x104,
            EventType::AppWillEnterForeground.spec_to_u32() == 0x105,
            EventType::AppDidEnterForeground.spec_to_u32() == 0x106,
            EventType::Window.spec_to_u32() == 0x200,
            EventType::KeyDown.spec_to_u32() == 0x300,
            EventType::KeyUp.spec_to_u32() == 0x301,
            EventType::TextEditing.spec_to_u32() == 0x302,
            EventType::TextInput.spec_to_u32() == 0x303,
            EventType::MouseMotion.spec_to_u32() == 0x400,
            EventType::MouseButtonDown.spec_to_u32() == 0x401,
            EventType::MouseButtonUp.spec_to_u32() == 0x402,
            EventType::MouseWheel.spec_to_u32() == 0x403,
            EventType::JoyAxisMotion.spec_to_u32() == 0x600,
            EventType::JoyBallMotion.spec_to_u32() == 0x601,
            EventType::JoyHatMotion.spec_to_u32() == 0x602,
            EventType::JoyButtonDown.spec_to_u32() == 0x603,
            EventType::JoyButtonUp.spec_to_u32() == 0x604,
            EventType::JoyDeviceAdded.spec_to_u32() == 0x605,
            EventType::JoyDeviceRemoved.spec_to_u32() == 0x606,
            EventType::ControllerAxisMotion.spec_to_u32() == 0x650,
            EventType::ControllerButtonDown.spec_to_u32() == 0x651,
            EventType::ControllerButtonUp.spec_to_u32() == 0x652,
            EventType::ControllerDeviceAdded.spec_to_u32() == 0x653,
            EventType::ControllerDeviceRemoved.spec_to_u32() == 0x654,
            EventType::ControllerDeviceRemapped.spec_to_u32() == 0x655,
            EventType::FingerDown.spec_to_u32() == 0x700,
            EventType::FingerUp.spec_to_u32() == 0x701,
            EventType::FingerMotion.spec_to_u32() == 0x702,
            EventType::DollarGesture.spec_to_u32() == 0x800,
            EventType::DollarRecord.spec_to_u32() == 0x801,
            EventType::MultiGesture.spec_to_u32() == 0x802,
            EventType::ClipboardUpdate.spec_to_u32() == 0x900,
            EventType::DropFile.spec_to_u32() == 0x1000,
            EventType::User.spec_to_u32() == 0x8000,
            EventType::Last.spec_to_u32() == 0xffff,
            Self::spec_from_u32(0x0) == Some(EventType::First),
            Self::spec_from_u32(0x100) == Some(EventType::Quit),
            Self::spec_from_u32(0x101) == Some(EventType::AppTerminating),
            Self::spec_from_u32(0x102) == Some(EventType::AppLowMemory),
            Self::spec_from_u32(0x103) == Some(EventType::AppWillEnterBackground),
            Self::spec_from_u32(0x104) == Some(EventType::AppDidEnterBackground),
            Self::spec_from_u32(0x105) == Some(EventType::AppWillEnterForeground),
            Self::spec_from_u32(0x106) == Some(EventType::AppDidEnterForeground),
            Self::spec_from_u32(0x200) == Some(EventType::Window),
            Self::spec_from_u32(0x300) == Some(EventType::KeyDown),
            Self::spec_from_u32(0x301) == Some(EventType::KeyUp),
            Self::spec_from_u32(0x302) == Some(EventType::TextEditing),
            Self::spec_from_u32(0x303) == Some(EventType::TextInput),
            Self::spec_from_u32(0x400) == Some(EventType::MouseMotion),
            Self::spec_from_u32(0x401) == Some(EventType::MouseButtonDown),
            Self::spec_from_u32(0x402) == Some(EventType::MouseButtonUp),
            Self::spec_from_u32(0x403) == Some(EventType::MouseWheel),
            Self::spec_from_u32(0x600) == Some(EventType::JoyAxisMotion),
            Self::spec_from_u32(0x601) == Some(EventType::JoyBallMotion),
            Self::spec_from_u32(0x602) == Some(EventType::JoyHatMotion),
            Self::spec_from_u32(0x603) == Some(EventType::JoyButtonDown),
            Self::spec_from_u32(0x604) == Some(EventType::JoyButtonUp),
            Self::spec_from_u32(0x605) == Some(EventType::JoyDeviceAdded),
            Self::spec_from_u32(0x606) == Some(EventType::JoyDeviceRemoved),
            Self::spec_from_u32(0x650) == Some(EventType::ControllerAxisMotion),
            Self::spec_from_u32(0x651) == Some(EventType::ControllerButtonDown),
            Self::spec_from_u32(0x652) == Some(EventType::ControllerButtonUp),
            Self::spec_from_u32(0x653) == Some(EventType::ControllerDeviceAdded),
            Self::spec_from_u32(0x654) == Some(EventType::ControllerDeviceRemoved),
            Self::spec_from_u32(0x655) == Some(EventType::ControllerDeviceRemapped),
            Self::spec_from_u32(0x700) == Some(EventType::FingerDown),
            Self::spec_from_u32(0x701) == Some(EventType::FingerUp),
            Self::spec_from_u32(0x702) == Some(EventType::FingerMotion),
            Self::spec_from_u32(0x800) == Some(EventType::DollarGesture),
            Self::spec_from_u32(0x801) == Some(EventType::DollarRecord),
            Self::spec_from_u32(0x802) == Some(EventType::MultiGesture),
            Self::spec_from_u32(0x900) == Some(EventType::ClipboardUpdate),
            Self::spec_from_u32(0x1000) == Some(EventType::DropFile),
            Self::spec_from_u32(0x8000) == Some(EventType::User),
            Self::spec_from_u32(0xffff) == Some(EventType::Last),
            Self::spec_from_u32(n) is Some <==> (n == 0x0 || n == 0x100 || n == 0x101 || n == 0x102 || n == 0x103 || n == 0x104 || n == 0x105 || n == 0x106 || n == 0x200 || n == 0x300 || n == 0x301 || n == 0x302 || n == 0x303 || n == 0x400 || n == 0x401 || n == 0x402 || n == 0x403 || n == 0x600 || n == 0x601 || n == 0x602 || n == 0x603 || n == 0x604 || n == 0x605 || n == 0x606 || n == 0x650 || n == 0x651 || n == 0x652 || n == 0x653 || n == 0x654 || n == 0x655 || n == 0x700 || n == 0x701 || n == 0x702 || n == 0x800 || n == 0x801 || n == 0x802 || n == 0x900 || n == 0x1000 || n == 0x8000 || n == 0xffff),
    {
    }
}

} // verus!
