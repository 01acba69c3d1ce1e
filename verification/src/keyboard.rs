//! Keyboard keys, modifier states and the pressed-key state.

use vstd::prelude::*;

verus! {

/// Physical keys, named by SDL's scan codes.
#[derive(Copy, Clone, Debug, PartialEq, Eq, Structural, Hash)]
pub enum Scancode {
    A,
    B,
    C,
    D,
    E,
    F,
    G,
    H,
    I,
    J,
    K,
    L,
    M,
    N,
    O,
    P,
    Q,
    R,
    S,
    T,
    U,
    V,
    W,
    X,
    Y,
    Z,
    Num1,
    Num2,
    Num3,
    Num4,
    Num5,
    Num6,
    Num7,
    Num8,
    Num9,
    Num0,
    Return,
    Escape,
    Backspace,
    Tab,
    Space,
    Minus,
    Equals,
    LeftBracket,
    RightBracket,
    Backslash,
    NonUsHash,
    Semicolon,
    Apostrophe,
    Grave,
    Comma,
    Period,
    Slash,
    CapsLock,
    F1,
    F2,
    F3,
    F4,
    F5,
    F6,
    F7,
    F8,
    F9,
    F10,
    F11,
    F12,
    PrintScreen,
    ScrollLock,
    Pause,
    Insert,
    Home,
    PageUp,
    Delete,
    End,
    PageDown,
    Right,
    Left,
    Down,
    Up,
    NumLockClear,
    KpDivide,
    KpMultiply,
    KpMinus,
    KpPlus,
    KpEnter,
    Kp1,
    Kp2,
    Kp3,
    Kp4,
    Kp5,
    Kp6,
    Kp7,
    Kp8,
    Kp9,
    Kp0,
    KpPeriod,
    NonUsBackslash,
    Application,
    Power,
    KpEquals,
    F13,
    F14,
    F15,
    F16,
    F17,
    F18,
    F19,
    F20,
    F21,
    F22,
    F23,
    F24,
    Execute,
    Help,
    Menu,
    Select,
    Stop,
    Again,
    Undo,
    Cut,
    Copy,
    Paste,
    Find,
    Mute,
    VolumeUp,
    VolumeDown,
    KpComma,
    KpEqualsAS400,
    International1,
    International2,
    International3,
    International4,
    International5,
    International6,
    International7,
    International8,
    International9,
    Lang1,
    Lang2,
    Lang3,
    Lang4,
    Lang5,
    Lang6,
    Lang7,
    Lang8,
    Lang9,
    AltErase,
    SysReq,
    Cancel,
    Clear,
    Prior,
    Return2,
    Separator,
    Out,
    Oper,
    ClearAgain,
    CrSel,
    ExSel,
    Kp00,
    Kp000,
    ThousandsSeparator,
    DecimalSeparator,
    CurrencyUnit,
    CurrencySubUnit,
    KpLeftParen,
    KpRightParen,
    KpLeftBrace,
    KpRightBrace,
    KpTab,
    KpBackspace,
    KpA,
    KpB,
    KpC,
    KpD,
    KpE,
    KpF,
    KpXor,
    KpPower,
    KpPercent,
    KpLess,
    KpGreater,
    KpAmpersand,
    KpDblAmpersand,
    KpVerticalBar,
    KpDblVerticalBar,
    KpColon,
    KpHash,
    KpSpace,
    KpAt,
    KpExclam,
    KpMemStore,
    KpMemRecall,
    KpMemClear,
    KpMemAdd,
    KpMemSubtract,
    KpMemMultiply,
    KpMemDivide,
    KpPlusMinus,
    KpClear,
    KpClearEntry,
    KpBinary,
    KpOctal,
    KpDecimal,
    KpHexadecimal,
    LCtrl,
    LShift,
    LAlt,
    LGui,
    RCtrl,
    RShift,
    RAlt,
    RGui,
    Mode,
    AudioNext,
    AudioPrev,
    AudioStop,
    AudioPlay,
    AudioMute,
    MediaSelect,
    Www,
    Mail,
    Calculator,
    Computer,
    AcSearch,
    AcHome,
    AcBack,
    AcForward,
    AcStop,
    AcRefresh,
    AcBookmarks,
    BrightnessDown,
    BrightnessUp,
    DisplaySwitch,
    KbdIllumToggle,
    KbdIllumDown,
    KbdIllumUp,
    Eject,
    Sleep,
    App1,
    App2,
    Num,
}

impl Scancode {
    /// The SDL code of this key.
    pub open spec fn spec_to_i32(self) -> i32 {
        match self {
            Scancode::A => 4,
            Scancode::B => 5,
            Scancode::C => 6,
            Scancode::D => 7,
            Scancode::E => 8,
            Scancode::F => 9,
            Scancode::G => 10,
            Scancode::H => 11,
            Scancode::I => 12,
            Scancode::J => 13,
            Scancode::K => 14,
            Scancode::L => 15,
            Scancode::M => 16,
            Scancode::N => 17,
            Scancode::O => 18,
            Scancode::P => 19,
            Scancode::Q => 20,
            Scancode::R => 21,
            Scancode::S => 22,
            Scancode::T => 23,
            Scancode::U => 24,
            Scancode::V => 25,
            Scancode::W => 26,
            Scancode::X => 27,
            Scancode::Y => 28,
            Scancode::Z => 29,
            Scancode::Num1 => 30,
            Scancode::Num2 => 31,
            Scancode::Num3 => 32,
            Scancode::Num4 => 33,
            Scancode::Num5 => 34,
            Scancode::Num6 => 35,
            Scancode::Num7 => 36,
            Scancode::Num8 => 37,
            Scancode::Num9 => 38,
            Scancode::Num0 => 39,
            Scancode::Return => 40,
            Scancode::Escape => 41,
            Scancode::Backspace => 42,
            Scancode::Tab => 43,
            Scancode::Space => 44,
            Scancode::Minus => 45,
            Scancode::Equals => 46,
            Scancode::LeftBracket => 47,
            Scancode::RightBracket => 48,
            Scancode::Backslash => 49,
            Scancode::NonUsHash => 50,
            Scancode::Semicolon => 51,
            Scancode::Apostrophe => 52,
            Scancode::Grave => 53,
            Scancode::Comma => 54,
            Scancode::Period => 55,
            Scancode::Slash => 56,
            Scancode::CapsLock => 57,
            Scancode::F1 => 58,
            Scancode::F2 => 59,
            Scancode::F3 => 60,
            Scancode::F4 => 61,
            Scancode::F5 => 62,
            Scancode::F6 => 63,
            Scancode::F7 => 64,
            Scancode::F8 => 65,
            Scancode::F9 => 66,
            Scancode::F10 => 67,
            Scancode::F11 => 68,
            Scancode::F12 => 69,
            Scancode::PrintScreen => 70,
            Scancode::ScrollLock => 71,
            Scancode::Pause => 72,
            Scancode::Insert => 73,
            Scancode::Home => 74,
            Scancode::PageUp => 75,
            Scancode::Delete => 76,
            Scancode::End => 77,
            Scancode::PageDown => 78,
            Scancode::Right => 79,
            Scancode::Left => 80,
            Scancode::Down => 81,
            Scancode::Up => 82,
            Scancode::NumLockClear => 83,
            Scancode::KpDivide => 84,
            Scancode::KpMultiply => 85,
            Scancode::KpMinus => 86,
            Scancode::KpPlus => 87,
            Scancode::KpEnter => 88,
            Scancode::Kp1 => 89,
            Scancode::Kp2 => 90,
            Scancode::Kp3 => 91,
            Scancode::Kp4 => 92,
            Scancode::Kp5 => 93,
            Scancode::Kp6 => 94,
            Scancode::Kp7 => 95,
            Scancode::Kp8 => 96,
            Scancode::Kp9 => 97,
            Scancode::Kp0 => 98,
            Scancode::KpPeriod => 99,
            Scancode::NonUsBackslash => 100,
            Scancode::Application => 101,
            Scancode::Power => 102,
            Scancode::KpEquals => 103,
            Scancode::F13 => 104,
            Scancode::F14 => 105,
            Scancode::F15 => 106,
            Scancode::F16 => 107,
            Scancode::F17 => 108,
            Scancode::F18 => 109,
            Scancode::F19 => 110,
            Scancode::F20 => 111,
            Scancode::F21 => 112,
            Scancode::F22 => 113,
            Scancode::F23 => 114,
            Scancode::F24 => 115,
            Scancode::Execute => 116,
            Scancode::Help => 117,
            Scancode::Menu => 118,
            Scancode::Select => 119,
            Scancode::Stop => 120,
            Scancode::Again => 121,
            Scancode::Undo => 122,
            Scancode::Cut => 123,
            Scancode::Copy => 124,
            Scancode::Paste => 125,
            Scancode::Find => 126,
            Scancode::Mute => 127,
            Scancode::VolumeUp => 128,
            Scancode::VolumeDown => 129,
            Scancode::KpComma => 133,
            Scancode::KpEqualsAS400 => 134,
            Scancode::International1 => 135,
            Scancode::International2 => 136,
            Scancode::International3 => 137,
            Scancode::International4 => 138,
            Scancode::International5 => 139,
            Scancode::International6 => 140,
            Scancode::International7 => 141,
            Scancode::International8 => 142,
            Scancode::International9 => 143,
            Scancode::Lang1 => 144,
            Scancode::Lang2 => 145,
            Scancode::Lang3 => 146,
            Scancode::Lang4 => 147,
            Scancode::Lang5 => 148,
            Scancode::Lang6 => 149,
            Scancode::Lang7 => 150,
            Scancode::Lang8 => 151,
            Scancode::Lang9 => 152,
            Scancode::AltErase => 153,
            Scancode::SysReq => 154,
            Scancode::Cancel => 155,
            Scancode::Clear => 156,
            Scancode::Prior => 157,
            Scancode::Return2 => 158,
            Scancode::Separator => 159,
            Scancode::Out => 160,
            Scancode::Oper => 161,
            Scancode::ClearAgain => 162,
            Scancode::CrSel => 163,
            Scancode::ExSel => 164,
            Scancode::Kp00 => 176,
            Scancode::Kp000 => 177,
            Scancode::ThousandsSeparator => 178,
            Scancode::DecimalSeparator => 179,
            Scancode::CurrencyUnit => 180,
            Scancode::CurrencySubUnit => 181,
            Scancode::KpLeftParen => 182,
            Scancode::KpRightParen => 183,
            Scancode::KpLeftBrace => 184,
            Scancode::KpRightBrace => 185,
            Scancode::KpTab => 186,
            Scancode::KpBackspace => 187,
            Scancode::KpA => 188,
            Scancode::KpB => 189,
            Scancode::KpC => 190,
            Scancode::KpD => 191,
            Scancode::KpE => 192,
            Scancode::KpF => 193,
            Scancode::KpXor => 194,
            Scancode::KpPower => 195,
            Scancode::KpPercent => 196,
            Scancode::KpLess => 197,
            Scancode::KpGreater => 198,
            Scancode::KpAmpersand => 199,
            Scancode::KpDblAmpersand => 200,
            Scancode::KpVerticalBar => 201,
            Scancode::KpDblVerticalBar => 202,
            Scancode::KpColon => 203,
            Scancode::KpHash => 204,
            Scancode::KpSpace => 205,
            Scancode::KpAt => 206,
            Scancode::KpExclam => 207,
            Scancode::KpMemStore => 208,
            Scancode::KpMemRecall => 209,
            Scancode::KpMemClear => 210,
            Scancode::KpMemAdd => 211,
            Scancode::KpMemSubtract => 212,
            Scancode::KpMemMultiply => 213,
            Scancode::KpMemDivide => 214,
            Scancode::KpPlusMinus => 215,
            Scancode::KpClear => 216,
            Scancode::KpClearEntry => 217,
            Scancode::KpBinary => 218,
            Scancode::KpOctal => 219,
            Scancode::KpDecimal => 220,
            Scancode::KpHexadecimal => 221,
            Scancode::LCtrl => 224,
            Scancode::LShift => 225,
            Scancode::LAlt => 226,
            Scancode::LGui => 227,
            Scancode::RCtrl => 228,
            Scancode::RShift => 229,
            Scancode::RAlt => 230,
            Scancode::RGui => 231,
            Scancode::Mode => 257,
            Scancode::AudioNext => 258,
            Scancode::AudioPrev => 259,
            Scancode::AudioStop => 260,
            Scancode::AudioPlay => 261,
            Scancode::AudioMute => 262,
            Scancode::MediaSelect => 263,
            Scancode::Www => 264,
            Scancode::Mail => 265,
            Scancode::Calculator => 266,
            Scancode::Computer => 267,
            Scancode::AcSearch => 268,
            Scancode::AcHome => 269,
            Scancode::AcBack => 270,
            Scancode::AcForward => 271,
            Scancode::AcStop => 272,
            Scancode::AcRefresh => 273,
            Scancode::AcBookmarks => 274,
            Scancode::BrightnessDown => 275,
            Scancode::BrightnessUp => 276,
            Scancode::DisplaySwitch => 277,
            Scancode::KbdIllumToggle => 278,
            Scancode::KbdIllumDown => 279,
            Scancode::KbdIllumUp => 280,
            Scancode::Eject => 281,
            Scancode::Sleep => 282,
            Scancode::App1 => 283,
            Scancode::App2 => 284,
            Scancode::Num => 512,
        }
    }

    /// The key whose SDL code is `n`, if there is one.
    pub open spec fn spec_from_i32(n: i32) -> Option<Scancode> {
        match n {
            4 => Some(Scancode::A),
            5 => Some(Scancode::B),
            6 => Some(Scancode::C),
            7 => Some(Scancode::D),
            8 => Some(Scancode::E),
            9 => Some(Scancode::F),
            10 => Some(Scancode::G),
            11 => Some(Scancode::H),
            12 => Some(Scancode::I),
            13 => Some(Scancode::J),
            14 => Some(Scancode::K),
            15 => Some(Scancode::L),
            16 => Some(Scancode::M),
            17 => Some(Scancode::N),
            18 => Some(Scancode::O),
            19 => Some(Scancode::P),
            20 => Some(Scancode::Q),
            21 => Some(Scancode::R),
            22 => Some(Scancode::S),
            23 => Some(Scancode::T),
            24 => Some(Scancode::U),
            25 => Some(Scancode::V),
            26 => Some(Scancode::W),
            27 => Some(Scancode::X),
            28 => Some(Scancode::Y),
            29 => Some(Scancode::Z),
            30 => Some(Scancode::Num1),
            31 => Some(Scancode::Num2),
            32 => Some(Scancode::Num3),
            33 => Some(Scancode::Num4),
            34 => Some(Scancode::Num5),
            35 => Some(Scancode::Num6),
            36 => Some(Scancode::Num7),
            37 => Some(Scancode::Num8),
            38 => Some(Scancode::Num9),
            39 => Some(Scancode::Num0),
            40 => Some(Scancode::Return),
            41 => Some(Scancode::Escape),
            42 => Some(Scancode::Backspace),
            43 => Some(Scancode::Tab),
            44 => Some(Scancode::Space),
            45 => Some(Scancode::Minus),
            46 => Some(Scancode::Equals),
            47 => Some(Scancode::LeftBracket),
            48 => Some(Scancode::RightBracket),
            49 => Some(Scancode::Backslash),
            50 => Some(Scancode::NonUsHash),
            51 => Some(Scancode::Semicolon),
            52 => Some(Scancode::Apostrophe),
            53 => Some(Scancode::Grave),
            54 => Some(Scancode::Comma),
            55 => Some(Scancode::Period),
            56 => Some(Scancode::Slash),
            57 => Some(Scancode::CapsLock),
            58 => Some(Scancode::F1),
            59 => Some(Scancode::F2),
            60 => Some(Scancode::F3),
            61 => Some(Scancode::F4),
            62 => Some(Scancode::F5),
            63 => Some(Scancode::F6),
            64 => Some(Scancode::F7),
            65 => Some(Scancode::F8),
            66 => Some(Scancode::F9),
            67 => Some(Scancode::F10),
            68 => Some(Scancode::F11),
            69 => Some(Scancode::F12),
            70 => Some(Scancode::PrintScreen),
            71 => Some(Scancode::ScrollLock),
            72 => Some(Scancode::Pause),
            73 => Some(Scancode::Insert),
            74 => Some(Scancode::Home),
            75 => Some(Scancode::PageUp),
            76 => Some(Scancode::Delete),
            77 => Some(Scancode::End),
            78 => Some(Scancode::PageDown),
            79 => Some(Scancode::Right),
            80 => Some(Scancode::Left),
            81 => Some(Scancode::Down),
            82 => Some(Scancode::Up),
            83 => Some(Scancode::NumLockClear),
            84 => Some(Scancode::KpDivide),
            85 => Some(Scancode::KpMultiply),
            86 => Some(Scancode::KpMinus),
            87 => Some(Scancode::KpPlus),
            88 => Some(Scancode::KpEnter),
            89 => Some(Scancode::Kp1),
            90 => Some(Scancode::Kp2),
            91 => Some(Scancode::Kp3),
            92 => Some(Scancode::Kp4),
            93 => Some(Scancode::Kp5),
            94 => Some(Scancode::Kp6),
            95 => Some(Scancode::Kp7),
            96 => Some(Scancode::Kp8),
            97 => Some(Scancode::Kp9),
            98 => Some(Scancode::Kp0),
            99 => Some(Scancode::KpPeriod),
            100 => Some(Scancode::NonUsBackslash),
            101 => Some(Scancode::Application),
            102 => Some(Scancode::Power),
            103 => Some(Scancode::KpEquals),
            104 => Some(Scancode::F13),
            105 => Some(Scancode::F14),
            106 => Some(Scancode::F15),
            107 => Some(Scancode::F16),
            108 => Some(Scancode::F17),
            109 => Some(Scancode::F18),
            110 => Some(Scancode::F19),
            111 => Some(Scancode::F20),
            112 => Some(Scancode::F21),
            113 => Some(Scancode::F22),
            114 => Some(Scancode::F23),
            115 => Some(Scancode::F24),
            116 => Some(Scancode::Execute),
            117 => Some(Scancode::Help),
            118 => Some(Scancode::Menu),
            119 => Some(Scancode::Select),
            120 => Some(Scancode::Stop),
            121 => Some(Scancode::Again),
            122 => Some(Scancode::Undo),
            123 => Some(Scancode::Cut),
            124 => Some(Scancode::Copy),
            125 => Some(Scancode::Paste),
            126 => Some(Scancode::Find),
            127 => Some(Scancode::Mute),
            128 => Some(Scancode::VolumeUp),
            129 => Some(Scancode::VolumeDown),
            133 => Some(Scancode::KpComma),
            134 => Some(Scancode::KpEqualsAS400),
            135 => Some(Scancode::International1),
            136 => Some(Scancode::International2),
            137 => Some(Scancode::International3),
            138 => Some(Scancode::International4),
            139 => Some(Scancode::International5),
            140 => Some(Scancode::International6),
            141 => Some(Scancode::International7),
            142 => Some(Scancode::International8),
            143 => Some(Scancode::International9),
            144 => Some(Scancode::Lang1),
            145 => Some(Scancode::Lang2),
            146 => Some(Scancode::Lang3),
            147 => Some(Scancode::Lang4),
            148 => Some(Scancode::Lang5),
            149 => Some(Scancode::Lang6),
            150 => Some(Scancode::Lang7),
            151 => Some(Scancode::Lang8),
            152 => Some(Scancode::Lang9),
            153 => Some(Scancode::AltErase),
            154 => Some(Scancode::SysReq),
            155 => Some(Scancode::Cancel),
            156 => Some(Scancode::Clear),
            157 => Some(Scancode::Prior),
            158 => Some(Scancode::Return2),
            159 => Some(Scancode::Separator),
            160 => Some(Scancode::Out),
            161 => Some(Scancode::Oper),
            162 => Some(Scancode::ClearAgain),
            163 => Some(Scancode::CrSel),
            164 => Some(Scancode::ExSel),
            176 => Some(Scancode::Kp00),
            177 => Some(Scancode::Kp000),
            178 => Some(Scancode::ThousandsSeparator),
            179 => Some(Scancode::DecimalSeparator),
            180 => Some(Scancode::CurrencyUnit),
            181 => Some(Scancode::CurrencySubUnit),
            182 => Some(Scancode::KpLeftParen),
            183 => Some(Scancode::KpRightParen),
            184 => Some(Scancode::KpLeftBrace),
            185 => Some(Scancode::KpRightBrace),
            186 => Some(Scancode::KpTab),
            187 => Some(Scancode::KpBackspace),
            188 => Some(Scancode::KpA),
            189 => Some(Scancode::KpB),
            190 => Some(Scancode::KpC),
            191 => Some(Scancode::KpD),
            192 => Some(Scancode::KpE),
            193 => Some(Scancode::KpF),
            194 => Some(Scancode::KpXor),
            195 => Some(Scancode::KpPower),
            196 => Some(Scancode::KpPercent),
            197 => Some(Scancode::KpLess),
            198 => Some(Scancode::KpGreater),
            199 => Some(Scancode::KpAmpersand),
            200 => Some(Scancode::KpDblAmpersand),
            201 => Some(Scancode::KpVerticalBar),
            202 => Some(Scancode::KpDblVerticalBar),
            203 => Some(Scancode::KpColon),
            204 => Some(Scancode::KpHash),
            205 => Some(Scancode::KpSpace),
            206 => Some(Scancode::KpAt),
            207 => Some(Scancode::KpExclam),
            208 => Some(Scancode::KpMemStore),
            209 => Some(Scancode::KpMemRecall),
            210 => Some(Scancode::KpMemClear),
            211 => Some(Scancode::KpMemAdd),
            212 => Some(Scancode::KpMemSubtract),
            213 => Some(Scancode::KpMemMultiply),
            214 => Some(Scancode::KpMemDivide),
            215 => Some(Scancode::KpPlusMinus),
            216 => Some(Scancode::KpClear),
            217 => Some(Scancode::KpClearEntry),
            218 => Some(Scancode::KpBinary),
            219 => Some(Scancode::KpOctal),
            220 => Some(Scancode::KpDecimal),
            221 => Some(Scancode::KpHexadecimal),
            224 => Some(Scancode::LCtrl),
            225 => Some(Scancode::LShift),
            226 => Some(Scancode::LAlt),
            227 => Some(Scancode::LGui),
            228 => Some(Scancode::RCtrl),
            229 => Some(Scancode::RShift),
            230 => Some(Scancode::RAlt),
            231 => Some(Scancode::RGui),
            257 => Some(Scancode::Mode),
            258 => Some(Scancode::AudioNext),
            259 => Some(Scancode::AudioPrev),
            260 => Some(Scancode::AudioStop),
            261 => Some(Scancode::AudioPlay),
            262 => Some(Scancode::AudioMute),
            263 => Some(Scancode::MediaSelect),
            264 => Some(Scancode::Www),
            265 => Some(Scancode::Mail),
            266 => Some(Scancode::Calculator),
            267 => Some(Scancode::Computer),
            268 => Some(Scancode::AcSearch),
            269 => Some(Scancode::AcHome),
            270 => Some(Scancode::AcBack),
            271 => Some(Scancode::AcForward),
            272 => Some(Scancode::AcStop),
            273 => Some(Scancode::AcRefresh),
            274 => Some(Scancode::AcBookmarks),
            275 => Some(Scancode::BrightnessDown),
            276 => Some(Scancode::BrightnessUp),
            277 => Some(Scancode::DisplaySwitch),
            278 => Some(Scancode::KbdIllumToggle),
            279 => Some(Scancode::KbdIllumDown),
            280 => Some(Scancode::KbdIllumUp),
            281 => Some(Scancode::Eject),
            282 => Some(Scancode::Sleep),
            283 => Some(Scancode::App1),
            284 => Some(Scancode::App2),
            512 => Some(Scancode::Num),
            _ => None,
        }
    }

    /// The SDL code of this key.
    pub fn to_i32(self) -> (r: i32)
        ensures
            r == self.spec_to_i32(),
    {
        match self {
            Scancode::A => 4,
            Scancode::B => 5,
            Scancode::C => 6,
            Scancode::D => 7,
            Scancode::E => 8,
            Scancode::F => 9,
            Scancode::G => 10,
            Scancode::H => 11,
            Scancode::I => 12,
            Scancode::J => 13,
            Scancode::K => 14,
            Scancode::L => 15,
            Scancode::M => 16,
            Scancode::N => 17,
            Scancode::O => 18,
            Scancode::P => 19,
            Scancode::Q => 20,
            Scancode::R => 21,
            Scancode::S => 22,
            Scancode::T => 23,
            Scancode::U => 24,
            Scancode::V => 25,
            Scancode::W => 26,
            Scancode::X => 27,
            Scancode::Y => 28,
            Scancode::Z => 29,
            Scancode::Num1 => 30,
            Scancode::Num2 => 31,
            Scancode::Num3 => 32,
            Scancode::Num4 => 33,
            Scancode::Num5 => 34,
            Scancode::Num6 => 35,
            Scancode::Num7 => 36,
            Scancode::Num8 => 37,
            Scancode::Num9 => 38,
            Scancode::Num0 => 39,
            Scancode::Return => 40,
            Scancode::Escape => 41,
            Scancode::Backspace => 42,
            Scancode::Tab => 43,
            Scancode::Space => 44,
            Scancode::Minus => 45,
            Scancode::Equals => 46,
            Scancode::LeftBracket => 47,
            Scancode::RightBracket => 48,
            Scancode::Backslash => 49,
            Scancode::NonUsHash => 50,
            Scancode::Semicolon => 51,
            Scancode::Apostrophe => 52,
            Scancode::Grave => 53,
            Scancode::Comma => 54,
            Scancode::Period => 55,
            Scancode::Slash => 56,
            Scancode::CapsLock => 57,
            Scancode::F1 => 58,
            Scancode::F2 => 59,
            Scancode::F3 => 60,
            Scancode::F4 => 61,
            Scancode::F5 => 62,
            Scancode::F6 => 63,
            Scancode::F7 => 64,
            Scancode::F8 => 65,
            Scancode::F9 => 66,
            Scancode::F10 => 67,
            Scancode::F11 => 68,
            Scancode::F12 => 69,
            Scancode::PrintScreen => 70,
            Scancode::ScrollLock => 71,
            Scancode::Pause => 72,
            Scancode::Insert => 73,
            Scancode::Home => 74,
            Scancode::PageUp => 75,
            Scancode::Delete => 76,
            Scancode::End => 77,
            Scancode::PageDown => 78,
            Scancode::Right => 79,
            Scancode::Left => 80,
            Scancode::Down => 81,
            Scancode::Up => 82,
            Scancode::NumLockClear => 83,
            Scancode::KpDivide => 84,
            Scancode::KpMultiply => 85,
            Scancode::KpMinus => 86,
            Scancode::KpPlus => 87,
            Scancode::KpEnter => 88,
            Scancode::Kp1 => 89,
            Scancode::Kp2 => 90,
            Scancode::Kp3 => 91,
            Scancode::Kp4 => 92,
            Scancode::Kp5 => 93,
            Scancode::Kp6 => 94,
            Scancode::Kp7 => 95,
            Scancode::Kp8 => 96,
            Scancode::Kp9 => 97,
            Scancode::Kp0 => 98,
            Scancode::KpPeriod => 99,
            Scancode::NonUsBackslash => 100,
            Scancode::Application => 101,
            Scancode::Power => 102,
            Scancode::KpEquals => 103,
            Scancode::F13 => 104,
            Scancode::F14 => 105,
            Scancode::F15 => 106,
            Scancode::F16 => 107,
            Scancode::F17 => 108,
            Scancode::F18 => 109,
            Scancode::F19 => 110,
            Scancode::F20 => 111,
            Scancode::F21 => 112,
            Scancode::F22 => 113,
            Scancode::F23 => 114,
            Scancode::F24 => 115,
            Scancode::Execute => 116,
            Scancode::Help => 117,
            Scancode::Menu => 118,
            Scancode::Select => 119,
            Scancode::Stop => 120,
            Scancode::Again => 121,
            Scancode::Undo => 122,
            Scancode::Cut => 123,
            Scancode::Copy => 124,
            Scancode::Paste => 125,
            Scancode::Find => 126,
            Scancode::Mute => 127,
            Scancode::VolumeUp => 128,
            Scancode::VolumeDown => 129,
            Scancode::KpComma => 133,
            Scancode::KpEqualsAS400 => 134,
            Scancode::International1 => 135,
            Scancode::International2 => 136,
            Scancode::International3 => 137,
            Scancode::International4 => 138,
            Scancode::International5 => 139,
            Scancode::International6 => 140,
            Scancode::International7 => 141,
            Scancode::International8 => 142,
            Scancode::International9 => 143,
            Scancode::Lang1 => 144,
            Scancode::Lang2 => 145,
            Scancode::Lang3 => 146,
            Scancode::Lang4 => 147,
            Scancode::Lang5 => 148,
            Scancode::Lang6 => 149,
            Scancode::Lang7 => 150,
            Scancode::Lang8 => 151,
            Scancode::Lang9 => 152,
            Scancode::AltErase => 153,
            Scancode::SysReq => 154,
            Scancode::Cancel => 155,
            Scancode::Clear => 156,
            Scancode::Prior => 157,
            Scancode::Return2 => 158,
            Scancode::Separator => 159,
            Scancode::Out => 160,
            Scancode::Oper => 161,
            Scancode::ClearAgain => 162,
            Scancode::CrSel => 163,
            Scancode::ExSel => 164,
            Scancode::Kp00 => 176,
            Scancode::Kp000 => 177,
            Scancode::ThousandsSeparator => 178,
            Scancode::DecimalSeparator => 179,
            Scancode::CurrencyUnit => 180,
            Scancode::CurrencySubUnit => 181,
            Scancode::KpLeftParen => 182,
            Scancode::KpRightParen => 183,
            Scancode::KpLeftBrace => 184,
            Scancode::KpRightBrace => 185,
            Scancode::KpTab => 186,
            Scancode::KpBackspace => 187,
            Scancode::KpA => 188,
            Scancode::KpB => 189,
            Scancode::KpC => 190,
            Scancode::KpD => 191,
            Scancode::KpE => 192,
            Scancode::KpF => 193,
            Scancode::KpXor => 194,
            Scancode::KpPower => 195,
            Scancode::KpPercent => 196,
            Scancode::KpLess => 197,
            Scancode::KpGreater => 198,
            Scancode::KpAmpersand => 199,
            Scancode::KpDblAmpersand => 200,
            Scancode::KpVerticalBar => 201,
            Scancode::KpDblVerticalBar => 202,
            Scancode::KpColon => 203,
            Scancode::KpHash => 204,
            Scancode::KpSpace => 205,
            Scancode::KpAt => 206,
            Scancode::KpExclam => 207,
            Scancode::KpMemStore => 208,
            Scancode::KpMemRecall => 209,
            Scancode::KpMemClear => 210,
            Scancode::KpMemAdd => 211,
            Scancode::KpMemSubtract => 212,
            Scancode::KpMemMultiply => 213,
            Scancode::KpMemDivide => 214,
            Scancode::KpPlusMinus => 215,
            Scancode::KpClear => 216,
            Scancode::KpClearEntry => 217,
            Scancode::KpBinary => 218,
            Scancode::KpOctal => 219,
            Scancode::KpDecimal => 220,
            Scancode::KpHexadecimal => 221,
            Scancode::LCtrl => 224,
            Scancode::LShift => 225,
            Scancode::LAlt => 226,
            Scancode::LGui => 227,
            Scancode::RCtrl => 228,
            Scancode::RShift => 229,
            Scancode::RAlt => 230,
            Scancode::RGui => 231,
            Scancode::Mode => 257,
            Scancode::AudioNext => 258,
            Scancode::AudioPrev => 259,
            Scancode::AudioStop => 260,
            Scancode::AudioPlay => 261,
            Scancode::AudioMute => 262,
            Scancode::MediaSelect => 263,
            Scancode::Www => 264,
            Scancode::Mail => 265,
            Scancode::Calculator => 266,
            Scancode::Computer => 267,
            Scancode::AcSearch => 268,
            Scancode::AcHome => 269,
            Scancode::AcBack => 270,
            Scancode::AcForward => 271,
            Scancode::AcStop => 272,
            Scancode::AcRefresh => 273,
            Scancode::AcBookmarks => 274,
            Scancode::BrightnessDown => 275,
            Scancode::BrightnessUp => 276,
            Scancode::DisplaySwitch => 277,
            Scancode::KbdIllumToggle => 278,
            Scancode::KbdIllumDown => 279,
            Scancode::KbdIllumUp => 280,
            Scancode::Eject => 281,
            Scancode::Sleep => 282,
            Scancode::App1 => 283,
            Scancode::App2 => 284,
            Scancode::Num => 512,
        }
    }

    /// The key whose SDL code is `n`, if there is one.
    pub fn from_i32(n: i32) -> (r: Option<Scancode>)
        ensures
            r == Self::spec_from_i32(n),
    {
        match n {
            4 => Some(Scancode::A),
            5 => Some(Scancode::B),
            6 => Some(Scancode::C),
            7 => Some(Scancode::D),
            8 => Some(Scancode::E),
            9 => Some(Scancode::F),
            10 => Some(Scancode::G),
            11 => Some(Scancode::H),
            12 => Some(Scancode::I),
            13 => Some(Scancode::J),
            14 => Some(Scancode::K),
            15 => Some(Scancode::L),
            16 => Some(Scancode::M),
            17 => Some(Scancode::N),
            18 => Some(Scancode::O),
            19 => Some(Scancode::P),
            20 => Some(Scancode::Q),
            21 => Some(Scancode::R),
            22 => Some(Scancode::S),
            23 => Some(Scancode::T),
            24 => Some(Scancode::U),
            25 => Some(Scancode::V),
            26 => Some(Scancode::W),
            27 => Some(Scancode::X),
            28 => Some(Scancode::Y),
            29 => Some(Scancode::Z),
            30 => Some(Scancode::Num1),
            31 => Some(Scancode::Num2),
            32 => Some(Scancode::Num3),
            33 => Some(Scancode::Num4),
            34 => Some(Scancode::Num5),
            35 => Some(Scancode::Num6),
            36 => Some(Scancode::Num7),
            37 => Some(Scancode::Num8),
            38 => Some(Scancode::Num9),
            39 => Some(Scancode::Num0),
            40 => Some(Scancode::Return),
            41 => Some(Scancode::Escape),
            42 => Some(Scancode::Backspace),
            43 => Some(Scancode::Tab),
            44 => Some(Scancode::Space),
            45 => Some(Scancode::Minus),
            46 => Some(Scancode::Equals),
            47 => Some(Scancode::LeftBracket),
            48 => Some(Scancode::RightBracket),
            49 => Some(Scancode::Backslash),
            50 => Some(Scancode::NonUsHash),
            51 => Some(Scancode::Semicolon),
            52 => Some(Scancode::Apostrophe),
            53 => Some(Scancode::Grave),
            54 => Some(Scancode::Comma),
            55 => Some(Scancode::Period),
            56 => Some(Scancode::Slash),
            57 => Some(Scancode::CapsLock),
            58 => Some(Scancode::F1),
            59 => Some(Scancode::F2),
            60 => Some(Scancode::F3),
            61 => Some(Scancode::F4),
            62 => Some(Scancode::F5),
            63 => Some(Scancode::F6),
            64 => Some(Scancode::F7),
            65 => Some(Scancode::F8),
            66 => Some(Scancode::F9),
            67 => Some(Scancode::F10),
            68 => Some(Scancode::F11),
            69 => Some(Scancode::F12),
            70 => Some(Scancode::PrintScreen),
            71 => Some(Scancode::ScrollLock),
            72 => Some(Scancode::Pause),
            73 => Some(Scancode::Insert),
            74 => Some(Scancode::Home),
            75 => Some(Scancode::PageUp),
            76 => Some(Scancode::Delete),
            77 => Some(Scancode::End),
            78 => Some(Scancode::PageDown),
            79 => Some(Scancode::Right),
            80 => Some(Scancode::Left),
            81 => Some(Scancode::Down),
            82 => Some(Scancode::Up),
            83 => Some(Scancode::NumLockClear),
            84 => Some(Scancode::KpDivide),
            85 => Some(Scancode::KpMultiply),
            86 => Some(Scancode::KpMinus),
            87 => Some(Scancode::KpPlus),
            88 => Some(Scancode::KpEnter),
            89 => Some(Scancode::Kp1),
            90 => Some(Scancode::Kp2),
            91 => Some(Scancode::Kp3),
            92 => Some(Scancode::Kp4),
            93 => Some(Scancode::Kp5),
            94 => Some(Scancode::Kp6),
            95 => Some(Scancode::Kp7),
            96 => Some(Scancode::Kp8),
            97 => Some(Scancode::Kp9),
            98 => Some(Scancode::Kp0),
            99 => Some(Scancode::KpPeriod),
            100 => Some(Scancode::NonUsBackslash),
            101 => Some(Scancode::Application),
            102 => Some(Scancode::Power),
            103 => Some(Scancode::KpEquals),
            104 => Some(Scancode::F13),
            105 => Some(Scancode::F14),
            106 => Some(Scancode::F15),
            107 => Some(Scancode::F16),
            108 => Some(Scancode::F17),
            109 => Some(Scancode::F18),
            110 => Some(Scancode::F19),
            111 => Some(Scancode::F20),
            112 => Some(Scancode::F21),
            113 => Some(Scancode::F22),
            114 => Some(Scancode::F23),
            115 => Some(Scancode::F24),
            116 => Some(Scancode::Execute),
            117 => Some(Scancode::Help),
            118 => Some(Scancode::Menu),
            119 => Some(Scancode::Select),
            120 => Some(Scancode::Stop),
            121 => Some(Scancode::Again),
            122 => Some(Scancode::Undo),
            123 => Some(Scancode::Cut),
            124 => Some(Scancode::Copy),
            125 => Some(Scancode::Paste),
            126 => Some(Scancode::Find),
            127 => Some(Scancode::Mute),
            128 => Some(Scancode::VolumeUp),
            129 => Some(Scancode::VolumeDown),
            133 => Some(Scancode::KpComma),
            134 => Some(Scancode::KpEqualsAS400),
            135 => Some(Scancode::International1),
            136 => Some(Scancode::International2),
            137 => Some(Scancode::International3),
            138 => Some(Scancode::International4),
            139 => Some(Scancode::International5),
            140 => Some(Scancode::International6),
            141 => Some(Scancode::International7),
            142 => Some(Scancode::International8),
            143 => Some(Scancode::International9),
            144 => Some(Scancode::Lang1),
            145 => Some(Scancode::Lang2),
            146 => Some(Scancode::Lang3),
            147 => Some(Scancode::Lang4),
            148 => Some(Scancode::Lang5),
            149 => Some(Scancode::Lang6),
            150 => Some(Scancode::Lang7),
            151 => Some(Scancode::Lang8),
            152 => Some(Scancode::Lang9),
            153 => Some(Scancode::AltErase),
            154 => Some(Scancode::SysReq),
            155 => Some(Scancode::Cancel),
            156 => Some(Scancode::Clear),
            157 => Some(Scancode::Prior),
            158 => Some(Scancode::Return2),
            159 => Some(Scancode::Separator),
            160 => Some(Scancode::Out),
            161 => Some(Scancode::Oper),
            162 => Some(Scancode::ClearAgain),
            163 => Some(Scancode::CrSel),
            164 => Some(Scancode::ExSel),
            176 => Some(Scancode::Kp00),
            177 => Some(Scancode::Kp000),
            178 => Some(Scancode::ThousandsSeparator),
            179 => Some(Scancode::DecimalSeparator),
            180 => Some(Scancode::CurrencyUnit),
            181 => Some(Scancode::CurrencySubUnit),
            182 => Some(Scancode::KpLeftParen),
            183 => Some(Scancode::KpRightParen),
            184 => Some(Scancode::KpLeftBrace),
            185 => Some(Scancode::KpRightBrace),
            186 => Some(Scancode::KpTab),
            187 => Some(Scancode::KpBackspace),
            188 => Some(Scancode::KpA),
            189 => Some(Scancode::KpB),
            190 => Some(Scancode::KpC),
            191 => Some(Scancode::KpD),
            192 => Some(Scancode::KpE),
            193 => Some(Scancode::KpF),
            194 => Some(Scancode::KpXor),
            195 => Some(Scancode::KpPower),
            196 => Some(Scancode::KpPercent),
            197 => Some(Scancode::KpLess),
            198 => Some(Scancode::KpGreater),
            199 => Some(Scancode::KpAmpersand),
            200 => Some(Scancode::KpDblAmpersand),
            201 => Some(Scancode::KpVerticalBar),
            202 => Some(Scancode::KpDblVerticalBar),
            203 => Some(Scancode::KpColon),
            204 => Some(Scancode::KpHash),
            205 => Some(Scancode::KpSpace),
            206 => Some(Scancode::KpAt),
            207 => Some(Scancode::KpExclam),
            208 => Some(Scancode::KpMemStore),
            209 => Some(Scancode::KpMemRecall),
            210 => Some(Scancode::KpMemClear),
            211 => Some(Scancode::KpMemAdd),
            212 => Some(Scancode::KpMemSubtract),
            213 => Some(Scancode::KpMemMultiply),
            214 => Some(Scancode::KpMemDivide),
            215 => Some(Scancode::KpPlusMinus),
            216 => Some(Scancode::KpClear),
            217 => Some(Scancode::KpClearEntry),
            218 => Some(Scancode::KpBinary),
            219 => Some(Scancode::KpOctal),
            220 => Some(Scancode::KpDecimal),
            221 => Some(Scancode::KpHexadecimal),
            224 => Some(Scancode::LCtrl),
            225 => Some(Scancode::LShift),
            226 => Some(Scancode::LAlt),
            227 => Some(Scancode::LGui),
            228 => Some(Scancode::RCtrl),
            229 => Some(Scancode::RShift),
            230 => Some(Scancode::RAlt),
            231 => Some(Scancode::RGui),
            257 => Some(Scancode::Mode),
            258 => Some(Scancode::AudioNext),
            259 => Some(Scancode::AudioPrev),
            260 => Some(Scancode::AudioStop),
            261 => Some(Scancode::AudioPlay),
            262 => Some(Scancode::AudioMute),
            263 => Some(Scancode::MediaSelect),
            264 => Some(Scancode::Www),
            265 => Some(Scancode::Mail),
            266 => Some(Scancode::Calculator),
            267 => Some(Scancode::Computer),
            268 => Some(Scancode::AcSearch),
            269 => Some(Scancode::AcHome),
            270 => Some(Scancode::AcBack),
            271 => Some(Scancode::AcForward),
            272 => Some(Scancode::AcStop),
            273 => Some(Scancode::AcRefresh),
            274 => Some(Scancode::AcBookmarks),
            275 => Some(Scancode::BrightnessDown),
            276 => Some(Scancode::BrightnessUp),
            277 => Some(Scancode::DisplaySwitch),
            278 => Some(Scancode::KbdIllumToggle),
            279 => Some(Scancode::KbdIllumDown),
            280 => Some(Scancode::KbdIllumUp),
            281 => Some(Scancode::Eject),
            282 => Some(Scancode::Sleep),
            283 => Some(Scancode::App1),
            284 => Some(Scancode::App2),
            512 => Some(Scancode::Num),
            _ => None,
        }
    }

    /// Every key is found again from its SDL code.
    pub proof fn lemma_from_to_i32(k: Scancode)
        ensures
            Self::spec_from_i32(k.spec_to_i32()) == Some(k),
    {
    }

}

/// Virtual keys, named by SDL's key codes.
#[derive(Copy, Clone, Debug, PartialEq, Eq, Structural, Hash)]
pub enum Keycode {
    Backspace,
    Tab,
    Return,
    Escape,
    Space,
    Exclaim,
    Quotedbl,
    Hash,
    Dollar,
    Percent,
    Ampersand,
    Quote,
    LeftParen,
    RightParen,
    Asterisk,
    Plus,
    Comma,
    Minus,
    Period,
    Slash,
    Num0,
    Num1,
    Num2,
    Num3,
    Num4,
    Num5,
    Num6,
    Num7,
    Num8,
    Num9,
    Colon,
    Semicolon,
    Less,
    Equals,
    Greater,
    Question,
    At,
    LeftBracket,
    Backslash,
    RightBracket,
    Caret,
    Underscore,
    Backquote,
    A,
    B,
    C,
    D,
    E,
    F,
    G,
    H,
    I,
    J,
    K,
    L,
    M,
    N,
    O,
    P,
    Q,
    R,
    S,
    T,
    U,
    V,
    W,
    X,
    Y,
    Z,
    Delete,
    CapsLock,
    F1,
    F2,
    F3,
    F4,
    F5,
    F6,
    F7,
    F8,
    F9,
    F10,
    F11,
    F12,
    PrintScreen,
    ScrollLock,
    Pause,
    Insert,
    Home,
    PageUp,
    End,
    PageDown,
    Right,
    Left,
    Down,
    Up,
    NumLockClear,
    KpDivide,
    KpMultiply,
    KpMinus,
    KpPlus,
    KpEnter,
    Kp1,
    Kp2,
    Kp3,
    Kp4,
    Kp5,
    Kp6,
    Kp7,
    Kp8,
    Kp9,
    Kp0,
    KpPeriod,
    Application,
    Power,
    KpEquals,
    F13,
    F14,
    F15,
    F16,
    F17,
    F18,
    F19,
    F20,
    F21,
    F22,
    F23,
    F24,
    Execute,
    Help,
    Menu,
    Select,
    Stop,
    Again,
    Undo,
    Cut,
    Copy,
    Paste,
    Find,
    Mute,
    VolumeUp,
    VolumeDown,
    KpComma,
    KpEqualsAS400,
    AltErase,
    SysReq,
    Cancel,
    Clear,
    Prior,
    Return2,
    Separator,
    Out,
    Oper,
    ClearAgain,
    CrSel,
    ExSel,
    Kp00,
    Kp000,
    ThousandsSeparator,
    DecimalSeparator,
    CurrencyUnit,
    CurrencySubUnit,
    KpLeftParen,
    KpRightParen,
    KpLeftBrace,
    KpRightBrace,
    KpTab,
    KpBackspace,
    KpA,
    KpB,
    KpC,
    KpD,
    KpE,
    KpF,
    KpXor,
    KpPower,
    KpPercent,
    KpLess,
    KpGreater,
    KpAmpersand,
    KpDblAmpersand,
    KpVerticalBar,
    KpDblVerticalBar,
    KpColon,
    KpHash,
    KpSpace,
    KpAt,
    KpExclam,
    KpMemStore,
    KpMemRecall,
    KpMemClear,
    KpMemAdd,
    KpMemSubtract,
    KpMemMultiply,
    KpMemDivide,
    KpPlusMinus,
    KpClear,
    KpClearEntry,
    KpBinary,
    KpOctal,
    KpDecimal,
    KpHexadecimal,
    LCtrl,
    LShift,
    LAlt,
    LGui,
    RCtrl,
    RShift,
    RAlt,
    RGui,
    Mode,
    AudioNext,
    AudioPrev,
    AudioStop,
    AudioPlay,
    AudioMute,
    MediaSelect,
    Www,
    Mail,
    Calculator,
    Computer,
    AcSearch,
    AcHome,
    AcBack,
    AcForward,
    AcStop,
    AcRefresh,
    AcBookmarks,
    BrightnessDown,
    BrightnessUp,
    DisplaySwitch,
    KbdIllumToggle,
    KbdIllumDown,
    KbdIllumUp,
    Eject,
    Sleep,
}

impl Keycode {
    /// The SDL code of this key.
    pub open spec fn spec_to_i32(self) -> i32 {
        match self {
            Keycode::Backspace => 8,
            Keycode::Tab => 9,
            Keycode::Return => 13,
            Keycode::Escape => 27,
            Keycode::Space => 32,
            Keycode::Exclaim => 33,
            Keycode::Quotedbl => 34,
            Keycode::Hash => 35,
            Keycode::Dollar => 36,
            Keycode::Percent => 37,
            Keycode::Ampersand => 38,
            Keycode::Quote => 39,
            Keycode::LeftParen => 40,
            Keycode::RightParen => 41,
            Keycode::Asterisk => 42,
            Keycode::Plus => 43,
            Keycode::Comma => 44,
            Keycode::Minus => 45,
            Keycode::Period => 46,
            Keycode::Slash => 47,
            Keycode::Num0 => 48,
            Keycode::Num1 => 49,
            Keycode::Num2 => 50,
            Keycode::Num3 => 51,
            Keycode::Num4 => 52,
            Keycode::Num5 => 53,
            Keycode::Num6 => 54,
            Keycode::Num7 => 55,
            Keycode::Num8 => 56,
            Keycode::Num9 => 57,
            Keycode::Colon => 58,
            Keycode::Semicolon => 59,
            Keycode::Less => 60,
            Keycode::Equals => 61,
            Keycode::Greater => 62,
            Keycode::Question => 63,
            Keycode::At => 64,
            Keycode::LeftBracket => 91,
            Keycode::Backslash => 92,
            Keycode::RightBracket => 93,
            Keycode::Caret => 94,
            Keycode::Underscore => 95,
            Keycode::Backquote => 96,
            Keycode::A => 97,
            Keycode::B => 98,
            Keycode::C => 99,
            Keycode::D => 100,
            Keycode::E => 101,
            Keycode::F => 102,
            Keycode::G => 103,
            Keycode::H => 104,
            Keycode::I => 105,
            Keycode::J => 106,
            Keycode::K => 107,
            Keycode::L => 108,
            Keycode::M => 109,
            Keycode::N => 110,
            Keycode::O => 111,
            Keycode::P => 112,
            Keycode::Q => 113,
            Keycode::R => 114,
            Keycode::S => 115,
            Keycode::T => 116,
            Keycode::U => 117,
            Keycode::V => 118,
            Keycode::W => 119,
            Keycode::X => 120,
            Keycode::Y => 121,
            Keycode::Z => 122,
            Keycode::Delete => 127,
            Keycode::CapsLock => 1073741881,
            Keycode::F1 => 1073741882,
            Keycode::F2 => 1073741883,
            Keycode::F3 => 1073741884,
            Keycode::F4 => 1073741885,
            Keycode::F5 => 1073741886,
            Keycode::F6 => 1073741887,
            Keycode::F7 => 1073741888,
            Keycode::F8 => 1073741889,
            Keycode::F9 => 1073741890,
            Keycode::F10 => 1073741891,
            Keycode::F11 => 1073741892,
            Keycode::F12 => 1073741893,
            Keycode::PrintScreen => 1073741894,
            Keycode::ScrollLock => 1073741895,
            Keycode::Pause => 1073741896,
            Keycode::Insert => 1073741897,
            Keycode::Home => 1073741898,
            Keycode::PageUp => 1073741899,
            Keycode::End => 1073741901,
            Keycode::PageDown => 1073741902,
            Keycode::Right => 1073741903,
            Keycode::Left => 1073741904,
            Keycode::Down => 1073741905,
            Keycode::Up => 1073741906,
            Keycode::NumLockClear => 1073741907,
            Keycode::KpDivide => 1073741908,
            Keycode::KpMultiply => 1073741909,
            Keycode::KpMinus => 1073741910,
            Keycode::KpPlus => 1073741911,
            Keycode::KpEnter => 1073741912,
            Keycode::Kp1 => 1073741913,
            Keycode::Kp2 => 1073741914,
            Keycode::Kp3 => 1073741915,
            Keycode::Kp4 => 1073741916,
            Keycode::Kp5 => 1073741917,
            Keycode::Kp6 => 1073741918,
            Keycode::Kp7 => 1073741919,
            Keycode::Kp8 => 1073741920,
            Keycode::Kp9 => 1073741921,
            Keycode::Kp0 => 1073741922,
            Keycode::KpPeriod => 1073741923,
            Keycode::Application => 1073741925,
            Keycode::Power => 1073741926,
            Keycode::KpEquals => 1073741927,
            Keycode::F13 => 1073741928,
            Keycode::F14 => 1073741929,
            Keycode::F15 => 1073741930,
            Keycode::F16 => 1073741931,
            Keycode::F17 => 1073741932,
            Keycode::F18 => 1073741933,
            Keycode::F19 => 1073741934,
            Keycode::F20 => 1073741935,
            Keycode::F21 => 1073741936,
            Keycode::F22 => 1073741937,
            Keycode::F23 => 1073741938,
            Keycode::F24 => 1073741939,
            Keycode::Execute => 1073741940,
            Keycode::Help => 1073741941,
            Keycode::Menu => 1073741942,
            Keycode::Select => 1073741943,
            Keycode::Stop => 1073741944,
            Keycode::Again => 1073741945,
            Keycode::Undo => 1073741946,
            Keycode::Cut => 1073741947,
            Keycode::Copy => 1073741948,
            Keycode::Paste => 1073741949,
            Keycode::Find => 1073741950,
            Keycode::Mute => 1073741951,
            Keycode::VolumeUp => 1073741952,
            Keycode::VolumeDown => 1073741953,
            Keycode::KpComma => 1073741957,
            Keycode::KpEqualsAS400 => 1073741958,
            Keycode::AltErase => 1073741977,
            Keycode::SysReq => 1073741978,
            Keycode::Cancel => 1073741979,
            Keycode::Clear => 1073741980,
            Keycode::Prior => 1073741981,
            Keycode::Return2 => 1073741982,
            Keycode::Separator => 1073741983,
            Keycode::Out => 1073741984,
            Keycode::Oper => 1073741985,
            Keycode::ClearAgain => 1073741986,
            Keycode::CrSel => 1073741987,
            Keycode::ExSel => 1073741988,
            Keycode::Kp00 => 1073742000,
            Keycode::Kp000 => 1073742001,
            Keycode::ThousandsSeparator => 1073742002,
            Keycode::DecimalSeparator => 1073742003,
            Keycode::CurrencyUnit => 1073742004,
            Keycode::CurrencySubUnit => 1073742005,
            Keycode::KpLeftParen => 1073742006,
            Keycode::KpRightParen => 1073742007,
            Keycode::KpLeftBrace => 1073742008,
            Keycode::KpRightBrace => 1073742009,
            Keycode::KpTab => 1073742010,
            Keycode::KpBackspace => 1073742011,
            Keycode::KpA => 1073742012,
            Keycode::KpB => 1073742013,
            Keycode::KpC => 1073742014,
            Keycode::KpD => 1073742015,
            Keycode::KpE => 1073742016,
            Keycode::KpF => 1073742017,
            Keycode::KpXor => 1073742018,
            Keycode::KpPower => 1073742019,
            Keycode::KpPercent => 1073742020,
            Keycode::KpLess => 1073742021,
            Keycode::KpGreater => 1073742022,
            Keycode::KpAmpersand => 1073742023,
            Keycode::KpDblAmpersand => 1073742024,
            Keycode::KpVerticalBar => 1073742025,
            Keycode::KpDblVerticalBar => 1073742026,
            Keycode::KpColon => 1073742027,
            Keycode::KpHash => 1073742028,
            Keycode::KpSpace => 1073742029,
            Keycode::KpAt => 1073742030,
            Keycode::KpExclam => 1073742031,
            Keycode::KpMemStore => 1073742032,
            Keycode::KpMemRecall => 1073742033,
            Keycode::KpMemClear => 1073742034,
            Keycode::KpMemAdd => 1073742035,
            Keycode::KpMemSubtract => 1073742036,
            Keycode::KpMemMultiply => 1073742037,
            Keycode::KpMemDivide => 1073742038,
            Keycode::KpPlusMinus => 1073742039,
            Keycode::KpClear => 1073742040,
            Keycode::KpClearEntry => 1073742041,
            Keycode::KpBinary => 1073742042,
            Keycode::KpOctal => 1073742043,
            Keycode::KpDecimal => 1073742044,
            Keycode::KpHexadecimal => 1073742045,
            Keycode::LCtrl => 1073742048,
            Keycode::LShift => 1073742049,
            Keycode::LAlt => 1073742050,
            Keycode::LGui => 1073742051,
            Keycode::RCtrl => 1073742052,
            Keycode::RShift => 1073742053,
            Keycode::RAlt => 1073742054,
            Keycode::RGui => 1073742055,
            Keycode::Mode => 1073742081,
            Keycode::AudioNext => 1073742082,
            Keycode::AudioPrev => 1073742083,
            Keycode::AudioStop => 1073742084,
            Keycode::AudioPlay => 1073742085,
            Keycode::AudioMute => 1073742086,
            Keycode::MediaSelect => 1073742087,
            Keycode::Www => 1073742088,
            Keycode::Mail => 1073742089,
            Keycode::Calculator => 1073742090,
            Keycode::Computer => 1073742091,
            Keycode::AcSearch => 1073742092,
            Keycode::AcHome => 1073742093,
            Keycode::AcBack => 1073742094,
            Keycode::AcForward => 1073742095,
            Keycode::AcStop => 1073742096,
            Keycode::AcRefresh => 1073742097,
            Keycode::AcBookmarks => 1073742098,
            Keycode::BrightnessDown => 1073742099,
            Keycode::BrightnessUp => 1073742100,
            Keycode::DisplaySwitch => 1073742101,
            Keycode::KbdIllumToggle => 1073742102,
            Keycode::KbdIllumDown => 1073742103,
            Keycode::KbdIllumUp => 1073742104,
            Keycode::Eject => 1073742105,
            Keycode::Sleep => 1073742106,
        }
    }

    /// The key whose SDL code is `n`, if there is one.
    pub open spec fn spec_from_i32(n: i32) -> Option<Keycode> {
        match n {
            8 => Some(Keycode::Backspace),
            9 => Some(Keycode::Tab),
            13 => Some(Keycode::Return),
            27 => Some(Keycode::Escape),
            32 => Some(Keycode::Space),
            33 => Some(Keycode::Exclaim),
            34 => Some(Keycode::Quotedbl),
            35 => Some(Keycode::Hash),
            36 => Some(Keycode::Dollar),
            37 => Some(Keycode::Percent),
            38 => Some(Keycode::Ampersand),
            39 => Some(Keycode::Quote),
            40 => Some(Keycode::LeftParen),
            41 => Some(Keycode::RightParen),
            42 => Some(Keycode::Asterisk),
            43 => Some(Keycode::Plus),
            44 => Some(Keycode::Comma),
            45 => Some(Keycode::Minus),
            46 => Some(Keycode::Period),
            47 => Some(Keycode::Slash),
            48 => Some(Keycode::Num0),
            49 => Some(Keycode::Num1),
            50 => Some(Keycode::Num2),
            51 => Some(Keycode::Num3),
            52 => Some(Keycode::Num4),
            53 => Some(Keycode::Num5),
            54 => Some(Keycode::Num6),
            55 => Some(Keycode::Num7),
            56 => Some(Keycode::Num8),
            57 => Some(Keycode::Num9),
            58 => Some(Keycode::Colon),
            59 => Some(Keycode::Semicolon),
            60 => Some(Keycode::Less),
            61 => Some(Keycode::Equals),
            62 => Some(Keycode::Greater),
            63 => Some(Keycode::Question),
            64 => Some(Keycode::At),
            91 => Some(Keycode::LeftBracket),
            92 => Some(Keycode::Backslash),
            93 => Some(Keycode::RightBracket),
            94 => Some(Keycode::Caret),
            95 => Some(Keycode::Underscore),
            96 => Some(Keycode::Backquote),
            97 => Some(Keycode::A),
            98 => Some(Keycode::B),
            99 => Some(Keycode::C),
            100 => Some(Keycode::D),
            101 => Some(Keycode::E),
            102 => Some(Keycode::F),
            103 => Some(Keycode::G),
            104 => Some(Keycode::H),
            105 => Some(Keycode::I),
            106 => Some(Keycode::J),
            107 => Some(Keycode::K),
            108 => Some(Keycode::L),
            109 => Some(Keycode::M),
            110 => Some(Keycode::N),
            111 => Some(Keycode::O),
            112 => Some(Keycode::P),
            113 => Some(Keycode::Q),
            114 => Some(Keycode::R),
            115 => Some(Keycode::S),
            116 => Some(Keycode::T),
            117 => Some(Keycode::U),
            118 => Some(Keycode::V),
            119 => Some(Keycode::W),
            120 => Some(Keycode::X),
            121 => Some(Keycode::Y),
            122 => Some(Keycode::Z),
            127 => Some(Keycode::Delete),
            1073741881 => Some(Keycode::CapsLock),
            1073741882 => Some(Keycode::F1),
            1073741883 => Some(Keycode::F2),
            1073741884 => Some(Keycode::F3),
            1073741885 => Some(Keycode::F4),
            1073741886 => Some(Keycode::F5),
            1073741887 => Some(Keycode::F6),
            1073741888 => Some(Keycode::F7),
            1073741889 => Some(Keycode::F8),
            1073741890 => Some(Keycode::F9),
            1073741891 => Some(Keycode::F10),
            1073741892 => Some(Keycode::F11),
            1073741893 => Some(Keycode::F12),
            1073741894 => Some(Keycode::PrintScreen),
            1073741895 => Some(Keycode::ScrollLock),
            1073741896 => Some(Keycode::Pause),
            1073741897 => Some(Keycode::Insert),
            1073741898 => Some(Keycode::Home),
            1073741899 => Some(Keycode::PageUp),
            1073741901 => Some(Keycode::End),
            1073741902 => Some(Keycode::PageDown),
            1073741903 => Some(Keycode::Right),
            1073741904 => Some(Keycode::Left),
            1073741905 => Some(Keycode::Down),
            1073741906 => Some(Keycode::Up),
            1073741907 => Some(Keycode::NumLockClear),
            1073741908 => Some(Keycode::KpDivide),
            1073741909 => Some(Keycode::KpMultiply),
            1073741910 => Some(Keycode::KpMinus),
            1073741911 => Some(Keycode::KpPlus),
            1073741912 => Some(Keycode::KpEnter),
            1073741913 => Some(Keycode::Kp1),
            1073741914 => Some(Keycode::Kp2),
            1073741915 => Some(Keycode::Kp3),
            1073741916 => Some(Keycode::Kp4),
            1073741917 => Some(Keycode::Kp5),
            1073741918 => Some(Keycode::Kp6),
            1073741919 => Some(Keycode::Kp7),
            1073741920 => Some(Keycode::Kp8),
            1073741921 => Some(Keycode::Kp9),
            1073741922 => Some(Keycode::Kp0),
            1073741923 => Some(Keycode::KpPeriod),
            1073741925 => Some(Keycode::Application),
            1073741926 => Some(Keycode::Power),
            1073741927 => Some(Keycode::KpEquals),
            1073741928 => Some(Keycode::F13),
            1073741929 => Some(Keycode::F14),
            1073741930 => Some(Keycode::F15),
            1073741931 => Some(Keycode::F16),
            1073741932 => Some(Keycode::F17),
            1073741933 => Some(Keycode::F18),
            1073741934 => Some(Keycode::F19),
            1073741935 => Some(Keycode::F20),
            1073741936 => Some(Keycode::F21),
            1073741937 => Some(Keycode::F22),
            1073741938 => Some(Keycode::F23),
            1073741939 => Some(Keycode::F24),
            1073741940 => Some(Keycode::Execute),
            1073741941 => Some(Keycode::Help),
            1073741942 => Some(Keycode::Menu),
            1073741943 => Some(Keycode::Select),
            1073741944 => Some(Keycode::Stop),
            1073741945 => Some(Keycode::Again),
            1073741946 => Some(Keycode::Undo),
            1073741947 => Some(Keycode::Cut),
            1073741948 => Some(Keycode::Copy),
            1073741949 => Some(Keycode::Paste),
            1073741950 => Some(Keycode::Find),
            1073741951 => Some(Keycode::Mute),
            1073741952 => Some(Keycode::VolumeUp),
            1073741953 => Some(Keycode::VolumeDown),
            1073741957 => Some(Keycode::KpComma),
            1073741958 => Some(Keycode::KpEqualsAS400),
            1073741977 => Some(Keycode::AltErase),
            1073741978 => Some(Keycode::SysReq),
            1073741979 => Some(Keycode::Cancel),
            1073741980 => Some(Keycode::Clear),
            1073741981 => Some(Keycode::Prior),
            1073741982 => Some(Keycode::Return2),
            1073741983 => Some(Keycode::Separator),
            1073741984 => Some(Keycode::Out),
            1073741985 => Some(Keycode::Oper),
            1073741986 => Some(Keycode::ClearAgain),
            1073741987 => Some(Keycode::CrSel),
            1073741988 => Some(Keycode::ExSel),
            1073742000 => Some(Keycode::Kp00),
            1073742001 => Some(Keycode::Kp000),
            1073742002 => Some(Keycode::ThousandsSeparator),
            1073742003 => Some(Keycode::DecimalSeparator),
            1073742004 => Some(Keycode::CurrencyUnit),
            1073742005 => Some(Keycode::CurrencySubUnit),
            1073742006 => Some(Keycode::KpLeftParen),
            1073742007 => Some(Keycode::KpRightParen),
            1073742008 => Some(Keycode::KpLeftBrace),
            1073742009 => Some(Keycode::KpRightBrace),
            1073742010 => Some(Keycode::KpTab),
            1073742011 => Some(Keycode::KpBackspace),
            1073742012 => Some(Keycode::KpA),
            1073742013 => Some(Keycode::KpB),
            1073742014 => Some(Keycode::KpC),
            1073742015 => Some(Keycode::KpD),
            1073742016 => Some(Keycode::KpE),
            1073742017 => Some(Keycode::KpF),
            1073742018 => Some(Keycode::KpXor),
            1073742019 => Some(Keycode::KpPower),
            1073742020 => Some(Keycode::KpPercent),
            1073742021 => Some(Keycode::KpLess),
            1073742022 => Some(Keycode::KpGreater),
            1073742023 => Some(Keycode::KpAmpersand),
            1073742024 => Some(Keycode::KpDblAmpersand),
            1073742025 => Some(Keycode::KpVerticalBar),
            1073742026 => Some(Keycode::KpDblVerticalBar),
            1073742027 => Some(Keycode::KpColon),
            1073742028 => Some(Keycode::KpHash),
            1073742029 => Some(Keycode::KpSpace),
            1073742030 => Some(Keycode::KpAt),
            1073742031 => Some(Keycode::KpExclam),
            1073742032 => Some(Keycode::KpMemStore),
            1073742033 => Some(Keycode::KpMemRecall),
            1073742034 => Some(Keycode::KpMemClear),
            1073742035 => Some(Keycode::KpMemAdd),
            1073742036 => Some(Keycode::KpMemSubtract),
            1073742037 => Some(Keycode::KpMemMultiply),
            1073742038 => Some(Keycode::KpMemDivide),
            1073742039 => Some(Keycode::KpPlusMinus),
            1073742040 => Some(Keycode::KpClear),
            1073742041 => Some(Keycode::KpClearEntry),
            1073742042 => Some(Keycode::KpBinary),
            1073742043 => Some(Keycode::KpOctal),
            1073742044 => Some(Keycode::KpDecimal),
            1073742045 => Some(Keycode::KpHexadecimal),
            1073742048 => Some(Keycode::LCtrl),
            1073742049 => Some(Keycode::LShift),
            1073742050 => Some(Keycode::LAlt),
            1073742051 => Some(Keycode::LGui),
            1073742052 => Some(Keycode::RCtrl),
            1073742053 => Some(Keycode::RShift),
            1073742054 => Some(Keycode::RAlt),
            1073742055 => Some(Keycode::RGui),
            1073742081 => Some(Keycode::Mode),
            1073742082 => Some(Keycode::AudioNext),
            1073742083 => Some(Keycode::AudioPrev),
            1073742084 => Some(Keycode::AudioStop),
            1073742085 => Some(Keycode::AudioPlay),
            1073742086 => Some(Keycode::AudioMute),
            1073742087 => Some(Keycode::MediaSelect),
            1073742088 => Some(Keycode::Www),
            1073742089 => Some(Keycode::Mail),
            1073742090 => Some(Keycode::Calculator),
            1073742091 => Some(Keycode::Computer),
            1073742092 => Some(Keycode::AcSearch),
            1073742093 => Some(Keycode::AcHome),
            1073742094 => Some(Keycode::AcBack),
            1073742095 => Some(Keycode::AcForward),
            1073742096 => Some(Keycode::AcStop),
            1073742097 => Some(Keycode::AcRefresh),
            1073742098 => Some(Keycode::AcBookmarks),
            1073742099 => Some(Keycode::BrightnessDown),
            1073742100 => Some(Keycode::BrightnessUp),
            1073742101 => Some(Keycode::DisplaySwitch),
            1073742102 => Some(Keycode::KbdIllumToggle),
            1073742103 => Some(Keycode::KbdIllumDown),
            1073742104 => Some(Keycode::KbdIllumUp),
            1073742105 => Some(Keycode::Eject),
            1073742106 => Some(Keycode::Sleep),
            _ => None,
        }
    }

    /// The SDL code of this key.
    pub fn to_i32(self) -> (r: i32)
        ensures
            r == self.spec_to_i32(),
    {
        match self {
            Keycode::Backspace => 8,
            Keycode::Tab => 9,
            Keycode::Return => 13,
            Keycode::Escape => 27,
            Keycode::Space => 32,
            Keycode::Exclaim => 33,
            Keycode::Quotedbl => 34,
            Keycode::Hash => 35,
            Keycode::Dollar => 36,
            Keycode::Percent => 37,
            Keycode::Ampersand => 38,
            Keycode::Quote => 39,
            Keycode::LeftParen => 40,
            Keycode::RightParen => 41,
            Keycode::Asterisk => 42,
            Keycode::Plus => 43,
            Keycode::Comma => 44,
            Keycode::Minus => 45,
            Keycode::Period => 46,
            Keycode::Slash => 47,
            Keycode::Num0 => 48,
            Keycode::Num1 => 49,
            Keycode::Num2 => 50,
            Keycode::Num3 => 51,
            Keycode::Num4 => 52,
            Keycode::Num5 => 53,
            Keycode::Num6 => 54,
            Keycode::Num7 => 55,
            Keycode::Num8 => 56,
            Keycode::Num9 => 57,
            Keycode::Colon => 58,
            Keycode::Semicolon => 59,
            Keycode::Less => 60,
            Keycode::Equals => 61,
            Keycode::Greater => 62,
            Keycode::Question => 63,
            Keycode::At => 64,
            Keycode::LeftBracket => 91,
            Keycode::Backslash => 92,
            Keycode::RightBracket => 93,
            Keycode::Caret => 94,
            Keycode::Underscore => 95,
            Keycode::Backquote => 96,
            Keycode::A => 97,
            Keycode::B => 98,
            Keycode::C => 99,
            Keycode::D => 100,
            Keycode::E => 101,
            Keycode::F => 102,
            Keycode::G => 103,
            Keycode::H => 104,
            Keycode::I => 105,
            Keycode::J => 106,
            Keycode::K => 107,
            Keycode::L => 108,
            Keycode::M => 109,
            Keycode::N => 110,
            Keycode::O => 111,
            Keycode::P => 112,
            Keycode::Q => 113,
            Keycode::R => 114,
            Keycode::S => 115,
            Keycode::T => 116,
            Keycode::U => 117,
            Keycode::V => 118,
            Keycode::W => 119,
            Keycode::X => 120,
            Keycode::Y => 121,
            Keycode::Z => 122,
            Keycode::Delete => 127,
            Keycode::CapsLock => 1073741881,
            Keycode::F1 => 1073741882,
            Keycode::F2 => 1073741883,
            Keycode::F3 => 1073741884,
            Keycode::F4 => 1073741885,
            Keycode::F5 => 1073741886,
            Keycode::F6 => 1073741887,
            Keycode::F7 => 1073741888,
            Keycode::F8 => 1073741889,
            Keycode::F9 => 1073741890,
            Keycode::F10 => 1073741891,
            Keycode::F11 => 1073741892,
            Keycode::F12 => 1073741893,
            Keycode::PrintScreen => 1073741894,
            Keycode::ScrollLock => 1073741895,
            Keycode::Pause => 1073741896,
            Keycode::Insert => 1073741897,
            Keycode::Home => 1073741898,
            Keycode::PageUp => 1073741899,
            Keycode::End => 1073741901,
            Keycode::PageDown => 1073741902,
            Keycode::Right => 1073741903,
            Keycode::Left => 1073741904,
            Keycode::Down => 1073741905,
            Keycode::Up => 1073741906,
            Keycode::NumLockClear => 1073741907,
            Keycode::KpDivide => 1073741908,
            Keycode::KpMultiply => 1073741909,
            Keycode::KpMinus => 1073741910,
            Keycode::KpPlus => 1073741911,
            Keycode::KpEnter => 1073741912,
            Keycode::Kp1 => 1073741913,
            Keycode::Kp2 => 1073741914,
            Keycode::Kp3 => 1073741915,
            Keycode::Kp4 => 1073741916,
            Keycode::Kp5 => 1073741917,
            Keycode::Kp6 => 1073741918,
            Keycode::Kp7 => 1073741919,
            Keycode::Kp8 => 1073741920,
            Keycode::Kp9 => 1073741921,
            Keycode::Kp0 => 1073741922,
            Keycode::KpPeriod => 1073741923,
            Keycode::Application => 1073741925,
            Keycode::Power => 1073741926,
            Keycode::KpEquals => 1073741927,
            Keycode::F13 => 1073741928,
            Keycode::F14 => 1073741929,
            Keycode::F15 => 1073741930,
            Keycode::F16 => 1073741931,
            Keycode::F17 => 1073741932,
            Keycode::F18 => 1073741933,
            Keycode::F19 => 1073741934,
            Keycode::F20 => 1073741935,
            Keycode::F21 => 1073741936,
            Keycode::F22 => 1073741937,
            Keycode::F23 => 1073741938,
            Keycode::F24 => 1073741939,
            Keycode::Execute => 1073741940,
            Keycode::Help => 1073741941,
            Keycode::Menu => 1073741942,
            Keycode::Select => 1073741943,
            Keycode::Stop => 1073741944,
            Keycode::Again => 1073741945,
            Keycode::Undo => 1073741946,
            Keycode::Cut => 1073741947,
            Keycode::Copy => 1073741948,
            Keycode::Paste => 1073741949,
            Keycode::Find => 1073741950,
            Keycode::Mute => 1073741951,
            Keycode::VolumeUp => 1073741952,
            Keycode::VolumeDown => 1073741953,
            Keycode::KpComma => 1073741957,
            Keycode::KpEqualsAS400 => 1073741958,
            Keycode::AltErase => 1073741977,
            Keycode::SysReq => 1073741978,
            Keycode::Cancel => 1073741979,
            Keycode::Clear => 1073741980,
            Keycode::Prior => 1073741981,
            Keycode::Return2 => 1073741982,
            Keycode::Separator => 1073741983,
            Keycode::Out => 1073741984,
            Keycode::Oper => 1073741985,
            Keycode::ClearAgain => 1073741986,
            Keycode::CrSel => 1073741987,
            Keycode::ExSel => 1073741988,
            Keycode::Kp00 => 1073742000,
            Keycode::Kp000 => 1073742001,
            Keycode::ThousandsSeparator => 1073742002,
            Keycode::DecimalSeparator => 1073742003,
            Keycode::CurrencyUnit => 1073742004,
            Keycode::CurrencySubUnit => 1073742005,
            Keycode::KpLeftParen => 1073742006,
            Keycode::KpRightParen => 1073742007,
            Keycode::KpLeftBrace => 1073742008,
            Keycode::KpRightBrace => 1073742009,
            Keycode::KpTab => 1073742010,
            Keycode::KpBackspace => 1073742011,
            Keycode::KpA => 1073742012,
            Keycode::KpB => 1073742013,
            Keycode::KpC => 1073742014,
            Keycode::KpD => 1073742015,
            Keycode::KpE => 1073742016,
            Keycode::KpF => 1073742017,
            Keycode::KpXor => 1073742018,
            Keycode::KpPower => 1073742019,
            Keycode::KpPercent => 1073742020,
            Keycode::KpLess => 1073742021,
            Keycode::KpGreater => 1073742022,
            Keycode::KpAmpersand => 1073742023,
            Keycode::KpDblAmpersand => 1073742024,
            Keycode::KpVerticalBar => 1073742025,
            Keycode::KpDblVerticalBar => 1073742026,
            Keycode::KpColon => 1073742027,
            Keycode::KpHash => 1073742028,
            Keycode::KpSpace => 1073742029,
            Keycode::KpAt => 1073742030,
            Keycode::KpExclam => 1073742031,
            Keycode::KpMemStore => 1073742032,
            Keycode::KpMemRecall => 1073742033,
            Keycode::KpMemClear => 1073742034,
            Keycode::KpMemAdd => 1073742035,
            Keycode::KpMemSubtract => 1073742036,
            Keycode::KpMemMultiply => 1073742037,
            Keycode::KpMemDivide => 1073742038,
            Keycode::KpPlusMinus => 1073742039,
            Keycode::KpClear => 1073742040,
            Keycode::KpClearEntry => 1073742041,
            Keycode::KpBinary => 1073742042,
            Keycode::KpOctal => 1073742043,
            Keycode::KpDecimal => 1073742044,
            Keycode::KpHexadecimal => 1073742045,
            Keycode::LCtrl => 1073742048,
            Keycode::LShift => 1073742049,
            Keycode::LAlt => 1073742050,
            Keycode::LGui => 1073742051,
            Keycode::RCtrl => 1073742052,
            Keycode::RShift => 1073742053,
            Keycode::RAlt => 1073742054,
            Keycode::RGui => 1073742055,
            Keycode::Mode => 1073742081,
            Keycode::AudioNext => 1073742082,
            Keycode::AudioPrev => 1073742083,
            Keycode::AudioStop => 1073742084,
            Keycode::AudioPlay => 1073742085,
            Keycode::AudioMute => 1073742086,
            Keycode::MediaSelect => 1073742087,
            Keycode::Www => 1073742088,
            Keycode::Mail => 1073742089,
            Keycode::Calculator => 1073742090,
            Keycode::Computer => 1073742091,
            Keycode::AcSearch => 1073742092,
            Keycode::AcHome => 1073742093,
            Keycode::AcBack => 1073742094,
            Keycode::AcForward => 1073742095,
            Keycode::AcStop => 1073742096,
            Keycode::AcRefresh => 1073742097,
            Keycode::AcBookmarks => 1073742098,
            Keycode::BrightnessDown => 1073742099,
            Keycode::BrightnessUp => 1073742100,
            Keycode::DisplaySwitch => 1073742101,
            Keycode::KbdIllumToggle => 1073742102,
            Keycode::KbdIllumDown => 1073742103,
            Keycode::KbdIllumUp => 1073742104,
            Keycode::Eject => 1073742105,
            Keycode::Sleep => 1073742106,
        }
    }

    /// The key whose SDL code is `n`, if there is one.
    pub fn from_i32(n: i32) -> (r: Option<Keycode>)
        ensures
            r == Self::spec_from_i32(n),
    {
        match n {
            8 => Some(Keycode::Backspace),
            9 => Some(Keycode::Tab),
            13 => Some(Keycode::Return),
            27 => Some(Keycode::Escape),
            32 => Some(Keycode::Space),
            33 => Some(Keycode::Exclaim),
            34 => Some(Keycode::Quotedbl),
            35 => Some(Keycode::Hash),
            36 => Some(Keycode::Dollar),
            37 => Some(Keycode::Percent),
            38 => Some(Keycode::Ampersand),
            39 => Some(Keycode::Quote),
            40 => Some(Keycode::LeftParen),
            41 => Some(Keycode::RightParen),
            42 => Some(Keycode::Asterisk),
            43 => Some(Keycode::Plus),
            44 => Some(Keycode::Comma),
            45 => Some(Keycode::Minus),
            46 => Some(Keycode::Period),
            47 => Some(Keycode::Slash),
            48 => Some(Keycode::Num0),
            49 => Some(Keycode::Num1),
            50 => Some(Keycode::Num2),
            51 => Some(Keycode::Num3),
            52 => Some(Keycode::Num4),
            53 => Some(Keycode::Num5),
            54 => Some(Keycode::Num6),
            55 => Some(Keycode::Num7),
            56 => Some(Keycode::Num8),
            57 => Some(Keycode::Num9),
            58 => Some(Keycode::Colon),
            59 => Some(Keycode::Semicolon),
            60 => Some(Keycode::Less),
            61 => Some(Keycode::Equals),
            62 => Some(Keycode::Greater),
            63 => Some(Keycode::Question),
            64 => Some(Keycode::At),
            91 => Some(Keycode::LeftBracket),
            92 => Some(Keycode::Backslash),
            93 => Some(Keycode::RightBracket),
            94 => Some(Keycode::Caret),
            95 => Some(Keycode::Underscore),
            96 => Some(Keycode::Backquote),
            97 => Some(Keycode::A),
            98 => Some(Keycode::B),
            99 => Some(Keycode::C),
            100 => Some(Keycode::D),
            101 => Some(Keycode::E),
            102 => Some(Keycode::F),
            103 => Some(Keycode::G),
            104 => Some(Keycode::H),
            105 => Some(Keycode::I),
            106 => Some(Keycode::J),
            107 => Some(Keycode::K),
            108 => Some(Keycode::L),
            109 => Some(Keycode::M),
            110 => Some(Keycode::N),
            111 => Some(Keycode::O),
            112 => Some(Keycode::P),
            113 => Some(Keycode::Q),
            114 => Some(Keycode::R),
            115 => Some(Keycode::S),
            116 => Some(Keycode::T),
            117 => Some(Keycode::U),
            118 => Some(Keycode::V),
            119 => Some(Keycode::W),
            120 => Some(Keycode::X),
            121 => Some(Keycode::Y),
            122 => Some(Keycode::Z),
            127 => Some(Keycode::Delete),
            1073741881 => Some(Keycode::CapsLock),
            1073741882 => Some(Keycode::F1),
            1073741883 => Some(Keycode::F2),
            1073741884 => Some(Keycode::F3),
            1073741885 => Some(Keycode::F4),
            1073741886 => Some(Keycode::F5),
            1073741887 => Some(Keycode::F6),
            1073741888 => Some(Keycode::F7),
            1073741889 => Some(Keycode::F8),
            1073741890 => Some(Keycode::F9),
            1073741891 => Some(Keycode::F10),
            1073741892 => Some(Keycode::F11),
            1073741893 => Some(Keycode::F12),
            1073741894 => Some(Keycode::PrintScreen),
            1073741895 => Some(Keycode::ScrollLock),
            1073741896 => Some(Keycode::Pause),
            1073741897 => Some(Keycode::Insert),
            1073741898 => Some(Keycode::Home),
            1073741899 => Some(Keycode::PageUp),
            1073741901 => Some(Keycode::End),
            1073741902 => Some(Keycode::PageDown),
            1073741903 => Some(Keycode::Right),
            1073741904 => Some(Keycode::Left),
            1073741905 => Some(Keycode::Down),
            1073741906 => Some(Keycode::Up),
            1073741907 => Some(Keycode::NumLockClear),
            1073741908 => Some(Keycode::KpDivide),
            1073741909 => Some(Keycode::KpMultiply),
            1073741910 => Some(Keycode::KpMinus),
            1073741911 => Some(Keycode::KpPlus),
            1073741912 => Some(Keycode::KpEnter),
            1073741913 => Some(Keycode::Kp1),
            1073741914 => Some(Keycode::Kp2),
            1073741915 => Some(Keycode::Kp3),
            1073741916 => Some(Keycode::Kp4),
            1073741917 => Some(Keycode::Kp5),
            1073741918 => Some(Keycode::Kp6),
            1073741919 => Some(Keycode::Kp7),
            1073741920 => Some(Keycode::Kp8),
            1073741921 => Some(Keycode::Kp9),
            1073741922 => Some(Keycode::Kp0),
            1073741923 => Some(Keycode::KpPeriod),
            1073741925 => Some(Keycode::Application),
            1073741926 => Some(Keycode::Power),
            1073741927 => Some(Keycode::KpEquals),
            1073741928 => Some(Keycode::F13),
            1073741929 => Some(Keycode::F14),
            1073741930 => Some(Keycode::F15),
            1073741931 => Some(Keycode::F16),
            1073741932 => Some(Keycode::F17),
            1073741933 => Some(Keycode::F18),
            1073741934 => Some(Keycode::F19),
            1073741935 => Some(Keycode::F20),
            1073741936 => Some(Keycode::F21),
            1073741937 => Some(Keycode::F22),
            1073741938 => Some(Keycode::F23),
            1073741939 => Some(Keycode::F24),
            1073741940 => Some(Keycode::Execute),
            1073741941 => Some(Keycode::Help),
            1073741942 => Some(Keycode::Menu),
            1073741943 => Some(Keycode::Select),
            1073741944 => Some(Keycode::Stop),
            1073741945 => Some(Keycode::Again),
            1073741946 => Some(Keycode::Undo),
            1073741947 => Some(Keycode::Cut),
            1073741948 => Some(Keycode::Copy),
            1073741949 => Some(Keycode::Paste),
            1073741950 => Some(Keycode::Find),
            1073741951 => Some(Keycode::Mute),
            1073741952 => Some(Keycode::VolumeUp),
            1073741953 => Some(Keycode::VolumeDown),
            1073741957 => Some(Keycode::KpComma),
            1073741958 => Some(Keycode::KpEqualsAS400),
            1073741977 => Some(Keycode::AltErase),
            1073741978 => Some(Keycode::SysReq),
            1073741979 => Some(Keycode::Cancel),
            1073741980 => Some(Keycode::Clear),
            1073741981 => Some(Keycode::Prior),
            1073741982 => Some(Keycode::Return2),
            1073741983 => Some(Keycode::Separator),
            1073741984 => Some(Keycode::Out),
            1073741985 => Some(Keycode::Oper),
            1073741986 => Some(Keycode::ClearAgain),
            1073741987 => Some(Keycode::CrSel),
            1073741988 => Some(Keycode::ExSel),
            1073742000 => Some(Keycode::Kp00),
            1073742001 => Some(Keycode::Kp000),
            1073742002 => Some(Keycode::ThousandsSeparator),
            1073742003 => Some(Keycode::DecimalSeparator),
            1073742004 => Some(Keycode::CurrencyUnit),
            1073742005 => Some(Keycode::CurrencySubUnit),
            1073742006 => Some(Keycode::KpLeftParen),
            1073742007 => Some(Keycode::KpRightParen),
            1073742008 => Some(Keycode::KpLeftBrace),
            1073742009 => Some(Keycode::KpRightBrace),
            1073742010 => Some(Keycode::KpTab),
            1073742011 => Some(Keycode::KpBackspace),
            1073742012 => Some(Keycode::KpA),
            1073742013 => Some(Keycode::KpB),
            1073742014 => Some(Keycode::KpC),
            1073742015 => Some(Keycode::KpD),
            1073742016 => Some(Keycode::KpE),
            1073742017 => Some(Keycode::KpF),
            1073742018 => Some(Keycode::KpXor),
            1073742019 => Some(Keycode::KpPower),
            1073742020 => Some(Keycode::KpPercent),
            1073742021 => Some(Keycode::KpLess),
            1073742022 => Some(Keycode::KpGreater),
            1073742023 => Some(Keycode::KpAmpersand),
            1073742024 => Some(Keycode::KpDblAmpersand),
            1073742025 => Some(Keycode::KpVerticalBar),
            1073742026 => Some(Keycode::KpDblVerticalBar),
            1073742027 => Some(Keycode::KpColon),
            1073742028 => Some(Keycode::KpHash),
            1073742029 => Some(Keycode::KpSpace),
            1073742030 => Some(Keycode::KpAt),
            1073742031 => Some(Keycode::KpExclam),
            1073742032 => Some(Keycode::KpMemStore),
            1073742033 => Some(Keycode::KpMemRecall),
            1073742034 => Some(Keycode::KpMemClear),
            1073742035 => Some(Keycode::KpMemAdd),
            1073742036 => Some(Keycode::KpMemSubtract),
            1073742037 => Some(Keycode::KpMemMultiply),
            1073742038 => Some(Keycode::KpMemDivide),
            1073742039 => Some(Keycode::KpPlusMinus),
            1073742040 => Some(Keycode::KpClear),
            1073742041 => Some(Keycode::KpClearEntry),
            1073742042 => Some(Keycode::KpBinary),
            1073742043 => Some(Keycode::KpOctal),
            1073742044 => Some(Keycode::KpDecimal),
            1073742045 => Some(Keycode::KpHexadecimal),
            1073742048 => Some(Keycode::LCtrl),
            1073742049 => Some(Keycode::LShift),
            1073742050 => Some(Keycode::LAlt),
            1073742051 => Some(Keycode::LGui),
            1073742052 => Some(Keycode::RCtrl),
            1073742053 => Some(Keycode::RShift),
            1073742054 => Some(Keycode::RAlt),
            1073742055 => Some(Keycode::RGui),
            1073742081 => Some(Keycode::Mode),
            1073742082 => Some(Keycode::AudioNext),
            1073742083 => Some(Keycode::AudioPrev),
            1073742084 => Some(Keycode::AudioStop),
            1073742085 => Some(Keycode::AudioPlay),
            1073742086 => Some(Keycode::AudioMute),
            1073742087 => Some(Keycode::MediaSelect),
            1073742088 => Some(Keycode::Www),
            1073742089 => Some(Keycode::Mail),
            1073742090 => Some(Keycode::Calculator),
            1073742091 => Some(Keycode::Computer),
            1073742092 => Some(Keycode::AcSearch),
            1073742093 => Some(Keycode::AcHome),
            1073742094 => Some(Keycode::AcBack),
            1073742095 => Some(Keycode::AcForward),
            1073742096 => Some(Keycode::AcStop),
            1073742097 => Some(Keycode::AcRefresh),
            1073742098 => Some(Keycode::AcBookmarks),
            1073742099 => Some(Keycode::BrightnessDown),
            1073742100 => Some(Keycode::BrightnessUp),
            1073742101 => Some(Keycode::DisplaySwitch),
            1073742102 => Some(Keycode::KbdIllumToggle),
            1073742103 => Some(Keycode::KbdIllumDown),
            1073742104 => Some(Keycode::KbdIllumUp),
            1073742105 => Some(Keycode::Eject),
            1073742106 => Some(Keycode::Sleep),
            _ => None,
        }
    }

    /// Every key is found again from its SDL code.
    pub proof fn lemma_from_to_i32(k: Keycode)
        ensures
            Self::spec_from_i32(k.spec_to_i32()) == Some(k),
    {
    }

}

/// The modifier bits that SDL defines: both shift keys, both control keys, both alt keys,
/// both GUI keys, num lock, caps lock, mode and the reserved bit.
pub const MOD_ALL_BITS: u32 = 0xffc3;

/// A set of keyboard modifiers, held as SDL's modifier bit mask.
#[derive(Copy, Clone, Debug, PartialEq, Eq, Structural, Hash)]
pub struct Mod {
    bits: u32,
}

impl Mod {
    /// The bit mask of this set of modifiers.
    pub closed spec fn spec_bits(self) -> u32 {
        self.bits
    }

    /// `bits` sets no bit outside the modifiers that SDL defines.
    pub open spec fn is_valid_bits(bits: u32) -> bool {
        bits & !MOD_ALL_BITS == 0
    }

    /// This set holds only modifiers that SDL defines.
    pub open spec fn is_valid(self) -> bool {
        Self::is_valid_bits(self.spec_bits())
    }

    /// Every set of modifiers that exists at run time holds only modifiers that SDL defines.
    #[verifier::type_invariant]
    closed spec fn bits_are_defined(self) -> bool {
        Self::is_valid_bits(self.bits)
    }

    /// The set of modifiers whose mask is `bits`, when `bits` names only defined modifiers.
    pub closed spec fn spec_from_bits(bits: u32) -> Option<Mod> {
        if Self::is_valid_bits(bits) {
            Some(Mod { bits })
        } else {
            None
        }
    }

    /// The empty set of modifiers.
    pub fn empty() -> (r: Mod)
        ensures
            r.spec_bits() == 0,
            r.is_valid(),
    {
        assert(0u32 & !MOD_ALL_BITS == 0) by (bit_vector);
        Mod { bits: 0 }
    }

    /// The set of all modifiers that SDL defines.
    pub fn all() -> (r: Mod)
        ensures
            r.spec_bits() == MOD_ALL_BITS,
            r.is_valid(),
    {
        assert(MOD_ALL_BITS & !MOD_ALL_BITS == 0) by (bit_vector);
        Mod { bits: MOD_ALL_BITS }
    }

    /// The bit mask of this set of modifiers.
    pub fn bits(&self) -> (r: u32)
        ensures
            r == self.spec_bits(),
            Self::is_valid_bits(r),
    {
        proof {
            use_type_invariant(self);
        }
        self.bits
    }

    /// The set of modifiers whose mask is `bits`; `None` when `bits` sets a bit that names
    /// no modifier.
    pub fn from_bits(bits: u32) -> (r: Option<Mod>)
        ensures
            r == Self::spec_from_bits(bits),
            r is Some <==> Self::is_valid_bits(bits),
            r matches Some(m) ==> m.spec_bits() == bits,
    {
        if bits & !MOD_ALL_BITS == 0 {
            Some(Mod { bits })
        } else {
            None
        }
    }

    /// What `spec_from_bits` gives: exactly the valid masks, each as the set it describes.
    pub proof fn lemma_from_bits(bits: u32)
        ensures
            Self::spec_from_bits(bits) is Some <==> Self::is_valid_bits(bits),
            Self::spec_from_bits(bits) matches Some(m) ==> m.spec_bits() == bits,
    {
    }

    /// A valid set of modifiers is found again from its mask.
    pub proof fn lemma_from_to_bits(m: Mod)
        requires
            m.is_valid(),
        ensures
            Self::spec_from_bits(m.spec_bits()) == Some(m),
    {
    }

    /// Every valid mask fits in sixteen bits.
    pub proof fn lemma_valid_fits_u16(m: Mod)
        requires
            m.is_valid(),
        ensures
            m.spec_bits() <= 0xffff,
    {
        let b = m.spec_bits();
        assert(b & !MOD_ALL_BITS == 0 ==> b <= 0xffff) by (bit_vector);
    }
}

/// SDL's description of a key: scan code, key code and modifier mask.
#[derive(Copy, Clone, Debug, PartialEq, Eq, Structural)]
pub struct Keysym {
    pub scancode: u32,
    pub sym: i32,
    pub mod_: u16,
    pub unused: u32,
}

/// Which keys are pressed, as one byte per scan code (non-zero when pressed).
pub struct KeyboardState {
    keyboard_state: Vec<u8>,
}

impl KeyboardState {
    /// One byte per scan code, non-zero for each key that is pressed.
    pub closed spec fn spec_state(&self) -> Seq<u8> {
        self.keyboard_state@
    }

    /// The state whose bytes are `state`, one per scan code.
    pub fn new(state: &[u8]) -> (r: KeyboardState)
        ensures
            r.spec_state() == state@,
    {
        KeyboardState { keyboard_state: crate::raw::copy_bytes(state) }
    }

    /// Whether the key with the given scan code is pressed.
    pub fn is_scancode_pressed(&self, scancode: Scancode) -> (r: bool)
        requires
            0 <= scancode.spec_to_i32() < self.spec_state().len(),
        ensures
            r == (self.spec_state()[scancode.spec_to_i32() as int] != 0),
    {
        let i = scancode.to_i32() as usize;
        self.keyboard_state[i] != 0
    }
}


impl Scancode {
    /// SDL's scan codes (`SDL_SCANCODE_A` = 4 ... `SDL_SCANCODE_APP2` = 284), each for the key of the same name; every other code names no key.
    pub proof fn lemma_scancode_numbers(n: i32)
        ensures
            Scancode::A.spec_to_i32() == 4,
            Scancode::B.spec_to_i32() == 5,
            Scancode::C.spec_to_i32() == 6,
            Scancode::D.spec_to_i32() == 7,
            Scancode::E.spec_to_i32() == 8,
            Scancode::F.spec_to_i32() == 9,
            Scancode::G.spec_to_i32() == 10,
            Scancode::H.spec_to_i32() == 11,
            Scancode::I.spec_to_i32() == 12,
            Scancode::J.spec_to_i32() == 13,
            Scancode::K.spec_to_i32() == 14,
            Scancode::L.spec_to_i32() == 15,
            Scancode::M.spec_to_i32() == 16,
            Scancode::N.spec_to_i32() == 17,
            Scancode::O.spec_to_i32() == 18,
            Scancode::P.spec_to_i32() == 19,
            Scancode::Q.spec_to_i32() == 20,
            Scancode::R.spec_to_i32() == 21,
            Scancode::S.spec_to_i32() == 22,
            Scancode::T.spec_to_i32() == 23,
            Scancode::U.spec_to_i32() == 24,
            Scancode::V.spec_to_i32() == 25,
            Scancode::W.spec_to_i32() == 26,
            Scancode::X.spec_to_i32() == 27,
            Scancode::Y.spec_to_i32() == 28,
            Scancode::Z.spec_to_i32() == 29,
            Scancode::Num1.spec_to_i32() == 30,
            Scancode::Num2.spec_to_i32() == 31,
            Scancode::Num3.spec_to_i32() == 32,
            Scancode::Num4.spec_to_i32() == 33,
            Scancode::Num5.spec_to_i32() == 34,
            Scancode::Num6.spec_to_i32() == 35,
            Scancode::Num7.spec_to_i32() == 36,
            Scancode::Num8.spec_to_i32() == 37,
            Scancode::Num9.spec_to_i32() == 38,
            Scancode::Num0.spec_to_i32() == 39,
            Scancode::Return.spec_to_i32() == 40,
            Scancode::Escape.spec_to_i32() == 41,
            Scancode::Backspace.spec_to_i32() == 42,
            Scancode::Tab.spec_to_i32() == 43,
            Scancode::Space.spec_to_i32() == 44,
            Scancode::Minus.spec_to_i32() == 45,
            Scancode::Equals.spec_to_i32() == 46,
            Scancode::LeftBracket.spec_to_i32() == 47,
            Scancode::RightBracket.spec_to_i32() == 48,
            Scancode::Backslash.spec_to_i32() == 49,
            Scancode::NonUsHash.spec_to_i32() == 50,
            Scancode::Semicolon.spec_to_i32() == 51,
            Scancode::Apostrophe.spec_to_i32() == 52,
            Scancode::Grave.spec_to_i32() == 53,
            Scancode::Comma.spec_to_i32() == 54,
            Scancode::Period.spec_to_i32() == 55,
            Scancode::Slash.spec_to_i32() == 56,
            Scancode::CapsLock.spec_to_i32() == 57,
            Scancode::F1.spec_to_i32() == 58,
            Scancode::F2.spec_to_i32() == 59,
            Scancode::F3.spec_to_i32() == 60,
            Scancode::F4.spec_to_i32() == 61,
            Scancode::F5.spec_to_i32() == 62,
            Scancode::F6.spec_to_i32() == 63,
            Scancode::F7.spec_to_i32() == 64,
            Scancode::F8.spec_to_i32() == 65,
            Scancode::F9.spec_to_i32() == 66,
            Scancode::F10.spec_to_i32() == 67,
            Scancode::F11.spec_to_i32() == 68,
            Scancode::F12.spec_to_i32() == 69,
            Scancode::PrintScreen.spec_to_i32() == 70,
            Scancode::ScrollLock.spec_to_i32() == 71,
            Scancode::Pause.spec_to_i32() == 72,
            Scancode::Insert.spec_to_i32() == 73,
            Scancode::Home.spec_to_i32() == 74,
            Scancode::PageUp.spec_to_i32() == 75,
            Scancode::Delete.spec_to_i32() == 76,
            Scancode::End.spec_to_i32() == 77,
            Scancode::PageDown.spec_to_i32() == 78,
            Scancode::Right.spec_to_i32() == 79,
            Scancode::Left.spec_to_i32() == 80,
            Scancode::Down.spec_to_i32() == 81,
            Scancode::Up.spec_to_i32() == 82,
            Scancode::NumLockClear.spec_to_i32() == 83,
            Scancode::KpDivide.spec_to_i32() == 84,
            Scancode::KpMultiply.spec_to_i32() == 85,
            Scancode::KpMinus.spec_to_i32() == 86,
            Scancode::KpPlus.spec_to_i32() == 87,
            Scancode::KpEnter.spec_to_i32() == 88,
            Scancode::Kp1.spec_to_i32() == 89,
            Scancode::Kp2.spec_to_i32() == 90,
            Scancode::Kp3.spec_to_i32() == 91,
            Scancode::Kp4.spec_to_i32() == 92,
            Scancode::Kp5.spec_to_i32() == 93,
            Scancode::Kp6.spec_to_i32() == 94,
            Scancode::Kp7.spec_to_i32() == 95,
            Scancode::Kp8.spec_to_i32() == 96,
            Scancode::Kp9.spec_to_i32() == 97,
            Scancode::Kp0.spec_to_i32() == 98,
            Scancode::KpPeriod.spec_to_i32() == 99,
            Scancode::NonUsBackslash.spec_to_i32() == 100,
            Scancode::Application.spec_to_i32() == 101,
            Scancode::Power.spec_to_i32() == 102,
            Scancode::KpEquals.spec_to_i32() == 103,
            Scancode::F13.spec_to_i32() == 104,
            Scancode::F14.spec_to_i32() == 105,
            Scancode::F15.spec_to_i32() == 106,
            Scancode::F16.spec_to_i32() == 107,
            Scancode::F17.spec_to_i32() == 108,
            Scancode::F18.spec_to_i32() == 109,
            Scancode::F19.spec_to_i32() == 110,
            Scancode::F20.spec_to_i32() == 111,
            Scancode::F21.spec_to_i32() == 112,
            Scancode::F22.spec_to_i32() == 113,
            Scancode::F23.spec_to_i32() == 114,
            Scancode::F24.spec_to_i32() == 115,
            Scancode::Execute.spec_to_i32() == 116,
            Scancode::Help.spec_to_i32() == 117,
            Scancode::Menu.spec_to_i32() == 118,
            Scancode::Select.spec_to_i32() == 119,
            Scancode::Stop.spec_to_i32() == 120,
            Scancode::Again.spec_to_i32() == 121,
            Scancode::Undo.spec_to_i32() == 122,
            Scancode::Cut.spec_to_i32() == 123,
            Scancode::Copy.spec_to_i32() == 124,
            Scancode::Paste.spec_to_i32() == 125,
            Scancode::Find.spec_to_i32() == 126,
            Scancode::Mute.spec_to_i32() == 127,
            Scancode::VolumeUp.spec_to_i32() == 128,
            Scancode::VolumeDown.spec_to_i32() == 129,
            Scancode::KpComma.spec_to_i32() == 133,
            Scancode::KpEqualsAS400.spec_to_i32() == 134,
            Scancode::International1.spec_to_i32() == 135,
            Scancode::International2.spec_to_i32() == 136,
            Scancode::International3.spec_to_i32() == 137,
            Scancode::International4.spec_to_i32() == 138,
            Scancode::International5.spec_to_i32() == 139,
            Scancode::International6.spec_to_i32() == 140,
            Scancode::International7.spec_to_i32() == 141,
            Scancode::International8.spec_to_i32() == 142,
            Scancode::International9.spec_to_i32() == 143,
            Scancode::Lang1.spec_to_i32() == 144,
            Scancode::Lang2.spec_to_i32() == 145,
            Scancode::Lang3.spec_to_i32() == 146,
            Scancode::Lang4.spec_to_i32() == 147,
            Scancode::Lang5.spec_to_i32() == 148,
            Scancode::Lang6.spec_to_i32() == 149,
            Scancode::Lang7.spec_to_i32() == 150,
            Scancode::Lang8.spec_to_i32() == 151,
            Scancode::Lang9.spec_to_i32() == 152,
            Scancode::AltErase.spec_to_i32() == 153,
            Scancode::SysReq.spec_to_i32() == 154,
            Scancode::Cancel.spec_to_i32() == 155,
            Scancode::Clear.spec_to_i32() == 156,
            Scancode::Prior.spec_to_i32() == 157,
            Scancode::Return2.spec_to_i32() == 158,
            Scancode::Separator.spec_to_i32() == 159,
            Scancode::Out.spec_to_i32() == 160,
            Scancode::Oper.spec_to_i32() == 161,
            Scancode::ClearAgain.spec_to_i32() == 162,
            Scancode::CrSel.spec_to_i32() == 163,
            Scancode::ExSel.spec_to_i32() == 164,
            Scancode::Kp00.spec_to_i32() == 176,
            Scancode::Kp000.spec_to_i32() == 177,
            Scancode::ThousandsSeparator.spec_to_i32() == 178,
            Scancode::DecimalSeparator.spec_to_i32() == 179,
            Scancode::CurrencyUnit.spec_to_i32() == 180,
            Scancode::CurrencySubUnit.spec_to_i32() == 181,
            Scancode::KpLeftParen.spec_to_i32() == 182,
            Scancode::KpRightParen.spec_to_i32() == 183,
            Scancode::KpLeftBrace.spec_to_i32() == 184,
            Scancode::KpRightBrace.spec_to_i32() == 185,
            Scancode::KpTab.spec_to_i32() == 186,
            Scancode::KpBackspace.spec_to_i32() == 187,
            Scancode::KpA.spec_to_i32() == 188,
            Scancode::KpB.spec_to_i32() == 189,
            Scancode::KpC.spec_to_i32() == 190,
            Scancode::KpD.spec_to_i32() == 191,
            Scancode::KpE.spec_to_i32() == 192,
            Scancode::KpF.spec_to_i32() == 193,
            Scancode::KpXor.spec_to_i32() == 194,
            Scancode::KpPower.spec_to_i32() == 195,
            Scancode::KpPercent.spec_to_i32() == 196,
            Scancode::KpLess.spec_to_i32() == 197,
            Scancode::KpGreater.spec_to_i32() == 198,
            Scancode::KpAmpersand.spec_to_i32() == 199,
            Scancode::KpDblAmpersand.spec_to_i32() == 200,
            Scancode::KpVerticalBar.spec_to_i32() == 201,
            Scancode::KpDblVerticalBar.spec_to_i32() == 202,
            Scancode::KpColon.spec_to_i32() == 203,
            Scancode::KpHash.spec_to_i32() == 204,
            Scancode::KpSpace.spec_to_i32() == 205,
            Scancode::KpAt.spec_to_i32() == 206,
            Scancode::KpExclam.spec_to_i32() == 207,
            Scancode::KpMemStore.spec_to_i32() == 208,
            Scancode::KpMemRecall.spec_to_i32() == 209,
            Scancode::KpMemClear.spec_to_i32() == 210,
            Scancode::KpMemAdd.spec_to_i32() == 211,
            Scancode::KpMemSubtract.spec_to_i32() == 212,
            Scancode::KpMemMultiply.spec_to_i32() == 213,
            Scancode::KpMemDivide.spec_to_i32() == 214,
            Scancode::KpPlusMinus.spec_to_i32() == 215,
            Scancode::KpClear.spec_to_i32() == 216,
            Scancode::KpClearEntry.spec_to_i32() == 217,
            Scancode::KpBinary.spec_to_i32() == 218,
            Scancode::KpOctal.spec_to_i32() == 219,
            Scancode::KpDecimal.spec_to_i32() == 220,
            Scancode::KpHexadecimal.spec_to_i32() == 221,
            Scancode::LCtrl.spec_to_i32() == 224,
            Scancode::LShift.spec_to_i32() == 225,
            Scancode::LAlt.spec_to_i32() == 226,
            Scancode::LGui.spec_to_i32() == 227,
            Scancode::RCtrl.spec_to_i32() == 228,
            Scancode::RShift.spec_to_i32() == 229,
            Scancode::RAlt.spec_to_i32() == 230,
            Scancode::RGui.spec_to_i32() == 231,
            Scancode::Mode.spec_to_i32() == 257,
            Scancode::AudioNext.spec_to_i32() == 258,
            Scancode::AudioPrev.spec_to_i32() == 259,
            Scancode::AudioStop.spec_to_i32() == 260,
            Scancode::AudioPlay.spec_to_i32() == 261,
            Scancode::AudioMute.spec_to_i32() == 262,
            Scancode::MediaSelect.spec_to_i32() == 263,
            Scancode::Www.spec_to_i32() == 264,
            Scancode::Mail.spec_to_i32() == 265,
            Scancode::Calculator.spec_to_i32() == 266,
            Scancode::Computer.spec_to_i32() == 267,
            Scancode::AcSearch.spec_to_i32() == 268,
            Scancode::AcHome.spec_to_i32() == 269,
            Scancode::AcBack.spec_to_i32() == 270,
            Scancode::AcForward.spec_to_i32() == 271,
            Scancode::AcStop.spec_to_i32() == 272,
            Scancode::AcRefresh.spec_to_i32() == 273,
            Scancode::AcBookmarks.spec_to_i32() == 274,
            Scancode::BrightnessDown.spec_to_i32() == 275,
            Scancode::BrightnessUp.spec_to_i32() == 276,
            Scancode::DisplaySwitch.spec_to_i32() == 277,
            Scancode::KbdIllumToggle.spec_to_i32() == 278,
            Scancode::KbdIllumDown.spec_to_i32() == 279,
            Scancode::KbdIllumUp.spec_to_i32() == 280,
            Scancode::Eject.spec_to_i32() == 281,
            Scancode::Sleep.spec_to_i32() == 282,
            Scancode::App1.spec_to_i32() == 283,
            Scancode::App2.spec_to_i32() == 284,
            Scancode::Num.spec_to_i32() == 512,
            Self::spec_from_i32(4) == Some(Scancode::A),
            Self::spec_from_i32(5) == Some(Scancode::B),
            Self::spec_from_i32(6) == Some(Scancode::C),
            Self::spec_from_i32(7) == Some(Scancode::D),
            Self::spec_from_i32(8) == Some(Scancode::E),
            Self::spec_from_i32(9) == Some(Scancode::F),
            Self::spec_from_i32(10) == Some(Scancode::G),
            Self::spec_from_i32(11) == Some(Scancode::H),
            Self::spec_from_i32(12) == Some(Scancode::I),
            Self::spec_from_i32(13) == Some(Scancode::J),
            Self::spec_from_i32(14) == Some(Scancode::K),
            Self::spec_from_i32(15) == Some(Scancode::L),
            Self::spec_from_i32(16) == Some(Scancode::M),
            Self::spec_from_i32(17) == Some(Scancode::N),
            Self::spec_from_i32(18) == Some(Scancode::O),
            Self::spec_from_i32(19) == Some(Scancode::P),
            Self::spec_from_i32(20) == Some(Scancode::Q),
            Self::spec_from_i32(21) == Some(Scancode::R),
            Self::spec_from_i32(22) == Some(Scancode::S),
            Self::spec_from_i32(23) == Some(Scancode::T),
            Self::spec_from_i32(24) == Some(Scancode::U),
            Self::spec_from_i32(25) == Some(Scancode::V),
            Self::spec_from_i32(26) == Some(Scancode::W),
            Self::spec_from_i32(27) == Some(Scancode::X),
            Self::spec_from_i32(28) == Some(Scancode::Y),
            Self::spec_from_i32(29) == Some(Scancode::Z),
            Self::spec_from_i32(30) == Some(Scancode::Num1),
            Self::spec_from_i32(31) == Some(Scancode::Num2),
            Self::spec_from_i32(32) == Some(Scancode::Num3),
            Self::spec_from_i32(33) == Some(Scancode::Num4),
            Self::spec_from_i32(34) == Some(Scancode::Num5),
            Self::spec_from_i32(35) == Some(Scancode::Num6),
            Self::spec_from_i32(36) == Some(Scancode::Num7),
            Self::spec_from_i32(37) == Some(Scancode::Num8),
            Self::spec_from_i32(38) == Some(Scancode::Num9),
            Self::spec_from_i32(39) == Some(Scancode::Num0),
            Self::spec_from_i32(40) == Some(Scancode::Return),
            Self::spec_from_i32(41) == Some(Scancode::Escape),
            Self::spec_from_i32(42) == Some(Scancode::Backspace),
            Self::spec_from_i32(43) == Some(Scancode::Tab),
            Self::spec_from_i32(44) == Some(Scancode::Space),
            Self::spec_from_i32(45) == Some(Scancode::Minus),
            Self::spec_from_i32(46) == Some(Scancode::Equals),
            Self::spec_from_i32(47) == Some(Scancode::LeftBracket),
            Self::spec_from_i32(48) == Some(Scancode::RightBracket),
            Self::spec_from_i32(49) == Some(Scancode::Backslash),
            Self::spec_from_i32(50) == Some(Scancode::NonUsHash),
            Self::spec_from_i32(51) == Some(Scancode::Semicolon),
            Self::spec_from_i32(52) == Some(Scancode::Apostrophe),
            Self::spec_from_i32(53) == Some(Scancode::Grave),
            Self::spec_from_i32(54) == Some(Scancode::Comma),
            Self::spec_from_i32(55) == Some(Scancode::Period),
            Self::spec_from_i32(56) == Some(Scancode::Slash),
            Self::spec_from_i32(57) == Some(Scancode::CapsLock),
            Self::spec_from_i32(58) == Some(Scancode::F1),
            Self::spec_from_i32(59) == Some(Scancode::F2),
            Self::spec_from_i32(60) == Some(Scancode::F3),
            Self::spec_from_i32(61) == Some(Scancode::F4),
            Self::spec_from_i32(62) == Some(Scancode::F5),
            Self::spec_from_i32(63) == Some(Scancode::F6),
            Self::spec_from_i32(64) == Some(Scancode::F7),
            Self::spec_from_i32(65) == Some(Scancode::F8),
            Self::spec_from_i32(66) == Some(Scancode::F9),
            Self::spec_from_i32(67) == Some(Scancode::F10),
            Self::spec_from_i32(68) == Some(Scancode::F11),
            Self::spec_from_i32(69) == Some(Scancode::F12),
            Self::spec_from_i32(70) == Some(Scancode::PrintScreen),
            Self::spec_from_i32(71) == Some(Scancode::ScrollLock),
            Self::spec_from_i32(72) == Some(Scancode::Pause),
            Self::spec_from_i32(73) == Some(Scancode::Insert),
            Self::spec_from_i32(74) == Some(Scancode::Home),
            Self::spec_from_i32(75) == Some(Scancode::PageUp),
            Self::spec_from_i32(76) == Some(Scancode::Delete),
            Self::spec_from_i32(77) == Some(Scancode::End),
            Self::spec_from_i32(78) == Some(Scancode::PageDown),
            Self::spec_from_i32(79) == Some(Scancode::Right),
            Self::spec_from_i32(80) == Some(Scancode::Left),
            Self::spec_from_i32(81) == Some(Scancode::Down),
            Self::spec_from_i32(82) == Some(Scancode::Up),
            Self::spec_from_i32(83) == Some(Scancode::NumLockClear),
            Self::spec_from_i32(84) == Some(Scancode::KpDivide),
            Self::spec_from_i32(85) == Some(Scancode::KpMultiply),
            Self::spec_from_i32(86) == Some(Scancode::KpMinus),
            Self::spec_from_i32(87) == Some(Scancode::KpPlus),
            Self::spec_from_i32(88) == Some(Scancode::KpEnter),
            Self::spec_from_i32(89) == Some(Scancode::Kp1),
            Self::spec_from_i32(90) == Some(Scancode::Kp2),
            Self::spec_from_i32(91) == Some(Scancode::Kp3),
            Self::spec_from_i32(92) == Some(Scancode::Kp4),
            Self::spec_from_i32(93) == Some(Scancode::Kp5),
            Self::spec_from_i32(94) == Some(Scancode::Kp6),
            Self::spec_from_i32(95) == Some(Scancode::Kp7),
            Self::spec_from_i32(96) == Some(Scancode::Kp8),
            Self::spec_from_i32(97) == Some(Scancode::Kp9),
            Self::spec_from_i32(98) == Some(Scancode::Kp0),
            Self::spec_from_i32(99) == Some(Scancode::KpPeriod),
            Self::spec_from_i32(100) == Some(Scancode::NonUsBackslash),
            Self::spec_from_i32(101) == Some(Scancode::Application),
            Self::spec_from_i32(102) == Some(Scancode::Power),
            Self::spec_from_i32(103) == Some(Scancode::KpEquals),
            Self::spec_from_i32(104) == Some(Scancode::F13),
            Self::spec_from_i32(105) == Some(Scancode::F14),
            Self::spec_from_i32(106) == Some(Scancode::F15),
            Self::spec_from_i32(107) == Some(Scancode::F16),
            Self::spec_from_i32(108) == Some(Scancode::F17),
            Self::spec_from_i32(109) == Some(Scancode::F18),
            Self::spec_from_i32(110) == Some(Scancode::F19),
            Self::spec_from_i32(111) == Some(Scancode::F20),
            Self::spec_from_i32(112) == Some(Scancode::F21),
            Self::spec_from_i32(113) == Some(Scancode::F22),
            Self::spec_from_i32(114) == Some(Scancode::F23),
            Self::spec_from_i32(115) == Some(Scancode::F24),
            Self::spec_from_i32(116) == Some(Scancode::Execute),
            Self::spec_from_i32(117) == Some(Scancode::Help),
            Self::spec_from_i32(118) == Some(Scancode::Menu),
            Self::spec_from_i32(119) == Some(Scancode::Select),
            Self::spec_from_i32(120) == Some(Scancode::Stop),
            Self::spec_from_i32(121) == Some(Scancode::Again),
            Self::spec_from_i32(122) == Some(Scancode::Undo),
            Self::spec_from_i32(123) == Some(Scancode::Cut),
            Self::spec_from_i32(124) == Some(Scancode::Copy),
            Self::spec_from_i32(125) == Some(Scancode::Paste),
            Self::spec_from_i32(126) == Some(Scancode::Find),
            Self::spec_from_i32(127) == Some(Scancode::Mute),
            Self::spec_from_i32(128) == Some(Scancode::VolumeUp),
            Self::spec_from_i32(129) == Some(Scancode::VolumeDown),
            Self::spec_from_i32(133) == Some(Scancode::KpComma),
            Self::spec_from_i32(134) == Some(Scancode::KpEqualsAS400),
            Self::spec_from_i32(135) == Some(Scancode::International1),
            Self::spec_from_i32(136) == Some(Scancode::International2),
            Self::spec_from_i32(137) == Some(Scancode::International3),
            Self::spec_from_i32(138) == Some(Scancode::International4),
            Self::spec_from_i32(139) == Some(Scancode::International5),
            Self::spec_from_i32(140) == Some(Scancode::International6),
            Self::spec_from_i32(141) == Some(Scancode::International7),
            Self::spec_from_i32(142) == Some(Scancode::International8),
            Self::spec_from_i32(143) == Some(Scancode::International9),
            Self::spec_from_i32(144) == Some(Scancode::Lang1),
            Self::spec_from_i32(145) == Some(Scancode::Lang2),
            Self::spec_from_i32(146) == Some(Scancode::Lang3),
            Self::spec_from_i32(147) == Some(Scancode::Lang4),
            Self::spec_from_i32(148) == Some(Scancode::Lang5),
            Self::spec_from_i32(149) == Some(Scancode::Lang6),
            Self::spec_from_i32(150) == Some(Scancode::Lang7),
            Self::spec_from_i32(151) == Some(Scancode::Lang8),
            Self::spec_from_i32(152) == Some(Scancode::Lang9),
            Self::spec_from_i32(153) == Some(Scancode::AltErase),
            Self::spec_from_i32(154) == Some(Scancode::SysReq),
            Self::spec_from_i32(155) == Some(Scancode::Cancel),
            Self::spec_from_i32(156) == Some(Scancode::Clear),
            Self::spec_from_i32(157) == Some(Scancode::Prior),
            Self::spec_from_i32(158) == Some(Scancode::Return2),
            Self::spec_from_i32(159) == Some(Scancode::Separator),
            Self::spec_from_i32(160) == Some(Scancode::Out),
            Self::spec_from_i32(161) == Some(Scancode::Oper),
            Self::spec_from_i32(162) == Some(Scancode::ClearAgain),
            Self::spec_from_i32(163) == Some(Scancode::CrSel),
            Self::spec_from_i32(164) == Some(Scancode::ExSel),
            Self::spec_from_i32(176) == Some(Scancode::Kp00),
            Self::spec_from_i32(177) == Some(Scancode::Kp000),
            Self::spec_from_i32(178) == Some(Scancode::ThousandsSeparator),
            Self::spec_from_i32(179) == Some(Scancode::DecimalSeparator),
            Self::spec_from_i32(180) == Some(Scancode::CurrencyUnit),
            Self::spec_from_i32(181) == Some(Scancode::CurrencySubUnit),
            Self::spec_from_i32(182) == Some(Scancode::KpLeftParen),
            Self::spec_from_i32(183) == Some(Scancode::KpRightParen),
            Self::spec_from_i32(184) == Some(Scancode::KpLeftBrace),
            Self::spec_from_i32(185) == Some(Scancode::KpRightBrace),
            Self::spec_from_i32(186) == Some(Scancode::KpTab),
            Self::spec_from_i32(187) == Some(Scancode::KpBackspace),
            Self::spec_from_i32(188) == Some(Scancode::KpA),
            Self::spec_from_i32(189) == Some(Scancode::KpB),
            Self::spec_from_i32(190) == Some(Scancode::KpC),
            Self::spec_from_i32(191) == Some(Scancode::KpD),
            Self::spec_from_i32(192) == Some(Scancode::KpE),
            Self::spec_from_i32(193) == Some(Scancode::KpF),
            Self::spec_from_i32(194) == Some(Scancode::KpXor),
            Self::spec_from_i32(195) == Some(Scancode::KpPower),
            Self::spec_from_i32(196) == Some(Scancode::KpPercent),
            Self::spec_from_i32(197) == Some(Scancode::KpLess),
            Self::spec_from_i32(198) == Some(Scancode::KpGreater),
            Self::spec_from_i32(199) == Some(Scancode::KpAmpersand),
            Self::spec_from_i32(200) == Some(Scancode::KpDblAmpersand),
            Self::spec_from_i32(201) == Some(Scancode::KpVerticalBar),
            Self::spec_from_i32(202) == Some(Scancode::KpDblVerticalBar),
            Self::spec_from_i32(203) == Some(Scancode::KpColon),
            Self::spec_from_i32(204) == Some(Scancode::KpHash),
            Self::spec_from_i32(205) == Some(Scancode::KpSpace),
            Self::spec_from_i32(206) == Some(Scancode::KpAt),
            Self::spec_from_i32(207) == Some(Scancode::KpExclam),
            Self::spec_from_i32(208) == Some(Scancode::KpMemStore),
            Self::spec_from_i32(209) == Some(Scancode::KpMemRecall),
            Self::spec_from_i32(210) == Some(Scancode::KpMemClear),
            Self::spec_from_i32(211) == Some(Scancode::KpMemAdd),
            Self::spec_from_i32(212) == Some(Scancode::KpMemSubtract),
            Self::spec_from_i32(213) == Some(Scancode::KpMemMultiply),
            Self::spec_from_i32(214) == Some(Scancode::KpMemDivide),
            Self::spec_from_i32(215) == Some(Scancode::KpPlusMinus),
            Self::spec_from_i32(216) == Some(Scancode::KpClear),
            Self::spec_from_i32(217) == Some(Scancode::KpClearEntry),
            Self::spec_from_i32(218) == Some(Scancode::KpBinary),
            Self::spec_from_i32(219) == Some(Scancode::KpOctal),
            Self::spec_from_i32(220) == Some(Scancode::KpDecimal),
            Self::spec_from_i32(221) == Some(Scancode::KpHexadecimal),
            Self::spec_from_i32(224) == Some(Scancode::LCtrl),
            Self::spec_from_i32(225) == Some(Scancode::LShift),
            Self::spec_from_i32(226) == Some(Scancode::LAlt),
            Self::spec_from_i32(227) == Some(Scancode::LGui),
            Self::spec_from_i32(228) == Some(Scancode::RCtrl),
            Self::spec_from_i32(229) == Some(Scancode::RShift),
            Self::spec_from_i32(230) == Some(Scancode::RAlt),
            Self::spec_from_i32(231) == Some(Scancode::RGui),
            Self::spec_from_i32(257) == Some(Scancode::Mode),
            Self::spec_from_i32(258) == Some(Scancode::AudioNext),
            Self::spec_from_i32(259) == Some(Scancode::AudioPrev),
            Self::spec_from_i32(260) == Some(Scancode::AudioStop),
            Self::spec_from_i32(261) == Some(Scancode::AudioPlay),
            Self::spec_from_i32(262) == Some(Scancode::AudioMute),
            Self::spec_from_i32(263) == Some(Scancode::MediaSelect),
            Self::spec_from_i32(264) == Some(Scancode::Www),
            Self::spec_from_i32(265) == Some(Scancode::Mail),
            Self::spec_from_i32(266) == Some(Scancode::Calculator),
            Self::spec_from_i32(267) == Some(Scancode::Computer),
            Self::spec_from_i32(268) == Some(Scancode::AcSearch),
            Self::spec_from_i32(269) == Some(Scancode::AcHome),
            Self::spec_from_i32(270) == Some(Scancode::AcBack),
            Self::spec_from_i32(271) == Some(Scancode::AcForward),
            Self::spec_from_i32(272) == Some(Scancode::AcStop),
            Self::spec_from_i32(273) == Some(Scancode::AcRefresh),
            Self::spec_from_i32(274) == Some(Scancode::AcBookmarks),
            Self::spec_from_i32(275) == Some(Scancode::BrightnessDown),
            Self::spec_from_i32(276) == Some(Scancode::BrightnessUp),
            Self::spec_from_i32(277) == Some(Scancode::DisplaySwitch),
            Self::spec_from_i32(278) == Some(Scancode::KbdIllumToggle),
            Self::spec_from_i32(279) == Some(Scancode::KbdIllumDown),
            Self::spec_from_i32(280) == Some(Scancode::KbdIllumUp),
            Self::spec_from_i32(281) == Some(Scancode::Eject),
            Self::spec_from_i32(282) == Some(Scancode::Sleep),
            Self::spec_from_i32(283) == Some(Scancode::App1),
            Self::spec_from_i32(284) == Some(Scancode::App2),
            Self::spec_from_i32(512) == Some(Scancode::Num),
            !(n == 4 || n == 5 || n == 6 || n == 7 || n == 8 || n == 9 || n == 10 || n == 11 || n == 12 || n == 13 || n == 14 || n == 15 || n == 16 || n == 17 || n == 18 || n == 19 || n == 20 || n == 21 || n == 22 || n == 23 || n == 24 || n == 25 || n == 26 || n == 27 || n == 28 || n == 29 || n == 30 || n == 31 || n == 32 || n == 33 || n == 34 || n == 35 || n == 36 || n == 37 || n == 38 || n == 39 || n == 40 || n == 41 || n == 42 || n == 43 || n == 44 || n == 45 || n == 46 || n == 47 || n == 48 || n == 49 || n == 50 || n == 51 || n == 52 || n == 53 || n == 54 || n == 55 || n == 56 || n == 57 || n == 58 || n == 59 || n == 60 || n == 61 || n == 62 || n == 63 || n == 64 || n == 65 || n == 66 || n == 67 || n == 68 || n == 69 || n == 70 || n == 71 || n == 72 || n == 73 || n == 74 || n == 75 || n == 76 || n == 77 || n == 78 || n == 79 || n == 80 || n == 81 || n == 82 || n == 83 || n == 84 || n == 85 || n == 86 || n == 87 || n == 88 || n == 89 || n == 90 || n == 91 || n == 92 || n == 93 || n == 94 || n == 95 || n == 96 || n == 97 || n == 98 || n == 99 || n == 100 || n == 101 || n == 102 || n == 103 || n == 104 || n == 105 || n == 106 || n == 107 || n == 108 || n == 109 || n == 110 || n == 111 || n == 112 || n == 113 || n == 114 || n == 115 || n == 116 || n == 117 || n == 118 || n == 119 || n == 120 || n == 121 || n == 122 || n == 123 || n == 124 || n == 125 || n == 126 || n == 127 || n == 128 || n == 129 || n == 133 || n == 134 || n == 135 || n == 136 || n == 137 || n == 138 || n == 139 || n == 140 || n == 141 || n == 142 || n == 143 || n == 144 || n == 145 || n == 146 || n == 147 || n == 148 || n == 149 || n == 150 || n == 151 || n == 152 || n == 153 || n == 154 || n == 155 || n == 156 || n == 157 || n == 158 || n == 159 || n == 160 || n == 161 || n == 162 || n == 163 || n == 164 || n == 176 || n == 177 || n == 178 || n == 179 || n == 180 || n == 181 || n == 182 || n == 183 || n == 184 || n == 185 || n == 186 || n == 187 || n == 188 || n == 189 || n == 190 || n == 191 || n == 192 || n == 193 || n == 194 || n == 195 || n == 196 || n == 197 || n == 198 || n == 199 || n == 200 || n == 201 || n == 202 || n == 203 || n == 204 || n == 205 || n == 206 || n == 207 || n == 208 || n == 209 || n == 210 || n == 211 || n == 212 || n == 213 || n == 214 || n == 215 || n == 216 || n == 217 || n == 218 || n == 219 || n == 220 || n == 221 || n == 224 || n == 225 || n == 226 || n == 227 || n == 228 || n == 229 || n == 230 || n == 231 || n == 257 || n == 258 || n == 259 || n == 260 || n == 261 || n == 262 || n == 263 || n == 264 || n == 265 || n == 266 || n == 267 || n == 268 || n == 269 || n == 270 || n == 271 || n == 272 || n == 273 || n == 274 || n == 275 || n == 276 || n == 277 || n == 278 || n == 279 || n == 280 || n == 281 || n == 282 || n == 283 || n == 284 || n == 512) ==> Self::spec_from_i32(n) == None::<Scancode>,
    {
    }
}


impl Keycode {
    /// SDL's key codes, each for the key of the same name: a character's code for keys that type one (`SDLK_a` = 0x61), and the key's scan code with bit 30 set for the others (`SDLK_CAPSLOCK` = 0x4000_0039); every other code names no key.
    pub proof fn lemma_keycode_numbers(n: i32)
        ensures
            Keycode::Backspace.spec_to_i32() == 8,
            Keycode::Tab.spec_to_i32() == 9,
            Keycode::Return.spec_to_i32() == 13,
            Keycode::Escape.spec_to_i32() == 27,
            Keycode::Space.spec_to_i32() == 32,
            Keycode::Exclaim.spec_to_i32() == 33,
            Keycode::Quotedbl.spec_to_i32() == 34,
            Keycode::Hash.spec_to_i32() == 35,
            Keycode::Dollar.spec_to_i32() == 36,
            Keycode::Percent.spec_to_i32() == 37,
            Keycode::Ampersand.spec_to_i32() == 38,
            Keycode::Quote.spec_to_i32() == 39,
            Keycode::LeftParen.spec_to_i32() == 40,
            Keycode::RightParen.spec_to_i32() == 41,
            Keycode::Asterisk.spec_to_i32() == 42,
            Keycode::Plus.spec_to_i32() == 43,
            Keycode::Comma.spec_to_i32() == 44,
            Keycode::Minus.spec_to_i32() == 45,
            Keycode::Period.spec_to_i32() == 46,
            Keycode::Slash.spec_to_i32() == 47,
            Keycode::Num0.spec_to_i32() == 48,
            Keycode::Num1.spec_to_i32() == 49,
            Keycode::Num2.spec_to_i32() == 50,
            Keycode::Num3.spec_to_i32() == 51,
            Keycode::Num4.spec_to_i32() == 52,
            Keycode::Num5.spec_to_i32() == 53,
            Keycode::Num6.spec_to_i32() == 54,
            Keycode::Num7.spec_to_i32() == 55,
            Keycode::Num8.spec_to_i32() == 56,
            Keycode::Num9.spec_to_i32() == 57,
            Keycode::Colon.spec_to_i32() == 58,
            Keycode::Semicolon.spec_to_i32() == 59,
            Keycode::Less.spec_to_i32() == 60,
            Keycode::Equals.spec_to_i32() == 61,
            Keycode::Greater.spec_to_i32() == 62,
            Keycode::Question.spec_to_i32() == 63,
            Keycode::At.spec_to_i32() == 64,
            Keycode::LeftBracket.spec_to_i32() == 91,
            Keycode::Backslash.spec_to_i32() == 92,
            Keycode::RightBracket.spec_to_i32() == 93,
            Keycode::Caret.spec_to_i32() == 94,
            Keycode::Underscore.spec_to_i32() == 95,
            Keycode::Backquote.spec_to_i32() == 96,
            Keycode::A.spec_to_i32() == 97,
            Keycode::B.spec_to_i32() == 98,
            Keycode::C.spec_to_i32() == 99,
            Keycode::D.spec_to_i32() == 100,
            Keycode::E.spec_to_i32() == 101,
            Keycode::F.spec_to_i32() == 102,
            Keycode::G.spec_to_i32() == 103,
            Keycode::H.spec_to_i32() == 104,
            Keycode::I.spec_to_i32() == 105,
            Keycode::J.spec_to_i32() == 106,
            Keycode::K.spec_to_i32() == 107,
            Keycode::L.spec_to_i32() == 108,
            Keycode::M.spec_to_i32() == 109,
            Keycode::N.spec_to_i32() == 110,
            Keycode::O.spec_to_i32() == 111,
            Keycode::P.spec_to_i32() == 112,
            Keycode::Q.spec_to_i32() == 113,
            Keycode::R.spec_to_i32() == 114,
            Keycode::S.spec_to_i32() == 115,
            Keycode::T.spec_to_i32() == 116,
            Keycode::U.spec_to_i32() == 117,
            Keycode::V.spec_to_i32() == 118,
            Keycode::W.spec_to_i32() == 119,
            Keycode::X.spec_to_i32() == 120,
            Keycode::Y.spec_to_i32() == 121,
            Keycode::Z.spec_to_i32() == 122,
            Keycode::Delete.spec_to_i32() == 127,
            Keycode::CapsLock.spec_to_i32() == 0x4000_0039,
            Keycode::F1.spec_to_i32() == 0x4000_003a,
            Keycode::F2.spec_to_i32() == 0x4000_003b,
            Keycode::F3.spec_to_i32() == 0x4000_003c,
            Keycode::F4.spec_to_i32() == 0x4000_003d,
            Keycode::F5.spec_to_i32() == 0x4000_003e,
            Keycode::F6.spec_to_i32() == 0x4000_003f,
            Keycode::F7.spec_to_i32() == 0x4000_0040,
            Keycode::F8.spec_to_i32() == 0x4000_0041,
            Keycode::F9.spec_to_i32() == 0x4000_0042,
            Keycode::F10.spec_to_i32() == 0x4000_0043,
            Keycode::F11.spec_to_i32() == 0x4000_0044,
            Keycode::F12.spec_to_i32() == 0x4000_0045,
            Keycode::PrintScreen.spec_to_i32() == 0x4000_0046,
            Keycode::ScrollLock.spec_to_i32() == 0x4000_0047,
            Keycode::Pause.spec_to_i32() == 0x4000_0048,
            Keycode::Insert.spec_to_i32() == 0x4000_0049,
            Keycode::Home.spec_to_i32() == 0x4000_004a,
            Keycode::PageUp.spec_to_i32() == 0x4000_004b,
            Keycode::End.spec_to_i32() == 0x4000_004d,
            Keycode::PageDown.spec_to_i32() == 0x4000_004e,
            Keycode::Right.spec_to_i32() == 0x4000_004f,
            Keycode::Left.spec_to_i32() == 0x4000_0050,
            Keycode::Down.spec_to_i32() == 0x4000_0051,
            Keycode::Up.spec_to_i32() == 0x4000_0052,
            Keycode::NumLockClear.spec_to_i32() == 0x4000_0053,
            Keycode::KpDivide.spec_to_i32() == 0x4000_0054,
            Keycode::KpMultiply.spec_to_i32() == 0x4000_0055,
            Keycode::KpMinus.spec_to_i32() == 0x4000_0056,
            Keycode::KpPlus.spec_to_i32() == 0x4000_0057,
            Keycode::KpEnter.spec_to_i32() == 0x4000_0058,
            Keycode::Kp1.spec_to_i32() == 0x4000_0059,
            Keycode::Kp2.spec_to_i32() == 0x4000_005a,
            Keycode::Kp3.spec_to_i32() == 0x4000_005b,
            Keycode::Kp4.spec_to_i32() == 0x4000_005c,
            Keycode::Kp5.spec_to_i32() == 0x4000_005d,
            Keycode::Kp6.spec_to_i32() == 0x4000_005e,
            Keycode::Kp7.spec_to_i32() == 0x4000_005f,
            Keycode::Kp8.spec_to_i32() == 0x4000_0060,
            Keycode::Kp9.spec_to_i32() == 0x4000_0061,
            Keycode::Kp0.spec_to_i32() == 0x4000_0062,
            Keycode::KpPeriod.spec_to_i32() == 0x4000_0063,
            Keycode::Application.spec_to_i32() == 0x4000_0065,
            Keycode::Power.spec_to_i32() == 0x4000_0066,
            Keycode::KpEquals.spec_to_i32() == 0x4000_0067,
            Keycode::F13.spec_to_i32() == 0x4000_0068,
            Keycode::F14.spec_to_i32() == 0x4000_0069,
            Keycode::F15.spec_to_i32() == 0x4000_006a,
            Keycode::F16.spec_to_i32() == 0x4000_006b,
            Keycode::F17.spec_to_i32() == 0x4000_006c,
            Keycode::F18.spec_to_i32() == 0x4000_006d,
            Keycode::F19.spec_to_i32() == 0x4000_006e,
            Keycode::F20.spec_to_i32() == 0x4000_006f,
            Keycode::F21.spec_to_i32() == 0x4000_0070,
            Keycode::F22.spec_to_i32() == 0x4000_0071,
            Keycode::F23.spec_to_i32() == 0x4000_0072,
            Keycode::F24.spec_to_i32() == 0x4000_0073,
            Keycode::Execute.spec_to_i32() == 0x4000_0074,
            Keycode::Help.spec_to_i32() == 0x4000_0075,
            Keycode::Menu.spec_to_i32() == 0x4000_0076,
            Keycode::Select.spec_to_i32() == 0x4000_0077,
            Keycode::Stop.spec_to_i32() == 0x4000_0078,
            Keycode::Again.spec_to_i32() == 0x4000_0079,
            Keycode::Undo.spec_to_i32() == 0x4000_007a,
            Keycode::Cut.spec_to_i32() == 0x4000_007b,
            Keycode::Copy.spec_to_i32() == 0x4000_007c,
            Keycode::Paste.spec_to_i32() == 0x4000_007d,
            Keycode::Find.spec_to_i32() == 0x4000_007e,
            Keycode::Mute.spec_to_i32() == 0x4000_007f,
            Keycode::VolumeUp.spec_to_i32() == 0x4000_0080,
            Keycode::VolumeDown.spec_to_i32() == 0x4000_0081,
            Keycode::KpComma.spec_to_i32() == 0x4000_0085,
            Keycode::KpEqualsAS400.spec_to_i32() == 0x4000_0086,
            Keycode::AltErase.spec_to_i32() == 0x4000_0099,
            Keycode::SysReq.spec_to_i32() == 0x4000_009a,
            Keycode::Cancel.spec_to_i32() == 0x4000_009b,
            Keycode::Clear.spec_to_i32() == 0x4000_009c,
            Keycode::Prior.spec_to_i32() == 0x4000_009d,
            Keycode::Return2.spec_to_i32() == 0x4000_009e,
            Keycode::Separator.spec_to_i32() == 0x4000_009f,
            Keycode::Out.spec_to_i32() == 0x4000_00a0,
            Keycode::Oper.spec_to_i32() == 0x4000_00a1,
            Keycode::ClearAgain.spec_to_i32() == 0x4000_00a2,
            Keycode::CrSel.spec_to_i32() == 0x4000_00a3,
            Keycode::ExSel.spec_to_i32() == 0x4000_00a4,
            Keycode::Kp00.spec_to_i32() == 0x4000_00b0,
            Keycode::Kp000.spec_to_i32() == 0x4000_00b1,
            Keycode::ThousandsSeparator.spec_to_i32() == 0x4000_00b2,
            Keycode::DecimalSeparator.spec_to_i32() == 0x4000_00b3,
            Keycode::CurrencyUnit.spec_to_i32() == 0x4000_00b4,
            Keycode::CurrencySubUnit.spec_to_i32() == 0x4000_00b5,
            Keycode::KpLeftParen.spec_to_i32() == 0x4000_00b6,
            Keycode::KpRightParen.spec_to_i32() == 0x4000_00b7,
            Keycode::KpLeftBrace.spec_to_i32() == 0x4000_00b8,
            Keycode::KpRightBrace.spec_to_i32() == 0x4000_00b9,
            Keycode::KpTab.spec_to_i32() == 0x4000_00ba,
            Keycode::KpBackspace.spec_to_i32() == 0x4000_00bb,
            Keycode::KpA.spec_to_i32() == 0x4000_00bc,
            Keycode::KpB.spec_to_i32() == 0x4000_00bd,
            Keycode::KpC.spec_to_i32() == 0x4000_00be,
            Keycode::KpD.spec_to_i32() == 0x4000_00bf,
            Keycode::KpE.spec_to_i32() == 0x4000_00c0,
            Keycode::KpF.spec_to_i32() == 0x4000_00c1,
            Keycode::KpXor.spec_to_i32() == 0x4000_00c2,
            Keycode::KpPower.spec_to_i32() == 0x4000_00c3,
            Keycode::KpPercent.spec_to_i32() == 0x4000_00c4,
            Keycode::KpLess.spec_to_i32() == 0x4000_00c5,
            Keycode::KpGreater.spec_to_i32() == 0x4000_00c6,
            Keycode::KpAmpersand.spec_to_i32() == 0x4000_00c7,
            Keycode::KpDblAmpersand.spec_to_i32() == 0x4000_00c8,
            Keycode::KpVerticalBar.spec_to_i32() == 0x4000_00c9,
            Keycode::KpDblVerticalBar.spec_to_i32() == 0x4000_00ca,
            Keycode::KpColon.spec_to_i32() == 0x4000_00cb,
            Keycode::KpHash.spec_to_i32() == 0x4000_00cc,
            Keycode::KpSpace.spec_to_i32() == 0x4000_00cd,
            Keycode::KpAt.spec_to_i32() == 0x4000_00ce,
            Keycode::KpExclam.spec_to_i32() == 0x4000_00cf,
            Keycode::KpMemStore.spec_to_i32() == 0x4000_00d0,
            Keycode::KpMemRecall.spec_to_i32() == 0x4000_00d1,
            Keycode::KpMemClear.spec_to_i32() == 0x4000_00d2,
            Keycode::KpMemAdd.spec_to_i32() == 0x4000_00d3,
            Keycode::KpMemSubtract.spec_to_i32() == 0x4000_00d4,
            Keycode::KpMemMultiply.spec_to_i32() == 0x4000_00d5,
            Keycode::KpMemDivide.spec_to_i32() == 0x4000_00d6,
            Keycode::KpPlusMinus.spec_to_i32() == 0x4000_00d7,
            Keycode::KpClear.spec_to_i32() == 0x4000_00d8,
            Keycode::KpClearEntry.spec_to_i32() == 0x4000_00d9,
            Keycode::KpBinary.spec_to_i32() == 0x4000_00da,
            Keycode::KpOctal.spec_to_i32() == 0x4000_00db,
            Keycode::KpDecimal.spec_to_i32() == 0x4000_00dc,
            Keycode::KpHexadecimal.spec_to_i32() == 0x4000_00dd,
            Keycode::LCtrl.spec_to_i32() == 0x4000_00e0,
            Keycode::LShift.spec_to_i32() == 0x4000_00e1,
            Keycode::LAlt.spec_to_i32() == 0x4000_00e2,
            Keycode::LGui.spec_to_i32() == 0x4000_00e3,
            Keycode::RCtrl.spec_to_i32() == 0x4000_00e4,
            Keycode::RShift.spec_to_i32() == 0x4000_00e5,
            Keycode::RAlt.spec_to_i32() == 0x4000_00e6,
            Keycode::RGui.spec_to_i32() == 0x4000_00e7,
            Keycode::Mode.spec_to_i32() == 0x4000_0101,
            Keycode::AudioNext.spec_to_i32() == 0x4000_0102,
            Keycode::AudioPrev.spec_to_i32() == 0x4000_0103,
            Keycode::AudioStop.spec_to_i32() == 0x4000_0104,
            Keycode::AudioPlay.spec_to_i32() == 0x4000_0105,
            Keycode::AudioMute.spec_to_i32() == 0x4000_0106,
            Keycode::MediaSelect.spec_to_i32() == 0x4000_0107,
            Keycode::Www.spec_to_i32() == 0x4000_0108,
            Keycode::Mail.spec_to_i32() == 0x4000_0109,
            Keycode::Calculator.spec_to_i32() == 0x4000_010a,
            Keycode::Computer.spec_to_i32() == 0x4000_010b,
            Keycode::AcSearch.spec_to_i32() == 0x4000_010c,
            Keycode::AcHome.spec_to_i32() == 0x4000_010d,
            Keycode::AcBack.spec_to_i32() == 0x4000_010e,
            Keycode::AcForward.spec_to_i32() == 0x4000_010f,
            Keycode::AcStop.spec_to_i32() == 0x4000_0110,
            Keycode::AcRefresh.spec_to_i32() == 0x4000_0111,
            Keycode::AcBookmarks.spec_to_i32() == 0x4000_0112,
            Keycode::BrightnessDown.spec_to_i32() == 0x4000_0113,
            Keycode::BrightnessUp.spec_to_i32() == 0x4000_0114,
            Keycode::DisplaySwitch.spec_to_i32() == 0x4000_0115,
            Keycode::KbdIllumToggle.spec_to_i32() == 0x4000_0116,
            Keycode::KbdIllumDown.spec_to_i32() == 0x4000_0117,
            Keycode::KbdIllumUp.spec_to_i32() == 0x4000_0118,
            Keycode::Eject.spec_to_i32() == 0x4000_0119,
            Keycode::Sleep.spec_to_i32() == 0x4000_011a,
            Self::spec_from_i32(8) == Some(Keycode::Backspace),
            Self::spec_from_i32(9) == Some(Keycode::Tab),
            Self::spec_from_i32(13) == Some(Keycode::Return),
            Self::spec_from_i32(27) == Some(Keycode::Escape),
            Self::spec_from_i32(32) == Some(Keycode::Space),
            Self::spec_from_i32(33) == Some(Keycode::Exclaim),
            Self::spec_from_i32(34) == Some(Keycode::Quotedbl),
            Self::spec_from_i32(35) == Some(Keycode::Hash),
            Self::spec_from_i32(36) == Some(Keycode::Dollar),
            Self::spec_from_i32(37) == Some(Keycode::Percent),
            Self::spec_from_i32(38) == Some(Keycode::Ampersand),
            Self::spec_from_i32(39) == Some(Keycode::Quote),
            Self::spec_from_i32(40) == Some(Keycode::LeftParen),
            Self::spec_from_i32(41) == Some(Keycode::RightParen),
            Self::spec_from_i32(42) == Some(Keycode::Asterisk),
            Self::spec_from_i32(43) == Some(Keycode::Plus),
            Self::spec_from_i32(44) == Some(Keycode::Comma),
            Self::spec_from_i32(45) == Some(Keycode::Minus),
            Self::spec_from_i32(46) == Some(Keycode::Period),
            Self::spec_from_i32(47) == Some(Keycode::Slash),
            Self::spec_from_i32(48) == Some(Keycode::Num0),
            Self::spec_from_i32(49) == Some(Keycode::Num1),
            Self::spec_from_i32(50) == Some(Keycode::Num2),
            Self::spec_from_i32(51) == Some(Keycode::Num3),
            Self::spec_from_i32(52) == Some(Keycode::Num4),
            Self::spec_from_i32(53) == Some(Keycode::Num5),
            Self::spec_from_i32(54) == Some(Keycode::Num6),
            Self::spec_from_i32(55) == Some(Keycode::Num7),
            Self::spec_from_i32(56) == Some(Keycode::Num8),
            Self::spec_from_i32(57) == Some(Keycode::Num9),
            Self::spec_from_i32(58) == Some(Keycode::Colon),
            Self::spec_from_i32(59) == Some(Keycode::Semicolon),
            Self::spec_from_i32(60) == Some(Keycode::Less),
            Self::spec_from_i32(61) == Some(Keycode::Equals),
            Self::spec_from_i32(62) == Some(Keycode::Greater),
            Self::spec_from_i32(63) == Some(Keycode::Question),
            Self::spec_from_i32(64) == Some(Keycode::At),
            Self::spec_from_i32(91) == Some(Keycode::LeftBracket),
            Self::spec_from_i32(92) == Some(Keycode::Backslash),
            Self::spec_from_i32(93) == Some(Keycode::RightBracket),
            Self::spec_from_i32(94) == Some(Keycode::Caret),
            Self::spec_from_i32(95) == Some(Keycode::Underscore),
            Self::spec_from_i32(96) == Some(Keycode::Backquote),
            Self::spec_from_i32(97) == Some(Keycode::A),
            Self::spec_from_i32(98) == Some(Keycode::B),
            Self::spec_from_i32(99) == Some(Keycode::C),
            Self::spec_from_i32(100) == Some(Keycode::D),
            Self::spec_from_i32(101) == Some(Keycode::E),
            Self::spec_from_i32(102) == Some(Keycode::F),
            Self::spec_from_i32(103) == Some(Keycode::G),
            Self::spec_from_i32(104) == Some(Keycode::H),
            Self::spec_from_i32(105) == Some(Keycode::I),
            Self::spec_from_i32(106) == Some(Keycode::J),
            Self::spec_from_i32(107) == Some(Keycode::K),
            Self::spec_from_i32(108) == Some(Keycode::L),
            Self::spec_from_i32(109) == Some(Keycode::M),
            Self::spec_from_i32(110) == Some(Keycode::N),
            Self::spec_from_i32(111) == Some(Keycode::O),
            Self::spec_from_i32(112) == Some(Keycode::P),
            Self::spec_from_i32(113) == Some(Keycode::Q),
            Self::spec_from_i32(114) == Some(Keycode::R),
            Self::spec_from_i32(115) == Some(Keycode::S),
            Self::spec_from_i32(116) == Some(Keycode::T),
            Self::spec_from_i32(117) == Some(Keycode::U),
            Self::spec_from_i32(118) == Some(Keycode::V),
            Self::spec_from_i32(119) == Some(Keycode::W),
            Self::spec_from_i32(120) == Some(Keycode::X),
            Self::spec_from_i32(121) == Some(Keycode::Y),
            Self::spec_from_i32(122) == Some(Keycode::Z),
            Self::spec_from_i32(127) == Some(Keycode::Delete),
            Self::spec_from_i32(0x4000_0039) == Some(Keycode::CapsLock),
            Self::spec_from_i32(0x4000_003a) == Some(Keycode::F1),
            Self::spec_from_i32(0x4000_003b) == Some(Keycode::F2),
            Self::spec_from_i32(0x4000_003c) == Some(Keycode::F3),
            Self::spec_from_i32(0x4000_003d) == Some(Keycode::F4),
            Self::spec_from_i32(0x4000_003e) == Some(Keycode::F5),
            Self::spec_from_i32(0x4000_003f) == Some(Keycode::F6),
            Self::spec_from_i32(0x4000_0040) == Some(Keycode::F7),
            Self::spec_from_i32(0x4000_0041) == Some(Keycode::F8),
            Self::spec_from_i32(0x4000_0042) == Some(Keycode::F9),
            Self::spec_from_i32(0x4000_0043) == Some(Keycode::F10),
            Self::spec_from_i32(0x4000_0044) == Some(Keycode::F11),
            Self::spec_from_i32(0x4000_0045) == Some(Keycode::F12),
            Self::spec_from_i32(0x4000_0046) == Some(Keycode::PrintScreen),
            Self::spec_from_i32(0x4000_0047) == Some(Keycode::ScrollLock),
            Self::spec_from_i32(0x4000_0048) == Some(Keycode::Pause),
            Self::spec_from_i32(0x4000_0049) == Some(Keycode::Insert),
            Self::spec_from_i32(0x4000_004a) == Some(Keycode::Home),
            Self::spec_from_i32(0x4000_004b) == Some(Keycode::PageUp),
            Self::spec_from_i32(0x4000_004d) == Some(Keycode::End),
            Self::spec_from_i32(0x4000_004e) == Some(Keycode::PageDown),
            Self::spec_from_i32(0x4000_004f) == Some(Keycode::Right),
            Self::spec_from_i32(0x4000_0050) == Some(Keycode::Left),
            Self::spec_from_i32(0x4000_0051) == Some(Keycode::Down),
            Self::spec_from_i32(0x4000_0052) == Some(Keycode::Up),
            Self::spec_from_i32(0x4000_0053) == Some(Keycode::NumLockClear),
            Self::spec_from_i32(0x4000_0054) == Some(Keycode::KpDivide),
            Self::spec_from_i32(0x4000_0055) == Some(Keycode::KpMultiply),
            Self::spec_from_i32(0x4000_0056) == Some(Keycode::KpMinus),
            Self::spec_from_i32(0x4000_0057) == Some(Keycode::KpPlus),
            Self::spec_from_i32(0x4000_0058) == Some(Keycode::KpEnter),
            Self::spec_from_i32(0x4000_0059) == Some(Keycode::Kp1),
            Self::spec_from_i32(0x4000_005a) == Some(Keycode::Kp2),
            Self::spec_from_i32(0x4000_005b) == Some(Keycode::Kp3),
            Self::spec_from_i32(0x4000_005c) == Some(Keycode::Kp4),
            Self::spec_from_i32(0x4000_005d) == Some(Keycode::Kp5),
            Self::spec_from_i32(0x4000_005e) == Some(Keycode::Kp6),
            Self::spec_from_i32(0x4000_005f) == Some(Keycode::Kp7),
            Self::spec_from_i32(0x4000_0060) == Some(Keycode::Kp8),
            Self::spec_from_i32(0x4000_0061) == Some(Keycode::Kp9),
            Self::spec_from_i32(0x4000_0062) == Some(Keycode::Kp0),
            Self::spec_from_i32(0x4000_0063) == Some(Keycode::KpPeriod),
            Self::spec_from_i32(0x4000_0065) == Some(Keycode::Application),
            Self::spec_from_i32(0x4000_0066) == Some(Keycode::Power),
            Self::spec_from_i32(0x4000_0067) == Some(Keycode::KpEquals),
            Self::spec_from_i32(0x4000_0068) == Some(Keycode::F13),
            Self::spec_from_i32(0x4000_0069) == Some(Keycode::F14),
            Self::spec_from_i32(0x4000_006a) == Some(Keycode::F15),
            Self::spec_from_i32(0x4000_006b) == Some(Keycode::F16),
            Self::spec_from_i32(0x4000_006c) == Some(Keycode::F17),
            Self::spec_from_i32(0x4000_006d) == Some(Keycode::F18),
            Self::spec_from_i32(0x4000_006e) == Some(Keycode::F19),
            Self::spec_from_i32(0x4000_006f) == Some(Keycode::F20),
            Self::spec_from_i32(0x4000_0070) == Some(Keycode::F21),
            Self::spec_from_i32(0x4000_0071) == Some(Keycode::F22),
            Self::spec_from_i32(0x4000_0072) == Some(Keycode::F23),
            Self::spec_from_i32(0x4000_0073) == Some(Keycode::F24),
            Self::spec_from_i32(0x4000_0074) == Some(Keycode::Execute),
            Self::spec_from_i32(0x4000_0075) == Some(Keycode::Help),
            Self::spec_from_i32(0x4000_0076) == Some(Keycode::Menu),
            Self::spec_from_i32(0x4000_0077) == Some(Keycode::Select),
            Self::spec_from_i32(0x4000_0078) == Some(Keycode::Stop),
            Self::spec_from_i32(0x4000_0079) == Some(Keycode::Again),
            Self::spec_from_i32(0x4000_007a) == Some(Keycode::Undo),
            Self::spec_from_i32(0x4000_007b) == Some(Keycode::Cut),
            Self::spec_from_i32(0x4000_007c) == Some(Keycode::Copy),
            Self::spec_from_i32(0x4000_007d) == Some(Keycode::Paste),
            Self::spec_from_i32(0x4000_007e) == Some(Keycode::Find),
            Self::spec_from_i32(0x4000_007f) == Some(Keycode::Mute),
            Self::spec_from_i32(0x4000_0080) == Some(Keycode::VolumeUp),
            Self::spec_from_i32(0x4000_0081) == Some(Keycode::VolumeDown),
            Self::spec_from_i32(0x4000_0085) == Some(Keycode::KpComma),
            Self::spec_from_i32(0x4000_0086) == Some(Keycode::KpEqualsAS400),
            Self::spec_from_i32(0x4000_0099) == Some(Keycode::AltErase),
            Self::spec_from_i32(0x4000_009a) == Some(Keycode::SysReq),
            Self::spec_from_i32(0x4000_009b) == Some(Keycode::Cancel),
            Self::spec_from_i32(0x4000_009c) == Some(Keycode::Clear),
            Self::spec_from_i32(0x4000_009d) == Some(Keycode::Prior),
            Self::spec_from_i32(0x4000_009e) == Some(Keycode::Return2),
            Self::spec_from_i32(0x4000_009f) == Some(Keycode::Separator),
            Self::spec_from_i32(0x4000_00a0) == Some(Keycode::Out),
            Self::spec_from_i32(0x4000_00a1) == Some(Keycode::Oper),
            Self::spec_from_i32(0x4000_00a2) == Some(Keycode::ClearAgain),
            Self::spec_from_i32(0x4000_00a3) == Some(Keycode::CrSel),
            Self::spec_from_i32(0x4000_00a4) == Some(Keycode::ExSel),
            Self::spec_from_i32(0x4000_00b0) == Some(Keycode::Kp00),
            Self::spec_from_i32(0x4000_00b1) == Some(Keycode::Kp000),
            Self::spec_from_i32(0x4000_00b2) == Some(Keycode::ThousandsSeparator),
            Self::spec_from_i32(0x4000_00b3) == Some(Keycode::DecimalSeparator),
            Self::spec_from_i32(0x4000_00b4) == Some(Keycode::CurrencyUnit),
            Self::spec_from_i32(0x4000_00b5) == Some(Keycode::CurrencySubUnit),
            Self::spec_from_i32(0x4000_00b6) == Some(Keycode::KpLeftParen),
            Self::spec_from_i32(0x4000_00b7) == Some(Keycode::KpRightParen),
            Self::spec_from_i32(0x4000_00b8) == Some(Keycode::KpLeftBrace),
            Self::spec_from_i32(0x4000_00b9) == Some(Keycode::KpRightBrace),
            Self::spec_from_i32(0x4000_00ba) == Some(Keycode::KpTab),
            Self::spec_from_i32(0x4000_00bb) == Some(Keycode::KpBackspace),
            Self::spec_from_i32(0x4000_00bc) == Some(Keycode::KpA),
            Self::spec_from_i32(0x4000_00bd) == Some(Keycode::KpB),
            Self::spec_from_i32(0x4000_00be) == Some(Keycode::KpC),
            Self::spec_from_i32(0x4000_00bf) == Some(Keycode::KpD),
            Self::spec_from_i32(0x4000_00c0) == Some(Keycode::KpE),
            Self::spec_from_i32(0x4000_00c1) == Some(Keycode::KpF),
            Self::spec_from_i32(0x4000_00c2) == Some(Keycode::KpXor),
            Self::spec_from_i32(0x4000_00c3) == Some(Keycode::KpPower),
            Self::spec_from_i32(0x4000_00c4) == Some(Keycode::KpPercent),
            Self::spec_from_i32(0x4000_00c5) == Some(Keycode::KpLess),
            Self::spec_from_i32(0x4000_00c6) == Some(Keycode::KpGreater),
            Self::spec_from_i32(0x4000_00c7) == Some(Keycode::KpAmpersand),
            Self::spec_from_i32(0x4000_00c8) == Some(Keycode::KpDblAmpersand),
            Self::spec_from_i32(0x4000_00c9) == Some(Keycode::KpVerticalBar),
            Self::spec_from_i32(0x4000_00ca) == Some(Keycode::KpDblVerticalBar),
            Self::spec_from_i32(0x4000_00cb) == Some(Keycode::KpColon),
            Self::spec_from_i32(0x4000_00cc) == Some(Keycode::KpHash),
            Self::spec_from_i32(0x4000_00cd) == Some(Keycode::KpSpace),
            Self::spec_from_i32(0x4000_00ce) == Some(Keycode::KpAt),
            Self::spec_from_i32(0x4000_00cf) == Some(Keycode::KpExclam),
            Self::spec_from_i32(0x4000_00d0) == Some(Keycode::KpMemStore),
            Self::spec_from_i32(0x4000_00d1) == Some(Keycode::KpMemRecall),
            Self::spec_from_i32(0x4000_00d2) == Some(Keycode::KpMemClear),
            Self::spec_from_i32(0x4000_00d3) == Some(Keycode::KpMemAdd),
            Self::spec_from_i32(0x4000_00d4) == Some(Keycode::KpMemSubtract),
            Self::spec_from_i32(0x4000_00d5) == Some(Keycode::KpMemMultiply),
            Self::spec_from_i32(0x4000_00d6) == Some(Keycode::KpMemDivide),
            Self::spec_from_i32(0x4000_00d7) == Some(Keycode::KpPlusMinus),
            Self::spec_from_i32(0x4000_00d8) == Some(Keycode::KpClear),
            Self::spec_from_i32(0x4000_00d9) == Some(Keycode::KpClearEntry),
            Self::spec_from_i32(0x4000_00da) == Some(Keycode::KpBinary),
            Self::spec_from_i32(0x4000_00db) == Some(Keycode::KpOctal),
            Self::spec_from_i32(0x4000_00dc) == Some(Keycode::KpDecimal),
            Self::spec_from_i32(0x4000_00dd) == Some(Keycode::KpHexadecimal),
            Self::spec_from_i32(0x4000_00e0) == Some(Keycode::LCtrl),
            Self::spec_from_i32(0x4000_00e1) == Some(Keycode::LShift),
            Self::spec_from_i32(0x4000_00e2) == Some(Keycode::LAlt),
            Self::spec_from_i32(0x4000_00e3) == Some(Keycode::LGui),
            Self::spec_from_i32(0x4000_00e4) == Some(Keycode::RCtrl),
            Self::spec_from_i32(0x4000_00e5) == Some(Keycode::RShift),
            Self::spec_from_i32(0x4000_00e6) == Some(Keycode::RAlt),
            Self::spec_from_i32(0x4000_00e7) == Some(Keycode::RGui),
            Self::spec_from_i32(0x4000_0101) == Some(Keycode::Mode),
            Self::spec_from_i32(0x4000_0102) == Some(Keycode::AudioNext),
            Self::spec_from_i32(0x4000_0103) == Some(Keycode::AudioPrev),
            Self::spec_from_i32(0x4000_0104) == Some(Keycode::AudioStop),
            Self::spec_from_i32(0x4000_0105) == Some(Keycode::AudioPlay),
            Self::spec_from_i32(0x4000_0106) == Some(Keycode::AudioMute),
            Self::spec_from_i32(0x4000_0107) == Some(Keycode::MediaSelect),
            Self::spec_from_i32(0x4000_0108) == Some(Keycode::Www),
            Self::spec_from_i32(0x4000_0109) == Some(Keycode::Mail),
            Self::spec_from_i32(0x4000_010a) == Some(Keycode::Calculator),
            Self::spec_from_i32(0x4000_010b) == Some(Keycode::Computer),
            Self::spec_from_i32(0x4000_010c) == Some(Keycode::AcSearch),
            Self::spec_from_i32(0x4000_010d) == Some(Keycode::AcHome),
            Self::spec_from_i32(0x4000_010e) == Some(Keycode::AcBack),
            Self::spec_from_i32(0x4000_010f) == Some(Keycode::AcForward),
            Self::spec_from_i32(0x4000_0110) == Some(Keycode::AcStop),
            Self::spec_from_i32(0x4000_0111) == Some(Keycode::AcRefresh),
            Self::spec_from_i32(0x4000_0112) == Some(Keycode::AcBookmarks),
            Self::spec_from_i32(0x4000_0113) == Some(Keycode::BrightnessDown),
            Self::spec_from_i32(0x4000_0114) == Some(Keycode::BrightnessUp),
            Self::spec_from_i32(0x4000_0115) == Some(Keycode::DisplaySwitch),
            Self::spec_from_i32(0x4000_0116) == Some(Keycode::KbdIllumToggle),
            Self::spec_from_i32(0x4000_0117) == Some(Keycode::KbdIllumDown),
            Self::spec_from_i32(0x4000_0118) == Some(Keycode::KbdIllumUp),
            Self::spec_from_i32(0x4000_0119) == Some(Keycode::Eject),
            Self::spec_from_i32(0x4000_011a) == Some(Keycode::Sleep),
            !(n == 8 || n == 9 || n == 13 || n == 27 || n == 32 || n == 33 || n == 34 || n == 35 || n == 36 || n == 37 || n == 38 || n == 39 || n == 40 || n == 41 || n == 42 || n == 43 || n == 44 || n == 45 || n == 46 || n == 47 || n == 48 || n == 49 || n == 50 || n == 51 || n == 52 || n == 53 || n == 54 || n == 55 || n == 56 || n == 57 || n == 58 || n == 59 || n == 60 || n == 61 || n == 62 || n == 63 || n == 64 || n == 91 || n == 92 || n == 93 || n == 94 || n == 95 || n == 96 || n == 97 || n == 98 || n == 99 || n == 100 || n == 101 || n == 102 || n == 103 || n == 104 || n == 105 || n == 106 || n == 107 || n == 108 || n == 109 || n == 110 || n == 111 || n == 112 || n == 113 || n == 114 || n == 115 || n == 116 || n == 117 || n == 118 || n == 119 || n == 120 || n == 121 || n == 122 || n == 127 || n == 0x4000_0039 || n == 0x4000_003a || n == 0x4000_003b || n == 0x4000_003c || n == 0x4000_003d || n == 0x4000_003e || n == 0x4000_003f || n == 0x4000_0040 || n == 0x4000_0041 || n == 0x4000_0042 || n == 0x4000_0043 || n == 0x4000_0044 || n == 0x4000_0045 || n == 0x4000_0046 || n == 0x4000_0047 || n == 0x4000_0048 || n == 0x4000_0049 || n == 0x4000_004a || n == 0x4000_004b || n == 0x4000_004d || n == 0x4000_004e || n == 0x4000_004f || n == 0x4000_0050 || n == 0x4000_0051 || n == 0x4000_0052 || n == 0x4000_0053 || n == 0x4000_0054 || n == 0x4000_0055 || n == 0x4000_0056 || n == 0x4000_0057 || n == 0x4000_0058 || n == 0x4000_0059 || n == 0x4000_005a || n == 0x4000_005b || n == 0x4000_005c || n == 0x4000_005d || n == 0x4000_005e || n == 0x4000_005f || n == 0x4000_0060 || n == 0x4000_0061 || n == 0x4000_0062 || n == 0x4000_0063 || n == 0x4000_0065 || n == 0x4000_0066 || n == 0x4000_0067 || n == 0x4000_0068 || n == 0x4000_0069 || n == 0x4000_006a || n == 0x4000_006b || n == 0x4000_006c || n == 0x4000_006d || n == 0x4000_006e || n == 0x4000_006f || n == 0x4000_0070 || n == 0x4000_0071 || n == 0x4000_0072 || n == 0x4000_0073 || n == 0x4000_0074 || n == 0x4000_0075 || n == 0x4000_0076 || n == 0x4000_0077 || n == 0x4000_0078 || n == 0x4000_0079 || n == 0x4000_007a || n == 0x4000_007b || n == 0x4000_007c || n == 0x4000_007d || n == 0x4000_007e || n == 0x4000_007f || n == 0x4000_0080 || n == 0x4000_0081 || n == 0x4000_0085 || n == 0x4000_0086 || n == 0x4000_0099 || n == 0x4000_009a || n == 0x4000_009b || n == 0x4000_009c || n == 0x4000_009d || n == 0x4000_009e || n == 0x4000_009f || n == 0x4000_00a0 || n == 0x4000_00a1 || n == 0x4000_00a2 || n == 0x4000_00a3 || n == 0x4000_00a4 || n == 0x4000_00b0 || n == 0x4000_00b1 || n == 0x4000_00b2 || n == 0x4000_00b3 || n == 0x4000_00b4 || n == 0x4000_00b5 || n == 0x4000_00b6 || n == 0x4000_00b7 || n == 0x4000_00b8 || n == 0x4000_00b9 || n == 0x4000_00ba || n == 0x4000_00bb || n == 0x4000_00bc || n == 0x4000_00bd || n == 0x4000_00be || n == 0x4000_00bf || n == 0x4000_00c0 || n == 0x4000_00c1 || n == 0x4000_00c2 || n == 0x4000_00c3 || n == 0x4000_00c4 || n == 0x4000_00c5 || n == 0x4000_00c6 || n == 0x4000_00c7 || n == 0x4000_00c8 || n == 0x4000_00c9 || n == 0x4000_00ca || n == 0x4000_00cb || n == 0x4000_00cc || n == 0x4000_00cd || n == 0x4000_00ce || n == 0x4000_00cf || n == 0x4000_00d0 || n == 0x4000_00d1 || n == 0x4000_00d2 || n == 0x4000_00d3 || n == 0x4000_00d4 || n == 0x4000_00d5 || n == 0x4000_00d6 || n == 0x4000_00d7 || n == 0x4000_00d8 || n == 0x4000_00d9 || n == 0x4000_00da || n == 0x4000_00db || n == 0x4000_00dc || n == 0x4000_00dd || n == 0x4000_00e0 || n == 0x4000_00e1 || n == 0x4000_00e2 || n == 0x4000_00e3 || n == 0x4000_00e4 || n == 0x4000_00e5 || n == 0x4000_00e6 || n == 0x4000_00e7 || n == 0x4000_0101 || n == 0x4000_0102 || n == 0x4000_0103 || n == 0x4000_0104 || n == 0x4000_0105 || n == 0x4000_0106 || n == 0x4000_0107 || n == 0x4000_0108 || n == 0x4000_0109 || n == 0x4000_010a || n == 0x4000_010b || n == 0x4000_010c || n == 0x4000_010d || n == 0x4000_010e || n == 0x4000_010f || n == 0x4000_0110 || n == 0x4000_0111 || n == 0x4000_0112 || n == 0x4000_0113 || n == 0x4000_0114 || n == 0x4000_0115 || n == 0x4000_0116 || n == 0x4000_0117 || n == 0x4000_0118 || n == 0x4000_0119 || n == 0x4000_011a) ==> Self::spec_from_i32(n) == None::<Keycode>,
    {
    }
}


impl Mod {
    /// SDL's modifier bits are 0xffc3 (left and right shift 0x0001 and 0x0002, control 0x0040
    /// and 0x0080, alt 0x0100 and 0x0200, GUI 0x0400 and 0x0800, num lock 0x1000, caps lock
    /// 0x2000, mode 0x4000, reserved 0x8000): a mask is valid exactly when it sets no other
    /// bit.
    pub proof fn lemma_defined_bits(bits: u32)
        ensures
            MOD_ALL_BITS == 0xffc3,
            Mod::is_valid_bits(bits) <==> bits & 0xffff_003c == 0,
    {
        assert(!0xffc3u32 == 0xffff_003cu32) by (bit_vector);
    }
}

} // verus!
