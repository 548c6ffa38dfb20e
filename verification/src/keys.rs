//! The platform-neutral key event vocabulary.
//!
//! Backends convert their native event representations into these types;
//! no backend-specific types may appear here.

use std::time::SystemTime;
use vstd::prelude::*;

use crate::text::{append_decimal, append_hex, decimal_text, hex_text};

verus! {

/// Wall-clock instants, carried through events unchanged.
#[verifier::external_type_specification]
#[verifier::external_body]
pub struct ExSystemTime(SystemTime);

/// A key or mouse button.
///
/// The named variants cover a full standard keyboard layout
/// (letters, digits, punctuation, modifiers, navigation, function
/// keys, numpad) plus common media, power, brightness, browser and
/// editing keys, the main international keys, and mouse buttons.
/// Anything else falls back to [`Key::Other`], which carries the
/// platform's raw key code so no information is lost (see the
/// backend module docs for which code space a platform uses).
#[non_exhaustive]
#[derive(Debug, Clone, Copy, PartialEq, Eq, Hash, Structural)]
pub enum Key {
    // Main keys (US layout)
    Escape,
    Digit1,
    Digit2,
    Digit3,
    Digit4,
    Digit5,
    Digit6,
    Digit7,
    Digit8,
    Digit9,
    Digit0,
    Minus,
    Equal,
    Backspace,
    Tab,
    LeftBracket,
    RightBracket,
    Enter,
    A,
    B,
    C,
    D,
    E,
    F,
    G,
    H,
    I,
    J,
    K,
    L,
    M,
    N,
    O,
    P,
    Q,
    R,
    S,
    T,
    U,
    V,
    W,
    X,
    Y,
    Z,
    Semicolon,
    Apostrophe,
    Grave,
    Backslash,
    Comma,
    Dot,
    Slash,
    IntlBackslash,
    Space,
    // Modifiers and locks
    LeftCtrl,
    RightCtrl,
    LeftShift,
    RightShift,
    LeftAlt,
    RightAlt,
    LeftMeta,
    RightMeta,
    Compose,
    Fn,
    Menu,
    CapsLock,
    NumLock,
    ScrollLock,
    // Navigation
    Insert,
    Delete,
    Home,
    End,
    PageUp,
    PageDown,
    Up,
    Down,
    Left,
    Right,
    PrintScreen,
    Pause,
    // Function keys
    F1,
    F2,
    F3,
    F4,
    F5,
    F6,
    F7,
    F8,
    F9,
    F10,
    F11,
    F12,
    F13,
    F14,
    F15,
    F16,
    F17,
    F18,
    F19,
    F20,
    F21,
    F22,
    F23,
    F24,
    // Numpad
    Numpad0,
    Numpad1,
    Numpad2,
    Numpad3,
    Numpad4,
    Numpad5,
    Numpad6,
    Numpad7,
    Numpad8,
    Numpad9,
    NumpadEnter,
    NumpadPlus,
    NumpadMinus,
    NumpadAsterisk,
    NumpadSlash,
    NumpadDot,
    NumpadEqual,
    NumpadComma,
    KpJpComma,
    // Media keys
    VolumeUp,
    VolumeDown,
    Mute,
    MicMute,
    PlayPause,
    Play,
    Stop,
    NextTrack,
    PreviousTrack,
    Rewind,
    FastForward,
    Record,
    Eject,
    MediaSelect,
    // Power, brightness and illumination
    Power,
    Sleep,
    WakeUp,
    BrightnessUp,
    BrightnessDown,
    KbdIllumUp,
    KbdIllumDown,
    KbdIllumToggle,
    // Browser and application keys
    Email,
    Calculator,
    Computer,
    Search,
    BrowserHome,
    BrowserBack,
    BrowserForward,
    Refresh,
    Bookmarks,
    Bluetooth,
    Wlan,
    TouchpadToggle,
    TouchpadOn,
    TouchpadOff,
    // Editing keys
    Copy,
    Cut,
    Paste,
    Undo,
    Redo,
    Again,
    New,
    Open,
    Find,
    Help,
    // International keys
    Ro,
    Yen,
    Hangeul,
    Hanja,
    Hiragana,
    Katakana,
    KatakanaHiragana,
    Henkan,
    Muhenkan,
    ZenkakuHankaku,
    // Mouse buttons
    MouseLeft,
    MouseRight,
    MouseMiddle,
    MouseSide,
    MouseExtra,
    MouseForward,
    MouseBack,
    /// A key without a named variant; carries the platform's raw key code.
    Other(u16),
}

/// How many named variants [`Key`] has (every variant but [`Key::Other`]).
pub const NAMED_KEY_COUNT: u8 = 185;

/// Whether `key` is a named variant, that is, not [`Key::Other`].
pub open spec fn is_named(key: Key) -> bool {
    !(key is Other)
}

/// The position of a named key in [`Key::get_all_keys`]; [`Key::Other`]
/// lies past the end.
pub open spec fn key_ordinal(key: Key) -> int {
    match key {
        Key::Escape => 0,
        Key::Digit1 => 1,
        Key::Digit2 => 2,
        Key::Digit3 => 3,
        Key::Digit4 => 4,
        Key::Digit5 => 5,
        Key::Digit6 => 6,
        Key::Digit7 => 7,
        Key::Digit8 => 8,
        Key::Digit9 => 9,
        Key::Digit0 => 10,
        Key::Minus => 11,
        Key::Equal => 12,
        Key::Backspace => 13,
        Key::Tab => 14,
        Key::LeftBracket => 15,
        Key::RightBracket => 16,
        Key::Enter => 17,
        Key::A => 18,
        Key::B => 19,
        Key::C => 20,
        Key::D => 21,
        Key::E => 22,
        Key::F => 23,
        Key::G => 24,
        Key::H => 25,
        Key::I => 26,
        Key::J => 27,
        Key::K => 28,
        Key::L => 29,
        Key::M => 30,
        Key::N => 31,
        Key::O => 32,
        Key::P => 33,
        Key::Q => 34,
        Key::R => 35,
        Key::S => 36,
        Key::T => 37,
        Key::U => 38,
        Key::V => 39,
        Key::W => 40,
        Key::X => 41,
        Key::Y => 42,
        Key::Z => 43,
        Key::Semicolon => 44,
        Key::Apostrophe => 45,
        Key::Grave => 46,
        Key::Backslash => 47,
        Key::Comma => 48,
        Key::Dot => 49,
        Key::Slash => 50,
        Key::IntlBackslash => 51,
        Key::Space => 52,
        Key::LeftCtrl => 53,
        Key::RightCtrl => 54,
        Key::LeftShift => 55,
        Key::RightShift => 56,
        Key::LeftAlt => 57,
        Key::RightAlt => 58,
        Key::LeftMeta => 59,
        Key::RightMeta => 60,
        Key::Compose => 61,
        Key::Fn => 62,
        Key::Menu => 63,
        Key::CapsLock => 64,
        Key::NumLock => 65,
        Key::ScrollLock => 66,
        Key::Insert => 67,
        Key::Delete => 68,
        Key::Home => 69,
        Key::End => 70,
        Key::PageUp => 71,
        Key::PageDown => 72,
        Key::Up => 73,
        Key::Down => 74,
        Key::Left => 75,
        Key::Right => 76,
        Key::PrintScreen => 77,
        Key::Pause => 78,
        Key::F1 => 79,
        Key::F2 => 80,
        Key::F3 => 81,
        Key::F4 => 82,
        Key::F5 => 83,
        Key::F6 => 84,
        Key::F7 => 85,
        Key::F8 => 86,
        Key::F9 => 87,
        Key::F10 => 88,
        Key::F11 => 89,
        Key::F12 => 90,
        Key::F13 => 91,
        Key::F14 => 92,
        Key::F15 => 93,
        Key::F16 => 94,
        Key::F17 => 95,
        Key::F18 => 96,
        Key::F19 => 97,
        Key::F20 => 98,
        Key::F21 => 99,
        Key::F22 => 100,
        Key::F23 => 101,
        Key::F24 => 102,
        Key::Numpad0 => 103,
        Key::Numpad1 => 104,
        Key::Numpad2 => 105,
        Key::Numpad3 => 106,
        Key::Numpad4 => 107,
        Key::Numpad5 => 108,
        Key::Numpad6 => 109,
        Key::Numpad7 => 110,
        Key::Numpad8 => 111,
        Key::Numpad9 => 112,
        Key::NumpadEnter => 113,
        Key::NumpadPlus => 114,
        Key::NumpadMinus => 115,
        Key::NumpadAsterisk => 116,
        Key::NumpadSlash => 117,
        Key::NumpadDot => 118,
        Key::NumpadEqual => 119,
        Key::NumpadComma => 120,
        Key::KpJpComma => 121,
        Key::VolumeUp => 122,
        Key::VolumeDown => 123,
        Key::Mute => 124,
        Key::MicMute => 125,
        Key::PlayPause => 126,
        Key::Play => 127,
        Key::Stop => 128,
        Key::NextTrack => 129,
        Key::PreviousTrack => 130,
        Key::Rewind => 131,
        Key::FastForward => 132,
        Key::Record => 133,
        Key::Eject => 134,
        Key::MediaSelect => 135,
        Key::Power => 136,
        Key::Sleep => 137,
        Key::WakeUp => 138,
        Key::BrightnessUp => 139,
        Key::BrightnessDown => 140,
        Key::KbdIllumUp => 141,
        Key::KbdIllumDown => 142,
        Key::KbdIllumToggle => 143,
        Key::Email => 144,
        Key::Calculator => 145,
        Key::Computer => 146,
        Key::Search => 147,
        Key::BrowserHome => 148,
        Key::BrowserBack => 149,
        Key::BrowserForward => 150,
        Key::Refresh => 151,
        Key::Bookmarks => 152,
        Key::Bluetooth => 153,
        Key::Wlan => 154,
        Key::TouchpadToggle => 155,
        Key::TouchpadOn => 156,
        Key::TouchpadOff => 157,
        Key::Copy => 158,
        Key::Cut => 159,
        Key::Paste => 160,
        Key::Undo => 161,
        Key::Redo => 162,
        Key::Again => 163,
        Key::New => 164,
        Key::Open => 165,
        Key::Find => 166,
        Key::Help => 167,
        Key::Ro => 168,
        Key::Yen => 169,
        Key::Hangeul => 170,
        Key::Hanja => 171,
        Key::Hiragana => 172,
        Key::Katakana => 173,
        Key::KatakanaHiragana => 174,
        Key::Henkan => 175,
        Key::Muhenkan => 176,
        Key::ZenkakuHankaku => 177,
        Key::MouseLeft => 178,
        Key::MouseRight => 179,
        Key::MouseMiddle => 180,
        Key::MouseSide => 181,
        Key::MouseExtra => 182,
        Key::MouseForward => 183,
        Key::MouseBack => 184,
        Key::Other(_) => 185,
    }
}

/// The named key at position `index` of [`Key::get_all_keys`].
pub open spec fn named_key_at(index: u8) -> Option<Key> {
    match index {
        0 => Some(Key::Escape),
        1 => Some(Key::Digit1),
        2 => Some(Key::Digit2),
        3 => Some(Key::Digit3),
        4 => Some(Key::Digit4),
        5 => Some(Key::Digit5),
        6 => Some(Key::Digit6),
        7 => Some(Key::Digit7),
        8 => Some(Key::Digit8),
        9 => Some(Key::Digit9),
        10 => Some(Key::Digit0),
        11 => Some(Key::Minus),
        12 => Some(Key::Equal),
        13 => Some(Key::Backspace),
        14 => Some(Key::Tab),
        15 => Some(Key::LeftBracket),
        16 => Some(Key::RightBracket),
        17 => Some(Key::Enter),
        18 => Some(Key::A),
        19 => Some(Key::B),
        20 => Some(Key::C),
        21 => Some(Key::D),
        22 => Some(Key::E),
        23 => Some(Key::F),
        24 => Some(Key::G),
        25 => Some(Key::H),
        26 => Some(Key::I),
        27 => Some(Key::J),
        28 => Some(Key::K),
        29 => Some(Key::L),
        30 => Some(Key::M),
        31 => Some(Key::N),
        32 => Some(Key::O),
        33 => Some(Key::P),
        34 => Some(Key::Q),
        35 => Some(Key::R),
        36 => Some(Key::S),
        37 => Some(Key::T),
        38 => Some(Key::U),
        39 => Some(Key::V),
        40 => Some(Key::W),
        41 => Some(Key::X),
        42 => Some(Key::Y),
        43 => Some(Key::Z),
        44 => Some(Key::Semicolon),
        45 => Some(Key::Apostrophe),
        46 => Some(Key::Grave),
        47 => Some(Key::Backslash),
        48 => Some(Key::Comma),
        49 => Some(Key::Dot),
        50 => Some(Key::Slash),
        51 => Some(Key::IntlBackslash),
        52 => Some(Key::Space),
        53 => Some(Key::LeftCtrl),
        54 => Some(Key::RightCtrl),
        55 => Some(Key::LeftShift),
        56 => Some(Key::RightShift),
        57 => Some(Key::LeftAlt),
        58 => Some(Key::RightAlt),
        59 => Some(Key::LeftMeta),
        60 => Some(Key::RightMeta),
        61 => Some(Key::Compose),
        62 => Some(Key::Fn),
        63 => Some(Key::Menu),
        64 => Some(Key::CapsLock),
        65 => Some(Key::NumLock),
        66 => Some(Key::ScrollLock),
        67 => Some(Key::Insert),
        68 => Some(Key::Delete),
        69 => Some(Key::Home),
        70 => Some(Key::End),
        71 => Some(Key::PageUp),
        72 => Some(Key::PageDown),
        73 => Some(Key::Up),
        74 => Some(Key::Down),
        75 => Some(Key::Left),
        76 => Some(Key::Right),
        77 => Some(Key::PrintScreen),
        78 => Some(Key::Pause),
        79 => Some(Key::F1),
        80 => Some(Key::F2),
        81 => Some(Key::F3),
        82 => Some(Key::F4),
        83 => Some(Key::F5),
        84 => Some(Key::F6),
        85 => Some(Key::F7),
        86 => Some(Key::F8),
        87 => Some(Key::F9),
        88 => Some(Key::F10),
        89 => Some(Key::F11),
        90 => Some(Key::F12),
        91 => Some(Key::F13),
        92 => Some(Key::F14),
        93 => Some(Key::F15),
        94 => Some(Key::F16),
        95 => Some(Key::F17),
        96 => Some(Key::F18),
        97 => Some(Key::F19),
        98 => Some(Key::F20),
        99 => Some(Key::F21),
        100 => Some(Key::F22),
        101 => Some(Key::F23),
        102 => Some(Key::F24),
        103 => Some(Key::Numpad0),
        104 => Some(Key::Numpad1),
        105 => Some(Key::Numpad2),
        106 => Some(Key::Numpad3),
        107 => Some(Key::Numpad4),
        108 => Some(Key::Numpad5),
        109 => Some(Key::Numpad6),
        110 => Some(Key::Numpad7),
        111 => Some(Key::Numpad8),
        112 => Some(Key::Numpad9),
        113 => Some(Key::NumpadEnter),
        114 => Some(Key::NumpadPlus),
        115 => Some(Key::NumpadMinus),
        116 => Some(Key::NumpadAsterisk),
        117 => Some(Key::NumpadSlash),
        118 => Some(Key::NumpadDot),
        119 => Some(Key::NumpadEqual),
        120 => Some(Key::NumpadComma),
        121 => Some(Key::KpJpComma),
        122 => Some(Key::VolumeUp),
        123 => Some(Key::VolumeDown),
        124 => Some(Key::Mute),
        125 => Some(Key::MicMute),
        126 => Some(Key::PlayPause),
        127 => Some(Key::Play),
        128 => Some(Key::Stop),
        129 => Some(Key::NextTrack),
        130 => Some(Key::PreviousTrack),
        131 => Some(Key::Rewind),
        132 => Some(Key::FastForward),
        133 => Some(Key::Record),
        134 => Some(Key::Eject),
        135 => Some(Key::MediaSelect),
        136 => Some(Key::Power),
        137 => Some(Key::Sleep),
        138 => Some(Key::WakeUp),
        139 => Some(Key::BrightnessUp),
        140 => Some(Key::BrightnessDown),
        141 => Some(Key::KbdIllumUp),
        142 => Some(Key::KbdIllumDown),
        143 => Some(Key::KbdIllumToggle),
        144 => Some(Key::Email),
        145 => Some(Key::Calculator),
        146 => Some(Key::Computer),
        147 => Some(Key::Search),
        148 => Some(Key::BrowserHome),
        149 => Some(Key::BrowserBack),
        150 => Some(Key::BrowserForward),
        151 => Some(Key::Refresh),
        152 => Some(Key::Bookmarks),
        153 => Some(Key::Bluetooth),
        154 => Some(Key::Wlan),
        155 => Some(Key::TouchpadToggle),
        156 => Some(Key::TouchpadOn),
        157 => Some(Key::TouchpadOff),
        158 => Some(Key::Copy),
        159 => Some(Key::Cut),
        160 => Some(Key::Paste),
        161 => Some(Key::Undo),
        162 => Some(Key::Redo),
        163 => Some(Key::Again),
        164 => Some(Key::New),
        165 => Some(Key::Open),
        166 => Some(Key::Find),
        167 => Some(Key::Help),
        168 => Some(Key::Ro),
        169 => Some(Key::Yen),
        170 => Some(Key::Hangeul),
        171 => Some(Key::Hanja),
        172 => Some(Key::Hiragana),
        173 => Some(Key::Katakana),
        174 => Some(Key::KatakanaHiragana),
        175 => Some(Key::Henkan),
        176 => Some(Key::Muhenkan),
        177 => Some(Key::ZenkakuHankaku),
        178 => Some(Key::MouseLeft),
        179 => Some(Key::MouseRight),
        180 => Some(Key::MouseMiddle),
        181 => Some(Key::MouseSide),
        182 => Some(Key::MouseExtra),
        183 => Some(Key::MouseForward),
        184 => Some(Key::MouseBack),
        _ => None,
    }
}

/// Every named key, in declaration order.
pub open spec fn all_named_keys() -> Seq<Key> {
    Seq::new(NAMED_KEY_COUNT as nat, |i: int| named_key_at(i as u8).unwrap())
}

/// The display text of a named key.
pub open spec fn named_key_label(key: Key) -> Seq<char> {
    match key {
        Key::Escape => "Escape"@,
        Key::Digit1 => "1"@,
        Key::Digit2 => "2"@,
        Key::Digit3 => "3"@,
        Key::Digit4 => "4"@,
        Key::Digit5 => "5"@,
        Key::Digit6 => "6"@,
        Key::Digit7 => "7"@,
        Key::Digit8 => "8"@,
        Key::Digit9 => "9"@,
        Key::Digit0 => "0"@,
        Key::Minus => "-"@,
        Key::Equal => "="@,
        Key::Backspace => "Backspace"@,
        Key::Tab => "Tab"@,
        Key::LeftBracket => "["@,
        Key::RightBracket => "]"@,
        Key::Enter => "Enter"@,
        Key::A => "A"@,
        Key::B => "B"@,
        Key::C => "C"@,
        Key::D => "D"@,
        Key::E => "E"@,
        Key::F => "F"@,
        Key::G => "G"@,
        Key::H => "H"@,
        Key::I => "I"@,
        Key::J => "J"@,
        Key::K => "K"@,
        Key::L => "L"@,
        Key::M => "M"@,
        Key::N => "N"@,
        Key::O => "O"@,
        Key::P => "P"@,
        Key::Q => "Q"@,
        Key::R => "R"@,
        Key::S => "S"@,
        Key::T => "T"@,
        Key::U => "U"@,
        Key::V => "V"@,
        Key::W => "W"@,
        Key::X => "X"@,
        Key::Y => "Y"@,
        Key::Z => "Z"@,
        Key::Semicolon => ";"@,
        Key::Apostrophe => "'"@,
        Key::Grave => "`"@,
        Key::Backslash => "\\"@,
        Key::Comma => ","@,
        Key::Dot => "."@,
        Key::Slash => "/"@,
        Key::IntlBackslash => "IntlBackslash"@,
        Key::Space => "Space"@,
        Key::LeftCtrl => "LeftCtrl"@,
        Key::RightCtrl => "RightCtrl"@,
        Key::LeftShift => "LeftShift"@,
        Key::RightShift => "RightShift"@,
        Key::LeftAlt => "LeftAlt"@,
        Key::RightAlt => "RightAlt"@,
        Key::LeftMeta => "LeftMeta"@,
        Key::RightMeta => "RightMeta"@,
        Key::Compose => "Compose"@,
        Key::Fn => "Fn"@,
        Key::Menu => "Menu"@,
        Key::CapsLock => "CapsLock"@,
        Key::NumLock => "NumLock"@,
        Key::ScrollLock => "ScrollLock"@,
        Key::Insert => "Insert"@,
        Key::Delete => "Delete"@,
        Key::Home => "Home"@,
        Key::End => "End"@,
        Key::PageUp => "PageUp"@,
        Key::PageDown => "PageDown"@,
        Key::Up => "Up"@,
        Key::Down => "Down"@,
        Key::Left => "Left"@,
        Key::Right => "Right"@,
        Key::PrintScreen => "PrintScreen"@,
        Key::Pause => "Pause"@,
        Key::F1 => "F1"@,
        Key::F2 => "F2"@,
        Key::F3 => "F3"@,
        Key::F4 => "F4"@,
        Key::F5 => "F5"@,
        Key::F6 => "F6"@,
        Key::F7 => "F7"@,
        Key::F8 => "F8"@,
        Key::F9 => "F9"@,
        Key::F10 => "F10"@,
        Key::F11 => "F11"@,
        Key::F12 => "F12"@,
        Key::F13 => "F13"@,
        Key::F14 => "F14"@,
        Key::F15 => "F15"@,
        Key::F16 => "F16"@,
        Key::F17 => "F17"@,
        Key::F18 => "F18"@,
        Key::F19 => "F19"@,
        Key::F20 => "F20"@,
        Key::F21 => "F21"@,
        Key::F22 => "F22"@,
        Key::F23 => "F23"@,
        Key::F24 => "F24"@,
        Key::Numpad0 => "Numpad0"@,
        Key::Numpad1 => "Numpad1"@,
        Key::Numpad2 => "Numpad2"@,
        Key::Numpad3 => "Numpad3"@,
        Key::Numpad4 => "Numpad4"@,
        Key::Numpad5 => "Numpad5"@,
        Key::Numpad6 => "Numpad6"@,
        Key::Numpad7 => "Numpad7"@,
        Key::Numpad8 => "Numpad8"@,
        Key::Numpad9 => "Numpad9"@,
        Key::NumpadEnter => "NumpadEnter"@,
        Key::NumpadPlus => "+"@,
        Key::NumpadMinus => "-"@,
        Key::NumpadAsterisk => "*"@,
        Key::NumpadSlash => "/"@,
        Key::NumpadDot => "NumpadDot"@,
        Key::NumpadEqual => "="@,
        Key::NumpadComma => ","@,
        Key::KpJpComma => "KpJpComma"@,
        Key::VolumeUp => "VolumeUp"@,
        Key::VolumeDown => "VolumeDown"@,
        Key::Mute => "Mute"@,
        Key::MicMute => "MicMute"@,
        Key::PlayPause => "PlayPause"@,
        Key::Play => "Play"@,
        Key::Stop => "Stop"@,
        Key::NextTrack => "NextTrack"@,
        Key::PreviousTrack => "PreviousTrack"@,
        Key::Rewind => "Rewind"@,
        Key::FastForward => "FastForward"@,
        Key::Record => "Record"@,
        Key::Eject => "Eject"@,
        Key::MediaSelect => "MediaSelect"@,
        Key::Power => "Power"@,
        Key::Sleep => "Sleep"@,
        Key::WakeUp => "WakeUp"@,
        Key::BrightnessUp => "BrightnessUp"@,
        Key::BrightnessDown => "BrightnessDown"@,
        Key::KbdIllumUp => "KbdIllumUp"@,
        Key::KbdIllumDown => "KbdIllumDown"@,
        Key::KbdIllumToggle => "KbdIllumToggle"@,
        Key::Email => "Email"@,
        Key::Calculator => "Calculator"@,
        Key::Computer => "Computer"@,
        Key::Search => "Search"@,
        Key::BrowserHome => "BrowserHome"@,
        Key::BrowserBack => "BrowserBack"@,
        Key::BrowserForward => "BrowserForward"@,
        Key::Refresh => "Refresh"@,
        Key::Bookmarks => "Bookmarks"@,
        Key::Bluetooth => "Bluetooth"@,
        Key::Wlan => "Wlan"@,
        Key::TouchpadToggle => "TouchpadToggle"@,
        Key::TouchpadOn => "TouchpadOn"@,
        Key::TouchpadOff => "TouchpadOff"@,
        Key::Copy => "Copy"@,
        Key::Cut => "Cut"@,
        Key::Paste => "Paste"@,
        Key::Undo => "Undo"@,
        Key::Redo => "Redo"@,
        Key::Again => "Again"@,
        Key::New => "New"@,
        Key::Open => "Open"@,
        Key::Find => "Find"@,
        Key::Help => "Help"@,
        Key::Ro => "Ro"@,
        Key::Yen => "Yen"@,
        Key::Hangeul => "Hangeul"@,
        Key::Hanja => "Hanja"@,
        Key::Hiragana => "Hiragana"@,
        Key::Katakana => "Katakana"@,
        Key::KatakanaHiragana => "KatakanaHiragana"@,
        Key::Henkan => "Henkan"@,
        Key::Muhenkan => "Muhenkan"@,
        Key::ZenkakuHankaku => "ZenkakuHankaku"@,
        Key::MouseLeft => "MouseLeft"@,
        Key::MouseRight => "MouseRight"@,
        Key::MouseMiddle => "MouseMiddle"@,
        Key::MouseSide => "MouseSide"@,
        Key::MouseExtra => "MouseExtra"@,
        Key::MouseForward => "MouseForward"@,
        Key::MouseBack => "MouseBack"@,
        Key::Other(_) => Seq::empty(),
    }
}

/// The display text of any key: its label, or `Other(0x..)` with the raw
/// code in (at least two) lowercase hex digits.
pub open spec fn key_text(key: Key) -> Seq<char> {
    match key {
        Key::Other(code) => "Other(0x"@ + hex_text(code as nat) + ")"@,
        _ => named_key_label(key),
    }
}

/// The variant name of a named key.
pub open spec fn named_key_variant(key: Key) -> Seq<char> {
    match key {
        Key::Escape => "Escape"@,
        Key::Digit1 => "Digit1"@,
        Key::Digit2 => "Digit2"@,
        Key::Digit3 => "Digit3"@,
        Key::Digit4 => "Digit4"@,
        Key::Digit5 => "Digit5"@,
        Key::Digit6 => "Digit6"@,
        Key::Digit7 => "Digit7"@,
        Key::Digit8 => "Digit8"@,
        Key::Digit9 => "Digit9"@,
        Key::Digit0 => "Digit0"@,
        Key::Minus => "Minus"@,
        Key::Equal => "Equal"@,
        Key::Backspace => "Backspace"@,
        Key::Tab => "Tab"@,
        Key::LeftBracket => "LeftBracket"@,
        Key::RightBracket => "RightBracket"@,
        Key::Enter => "Enter"@,
        Key::A => "A"@,
        Key::B => "B"@,
        Key::C => "C"@,
        Key::D => "D"@,
        Key::E => "E"@,
        Key::F => "F"@,
        Key::G => "G"@,
        Key::H => "H"@,
        Key::I => "I"@,
        Key::J => "J"@,
        Key::K => "K"@,
        Key::L => "L"@,
        Key::M => "M"@,
        Key::N => "N"@,
        Key::O => "O"@,
        Key::P => "P"@,
        Key::Q => "Q"@,
        Key::R => "R"@,
        Key::S => "S"@,
        Key::T => "T"@,
        Key::U => "U"@,
        Key::V => "V"@,
        Key::W => "W"@,
        Key::X => "X"@,
        Key::Y => "Y"@,
        Key::Z => "Z"@,
        Key::Semicolon => "Semicolon"@,
        Key::Apostrophe => "Apostrophe"@,
        Key::Grave => "Grave"@,
        Key::Backslash => "Backslash"@,
        Key::Comma => "Comma"@,
        Key::Dot => "Dot"@,
        Key::Slash => "Slash"@,
        Key::IntlBackslash => "IntlBackslash"@,
        Key::Space => "Space"@,
        Key::LeftCtrl => "LeftCtrl"@,
        Key::RightCtrl => "RightCtrl"@,
        Key::LeftShift => "LeftShift"@,
        Key::RightShift => "RightShift"@,
        Key::LeftAlt => "LeftAlt"@,
        Key::RightAlt => "RightAlt"@,
        Key::LeftMeta => "LeftMeta"@,
        Key::RightMeta => "RightMeta"@,
        Key::Compose => "Compose"@,
        Key::Fn => "Fn"@,
        Key::Menu => "Menu"@,
        Key::CapsLock => "CapsLock"@,
        Key::NumLock => "NumLock"@,
        Key::ScrollLock => "ScrollLock"@,
        Key::Insert => "Insert"@,
        Key::Delete => "Delete"@,
        Key::Home => "Home"@,
        Key::End => "End"@,
        Key::PageUp => "PageUp"@,
        Key::PageDown => "PageDown"@,
        Key::Up => "Up"@,
        Key::Down => "Down"@,
        Key::Left => "Left"@,
        Key::Right => "Right"@,
        Key::PrintScreen => "PrintScreen"@,
        Key::Pause => "Pause"@,
        Key::F1 => "F1"@,
        Key::F2 => "F2"@,
        Key::F3 => "F3"@,
        Key::F4 => "F4"@,
        Key::F5 => "F5"@,
        Key::F6 => "F6"@,
        Key::F7 => "F7"@,
        Key::F8 => "F8"@,
        Key::F9 => "F9"@,
        Key::F10 => "F10"@,
        Key::F11 => "F11"@,
        Key::F12 => "F12"@,
        Key::F13 => "F13"@,
        Key::F14 => "F14"@,
        Key::F15 => "F15"@,
        Key::F16 => "F16"@,
        Key::F17 => "F17"@,
        Key::F18 => "F18"@,
        Key::F19 => "F19"@,
        Key::F20 => "F20"@,
        Key::F21 => "F21"@,
        Key::F22 => "F22"@,
        Key::F23 => "F23"@,
        Key::F24 => "F24"@,
        Key::Numpad0 => "Numpad0"@,
        Key::Numpad1 => "Numpad1"@,
        Key::Numpad2 => "Numpad2"@,
        Key::Numpad3 => "Numpad3"@,
        Key::Numpad4 => "Numpad4"@,
        Key::Numpad5 => "Numpad5"@,
        Key::Numpad6 => "Numpad6"@,
        Key::Numpad7 => "Numpad7"@,
        Key::Numpad8 => "Numpad8"@,
        Key::Numpad9 => "Numpad9"@,
        Key::NumpadEnter => "NumpadEnter"@,
        Key::NumpadPlus => "NumpadPlus"@,
        Key::NumpadMinus => "NumpadMinus"@,
        Key::NumpadAsterisk => "NumpadAsterisk"@,
        Key::NumpadSlash => "NumpadSlash"@,
        Key::NumpadDot => "NumpadDot"@,
        Key::NumpadEqual => "NumpadEqual"@,
        Key::NumpadComma => "NumpadComma"@,
        Key::KpJpComma => "KpJpComma"@,
        Key::VolumeUp => "VolumeUp"@,
        Key::VolumeDown => "VolumeDown"@,
        Key::Mute => "Mute"@,
        Key::MicMute => "MicMute"@,
        Key::PlayPause => "PlayPause"@,
        Key::Play => "Play"@,
        Key::Stop => "Stop"@,
        Key::NextTrack => "NextTrack"@,
        Key::PreviousTrack => "PreviousTrack"@,
        Key::Rewind => "Rewind"@,
        Key::FastForward => "FastForward"@,
        Key::Record => "Record"@,
        Key::Eject => "Eject"@,
        Key::MediaSelect => "MediaSelect"@,
        Key::Power => "Power"@,
        Key::Sleep => "Sleep"@,
        Key::WakeUp => "WakeUp"@,
        Key::BrightnessUp => "BrightnessUp"@,
        Key::BrightnessDown => "BrightnessDown"@,
        Key::KbdIllumUp => "KbdIllumUp"@,
        Key::KbdIllumDown => "KbdIllumDown"@,
        Key::KbdIllumToggle => "KbdIllumToggle"@,
        Key::Email => "Email"@,
        Key::Calculator => "Calculator"@,
        Key::Computer => "Computer"@,
        Key::Search => "Search"@,
        Key::BrowserHome => "BrowserHome"@,
        Key::BrowserBack => "BrowserBack"@,
        Key::BrowserForward => "BrowserForward"@,
        Key::Refresh => "Refresh"@,
        Key::Bookmarks => "Bookmarks"@,
        Key::Bluetooth => "Bluetooth"@,
        Key::Wlan => "Wlan"@,
        Key::TouchpadToggle => "TouchpadToggle"@,
        Key::TouchpadOn => "TouchpadOn"@,
        Key::TouchpadOff => "TouchpadOff"@,
        Key::Copy => "Copy"@,
        Key::Cut => "Cut"@,
        Key::Paste => "Paste"@,
        Key::Undo => "Undo"@,
        Key::Redo => "Redo"@,
        Key::Again => "Again"@,
        Key::New => "New"@,
        Key::Open => "Open"@,
        Key::Find => "Find"@,
        Key::Help => "Help"@,
        Key::Ro => "Ro"@,
        Key::Yen => "Yen"@,
        Key::Hangeul => "Hangeul"@,
        Key::Hanja => "Hanja"@,
        Key::Hiragana => "Hiragana"@,
        Key::Katakana => "Katakana"@,
        Key::KatakanaHiragana => "KatakanaHiragana"@,
        Key::Henkan => "Henkan"@,
        Key::Muhenkan => "Muhenkan"@,
        Key::ZenkakuHankaku => "ZenkakuHankaku"@,
        Key::MouseLeft => "MouseLeft"@,
        Key::MouseRight => "MouseRight"@,
        Key::MouseMiddle => "MouseMiddle"@,
        Key::MouseSide => "MouseSide"@,
        Key::MouseExtra => "MouseExtra"@,
        Key::MouseForward => "MouseForward"@,
        Key::MouseBack => "MouseBack"@,
        Key::Other(_) => Seq::empty(),
    }
}

/// The debugging text of any key: its variant name, or `Other(..)` with
/// the raw code in decimal.
pub open spec fn key_debug_text(key: Key) -> Seq<char> {
    match key {
        Key::Other(code) => "Other("@ + decimal_text(code as nat) + ")"@,
        _ => named_key_variant(key),
    }
}

impl Key {
    /// The named key at position `index` of [`Key::get_all_keys`].
    fn named(index: u8) -> (key: Option<Key>)
        ensures
            key == named_key_at(index),
    {
        match index {
            0 => Some(Key::Escape),
            1 => Some(Key::Digit1),
            2 => Some(Key::Digit2),
            3 => Some(Key::Digit3),
            4 => Some(Key::Digit4),
            5 => Some(Key::Digit5),
            6 => Some(Key::Digit6),
            7 => Some(Key::Digit7),
            8 => Some(Key::Digit8),
            9 => Some(Key::Digit9),
            10 => Some(Key::Digit0),
            11 => Some(Key::Minus),
            12 => Some(Key::Equal),
            13 => Some(Key::Backspace),
            14 => Some(Key::Tab),
            15 => Some(Key::LeftBracket),
            16 => Some(Key::RightBracket),
            17 => Some(Key::Enter),
            18 => Some(Key::A),
            19 => Some(Key::B),
            20 => Some(Key::C),
            21 => Some(Key::D),
            22 => Some(Key::E),
            23 => Some(Key::F),
            24 => Some(Key::G),
            25 => Some(Key::H),
            26 => Some(Key::I),
            27 => Some(Key::J),
            28 => Some(Key::K),
            29 => Some(Key::L),
            30 => Some(Key::M),
            31 => Some(Key::N),
            32 => Some(Key::O),
            33 => Some(Key::P),
            34 => Some(Key::Q),
            35 => Some(Key::R),
            36 => Some(Key::S),
            37 => Some(Key::T),
            38 => Some(Key::U),
            39 => Some(Key::V),
            40 => Some(Key::W),
            41 => Some(Key::X),
            42 => Some(Key::Y),
            43 => Some(Key::Z),
            44 => Some(Key::Semicolon),
            45 => Some(Key::Apostrophe),
            46 => Some(Key::Grave),
            47 => Some(Key::Backslash),
            48 => Some(Key::Comma),
            49 => Some(Key::Dot),
            50 => Some(Key::Slash),
            51 => Some(Key::IntlBackslash),
            52 => Some(Key::Space),
            53 => Some(Key::LeftCtrl),
            54 => Some(Key::RightCtrl),
            55 => Some(Key::LeftShift),
            56 => Some(Key::RightShift),
            57 => Some(Key::LeftAlt),
            58 => Some(Key::RightAlt),
            59 => Some(Key::LeftMeta),
            60 => Some(Key::RightMeta),
            61 => Some(Key::Compose),
            62 => Some(Key::Fn),
            63 => Some(Key::Menu),
            64 => Some(Key::CapsLock),
            65 => Some(Key::NumLock),
            66 => Some(Key::ScrollLock),
            67 => Some(Key::Insert),
            68 => Some(Key::Delete),
            69 => Some(Key::Home),
            70 => Some(Key::End),
            71 => Some(Key::PageUp),
            72 => Some(Key::PageDown),
            73 => Some(Key::Up),
            74 => Some(Key::Down),
            75 => Some(Key::Left),
            76 => Some(Key::Right),
            77 => Some(Key::PrintScreen),
            78 => Some(Key::Pause),
            79 => Some(Key::F1),
            80 => Some(Key::F2),
            81 => Some(Key::F3),
            82 => Some(Key::F4),
            83 => Some(Key::F5),
            84 => Some(Key::F6),
            85 => Some(Key::F7),
            86 => Some(Key::F8),
            87 => Some(Key::F9),
            88 => Some(Key::F10),
            89 => Some(Key::F11),
            90 => Some(Key::F12),
            91 => Some(Key::F13),
            92 => Some(Key::F14),
            93 => Some(Key::F15),
            94 => Some(Key::F16),
            95 => Some(Key::F17),
            96 => Some(Key::F18),
            97 => Some(Key::F19),
            98 => Some(Key::F20),
            99 => Some(Key::F21),
            100 => Some(Key::F22),
            101 => Some(Key::F23),
            102 => Some(Key::F24),
            103 => Some(Key::Numpad0),
            104 => Some(Key::Numpad1),
            105 => Some(Key::Numpad2),
            106 => Some(Key::Numpad3),
            107 => Some(Key::Numpad4),
            108 => Some(Key::Numpad5),
            109 => Some(Key::Numpad6),
            110 => Some(Key::Numpad7),
            111 => Some(Key::Numpad8),
            112 => Some(Key::Numpad9),
            113 => Some(Key::NumpadEnter),
            114 => Some(Key::NumpadPlus),
            115 => Some(Key::NumpadMinus),
            116 => Some(Key::NumpadAsterisk),
            117 => Some(Key::NumpadSlash),
            118 => Some(Key::NumpadDot),
            119 => Some(Key::NumpadEqual),
            120 => Some(Key::NumpadComma),
            121 => Some(Key::KpJpComma),
            122 => Some(Key::VolumeUp),
            123 => Some(Key::VolumeDown),
            124 => Some(Key::Mute),
            125 => Some(Key::MicMute),
            126 => Some(Key::PlayPause),
            127 => Some(Key::Play),
            128 => Some(Key::Stop),
            129 => Some(Key::NextTrack),
            130 => Some(Key::PreviousTrack),
            131 => Some(Key::Rewind),
            132 => Some(Key::FastForward),
            133 => Some(Key::Record),
            134 => Some(Key::Eject),
            135 => Some(Key::MediaSelect),
            136 => Some(Key::Power),
            137 => Some(Key::Sleep),
            138 => Some(Key::WakeUp),
            139 => Some(Key::BrightnessUp),
            140 => Some(Key::BrightnessDown),
            141 => Some(Key::KbdIllumUp),
            142 => Some(Key::KbdIllumDown),
            143 => Some(Key::KbdIllumToggle),
            144 => Some(Key::Email),
            145 => Some(Key::Calculator),
            146 => Some(Key::Computer),
            147 => Some(Key::Search),
            148 => Some(Key::BrowserHome),
            149 => Some(Key::BrowserBack),
            150 => Some(Key::BrowserForward),
            151 => Some(Key::Refresh),
            152 => Some(Key::Bookmarks),
            153 => Some(Key::Bluetooth),
            154 => Some(Key::Wlan),
            155 => Some(Key::TouchpadToggle),
            156 => Some(Key::TouchpadOn),
            157 => Some(Key::TouchpadOff),
            158 => Some(Key::Copy),
            159 => Some(Key::Cut),
            160 => Some(Key::Paste),
            161 => Some(Key::Undo),
            162 => Some(Key::Redo),
            163 => Some(Key::Again),
            164 => Some(Key::New),
            165 => Some(Key::Open),
            166 => Some(Key::Find),
            167 => Some(Key::Help),
            168 => Some(Key::Ro),
            169 => Some(Key::Yen),
            170 => Some(Key::Hangeul),
            171 => Some(Key::Hanja),
            172 => Some(Key::Hiragana),
            173 => Some(Key::Katakana),
            174 => Some(Key::KatakanaHiragana),
            175 => Some(Key::Henkan),
            176 => Some(Key::Muhenkan),
            177 => Some(Key::ZenkakuHankaku),
            178 => Some(Key::MouseLeft),
            179 => Some(Key::MouseRight),
            180 => Some(Key::MouseMiddle),
            181 => Some(Key::MouseSide),
            182 => Some(Key::MouseExtra),
            183 => Some(Key::MouseForward),
            184 => Some(Key::MouseBack),
            _ => None,
        }
    }

    /// Every named key (every variant but [`Key::Other`]), each once, in
    /// declaration order.
    pub fn get_all_keys() -> (keys: Vec<Key>)
        ensures
            keys@ == all_named_keys(),
    {
        let mut keys: Vec<Key> = Vec::new();
        let mut index: u8 = 0;
        while index < NAMED_KEY_COUNT
            invariant
                index <= NAMED_KEY_COUNT,
                keys@ == all_named_keys().take(index as int),
            decreases NAMED_KEY_COUNT - index,
        {
            proof {
                lemma_named_key_at_in_range(index);
            }
            let key = Key::named(index).unwrap();
            keys.push(key);
            index = index + 1;
            assert(keys@ =~= all_named_keys().take(index as int));
        }
        keys
    }

    fn label(self) -> (text: &'static str)
        requires
            is_named(self),
        ensures
            text@ == named_key_label(self),
    {
        match self {
            Key::Escape => "Escape",
            Key::Digit1 => "1",
            Key::Digit2 => "2",
            Key::Digit3 => "3",
            Key::Digit4 => "4",
            Key::Digit5 => "5",
            Key::Digit6 => "6",
            Key::Digit7 => "7",
            Key::Digit8 => "8",
            Key::Digit9 => "9",
            Key::Digit0 => "0",
            Key::Minus => "-",
            Key::Equal => "=",
            Key::Backspace => "Backspace",
            Key::Tab => "Tab",
            Key::LeftBracket => "[",
            Key::RightBracket => "]",
            Key::Enter => "Enter",
            Key::A => "A",
            Key::B => "B",
            Key::C => "C",
            Key::D => "D",
            Key::E => "E",
            Key::F => "F",
            Key::G => "G",
            Key::H => "H",
            Key::I => "I",
            Key::J => "J",
            Key::K => "K",
            Key::L => "L",
            Key::M => "M",
            Key::N => "N",
            Key::O => "O",
            Key::P => "P",
            Key::Q => "Q",
            Key::R => "R",
            Key::S => "S",
            Key::T => "T",
            Key::U => "U",
            Key::V => "V",
            Key::W => "W",
            Key::X => "X",
            Key::Y => "Y",
            Key::Z => "Z",
            Key::Semicolon => ";",
            Key::Apostrophe => "'",
            Key::Grave => "`",
            Key::Backslash => "\\",
            Key::Comma => ",",
            Key::Dot => ".",
            Key::Slash => "/",
            Key::IntlBackslash => "IntlBackslash",
            Key::Space => "Space",
            Key::LeftCtrl => "LeftCtrl",
            Key::RightCtrl => "RightCtrl",
            Key::LeftShift => "LeftShift",
            Key::RightShift => "RightShift",
            Key::LeftAlt => "LeftAlt",
            Key::RightAlt => "RightAlt",
            Key::LeftMeta => "LeftMeta",
            Key::RightMeta => "RightMeta",
            Key::Compose => "Compose",
            Key::Fn => "Fn",
            Key::Menu => "Menu",
            Key::CapsLock => "CapsLock",
            Key::NumLock => "NumLock",
            Key::ScrollLock => "ScrollLock",
            Key::Insert => "Insert",
            Key::Delete => "Delete",
            Key::Home => "Home",
            Key::End => "End",
            Key::PageUp => "PageUp",
            Key::PageDown => "PageDown",
            Key::Up => "Up",
            Key::Down => "Down",
            Key::Left => "Left",
            Key::Right => "Right",
            Key::PrintScreen => "PrintScreen",
            Key::Pause => "Pause",
            Key::F1 => "F1",
            Key::F2 => "F2",
            Key::F3 => "F3",
            Key::F4 => "F4",
            Key::F5 => "F5",
            Key::F6 => "F6",
            Key::F7 => "F7",
            Key::F8 => "F8",
            Key::F9 => "F9",
            Key::F10 => "F10",
            Key::F11 => "F11",
            Key::F12 => "F12",
            Key::F13 => "F13",
            Key::F14 => "F14",
            Key::F15 => "F15",
            Key::F16 => "F16",
            Key::F17 => "F17",
            Key::F18 => "F18",
            Key::F19 => "F19",
            Key::F20 => "F20",
            Key::F21 => "F21",
            Key::F22 => "F22",
            Key::F23 => "F23",
            Key::F24 => "F24",
            Key::Numpad0 => "Numpad0",
            Key::Numpad1 => "Numpad1",
            Key::Numpad2 => "Numpad2",
            Key::Numpad3 => "Numpad3",
            Key::Numpad4 => "Numpad4",
            Key::Numpad5 => "Numpad5",
            Key::Numpad6 => "Numpad6",
            Key::Numpad7 => "Numpad7",
            Key::Numpad8 => "Numpad8",
            Key::Numpad9 => "Numpad9",
            Key::NumpadEnter => "NumpadEnter",
            Key::NumpadPlus => "+",
            Key::NumpadMinus => "-",
            Key::NumpadAsterisk => "*",
            Key::NumpadSlash => "/",
            Key::NumpadDot => "NumpadDot",
            Key::NumpadEqual => "=",
            Key::NumpadComma => ",",
            Key::KpJpComma => "KpJpComma",
            Key::VolumeUp => "VolumeUp",
            Key::VolumeDown => "VolumeDown",
            Key::Mute => "Mute",
            Key::MicMute => "MicMute",
            Key::PlayPause => "PlayPause",
            Key::Play => "Play",
            Key::Stop => "Stop",
            Key::NextTrack => "NextTrack",
            Key::PreviousTrack => "PreviousTrack",
            Key::Rewind => "Rewind",
            Key::FastForward => "FastForward",
            Key::Record => "Record",
            Key::Eject => "Eject",
            Key::MediaSelect => "MediaSelect",
            Key::Power => "Power",
            Key::Sleep => "Sleep",
            Key::WakeUp => "WakeUp",
            Key::BrightnessUp => "BrightnessUp",
            Key::BrightnessDown => "BrightnessDown",
            Key::KbdIllumUp => "KbdIllumUp",
            Key::KbdIllumDown => "KbdIllumDown",
            Key::KbdIllumToggle => "KbdIllumToggle",
            Key::Email => "Email",
            Key::Calculator => "Calculator",
            Key::Computer => "Computer",
            Key::Search => "Search",
            Key::BrowserHome => "BrowserHome",
            Key::BrowserBack => "BrowserBack",
            Key::BrowserForward => "BrowserForward",
            Key::Refresh => "Refresh",
            Key::Bookmarks => "Bookmarks",
            Key::Bluetooth => "Bluetooth",
            Key::Wlan => "Wlan",
            Key::TouchpadToggle => "TouchpadToggle",
            Key::TouchpadOn => "TouchpadOn",
            Key::TouchpadOff => "TouchpadOff",
            Key::Copy => "Copy",
            Key::Cut => "Cut",
            Key::Paste => "Paste",
            Key::Undo => "Undo",
            Key::Redo => "Redo",
            Key::Again => "Again",
            Key::New => "New",
            Key::Open => "Open",
            Key::Find => "Find",
            Key::Help => "Help",
            Key::Ro => "Ro",
            Key::Yen => "Yen",
            Key::Hangeul => "Hangeul",
            Key::Hanja => "Hanja",
            Key::Hiragana => "Hiragana",
            Key::Katakana => "Katakana",
            Key::KatakanaHiragana => "KatakanaHiragana",
            Key::Henkan => "Henkan",
            Key::Muhenkan => "Muhenkan",
            Key::ZenkakuHankaku => "ZenkakuHankaku",
            Key::MouseLeft => "MouseLeft",
            Key::MouseRight => "MouseRight",
            Key::MouseMiddle => "MouseMiddle",
            Key::MouseSide => "MouseSide",
            Key::MouseExtra => "MouseExtra",
            Key::MouseForward => "MouseForward",
            Key::MouseBack => "MouseBack",
            Key::Other(_) => "",
        }
    }

    fn variant_name(self) -> (text: &'static str)
        requires
            is_named(self),
        ensures
            text@ == named_key_variant(self),
    {
        match self {
            Key::Escape => "Escape",
            Key::Digit1 => "Digit1",
            Key::Digit2 => "Digit2",
            Key::Digit3 => "Digit3",
            Key::Digit4 => "Digit4",
            Key::Digit5 => "Digit5",
            Key::Digit6 => "Digit6",
            Key::Digit7 => "Digit7",
            Key::Digit8 => "Digit8",
            Key::Digit9 => "Digit9",
            Key::Digit0 => "Digit0",
            Key::Minus => "Minus",
            Key::Equal => "Equal",
            Key::Backspace => "Backspace",
            Key::Tab => "Tab",
            Key::LeftBracket => "LeftBracket",
            Key::RightBracket => "RightBracket",
            Key::Enter => "Enter",
            Key::A => "A",
            Key::B => "B",
            Key::C => "C",
            Key::D => "D",
            Key::E => "E",
            Key::F => "F",
            Key::G => "G",
            Key::H => "H",
            Key::I => "I",
            Key::J => "J",
            Key::K => "K",
            Key::L => "L",
            Key::M => "M",
            Key::N => "N",
            Key::O => "O",
            Key::P => "P",
            Key::Q => "Q",
            Key::R => "R",
            Key::S => "S",
            Key::T => "T",
            Key::U => "U",
            Key::V => "V",
            Key::W => "W",
            Key::X => "X",
            Key::Y => "Y",
            Key::Z => "Z",
            Key::Semicolon => "Semicolon",
            Key::Apostrophe => "Apostrophe",
            Key::Grave => "Grave",
            Key::Backslash => "Backslash",
            Key::Comma => "Comma",
            Key::Dot => "Dot",
            Key::Slash => "Slash",
            Key::IntlBackslash => "IntlBackslash",
            Key::Space => "Space",
            Key::LeftCtrl => "LeftCtrl",
            Key::RightCtrl => "RightCtrl",
            Key::LeftShift => "LeftShift",
            Key::RightShift => "RightShift",
            Key::LeftAlt => "LeftAlt",
            Key::RightAlt => "RightAlt",
            Key::LeftMeta => "LeftMeta",
            Key::RightMeta => "RightMeta",
            Key::Compose => "Compose",
            Key::Fn => "Fn",
            Key::Menu => "Menu",
            Key::CapsLock => "CapsLock",
            Key::NumLock => "NumLock",
            Key::ScrollLock => "ScrollLock",
            Key::Insert => "Insert",
            Key::Delete => "Delete",
            Key::Home => "Home",
            Key::End => "End",
            Key::PageUp => "PageUp",
            Key::PageDown => "PageDown",
            Key::Up => "Up",
            Key::Down => "Down",
            Key::Left => "Left",
            Key::Right => "Right",
            Key::PrintScreen => "PrintScreen",
            Key::Pause => "Pause",
            Key::F1 => "F1",
            Key::F2 => "F2",
            Key::F3 => "F3",
            Key::F4 => "F4",
            Key::F5 => "F5",
            Key::F6 => "F6",
            Key::F7 => "F7",
            Key::F8 => "F8",
            Key::F9 => "F9",
            Key::F10 => "F10",
            Key::F11 => "F11",
            Key::F12 => "F12",
            Key::F13 => "F13",
            Key::F14 => "F14",
            Key::F15 => "F15",
            Key::F16 => "F16",
            Key::F17 => "F17",
            Key::F18 => "F18",
            Key::F19 => "F19",
            Key::F20 => "F20",
            Key::F21 => "F21",
            Key::F22 => "F22",
            Key::F23 => "F23",
            Key::F24 => "F24",
            Key::Numpad0 => "Numpad0",
            Key::Numpad1 => "Numpad1",
            Key::Numpad2 => "Numpad2",
            Key::Numpad3 => "Numpad3",
            Key::Numpad4 => "Numpad4",
            Key::Numpad5 => "Numpad5",
            Key::Numpad6 => "Numpad6",
            Key::Numpad7 => "Numpad7",
            Key::Numpad8 => "Numpad8",
            Key::Numpad9 => "Numpad9",
            Key::NumpadEnter => "NumpadEnter",
            Key::NumpadPlus => "NumpadPlus",
            Key::NumpadMinus => "NumpadMinus",
            Key::NumpadAsterisk => "NumpadAsterisk",
            Key::NumpadSlash => "NumpadSlash",
            Key::NumpadDot => "NumpadDot",
            Key::NumpadEqual => "NumpadEqual",
            Key::NumpadComma => "NumpadComma",
            Key::KpJpComma => "KpJpComma",
            Key::VolumeUp => "VolumeUp",
            Key::VolumeDown => "VolumeDown",
            Key::Mute => "Mute",
            Key::MicMute => "MicMute",
            Key::PlayPause => "PlayPause",
            Key::Play => "Play",
            Key::Stop => "Stop",
            Key::NextTrack => "NextTrack",
            Key::PreviousTrack => "PreviousTrack",
            Key::Rewind => "Rewind",
            Key::FastForward => "FastForward",
            Key::Record => "Record",
            Key::Eject => "Eject",
            Key::MediaSelect => "MediaSelect",
            Key::Power => "Power",
            Key::Sleep => "Sleep",
            Key::WakeUp => "WakeUp",
            Key::BrightnessUp => "BrightnessUp",
            Key::BrightnessDown => "BrightnessDown",
            Key::KbdIllumUp => "KbdIllumUp",
            Key::KbdIllumDown => "KbdIllumDown",
            Key::KbdIllumToggle => "KbdIllumToggle",
            Key::Email => "Email",
            Key::Calculator => "Calculator",
            Key::Computer => "Computer",
            Key::Search => "Search",
            Key::BrowserHome => "BrowserHome",
            Key::BrowserBack => "BrowserBack",
            Key::BrowserForward => "BrowserForward",
            Key::Refresh => "Refresh",
            Key::Bookmarks => "Bookmarks",
            Key::Bluetooth => "Bluetooth",
            Key::Wlan => "Wlan",
            Key::TouchpadToggle => "TouchpadToggle",
            Key::TouchpadOn => "TouchpadOn",
            Key::TouchpadOff => "TouchpadOff",
            Key::Copy => "Copy",
            Key::Cut => "Cut",
            Key::Paste => "Paste",
            Key::Undo => "Undo",
            Key::Redo => "Redo",
            Key::Again => "Again",
            Key::New => "New",
            Key::Open => "Open",
            Key::Find => "Find",
            Key::Help => "Help",
            Key::Ro => "Ro",
            Key::Yen => "Yen",
            Key::Hangeul => "Hangeul",
            Key::Hanja => "Hanja",
            Key::Hiragana => "Hiragana",
            Key::Katakana => "Katakana",
            Key::KatakanaHiragana => "KatakanaHiragana",
            Key::Henkan => "Henkan",
            Key::Muhenkan => "Muhenkan",
            Key::ZenkakuHankaku => "ZenkakuHankaku",
            Key::MouseLeft => "MouseLeft",
            Key::MouseRight => "MouseRight",
            Key::MouseMiddle => "MouseMiddle",
            Key::MouseSide => "MouseSide",
            Key::MouseExtra => "MouseExtra",
            Key::MouseForward => "MouseForward",
            Key::MouseBack => "MouseBack",
            Key::Other(_) => "",
        }
    }

    /// The display text of this key (what `Display` shows for it).
    pub fn to_string(&self) -> (text: String)
        ensures
            text@ == key_text(*self),
    {
        match *self {
            Key::Other(code) => {
                let mut text = String::from_str("Other(0x");
                append_hex(&mut text, code);
                text.append(")");
                text
            },
            key => String::from_str(key.label()),
        }
    }

    /// The debugging text of this key (what `Debug` shows for it).
    pub fn debug_text(&self) -> (text: String)
        ensures
            text@ == key_debug_text(*self),
    {
        match *self {
            Key::Other(code) => {
                let mut text = String::from_str("Other(");
                append_decimal(&mut text, code as u64);
                text.append(")");
                text
            },
            key => String::from_str(key.variant_name()),
        }
    }
}

/// Every position below [`NAMED_KEY_COUNT`] holds a named key, which
/// sits at its own ordinal.
pub proof fn lemma_named_key_at_in_range(index: u8)
    requires
        index < NAMED_KEY_COUNT,
    ensures
        named_key_at(index) is Some,
        is_named(named_key_at(index).unwrap()),
        key_ordinal(named_key_at(index).unwrap()) == index,
{
}

/// [`Key::get_all_keys`] lists every named key exactly once, and nothing
/// else.
pub proof fn lemma_all_named_keys()
    ensures
        all_named_keys().no_duplicates(),
        forall|key: Key| #[trigger] all_named_keys().contains(key) <==> is_named(key),
{
    let keys = all_named_keys();
    assert forall|i: int, j: int| 0 <= i < keys.len() && 0 <= j < keys.len() && i != j implies keys[i] != keys[j] by {
        lemma_named_key_at_in_range(i as u8);
        lemma_named_key_at_in_range(j as u8);
    }
    assert forall|key: Key| #[trigger] keys.contains(key) <==> is_named(key) by {
        if keys.contains(key) {
            let i = choose|i: int| 0 <= i < keys.len() && keys[i] == key;
            lemma_named_key_at_in_range(i as u8);
        }
        if is_named(key) {
            lemma_key_ordinal(key);
            assert(keys[key_ordinal(key)] == key);
        }
    }
}

/// The keys whose display text is a punctuation character.
pub open spec fn punctuation_key(key: Key) -> bool {
    ||| key == Key::Minus
    ||| key == Key::Equal
    ||| key == Key::LeftBracket
    ||| key == Key::RightBracket
    ||| key == Key::Semicolon
    ||| key == Key::Apostrophe
    ||| key == Key::Grave
    ||| key == Key::Backslash
    ||| key == Key::Comma
    ||| key == Key::Dot
    ||| key == Key::Slash
    ||| key == Key::NumpadPlus
    ||| key == Key::NumpadMinus
    ||| key == Key::NumpadAsterisk
    ||| key == Key::NumpadSlash
    ||| key == Key::NumpadEqual
    ||| key == Key::NumpadComma
}

/// The numpad keys that show the same character as a main-block key:
/// `-`, `=`, `/` and `,`.
pub open spec fn numpad_twins(a: Key, b: Key) -> bool {
    ||| (a == Key::Minus && b == Key::NumpadMinus) || (a == Key::NumpadMinus && b == Key::Minus)
    ||| (a == Key::Equal && b == Key::NumpadEqual) || (a == Key::NumpadEqual && b == Key::Equal)
    ||| (a == Key::Slash && b == Key::NumpadSlash) || (a == Key::NumpadSlash && b == Key::Slash)
    ||| (a == Key::Comma && b == Key::NumpadComma) || (a == Key::NumpadComma && b == Key::Comma)
}

/// Whether `c` is a printable ASCII character that is neither a letter,
/// a digit nor a space.
pub open spec fn is_ascii_punctuation(c: char) -> bool {
    ||| ('!' <= c && c <= '/')
    ||| (':' <= c && c <= '@')
    ||| ('[' <= c && c <= '`')
    ||| ('{' <= c && c <= '~')
}

/// The digit keys (`Digit1` ... `Digit9`, `Digit0`, positions 1 to 10 of
/// [`Key::get_all_keys`]) show their digit: position `i` shows `i % 10`.
pub proof fn lemma_digit_labels(index: u8)
    requires
        1 <= index <= 10,
    ensures
        named_key_label(named_key_at(index).unwrap()) == decimal_text((index % 10) as nat),
{
}

/// The letter keys (positions 18 to 43 of [`Key::get_all_keys`]) show
/// `A` to `Z` in order, the function keys (positions 79 to 102) `F1` to
/// `F24`, and the numpad digit keys (positions 103 to 112) `Numpad0` to
/// `Numpad9`.
pub proof fn lemma_block_labels(index: u8)
    ensures
        18 <= index <= 43 ==> named_key_label(named_key_at(index).unwrap()) == seq![
            (0x41 + index - 18) as char,
        ],
        79 <= index <= 102 ==> named_key_label(named_key_at(index).unwrap()) == "F"@
            + decimal_text((index - 78) as nat),
        103 <= index <= 112 ==> named_key_label(named_key_at(index).unwrap()) == "Numpad"@
            + decimal_text((index - 103) as nat),
{
    reveal_strlit("A");
    reveal_strlit("B");
    reveal_strlit("C");
    reveal_strlit("D");
    reveal_strlit("E");
    reveal_strlit("F");
    reveal_strlit("G");
    reveal_strlit("H");
    reveal_strlit("I");
    reveal_strlit("J");
    reveal_strlit("K");
    reveal_strlit("L");
    reveal_strlit("M");
    reveal_strlit("N");
    reveal_strlit("O");
    reveal_strlit("P");
    reveal_strlit("Q");
    reveal_strlit("R");
    reveal_strlit("S");
    reveal_strlit("T");
    reveal_strlit("U");
    reveal_strlit("V");
    reveal_strlit("W");
    reveal_strlit("X");
    reveal_strlit("Y");
    reveal_strlit("Z");
    reveal_strlit("F1");
    reveal_strlit("F2");
    reveal_strlit("F3");
    reveal_strlit("F4");
    reveal_strlit("F5");
    reveal_strlit("F6");
    reveal_strlit("F7");
    reveal_strlit("F8");
    reveal_strlit("F9");
    reveal_strlit("F10");
    reveal_strlit("F11");
    reveal_strlit("F12");
    reveal_strlit("F13");
    reveal_strlit("F14");
    reveal_strlit("F15");
    reveal_strlit("F16");
    reveal_strlit("F17");
    reveal_strlit("F18");
    reveal_strlit("F19");
    reveal_strlit("F20");
    reveal_strlit("F21");
    reveal_strlit("F22");
    reveal_strlit("F23");
    reveal_strlit("F24");
    reveal_strlit("Numpad0");
    reveal_strlit("Numpad1");
    reveal_strlit("Numpad2");
    reveal_strlit("Numpad3");
    reveal_strlit("Numpad4");
    reveal_strlit("Numpad5");
    reveal_strlit("Numpad6");
    reveal_strlit("Numpad7");
    reveal_strlit("Numpad8");
    reveal_strlit("Numpad9");
    reveal_strlit("F");
    reveal_strlit("Numpad");
    reveal_strlit("0");
    reveal_strlit("1");
    reveal_strlit("2");
    reveal_strlit("3");
    reveal_strlit("4");
    reveal_strlit("5");
    reveal_strlit("6");
    reveal_strlit("7");
    reveal_strlit("8");
    reveal_strlit("9");
    reveal_with_fuel(decimal_text, 2);
    if 18 <= index <= 43 {
        assert(named_key_label(named_key_at(index).unwrap()) =~= seq![(0x41 + index - 18) as char]);
    }
    if 79 <= index <= 102 {
        assert(named_key_label(named_key_at(index).unwrap()) =~= "F"@ + decimal_text((index - 78) as nat));
    }
    if 103 <= index <= 112 {
        assert(named_key_label(named_key_at(index).unwrap()) =~= "Numpad"@ + decimal_text((index - 103) as nat));
    }
}

/// Every named key that is neither a digit nor a punctuation key shows
/// its own variant name, which is what `Debug` shows for it.
pub proof fn lemma_labels_are_variant_names(key: Key)
    requires
        is_named(key),
        !punctuation_key(key),
        !(1 <= key_ordinal(key) <= 10),
    ensures
        named_key_label(key) == named_key_variant(key),
{
}

/// Every punctuation key shows a single punctuation character, and two
/// punctuation keys show the same one only if they are the same key or
/// numpad twins.
pub proof fn lemma_punctuation_labels(a: Key, b: Key)
    requires
        punctuation_key(a),
        punctuation_key(b),
    ensures
        named_key_label(a).len() == 1,
        is_ascii_punctuation(named_key_label(a)[0]),
        named_key_label(a) == named_key_label(b) <==> a == b || numpad_twins(a, b),
{
    reveal_strlit("-");
    reveal_strlit("=");
    reveal_strlit("[");
    reveal_strlit("]");
    reveal_strlit(";");
    reveal_strlit("'");
    reveal_strlit("`");
    reveal_strlit("\\");
    reveal_strlit(",");
    reveal_strlit(".");
    reveal_strlit("/");
    reveal_strlit("+");
    reveal_strlit("*");
    if named_key_label(a) == named_key_label(b) {
        assert(named_key_label(a)[0] == named_key_label(b)[0]);
    }
}

/// Every named key sits at its ordinal in [`Key::get_all_keys`].
pub proof fn lemma_key_ordinal(key: Key)
    requires
        is_named(key),
    ensures
        0 <= key_ordinal(key) < NAMED_KEY_COUNT,
        named_key_at(key_ordinal(key) as u8) == Some(key),
{
}

/// The physical state of a key.
#[non_exhaustive]
#[derive(Debug, Clone, Copy, PartialEq, Eq, Hash, Structural)]
pub enum KeyState {
    Down,
    Up,
    Hold,
}

/// The numeric value of a key state: `Up` = 0, `Down` = 1, `Hold` = 2.
pub open spec fn state_value(state: KeyState) -> i32 {
    match state {
        KeyState::Up => 0,
        KeyState::Down => 1,
        KeyState::Hold => 2,
    }
}

/// The key state a numeric value stands for, if any.
pub open spec fn state_of_value(value: i32) -> Option<KeyState> {
    if value == 0 {
        Some(KeyState::Up)
    } else if value == 1 {
        Some(KeyState::Down)
    } else if value == 2 {
        Some(KeyState::Hold)
    } else {
        None
    }
}

/// The display text of a key state.
pub open spec fn state_text(state: KeyState) -> Seq<char> {
    match state {
        KeyState::Down => "Down"@,
        KeyState::Up => "Up"@,
        KeyState::Hold => "Hold"@,
    }
}

impl KeyState {
    /// Interpret a numeric key state value.
    ///
    /// `0` = up, `1` = down, `2` = hold (auto-repeat). Returns `None` for
    /// any other value.
    pub fn from_value(value: i32) -> (state: Option<Self>)
        ensures
            state == state_of_value(value),
    {
        match value {
            0 => Some(KeyState::Up),
            1 => Some(KeyState::Down),
            2 => Some(KeyState::Hold),
            _ => None,
        }
    }

    /// The numeric value this state represents.
    ///
    /// The inverse of [`KeyState::from_value`]: `Up` = 0, `Down` = 1,
    /// `Hold` = 2.
    pub fn to_value(self) -> (value: i32)
        ensures
            value == state_value(self),
    {
        match self {
            KeyState::Up => 0,
            KeyState::Down => 1,
            KeyState::Hold => 2,
        }
    }

    /// The display text of this state (what `Display` shows for it).
    pub fn to_string(&self) -> (text: String)
        ensures
            text@ == state_text(*self),
    {
        match self {
            KeyState::Down => String::from_str("Down"),
            KeyState::Up => String::from_str("Up"),
            KeyState::Hold => String::from_str("Hold"),
        }
    }
}

/// A state's value reads back as that state.
pub proof fn lemma_state_value_roundtrip(state: KeyState)
    ensures
        state_of_value(state_value(state)) == Some(state),
{
}

/// A value that reads as a state is that state's value; exactly the
/// values 0, 1 and 2 read as a state.
pub proof fn lemma_value_state_roundtrip(value: i32)
    ensures
        state_of_value(value) is Some <==> 0 <= value <= 2,
        state_of_value(value) is Some ==> state_value(state_of_value(value).unwrap()) == value,
{
}

/// Best-effort identity of an input device.
///
/// `name` is the human-readable device name and `location` a
/// platform-specific string that (usually) distinguishes physical devices
/// (on Linux, the evdev physical path, falling back to the device node).
#[derive(Debug, PartialEq, Eq, Hash)]
pub struct DeviceId {
    pub name: String,
    pub location: String,
}

impl View for DeviceId {
    type V = (Seq<char>, Seq<char>);

    open spec fn view(&self) -> (Seq<char>, Seq<char>) {
        (self.name@, self.location@)
    }
}

impl Clone for DeviceId {
    fn clone(&self) -> (copy: Self)
        ensures
            copy == *self,
    {
        DeviceId { name: self.name.clone(), location: self.location.clone() }
    }
}

/// The display text of a device: `name (location)`.
pub open spec fn device_text(id: (Seq<char>, Seq<char>)) -> Seq<char> {
    id.0 + " ("@ + id.1 + ")"@
}

impl DeviceId {
    /// Whether both ids name the same device (same name and location).
    pub fn same_device(&self, other: &DeviceId) -> (same: bool)
        ensures
            same == (self@ == other@),
    {
        self.name == other.name && self.location == other.location
    }

    /// The display text of this id (what `Display` shows for it).
    pub fn to_string(&self) -> (text: String)
        ensures
            text@ == device_text(self@),
    {
        let mut text = self.name.clone();
        text.append(" (");
        text.append(self.location.as_str());
        text.append(")");
        text
    }
}

/// A single input event: which key or mouse button, what happened to it,
/// on which device, and when.
#[derive(Debug, PartialEq)]
pub struct InputKeyEvent {
    pub key: Key,
    pub state: KeyState,
    pub device: DeviceId,
    pub timestamp: SystemTime,
}

impl Clone for InputKeyEvent {
    fn clone(&self) -> (copy: Self)
        ensures
            copy == *self,
    {
        InputKeyEvent {
            key: self.key,
            state: self.state,
            device: self.device.clone(),
            timestamp: self.timestamp,
        }
    }
}

/// Formats an instant with `SystemTime`'s `Debug` implementation. What
/// that text looks like is not stated here.
#[verifier::external_body]
fn timestamp_text(time: &SystemTime) -> String {
    format!("{time:?}")
}

impl InputKeyEvent {
    /// The display text of this event (what `Display` shows for it); the
    /// instant is shown in `SystemTime`'s debugging form.
    pub fn to_string(&self) -> (text: String)
        ensures
            exists|at: Seq<char>|
                text@ == "InputKeyEvent { key: "@ + key_text(self.key) + ", state: "@
                    + state_text(self.state) + ", device: "@ + device_text(self.device@)
                    + ", at: "@ + at + " }"@,
    {
        let mut text = String::from_str("InputKeyEvent { key: ");
        text.append(self.key.to_string().as_str());
        text.append(", state: ");
        text.append(self.state.to_string().as_str());
        text.append(", device: ");
        text.append(self.device.to_string().as_str());
        text.append(", at: ");
        let at = timestamp_text(&self.timestamp);
        text.append(at.as_str());
        text.append(" }");
        assert(text@ =~= "InputKeyEvent { key: "@ + key_text(self.key) + ", state: "@
            + state_text(self.state) + ", device: "@ + device_text(self.device@) + ", at: "@
            + at@ + " }"@);
        text
    }
}

/// The kind of device an event comes from.
#[derive(Debug, Clone, Copy, PartialEq, Eq, Structural)]
pub enum DeviceType {
    Keyboard,
    Mouse,
}

} // verus!
