//! Conversion between Windows virtual-key codes and the platform-neutral
//! [`crate::keys`] vocabulary, plus the `SendInput` targets used to inject
//! events.
//!
//! [`Key::Other`] codes are Windows virtual-key codes (`VK_*`,
//! `0x01`-`0xFF`), with the values `windows_sys` gives them.
//!
//! # Coverage
//!
//! Windows virtual-key codes cover most of the same physical keys as
//! evdev. Keys with no virtual-key equivalent (Compose, Fn, Power,
//! brightness/illumination, bluetooth/WLAN, most application/editing
//! keys, Ro/Yen, mouse buttons 6/7, ...) cannot be sent and arrive as
//! [`Key::Other`] with their code preserved when received. A few IME
//! codes (`VK_PACKET`, `VK_PROCESSKEY`) are synthetic and are filtered
//! out when listening.

use vstd::prelude::*;

use crate::error::Error;
use crate::keys::{is_named, named_key_at, Key};

verus! {

/// `VK_PACKET`: synthetic input of a Unicode character.
pub const VK_PACKET: u16 = 0xe7;

/// `VK_PROCESSKEY`: a key consumed by an input method.
pub const VK_PROCESSKEY: u16 = 0xe5;

/// `VK_SHIFT`: either shift key.
pub const VK_SHIFT: u16 = 0x10;

/// `VK_CONTROL`: either control key.
pub const VK_CONTROL: u16 = 0x11;

/// `VK_MENU`: either alt key.
pub const VK_MENU: u16 = 0x12;

/// The key a virtual-key code stands for, given whether the physical key
/// is in the extended section of the keyboard: `None` for the synthetic
/// IME codes, a named key, or [`Key::Other`] with the code preserved.
pub open spec fn windows_key(vk: u16, extended: bool) -> Option<Key> {
    match vk {
        0xe7 | 0xe5 => None, // VK_PACKET / VK_PROCESSKEY
        0x1b => Some(Key::Escape), // VK_ESCAPE
        0x31 => Some(Key::Digit1), // VK_1
        0x32 => Some(Key::Digit2), // VK_2
        0x33 => Some(Key::Digit3), // VK_3
        0x34 => Some(Key::Digit4), // VK_4
        0x35 => Some(Key::Digit5), // VK_5
        0x36 => Some(Key::Digit6), // VK_6
        0x37 => Some(Key::Digit7), // VK_7
        0x38 => Some(Key::Digit8), // VK_8
        0x39 => Some(Key::Digit9), // VK_9
        0x30 => Some(Key::Digit0), // VK_0
        0xbd => Some(Key::Minus), // VK_OEM_MINUS
        0xbb => Some(Key::Equal), // VK_OEM_PLUS
        0x08 => Some(Key::Backspace), // VK_BACK
        0x09 => Some(Key::Tab), // VK_TAB
        0x51 => Some(Key::Q), // VK_Q
        0x57 => Some(Key::W), // VK_W
        0x45 => Some(Key::E), // VK_E
        0x52 => Some(Key::R), // VK_R
        0x54 => Some(Key::T), // VK_T
        0x59 => Some(Key::Y), // VK_Y
        0x55 => Some(Key::U), // VK_U
        0x49 => Some(Key::I), // VK_I
        0x4f => Some(Key::O), // VK_O
        0x50 => Some(Key::P), // VK_P
        0xdb => Some(Key::LeftBracket), // VK_OEM_4
        0xdd => Some(Key::RightBracket), // VK_OEM_6
        0x0d => Some(Key::Enter), // VK_RETURN
        0x41 => Some(Key::A), // VK_A
        0x42 => Some(Key::B), // VK_B
        0x43 => Some(Key::C), // VK_C
        0x53 => Some(Key::S), // VK_S
        0x44 => Some(Key::D), // VK_D
        0x46 => Some(Key::F), // VK_F
        0x47 => Some(Key::G), // VK_G
        0x48 => Some(Key::H), // VK_H
        0x4a => Some(Key::J), // VK_J
        0x4b => Some(Key::K), // VK_K
        0x4c => Some(Key::L), // VK_L
        0xba => Some(Key::Semicolon), // VK_OEM_1
        0xde => Some(Key::Apostrophe), // VK_OEM_7
        0xc0 => Some(Key::Grave), // VK_OEM_3
        0xdc => Some(Key::Backslash), // VK_OEM_5
        0x5a => Some(Key::Z), // VK_Z
        0x58 => Some(Key::X), // VK_X
        0x56 => Some(Key::V), // VK_V
        0x4e => Some(Key::N), // VK_N
        0x4d => Some(Key::M), // VK_M
        0xbc => Some(Key::Comma), // VK_OEM_COMMA
        0xbe => Some(Key::Dot), // VK_OEM_PERIOD
        0xbf => Some(Key::Slash), // VK_OEM_2
        0xe2 => Some(Key::IntlBackslash), // VK_OEM_102
        0x20 => Some(Key::Space), // VK_SPACE
        0xa0 => Some(Key::LeftShift), // VK_LSHIFT
        0xa1 => Some(Key::RightShift), // VK_RSHIFT
        0x10 => if extended { Some(Key::RightShift) } else { Some(Key::LeftShift) }, // VK_SHIFT
        0xa2 => Some(Key::LeftCtrl), // VK_LCONTROL
        0xa3 => Some(Key::RightCtrl), // VK_RCONTROL
        0x11 => if extended { Some(Key::RightCtrl) } else { Some(Key::LeftCtrl) }, // VK_CONTROL
        0xa4 => Some(Key::LeftAlt), // VK_LMENU
        0xa5 => Some(Key::RightAlt), // VK_RMENU
        0x12 => if extended { Some(Key::RightAlt) } else { Some(Key::LeftAlt) }, // VK_MENU
        0x5b => Some(Key::LeftMeta), // VK_LWIN
        0x5c => Some(Key::RightMeta), // VK_RWIN
        0x5d => Some(Key::Menu), // VK_APPS
        0x14 => Some(Key::CapsLock), // VK_CAPITAL
        0x90 => Some(Key::NumLock), // VK_NUMLOCK
        0x91 => Some(Key::ScrollLock), // VK_SCROLL
        0x2d => Some(Key::Insert), // VK_INSERT
        0x2e => Some(Key::Delete), // VK_DELETE
        0x24 => Some(Key::Home), // VK_HOME
        0x23 => Some(Key::End), // VK_END
        0x21 => Some(Key::PageUp), // VK_PRIOR
        0x22 => Some(Key::PageDown), // VK_NEXT
        0x26 => Some(Key::Up), // VK_UP
        0x28 => Some(Key::Down), // VK_DOWN
        0x25 => Some(Key::Left), // VK_LEFT
        0x27 => Some(Key::Right), // VK_RIGHT
        0x2c => Some(Key::PrintScreen), // VK_SNAPSHOT
        0x13 => Some(Key::Pause), // VK_PAUSE
        0x70 => Some(Key::F1), // VK_F1
        0x71 => Some(Key::F2), // VK_F2
        0x72 => Some(Key::F3), // VK_F3
        0x73 => Some(Key::F4), // VK_F4
        0x74 => Some(Key::F5), // VK_F5
        0x75 => Some(Key::F6), // VK_F6
        0x76 => Some(Key::F7), // VK_F7
        0x77 => Some(Key::F8), // VK_F8
        0x78 => Some(Key::F9), // VK_F9
        0x79 => Some(Key::F10), // VK_F10
        0x7a => Some(Key::F11), // VK_F11
        0x7b => Some(Key::F12), // VK_F12
        0x7c => Some(Key::F13), // VK_F13
        0x7d => Some(Key::F14), // VK_F14
        0x7e => Some(Key::F15), // VK_F15
        0x7f => Some(Key::F16), // VK_F16
        0x80 => Some(Key::F17), // VK_F17
        0x81 => Some(Key::F18), // VK_F18
        0x82 => Some(Key::F19), // VK_F19
        0x83 => Some(Key::F20), // VK_F20
        0x84 => Some(Key::F21), // VK_F21
        0x85 => Some(Key::F22), // VK_F22
        0x86 => Some(Key::F23), // VK_F23
        0x87 => Some(Key::F24), // VK_F24
        0x60 => Some(Key::Numpad0), // VK_NUMPAD0
        0x61 => Some(Key::Numpad1), // VK_NUMPAD1
        0x62 => Some(Key::Numpad2), // VK_NUMPAD2
        0x63 => Some(Key::Numpad3), // VK_NUMPAD3
        0x64 => Some(Key::Numpad4), // VK_NUMPAD4
        0x65 => Some(Key::Numpad5), // VK_NUMPAD5
        0x66 => Some(Key::Numpad6), // VK_NUMPAD6
        0x67 => Some(Key::Numpad7), // VK_NUMPAD7
        0x68 => Some(Key::Numpad8), // VK_NUMPAD8
        0x69 => Some(Key::Numpad9), // VK_NUMPAD9
        0x6a => Some(Key::NumpadAsterisk), // VK_MULTIPLY
        0x6b => Some(Key::NumpadPlus), // VK_ADD
        0x6c => Some(Key::NumpadComma), // VK_SEPARATOR
        0x6d => Some(Key::NumpadMinus), // VK_SUBTRACT
        0x6e => Some(Key::NumpadDot), // VK_DECIMAL
        0x6f => Some(Key::NumpadSlash), // VK_DIVIDE
        0x0c => Some(Key::Numpad5), // VK_CLEAR
        0xaf => Some(Key::VolumeUp), // VK_VOLUME_UP
        0xae => Some(Key::VolumeDown), // VK_VOLUME_DOWN
        0xad => Some(Key::Mute), // VK_VOLUME_MUTE
        0xb3 => Some(Key::PlayPause), // VK_MEDIA_PLAY_PAUSE
        0xfa => Some(Key::Play), // VK_PLAY
        0xb2 => Some(Key::Stop), // VK_MEDIA_STOP
        0xb0 => Some(Key::NextTrack), // VK_MEDIA_NEXT_TRACK
        0xb1 => Some(Key::PreviousTrack), // VK_MEDIA_PREV_TRACK
        0xb5 => Some(Key::MediaSelect), // VK_LAUNCH_MEDIA_SELECT
        0x5f => Some(Key::Sleep), // VK_SLEEP
        0xb4 => Some(Key::Email), // VK_LAUNCH_MAIL
        0xb7 => Some(Key::Calculator), // VK_LAUNCH_APP2
        0xb6 => Some(Key::Computer), // VK_LAUNCH_APP1
        0xaa => Some(Key::Search), // VK_BROWSER_SEARCH
        0xac => Some(Key::BrowserHome), // VK_BROWSER_HOME
        0xa6 => Some(Key::BrowserBack), // VK_BROWSER_BACK
        0xa7 => Some(Key::BrowserForward), // VK_BROWSER_FORWARD
        0xa8 => Some(Key::Refresh), // VK_BROWSER_REFRESH
        0xab => Some(Key::Bookmarks), // VK_BROWSER_FAVORITES
        0xf2 => Some(Key::Copy), // VK_OEM_COPY
        0x2f | 0xe3 => Some(Key::Help), // VK_HELP / VK_ICO_HELP
        0x15 => Some(Key::Hiragana), // VK_KANA / VK_HANGUL
        0x19 => Some(Key::Hanja), // VK_HANJA / VK_KANJI
        0x1c => Some(Key::Henkan), // VK_CONVERT
        0x1d => Some(Key::Muhenkan), // VK_NONCONVERT
        _ => Some(Key::Other(vk)),
    }
}

/// A mouse button, injected with a `MOUSEINPUT` event.
#[derive(Debug, Clone, Copy, PartialEq, Eq, Structural)]
pub enum MouseButton {
    Left,
    Right,
    Middle,
    Side,
    Extra,
}

/// How a [`Key`] is injected with `SendInput`.
#[derive(Debug, Clone, Copy, PartialEq, Eq, Structural)]
pub enum InjectTarget {
    /// A keyboard event with this virtual-key code.
    Vk(u16),
    /// A mouse-button event.
    Mouse(MouseButton),
}

/// How a key is injected, if it can be: [`Key::Other`] passes its code
/// straight through; keys Windows has no virtual-key code for have none.
pub open spec fn injection_target(key: Key) -> Option<InjectTarget> {
    match key {
        Key::Other(vk) => Some(InjectTarget::Vk(vk)),
        Key::Escape => Some(InjectTarget::Vk(0x1b)), // VK_ESCAPE
        Key::Digit1 => Some(InjectTarget::Vk(0x31)), // VK_1
        Key::Digit2 => Some(InjectTarget::Vk(0x32)), // VK_2
        Key::Digit3 => Some(InjectTarget::Vk(0x33)), // VK_3
        Key::Digit4 => Some(InjectTarget::Vk(0x34)), // VK_4
        Key::Digit5 => Some(InjectTarget::Vk(0x35)), // VK_5
        Key::Digit6 => Some(InjectTarget::Vk(0x36)), // VK_6
        Key::Digit7 => Some(InjectTarget::Vk(0x37)), // VK_7
        Key::Digit8 => Some(InjectTarget::Vk(0x38)), // VK_8
        Key::Digit9 => Some(InjectTarget::Vk(0x39)), // VK_9
        Key::Digit0 => Some(InjectTarget::Vk(0x30)), // VK_0
        Key::Minus => Some(InjectTarget::Vk(0xbd)), // VK_OEM_MINUS
        Key::Equal => Some(InjectTarget::Vk(0xbb)), // VK_OEM_PLUS
        Key::Backspace => Some(InjectTarget::Vk(0x08)), // VK_BACK
        Key::Tab => Some(InjectTarget::Vk(0x09)), // VK_TAB
        Key::Q => Some(InjectTarget::Vk(0x51)), // VK_Q
        Key::W => Some(InjectTarget::Vk(0x57)), // VK_W
        Key::E => Some(InjectTarget::Vk(0x45)), // VK_E
        Key::R => Some(InjectTarget::Vk(0x52)), // VK_R
        Key::T => Some(InjectTarget::Vk(0x54)), // VK_T
        Key::Y => Some(InjectTarget::Vk(0x59)), // VK_Y
        Key::U => Some(InjectTarget::Vk(0x55)), // VK_U
        Key::I => Some(InjectTarget::Vk(0x49)), // VK_I
        Key::O => Some(InjectTarget::Vk(0x4f)), // VK_O
        Key::P => Some(InjectTarget::Vk(0x50)), // VK_P
        Key::LeftBracket => Some(InjectTarget::Vk(0xdb)), // VK_OEM_4
        Key::RightBracket => Some(InjectTarget::Vk(0xdd)), // VK_OEM_6
        Key::Enter => Some(InjectTarget::Vk(0x0d)), // VK_RETURN
        Key::A => Some(InjectTarget::Vk(0x41)), // VK_A
        Key::B => Some(InjectTarget::Vk(0x42)), // VK_B
        Key::C => Some(InjectTarget::Vk(0x43)), // VK_C
        Key::S => Some(InjectTarget::Vk(0x53)), // VK_S
        Key::D => Some(InjectTarget::Vk(0x44)), // VK_D
        Key::F => Some(InjectTarget::Vk(0x46)), // VK_F
        Key::G => Some(InjectTarget::Vk(0x47)), // VK_G
        Key::H => Some(InjectTarget::Vk(0x48)), // VK_H
        Key::J => Some(InjectTarget::Vk(0x4a)), // VK_J
        Key::K => Some(InjectTarget::Vk(0x4b)), // VK_K
        Key::L => Some(InjectTarget::Vk(0x4c)), // VK_L
        Key::Semicolon => Some(InjectTarget::Vk(0xba)), // VK_OEM_1
        Key::Apostrophe => Some(InjectTarget::Vk(0xde)), // VK_OEM_7
        Key::Grave => Some(InjectTarget::Vk(0xc0)), // VK_OEM_3
        Key::Backslash => Some(InjectTarget::Vk(0xdc)), // VK_OEM_5
        Key::Z => Some(InjectTarget::Vk(0x5a)), // VK_Z
        Key::X => Some(InjectTarget::Vk(0x58)), // VK_X
        Key::V => Some(InjectTarget::Vk(0x56)), // VK_V
        Key::N => Some(InjectTarget::Vk(0x4e)), // VK_N
        Key::M => Some(InjectTarget::Vk(0x4d)), // VK_M
        Key::Comma => Some(InjectTarget::Vk(0xbc)), // VK_OEM_COMMA
        Key::Dot => Some(InjectTarget::Vk(0xbe)), // VK_OEM_PERIOD
        Key::Slash => Some(InjectTarget::Vk(0xbf)), // VK_OEM_2
        Key::IntlBackslash => Some(InjectTarget::Vk(0xe2)), // VK_OEM_102
        Key::Space => Some(InjectTarget::Vk(0x20)), // VK_SPACE
        Key::LeftCtrl => Some(InjectTarget::Vk(0xa2)), // VK_LCONTROL
        Key::RightCtrl => Some(InjectTarget::Vk(0xa3)), // VK_RCONTROL
        Key::LeftShift => Some(InjectTarget::Vk(0xa0)), // VK_LSHIFT
        Key::RightShift => Some(InjectTarget::Vk(0xa1)), // VK_RSHIFT
        Key::LeftAlt => Some(InjectTarget::Vk(0xa4)), // VK_LMENU
        Key::RightAlt => Some(InjectTarget::Vk(0xa5)), // VK_RMENU
        Key::LeftMeta => Some(InjectTarget::Vk(0x5b)), // VK_LWIN
        Key::RightMeta => Some(InjectTarget::Vk(0x5c)), // VK_RWIN
        Key::Menu => Some(InjectTarget::Vk(0x5d)), // VK_APPS
        Key::CapsLock => Some(InjectTarget::Vk(0x14)), // VK_CAPITAL
        Key::NumLock => Some(InjectTarget::Vk(0x90)), // VK_NUMLOCK
        Key::ScrollLock => Some(InjectTarget::Vk(0x91)), // VK_SCROLL
        Key::Insert => Some(InjectTarget::Vk(0x2d)), // VK_INSERT
        Key::Delete => Some(InjectTarget::Vk(0x2e)), // VK_DELETE
        Key::Home => Some(InjectTarget::Vk(0x24)), // VK_HOME
        Key::End => Some(InjectTarget::Vk(0x23)), // VK_END
        Key::PageUp => Some(InjectTarget::Vk(0x21)), // VK_PRIOR
        Key::PageDown => Some(InjectTarget::Vk(0x22)), // VK_NEXT
        Key::Up => Some(InjectTarget::Vk(0x26)), // VK_UP
        Key::Down => Some(InjectTarget::Vk(0x28)), // VK_DOWN
        Key::Left => Some(InjectTarget::Vk(0x25)), // VK_LEFT
        Key::Right => Some(InjectTarget::Vk(0x27)), // VK_RIGHT
        Key::PrintScreen => Some(InjectTarget::Vk(0x2c)), // VK_SNAPSHOT
        Key::Pause => Some(InjectTarget::Vk(0x13)), // VK_PAUSE
        Key::F1 => Some(InjectTarget::Vk(0x70)), // VK_F1
        Key::F2 => Some(InjectTarget::Vk(0x71)), // VK_F2
        Key::F3 => Some(InjectTarget::Vk(0x72)), // VK_F3
        Key::F4 => Some(InjectTarget::Vk(0x73)), // VK_F4
        Key::F5 => Some(InjectTarget::Vk(0x74)), // VK_F5
        Key::F6 => Some(InjectTarget::Vk(0x75)), // VK_F6
        Key::F7 => Some(InjectTarget::Vk(0x76)), // VK_F7
        Key::F8 => Some(InjectTarget::Vk(0x77)), // VK_F8
        Key::F9 => Some(InjectTarget::Vk(0x78)), // VK_F9
        Key::F10 => Some(InjectTarget::Vk(0x79)), // VK_F10
        Key::F11 => Some(InjectTarget::Vk(0x7a)), // VK_F11
        Key::F12 => Some(InjectTarget::Vk(0x7b)), // VK_F12
        Key::F13 => Some(InjectTarget::Vk(0x7c)), // VK_F13
        Key::F14 => Some(InjectTarget::Vk(0x7d)), // VK_F14
        Key::F15 => Some(InjectTarget::Vk(0x7e)), // VK_F15
        Key::F16 => Some(InjectTarget::Vk(0x7f)), // VK_F16
        Key::F17 => Some(InjectTarget::Vk(0x80)), // VK_F17
        Key::F18 => Some(InjectTarget::Vk(0x81)), // VK_F18
        Key::F19 => Some(InjectTarget::Vk(0x82)), // VK_F19
        Key::F20 => Some(InjectTarget::Vk(0x83)), // VK_F20
        Key::F21 => Some(InjectTarget::Vk(0x84)), // VK_F21
        Key::F22 => Some(InjectTarget::Vk(0x85)), // VK_F22
        Key::F23 => Some(InjectTarget::Vk(0x86)), // VK_F23
        Key::F24 => Some(InjectTarget::Vk(0x87)), // VK_F24
        Key::Numpad0 => Some(InjectTarget::Vk(0x60)), // VK_NUMPAD0
        Key::Numpad1 => Some(InjectTarget::Vk(0x61)), // VK_NUMPAD1
        Key::Numpad2 => Some(InjectTarget::Vk(0x62)), // VK_NUMPAD2
        Key::Numpad3 => Some(InjectTarget::Vk(0x63)), // VK_NUMPAD3
        Key::Numpad4 => Some(InjectTarget::Vk(0x64)), // VK_NUMPAD4
        Key::Numpad5 => Some(InjectTarget::Vk(0x65)), // VK_NUMPAD5
        Key::Numpad6 => Some(InjectTarget::Vk(0x66)), // VK_NUMPAD6
        Key::Numpad7 => Some(InjectTarget::Vk(0x67)), // VK_NUMPAD7
        Key::Numpad8 => Some(InjectTarget::Vk(0x68)), // VK_NUMPAD8
        Key::Numpad9 => Some(InjectTarget::Vk(0x69)), // VK_NUMPAD9
        Key::NumpadEnter => Some(InjectTarget::Vk(0x0d)), // VK_RETURN
        Key::NumpadPlus => Some(InjectTarget::Vk(0x6b)), // VK_ADD
        Key::NumpadMinus => Some(InjectTarget::Vk(0x6d)), // VK_SUBTRACT
        Key::NumpadAsterisk => Some(InjectTarget::Vk(0x6a)), // VK_MULTIPLY
        Key::NumpadSlash => Some(InjectTarget::Vk(0x6f)), // VK_DIVIDE
        Key::NumpadDot => Some(InjectTarget::Vk(0x6e)), // VK_DECIMAL
        Key::NumpadComma => Some(InjectTarget::Vk(0x6c)), // VK_SEPARATOR
        Key::VolumeUp => Some(InjectTarget::Vk(0xaf)), // VK_VOLUME_UP
        Key::VolumeDown => Some(InjectTarget::Vk(0xae)), // VK_VOLUME_DOWN
        Key::Mute => Some(InjectTarget::Vk(0xad)), // VK_VOLUME_MUTE
        Key::PlayPause => Some(InjectTarget::Vk(0xb3)), // VK_MEDIA_PLAY_PAUSE
        Key::Play => Some(InjectTarget::Vk(0xfa)), // VK_PLAY
        Key::Stop => Some(InjectTarget::Vk(0xb2)), // VK_MEDIA_STOP
        Key::NextTrack => Some(InjectTarget::Vk(0xb0)), // VK_MEDIA_NEXT_TRACK
        Key::PreviousTrack => Some(InjectTarget::Vk(0xb1)), // VK_MEDIA_PREV_TRACK
        Key::MediaSelect => Some(InjectTarget::Vk(0xb5)), // VK_LAUNCH_MEDIA_SELECT
        Key::Sleep => Some(InjectTarget::Vk(0x5f)), // VK_SLEEP
        Key::Email => Some(InjectTarget::Vk(0xb4)), // VK_LAUNCH_MAIL
        Key::Calculator => Some(InjectTarget::Vk(0xb7)), // VK_LAUNCH_APP2
        Key::Computer => Some(InjectTarget::Vk(0xb6)), // VK_LAUNCH_APP1
        Key::Search => Some(InjectTarget::Vk(0xaa)), // VK_BROWSER_SEARCH
        Key::BrowserHome => Some(InjectTarget::Vk(0xac)), // VK_BROWSER_HOME
        Key::BrowserBack => Some(InjectTarget::Vk(0xa6)), // VK_BROWSER_BACK
        Key::BrowserForward => Some(InjectTarget::Vk(0xa7)), // VK_BROWSER_FORWARD
        Key::Refresh => Some(InjectTarget::Vk(0xa8)), // VK_BROWSER_REFRESH
        Key::Bookmarks => Some(InjectTarget::Vk(0xab)), // VK_BROWSER_FAVORITES
        Key::Copy => Some(InjectTarget::Vk(0xf2)), // VK_OEM_COPY
        Key::Help => Some(InjectTarget::Vk(0x2f)), // VK_HELP
        Key::Hiragana | Key::Katakana => Some(InjectTarget::Vk(0x15)), // VK_KANA
        Key::Hangeul => Some(InjectTarget::Vk(0x15)), // VK_HANGUL
        Key::Hanja => Some(InjectTarget::Vk(0x19)), // VK_HANJA
        Key::Henkan => Some(InjectTarget::Vk(0x1c)), // VK_CONVERT
        Key::Muhenkan => Some(InjectTarget::Vk(0x1d)), // VK_NONCONVERT
        Key::MouseLeft => Some(InjectTarget::Mouse(MouseButton::Left)),
        Key::MouseRight => Some(InjectTarget::Mouse(MouseButton::Right)),
        Key::MouseMiddle => Some(InjectTarget::Mouse(MouseButton::Middle)),
        Key::MouseSide => Some(InjectTarget::Mouse(MouseButton::Side)),
        Key::MouseExtra => Some(InjectTarget::Mouse(MouseButton::Extra)),
        _ => None,
    }
}

/// Map a virtual-key code (and whether the physical key is in the
/// extended section of the keyboard) to a [`Key`].
///
/// Returns `None` for synthetic codes that never represent a physical
/// key; every other code maps to a named variant or falls back to
/// [`Key::Other`] with the raw code preserved. The extended flag
/// distinguishes left from right for the generic SHIFT/CONTROL/MENU codes.
pub fn map_vk(vk: u16, extended: bool) -> (key: Option<Key>)
    ensures
        key == windows_key(vk, extended),
{
    match vk {
        0xe7 | 0xe5 => None, // VK_PACKET / VK_PROCESSKEY
        0x1b => Some(Key::Escape), // VK_ESCAPE
        0x31 => Some(Key::Digit1), // VK_1
        0x32 => Some(Key::Digit2), // VK_2
        0x33 => Some(Key::Digit3), // VK_3
        0x34 => Some(Key::Digit4), // VK_4
        0x35 => Some(Key::Digit5), // VK_5
        0x36 => Some(Key::Digit6), // VK_6
        0x37 => Some(Key::Digit7), // VK_7
        0x38 => Some(Key::Digit8), // VK_8
        0x39 => Some(Key::Digit9), // VK_9
        0x30 => Some(Key::Digit0), // VK_0
        0xbd => Some(Key::Minus), // VK_OEM_MINUS
        0xbb => Some(Key::Equal), // VK_OEM_PLUS
        0x08 => Some(Key::Backspace), // VK_BACK
        0x09 => Some(Key::Tab), // VK_TAB
        0x51 => Some(Key::Q), // VK_Q
        0x57 => Some(Key::W), // VK_W
        0x45 => Some(Key::E), // VK_E
        0x52 => Some(Key::R), // VK_R
        0x54 => Some(Key::T), // VK_T
        0x59 => Some(Key::Y), // VK_Y
        0x55 => Some(Key::U), // VK_U
        0x49 => Some(Key::I), // VK_I
        0x4f => Some(Key::O), // VK_O
        0x50 => Some(Key::P), // VK_P
        0xdb => Some(Key::LeftBracket), // VK_OEM_4
        0xdd => Some(Key::RightBracket), // VK_OEM_6
        0x0d => Some(Key::Enter), // VK_RETURN
        0x41 => Some(Key::A), // VK_A
        0x42 => Some(Key::B), // VK_B
        0x43 => Some(Key::C), // VK_C
        0x53 => Some(Key::S), // VK_S
        0x44 => Some(Key::D), // VK_D
        0x46 => Some(Key::F), // VK_F
        0x47 => Some(Key::G), // VK_G
        0x48 => Some(Key::H), // VK_H
        0x4a => Some(Key::J), // VK_J
        0x4b => Some(Key::K), // VK_K
        0x4c => Some(Key::L), // VK_L
        0xba => Some(Key::Semicolon), // VK_OEM_1
        0xde => Some(Key::Apostrophe), // VK_OEM_7
        0xc0 => Some(Key::Grave), // VK_OEM_3
        0xdc => Some(Key::Backslash), // VK_OEM_5
        0x5a => Some(Key::Z), // VK_Z
        0x58 => Some(Key::X), // VK_X
        0x56 => Some(Key::V), // VK_V
        0x4e => Some(Key::N), // VK_N
        0x4d => Some(Key::M), // VK_M
        0xbc => Some(Key::Comma), // VK_OEM_COMMA
        0xbe => Some(Key::Dot), // VK_OEM_PERIOD
        0xbf => Some(Key::Slash), // VK_OEM_2
        0xe2 => Some(Key::IntlBackslash), // VK_OEM_102
        0x20 => Some(Key::Space), // VK_SPACE
        0xa0 => Some(Key::LeftShift), // VK_LSHIFT
        0xa1 => Some(Key::RightShift), // VK_RSHIFT
        0x10 => if extended { Some(Key::RightShift) } else { Some(Key::LeftShift) }, // VK_SHIFT
        0xa2 => Some(Key::LeftCtrl), // VK_LCONTROL
        0xa3 => Some(Key::RightCtrl), // VK_RCONTROL
        0x11 => if extended { Some(Key::RightCtrl) } else { Some(Key::LeftCtrl) }, // VK_CONTROL
        0xa4 => Some(Key::LeftAlt), // VK_LMENU
        0xa5 => Some(Key::RightAlt), // VK_RMENU
        0x12 => if extended { Some(Key::RightAlt) } else { Some(Key::LeftAlt) }, // VK_MENU
        0x5b => Some(Key::LeftMeta), // VK_LWIN
        0x5c => Some(Key::RightMeta), // VK_RWIN
        0x5d => Some(Key::Menu), // VK_APPS
        0x14 => Some(Key::CapsLock), // VK_CAPITAL
        0x90 => Some(Key::NumLock), // VK_NUMLOCK
        0x91 => Some(Key::ScrollLock), // VK_SCROLL
        0x2d => Some(Key::Insert), // VK_INSERT
        0x2e => Some(Key::Delete), // VK_DELETE
        0x24 => Some(Key::Home), // VK_HOME
        0x23 => Some(Key::End), // VK_END
        0x21 => Some(Key::PageUp), // VK_PRIOR
        0x22 => Some(Key::PageDown), // VK_NEXT
        0x26 => Some(Key::Up), // VK_UP
        0x28 => Some(Key::Down), // VK_DOWN
        0x25 => Some(Key::Left), // VK_LEFT
        0x27 => Some(Key::Right), // VK_RIGHT
        0x2c => Some(Key::PrintScreen), // VK_SNAPSHOT
        0x13 => Some(Key::Pause), // VK_PAUSE
        0x70 => Some(Key::F1), // VK_F1
        0x71 => Some(Key::F2), // VK_F2
        0x72 => Some(Key::F3), // VK_F3
        0x73 => Some(Key::F4), // VK_F4
        0x74 => Some(Key::F5), // VK_F5
        0x75 => Some(Key::F6), // VK_F6
        0x76 => Some(Key::F7), // VK_F7
        0x77 => Some(Key::F8), // VK_F8
        0x78 => Some(Key::F9), // VK_F9
        0x79 => Some(Key::F10), // VK_F10
        0x7a => Some(Key::F11), // VK_F11
        0x7b => Some(Key::F12), // VK_F12
        0x7c => Some(Key::F13), // VK_F13
        0x7d => Some(Key::F14), // VK_F14
        0x7e => Some(Key::F15), // VK_F15
        0x7f => Some(Key::F16), // VK_F16
        0x80 => Some(Key::F17), // VK_F17
        0x81 => Some(Key::F18), // VK_F18
        0x82 => Some(Key::F19), // VK_F19
        0x83 => Some(Key::F20), // VK_F20
        0x84 => Some(Key::F21), // VK_F21
        0x85 => Some(Key::F22), // VK_F22
        0x86 => Some(Key::F23), // VK_F23
        0x87 => Some(Key::F24), // VK_F24
        0x60 => Some(Key::Numpad0), // VK_NUMPAD0
        0x61 => Some(Key::Numpad1), // VK_NUMPAD1
        0x62 => Some(Key::Numpad2), // VK_NUMPAD2
        0x63 => Some(Key::Numpad3), // VK_NUMPAD3
        0x64 => Some(Key::Numpad4), // VK_NUMPAD4
        0x65 => Some(Key::Numpad5), // VK_NUMPAD5
        0x66 => Some(Key::Numpad6), // VK_NUMPAD6
        0x67 => Some(Key::Numpad7), // VK_NUMPAD7
        0x68 => Some(Key::Numpad8), // VK_NUMPAD8
        0x69 => Some(Key::Numpad9), // VK_NUMPAD9
        0x6a => Some(Key::NumpadAsterisk), // VK_MULTIPLY
        0x6b => Some(Key::NumpadPlus), // VK_ADD
        0x6c => Some(Key::NumpadComma), // VK_SEPARATOR
        0x6d => Some(Key::NumpadMinus), // VK_SUBTRACT
        0x6e => Some(Key::NumpadDot), // VK_DECIMAL
        0x6f => Some(Key::NumpadSlash), // VK_DIVIDE
        0x0c => Some(Key::Numpad5), // VK_CLEAR
        0xaf => Some(Key::VolumeUp), // VK_VOLUME_UP
        0xae => Some(Key::VolumeDown), // VK_VOLUME_DOWN
        0xad => Some(Key::Mute), // VK_VOLUME_MUTE
        0xb3 => Some(Key::PlayPause), // VK_MEDIA_PLAY_PAUSE
        0xfa => Some(Key::Play), // VK_PLAY
        0xb2 => Some(Key::Stop), // VK_MEDIA_STOP
        0xb0 => Some(Key::NextTrack), // VK_MEDIA_NEXT_TRACK
        0xb1 => Some(Key::PreviousTrack), // VK_MEDIA_PREV_TRACK
        0xb5 => Some(Key::MediaSelect), // VK_LAUNCH_MEDIA_SELECT
        0x5f => Some(Key::Sleep), // VK_SLEEP
        0xb4 => Some(Key::Email), // VK_LAUNCH_MAIL
        0xb7 => Some(Key::Calculator), // VK_LAUNCH_APP2
        0xb6 => Some(Key::Computer), // VK_LAUNCH_APP1
        0xaa => Some(Key::Search), // VK_BROWSER_SEARCH
        0xac => Some(Key::BrowserHome), // VK_BROWSER_HOME
        0xa6 => Some(Key::BrowserBack), // VK_BROWSER_BACK
        0xa7 => Some(Key::BrowserForward), // VK_BROWSER_FORWARD
        0xa8 => Some(Key::Refresh), // VK_BROWSER_REFRESH
        0xab => Some(Key::Bookmarks), // VK_BROWSER_FAVORITES
        0xf2 => Some(Key::Copy), // VK_OEM_COPY
        0x2f | 0xe3 => Some(Key::Help), // VK_HELP / VK_ICO_HELP
        0x15 => Some(Key::Hiragana), // VK_KANA / VK_HANGUL
        0x19 => Some(Key::Hanja), // VK_HANJA / VK_KANJI
        0x1c => Some(Key::Henkan), // VK_CONVERT
        0x1d => Some(Key::Muhenkan), // VK_NONCONVERT
        _ => Some(Key::Other(vk)),
    }
}

/// Map a [`Key`] to its injection target.
///
/// Unlike listening, sending cannot invent a virtual-key code for keys
/// Windows has no equivalent for; those return
/// [`Error::KeyNotMapped`]. [`Key::Other`] passes its code
/// straight through, since on Windows that code *is* a virtual-key code.
pub fn map_key(key: Key) -> (target: Result<InjectTarget, Error>)
    ensures
        match target {
            Ok(target) => injection_target(key) == Some(target),
            Err(error) => injection_target(key) is None && error == Error::KeyNotMapped(key),
        },
{
    match key {
        Key::Other(vk) => Ok(InjectTarget::Vk(vk)),
        Key::Escape => Ok(InjectTarget::Vk(0x1b)), // VK_ESCAPE
        Key::Digit1 => Ok(InjectTarget::Vk(0x31)), // VK_1
        Key::Digit2 => Ok(InjectTarget::Vk(0x32)), // VK_2
        Key::Digit3 => Ok(InjectTarget::Vk(0x33)), // VK_3
        Key::Digit4 => Ok(InjectTarget::Vk(0x34)), // VK_4
        Key::Digit5 => Ok(InjectTarget::Vk(0x35)), // VK_5
        Key::Digit6 => Ok(InjectTarget::Vk(0x36)), // VK_6
        Key::Digit7 => Ok(InjectTarget::Vk(0x37)), // VK_7
        Key::Digit8 => Ok(InjectTarget::Vk(0x38)), // VK_8
        Key::Digit9 => Ok(InjectTarget::Vk(0x39)), // VK_9
        Key::Digit0 => Ok(InjectTarget::Vk(0x30)), // VK_0
        Key::Minus => Ok(InjectTarget::Vk(0xbd)), // VK_OEM_MINUS
        Key::Equal => Ok(InjectTarget::Vk(0xbb)), // VK_OEM_PLUS
        Key::Backspace => Ok(InjectTarget::Vk(0x08)), // VK_BACK
        Key::Tab => Ok(InjectTarget::Vk(0x09)), // VK_TAB
        Key::Q => Ok(InjectTarget::Vk(0x51)), // VK_Q
        Key::W => Ok(InjectTarget::Vk(0x57)), // VK_W
        Key::E => Ok(InjectTarget::Vk(0x45)), // VK_E
        Key::R => Ok(InjectTarget::Vk(0x52)), // VK_R
        Key::T => Ok(InjectTarget::Vk(0x54)), // VK_T
        Key::Y => Ok(InjectTarget::Vk(0x59)), // VK_Y
        Key::U => Ok(InjectTarget::Vk(0x55)), // VK_U
        Key::I => Ok(InjectTarget::Vk(0x49)), // VK_I
        Key::O => Ok(InjectTarget::Vk(0x4f)), // VK_O
        Key::P => Ok(InjectTarget::Vk(0x50)), // VK_P
        Key::LeftBracket => Ok(InjectTarget::Vk(0xdb)), // VK_OEM_4
        Key::RightBracket => Ok(InjectTarget::Vk(0xdd)), // VK_OEM_6
        Key::Enter => Ok(InjectTarget::Vk(0x0d)), // VK_RETURN
        Key::A => Ok(InjectTarget::Vk(0x41)), // VK_A
        Key::B => Ok(InjectTarget::Vk(0x42)), // VK_B
        Key::C => Ok(InjectTarget::Vk(0x43)), // VK_C
        Key::S => Ok(InjectTarget::Vk(0x53)), // VK_S
        Key::D => Ok(InjectTarget::Vk(0x44)), // VK_D
        Key::F => Ok(InjectTarget::Vk(0x46)), // VK_F
        Key::G => Ok(InjectTarget::Vk(0x47)), // VK_G
        Key::H => Ok(InjectTarget::Vk(0x48)), // VK_H
        Key::J => Ok(InjectTarget::Vk(0x4a)), // VK_J
        Key::K => Ok(InjectTarget::Vk(0x4b)), // VK_K
        Key::L => Ok(InjectTarget::Vk(0x4c)), // VK_L
        Key::Semicolon => Ok(InjectTarget::Vk(0xba)), // VK_OEM_1
        Key::Apostrophe => Ok(InjectTarget::Vk(0xde)), // VK_OEM_7
        Key::Grave => Ok(InjectTarget::Vk(0xc0)), // VK_OEM_3
        Key::Backslash => Ok(InjectTarget::Vk(0xdc)), // VK_OEM_5
        Key::Z => Ok(InjectTarget::Vk(0x5a)), // VK_Z
        Key::X => Ok(InjectTarget::Vk(0x58)), // VK_X
        Key::V => Ok(InjectTarget::Vk(0x56)), // VK_V
        Key::N => Ok(InjectTarget::Vk(0x4e)), // VK_N
        Key::M => Ok(InjectTarget::Vk(0x4d)), // VK_M
        Key::Comma => Ok(InjectTarget::Vk(0xbc)), // VK_OEM_COMMA
        Key::Dot => Ok(InjectTarget::Vk(0xbe)), // VK_OEM_PERIOD
        Key::Slash => Ok(InjectTarget::Vk(0xbf)), // VK_OEM_2
        Key::IntlBackslash => Ok(InjectTarget::Vk(0xe2)), // VK_OEM_102
        Key::Space => Ok(InjectTarget::Vk(0x20)), // VK_SPACE
        Key::LeftCtrl => Ok(InjectTarget::Vk(0xa2)), // VK_LCONTROL
        Key::RightCtrl => Ok(InjectTarget::Vk(0xa3)), // VK_RCONTROL
        Key::LeftShift => Ok(InjectTarget::Vk(0xa0)), // VK_LSHIFT
        Key::RightShift => Ok(InjectTarget::Vk(0xa1)), // VK_RSHIFT
        Key::LeftAlt => Ok(InjectTarget::Vk(0xa4)), // VK_LMENU
        Key::RightAlt => Ok(InjectTarget::Vk(0xa5)), // VK_RMENU
        Key::LeftMeta => Ok(InjectTarget::Vk(0x5b)), // VK_LWIN
        Key::RightMeta => Ok(InjectTarget::Vk(0x5c)), // VK_RWIN
        Key::Menu => Ok(InjectTarget::Vk(0x5d)), // VK_APPS
        Key::CapsLock => Ok(InjectTarget::Vk(0x14)), // VK_CAPITAL
        Key::NumLock => Ok(InjectTarget::Vk(0x90)), // VK_NUMLOCK
        Key::ScrollLock => Ok(InjectTarget::Vk(0x91)), // VK_SCROLL
        Key::Insert => Ok(InjectTarget::Vk(0x2d)), // VK_INSERT
        Key::Delete => Ok(InjectTarget::Vk(0x2e)), // VK_DELETE
        Key::Home => Ok(InjectTarget::Vk(0x24)), // VK_HOME
        Key::End => Ok(InjectTarget::Vk(0x23)), // VK_END
        Key::PageUp => Ok(InjectTarget::Vk(0x21)), // VK_PRIOR
        Key::PageDown => Ok(InjectTarget::Vk(0x22)), // VK_NEXT
        Key::Up => Ok(InjectTarget::Vk(0x26)), // VK_UP
        Key::Down => Ok(InjectTarget::Vk(0x28)), // VK_DOWN
        Key::Left => Ok(InjectTarget::Vk(0x25)), // VK_LEFT
        Key::Right => Ok(InjectTarget::Vk(0x27)), // VK_RIGHT
        Key::PrintScreen => Ok(InjectTarget::Vk(0x2c)), // VK_SNAPSHOT
        Key::Pause => Ok(InjectTarget::Vk(0x13)), // VK_PAUSE
        Key::F1 => Ok(InjectTarget::Vk(0x70)), // VK_F1
        Key::F2 => Ok(InjectTarget::Vk(0x71)), // VK_F2
        Key::F3 => Ok(InjectTarget::Vk(0x72)), // VK_F3
        Key::F4 => Ok(InjectTarget::Vk(0x73)), // VK_F4
        Key::F5 => Ok(InjectTarget::Vk(0x74)), // VK_F5
        Key::F6 => Ok(InjectTarget::Vk(0x75)), // VK_F6
        Key::F7 => Ok(InjectTarget::Vk(0x76)), // VK_F7
        Key::F8 => Ok(InjectTarget::Vk(0x77)), // VK_F8
        Key::F9 => Ok(InjectTarget::Vk(0x78)), // VK_F9
        Key::F10 => Ok(InjectTarget::Vk(0x79)), // VK_F10
        Key::F11 => Ok(InjectTarget::Vk(0x7a)), // VK_F11
        Key::F12 => Ok(InjectTarget::Vk(0x7b)), // VK_F12
        Key::F13 => Ok(InjectTarget::Vk(0x7c)), // VK_F13
        Key::F14 => Ok(InjectTarget::Vk(0x7d)), // VK_F14
        Key::F15 => Ok(InjectTarget::Vk(0x7e)), // VK_F15
        Key::F16 => Ok(InjectTarget::Vk(0x7f)), // VK_F16
        Key::F17 => Ok(InjectTarget::Vk(0x80)), // VK_F17
        Key::F18 => Ok(InjectTarget::Vk(0x81)), // VK_F18
        Key::F19 => Ok(InjectTarget::Vk(0x82)), // VK_F19
        Key::F20 => Ok(InjectTarget::Vk(0x83)), // VK_F20
        Key::F21 => Ok(InjectTarget::Vk(0x84)), // VK_F21
        Key::F22 => Ok(InjectTarget::Vk(0x85)), // VK_F22
        Key::F23 => Ok(InjectTarget::Vk(0x86)), // VK_F23
        Key::F24 => Ok(InjectTarget::Vk(0x87)), // VK_F24
        Key::Numpad0 => Ok(InjectTarget::Vk(0x60)), // VK_NUMPAD0
        Key::Numpad1 => Ok(InjectTarget::Vk(0x61)), // VK_NUMPAD1
        Key::Numpad2 => Ok(InjectTarget::Vk(0x62)), // VK_NUMPAD2
        Key::Numpad3 => Ok(InjectTarget::Vk(0x63)), // VK_NUMPAD3
        Key::Numpad4 => Ok(InjectTarget::Vk(0x64)), // VK_NUMPAD4
        Key::Numpad5 => Ok(InjectTarget::Vk(0x65)), // VK_NUMPAD5
        Key::Numpad6 => Ok(InjectTarget::Vk(0x66)), // VK_NUMPAD6
        Key::Numpad7 => Ok(InjectTarget::Vk(0x67)), // VK_NUMPAD7
        Key::Numpad8 => Ok(InjectTarget::Vk(0x68)), // VK_NUMPAD8
        Key::Numpad9 => Ok(InjectTarget::Vk(0x69)), // VK_NUMPAD9
        Key::NumpadEnter => Ok(InjectTarget::Vk(0x0d)), // VK_RETURN
        Key::NumpadPlus => Ok(InjectTarget::Vk(0x6b)), // VK_ADD
        Key::NumpadMinus => Ok(InjectTarget::Vk(0x6d)), // VK_SUBTRACT
        Key::NumpadAsterisk => Ok(InjectTarget::Vk(0x6a)), // VK_MULTIPLY
        Key::NumpadSlash => Ok(InjectTarget::Vk(0x6f)), // VK_DIVIDE
        Key::NumpadDot => Ok(InjectTarget::Vk(0x6e)), // VK_DECIMAL
        Key::NumpadComma => Ok(InjectTarget::Vk(0x6c)), // VK_SEPARATOR
        Key::VolumeUp => Ok(InjectTarget::Vk(0xaf)), // VK_VOLUME_UP
        Key::VolumeDown => Ok(InjectTarget::Vk(0xae)), // VK_VOLUME_DOWN
        Key::Mute => Ok(InjectTarget::Vk(0xad)), // VK_VOLUME_MUTE
        Key::PlayPause => Ok(InjectTarget::Vk(0xb3)), // VK_MEDIA_PLAY_PAUSE
        Key::Play => Ok(InjectTarget::Vk(0xfa)), // VK_PLAY
        Key::Stop => Ok(InjectTarget::Vk(0xb2)), // VK_MEDIA_STOP
        Key::NextTrack => Ok(InjectTarget::Vk(0xb0)), // VK_MEDIA_NEXT_TRACK
        Key::PreviousTrack => Ok(InjectTarget::Vk(0xb1)), // VK_MEDIA_PREV_TRACK
        Key::MediaSelect => Ok(InjectTarget::Vk(0xb5)), // VK_LAUNCH_MEDIA_SELECT
        Key::Sleep => Ok(InjectTarget::Vk(0x5f)), // VK_SLEEP
        Key::Email => Ok(InjectTarget::Vk(0xb4)), // VK_LAUNCH_MAIL
        Key::Calculator => Ok(InjectTarget::Vk(0xb7)), // VK_LAUNCH_APP2
        Key::Computer => Ok(InjectTarget::Vk(0xb6)), // VK_LAUNCH_APP1
        Key::Search => Ok(InjectTarget::Vk(0xaa)), // VK_BROWSER_SEARCH
        Key::BrowserHome => Ok(InjectTarget::Vk(0xac)), // VK_BROWSER_HOME
        Key::BrowserBack => Ok(InjectTarget::Vk(0xa6)), // VK_BROWSER_BACK
        Key::BrowserForward => Ok(InjectTarget::Vk(0xa7)), // VK_BROWSER_FORWARD
        Key::Refresh => Ok(InjectTarget::Vk(0xa8)), // VK_BROWSER_REFRESH
        Key::Bookmarks => Ok(InjectTarget::Vk(0xab)), // VK_BROWSER_FAVORITES
        Key::Copy => Ok(InjectTarget::Vk(0xf2)), // VK_OEM_COPY
        Key::Help => Ok(InjectTarget::Vk(0x2f)), // VK_HELP
        Key::Hiragana | Key::Katakana => Ok(InjectTarget::Vk(0x15)), // VK_KANA
        Key::Hangeul => Ok(InjectTarget::Vk(0x15)), // VK_HANGUL
        Key::Hanja => Ok(InjectTarget::Vk(0x19)), // VK_HANJA
        Key::Henkan => Ok(InjectTarget::Vk(0x1c)), // VK_CONVERT
        Key::Muhenkan => Ok(InjectTarget::Vk(0x1d)), // VK_NONCONVERT
        Key::MouseLeft => Ok(InjectTarget::Mouse(MouseButton::Left)),
        Key::MouseRight => Ok(InjectTarget::Mouse(MouseButton::Right)),
        Key::MouseMiddle => Ok(InjectTarget::Mouse(MouseButton::Middle)),
        Key::MouseSide => Ok(InjectTarget::Mouse(MouseButton::Side)),
        Key::MouseExtra => Ok(InjectTarget::Mouse(MouseButton::Extra)),
        _ => Err(Error::KeyNotMapped(key)),
    }
}

/// Keys that share their virtual-key code with another key, and so are
/// heard as that other key: `NumpadEnter` (`VK_RETURN`, heard as `Enter`),
/// `Katakana` and `Hangeul` (`VK_KANA`, heard as `Hiragana`).
pub open spec fn shares_code(key: Key) -> bool {
    key == Key::NumpadEnter || key == Key::Katakana || key == Key::Hangeul
}

/// Every named key injected as a virtual-key code is heard back as the
/// same key, except the keys that share their code with another key.
pub proof fn lemma_injection_roundtrip(key: Key)
    requires
        is_named(key),
        !shares_code(key),
        injection_target(key) matches Some(InjectTarget::Vk(_)),
    ensures
        injection_target(key) matches Some(InjectTarget::Vk(vk)) && windows_key(vk, false)
            == Some(key),
{
}

/// The extended flag only tells left from right for the generic
/// `VK_SHIFT`, `VK_CONTROL` and `VK_MENU` codes: the right-hand key is the
/// extended one. For every other code the key heard does not depend on it.
pub proof fn lemma_extended_flag_only_splits_modifiers(vk: u16)
    ensures
        vk != VK_SHIFT && vk != VK_CONTROL && vk != VK_MENU ==> windows_key(vk, true) == windows_key(vk, false),
        windows_key(VK_SHIFT, false) == Some(Key::LeftShift),
        windows_key(VK_SHIFT, true) == Some(Key::RightShift),
        windows_key(VK_CONTROL, false) == Some(Key::LeftCtrl),
        windows_key(VK_CONTROL, true) == Some(Key::RightCtrl),
        windows_key(VK_MENU, false) == Some(Key::LeftAlt),
        windows_key(VK_MENU, true) == Some(Key::RightAlt),
{
}

/// Every named key injected as a virtual-key code is heard back as the
/// same key, whether or not the hook flags it as extended, except the
/// keys that share their code with another key.
pub proof fn lemma_injection_roundtrip_either_side(key: Key, extended: bool)
    requires
        is_named(key),
        !shares_code(key),
        injection_target(key) matches Some(InjectTarget::Vk(_)),
    ensures
        injection_target(key) matches Some(InjectTarget::Vk(vk)) && windows_key(vk, extended)
            == Some(key),
{
}

/// The virtual-key codes of the digit, letter, function and numpad digit
/// keys are consecutive blocks, in the order of [`Key::get_all_keys`]:
/// `0`-`9` at `0x30` (`Digit0` first), `A`-`Z` at `0x41`, `F1`-`F24` at
/// `0x70` and `Numpad0`-`Numpad9` at `0x60`. Each such key is injected
/// with its code and heard back from it.
pub proof fn lemma_code_blocks(index: u8, extended: bool)
    ensures
        1 <= index <= 10 ==> injection_target(named_key_at(index).unwrap()) == Some(
            InjectTarget::Vk((0x30 + index % 10) as u16),
        ) && windows_key((0x30 + index % 10) as u16, extended) == named_key_at(index),
        18 <= index <= 43 ==> injection_target(named_key_at(index).unwrap()) == Some(
            InjectTarget::Vk((0x41 + index - 18) as u16),
        ) && windows_key((0x41 + index - 18) as u16, extended) == named_key_at(index),
        79 <= index <= 102 ==> injection_target(named_key_at(index).unwrap()) == Some(
            InjectTarget::Vk((0x70 + index - 79) as u16),
        ) && windows_key((0x70 + index - 79) as u16, extended) == named_key_at(index),
        103 <= index <= 112 ==> injection_target(named_key_at(index).unwrap()) == Some(
            InjectTarget::Vk((0x60 + index - 103) as u16),
        ) && windows_key((0x60 + index - 103) as u16, extended) == named_key_at(index),
{
}

/// Every named key Windows reports can be injected again.
pub proof fn lemma_heard_keys_can_be_injected(vk: u16, extended: bool)
    ensures
        windows_key(vk, extended) matches Some(key) ==> !is_named(key) || injection_target(key) is Some,
{
}

/// No named key is injected with the virtual-key code 0.
pub proof fn lemma_no_named_key_injects_zero(key: Key)
    requires
        is_named(key),
    ensures
        injection_target(key) != Some(InjectTarget::Vk(0)),
{
}

/// Listening drops exactly the synthetic IME codes, and keeps the code
/// of every key it does not name.
pub proof fn lemma_listening_keeps_codes(vk: u16, extended: bool)
    ensures
        windows_key(vk, extended) is None <==> (vk == VK_PACKET || vk == VK_PROCESSKEY),
        windows_key(vk, extended) matches Some(key) ==> is_named(key) || key == Key::Other(vk),
{
}

/// A code that passes straight through for injection is that code.
pub proof fn lemma_other_codes_pass_through(vk: u16)
    ensures
        injection_target(Key::Other(vk)) == Some(InjectTarget::Vk(vk)),
{
}

} // verus!
