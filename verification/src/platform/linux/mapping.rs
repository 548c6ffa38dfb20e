//! Conversion between evdev's event model and the platform-neutral
//! [`crate::keys`] vocabulary.
//!
//! Key codes are those of the Linux input subsystem
//! (`linux/input-event-codes.h`, as `evdev::KeyCode` names them):
//! keyboard keys in the `KEY_*` range, mouse buttons in the `BTN_*` range
//! of the same code space. [`Key::Other`] carries such a code.

use std::time::SystemTime;
use vstd::prelude::*;

use crate::error::Error;
use crate::keys::{
    is_named, state_of_value, state_value, DeviceId, InputKeyEvent, Key, KeyState,
};

verus! {

/// The event type of key and button events (`EV_KEY`).
pub const EV_KEY: u16 = 0x01;

/// The code of the context-menu key (`KEY_CONTEXT_MENU`), which is heard
/// as [`Key::Menu`] but sent as `KEY_MENU`.
pub const KEY_CONTEXT_MENU: u16 = 0x1b6;

/// The key an evdev key code stands for.
///
/// Covers every key or button a typical keyboard or mouse reports;
/// anything else is [`Key::Other`] with the raw code preserved.
pub open spec fn evdev_key(code: u16) -> Key {
    match code {
        0x001 => Key::Escape, // KEY_ESC
        0x002 => Key::Digit1, // KEY_1
        0x003 => Key::Digit2, // KEY_2
        0x004 => Key::Digit3, // KEY_3
        0x005 => Key::Digit4, // KEY_4
        0x006 => Key::Digit5, // KEY_5
        0x007 => Key::Digit6, // KEY_6
        0x008 => Key::Digit7, // KEY_7
        0x009 => Key::Digit8, // KEY_8
        0x00a => Key::Digit9, // KEY_9
        0x00b => Key::Digit0, // KEY_0
        0x00c => Key::Minus, // KEY_MINUS
        0x00d => Key::Equal, // KEY_EQUAL
        0x00e => Key::Backspace, // KEY_BACKSPACE
        0x00f => Key::Tab, // KEY_TAB
        0x010 => Key::Q, // KEY_Q
        0x011 => Key::W, // KEY_W
        0x012 => Key::E, // KEY_E
        0x013 => Key::R, // KEY_R
        0x014 => Key::T, // KEY_T
        0x015 => Key::Y, // KEY_Y
        0x016 => Key::U, // KEY_U
        0x017 => Key::I, // KEY_I
        0x018 => Key::O, // KEY_O
        0x019 => Key::P, // KEY_P
        0x01a => Key::LeftBracket, // KEY_LEFTBRACE
        0x01b => Key::RightBracket, // KEY_RIGHTBRACE
        0x01c => Key::Enter, // KEY_ENTER
        0x01e => Key::A, // KEY_A
        0x030 => Key::B, // KEY_B
        0x02e => Key::C, // KEY_C
        0x01f => Key::S, // KEY_S
        0x020 => Key::D, // KEY_D
        0x021 => Key::F, // KEY_F
        0x022 => Key::G, // KEY_G
        0x023 => Key::H, // KEY_H
        0x024 => Key::J, // KEY_J
        0x025 => Key::K, // KEY_K
        0x026 => Key::L, // KEY_L
        0x027 => Key::Semicolon, // KEY_SEMICOLON
        0x028 => Key::Apostrophe, // KEY_APOSTROPHE
        0x029 => Key::Grave, // KEY_GRAVE
        0x02b => Key::Backslash, // KEY_BACKSLASH
        0x02c => Key::Z, // KEY_Z
        0x02d => Key::X, // KEY_X
        0x02f => Key::V, // KEY_V
        0x031 => Key::N, // KEY_N
        0x032 => Key::M, // KEY_M
        0x033 => Key::Comma, // KEY_COMMA
        0x034 => Key::Dot, // KEY_DOT
        0x035 => Key::Slash, // KEY_SLASH
        0x056 => Key::IntlBackslash, // KEY_102ND
        0x039 => Key::Space, // KEY_SPACE
        0x01d => Key::LeftCtrl, // KEY_LEFTCTRL
        0x061 => Key::RightCtrl, // KEY_RIGHTCTRL
        0x02a => Key::LeftShift, // KEY_LEFTSHIFT
        0x036 => Key::RightShift, // KEY_RIGHTSHIFT
        0x038 => Key::LeftAlt, // KEY_LEFTALT
        0x064 => Key::RightAlt, // KEY_RIGHTALT
        0x07d => Key::LeftMeta, // KEY_LEFTMETA
        0x07e => Key::RightMeta, // KEY_RIGHTMETA
        0x07f => Key::Compose, // KEY_COMPOSE
        0x1d0 => Key::Fn, // KEY_FN
        0x08b => Key::Menu, // KEY_MENU
        0x1b6 => Key::Menu, // KEY_CONTEXT_MENU
        0x03a => Key::CapsLock, // KEY_CAPSLOCK
        0x045 => Key::NumLock, // KEY_NUMLOCK
        0x046 => Key::ScrollLock, // KEY_SCROLLLOCK
        0x06e => Key::Insert, // KEY_INSERT
        0x06f => Key::Delete, // KEY_DELETE
        0x066 => Key::Home, // KEY_HOME
        0x06b => Key::End, // KEY_END
        0x068 => Key::PageUp, // KEY_PAGEUP
        0x06d => Key::PageDown, // KEY_PAGEDOWN
        0x067 => Key::Up, // KEY_UP
        0x06c => Key::Down, // KEY_DOWN
        0x069 => Key::Left, // KEY_LEFT
        0x06a => Key::Right, // KEY_RIGHT
        0x063 => Key::PrintScreen, // KEY_SYSRQ
        0x077 => Key::Pause, // KEY_PAUSE
        0x03b => Key::F1, // KEY_F1
        0x03c => Key::F2, // KEY_F2
        0x03d => Key::F3, // KEY_F3
        0x03e => Key::F4, // KEY_F4
        0x03f => Key::F5, // KEY_F5
        0x040 => Key::F6, // KEY_F6
        0x041 => Key::F7, // KEY_F7
        0x042 => Key::F8, // KEY_F8
        0x043 => Key::F9, // KEY_F9
        0x044 => Key::F10, // KEY_F10
        0x057 => Key::F11, // KEY_F11
        0x058 => Key::F12, // KEY_F12
        0x0b7 => Key::F13, // KEY_F13
        0x0b8 => Key::F14, // KEY_F14
        0x0b9 => Key::F15, // KEY_F15
        0x0ba => Key::F16, // KEY_F16
        0x0bb => Key::F17, // KEY_F17
        0x0bc => Key::F18, // KEY_F18
        0x0bd => Key::F19, // KEY_F19
        0x0be => Key::F20, // KEY_F20
        0x0bf => Key::F21, // KEY_F21
        0x0c0 => Key::F22, // KEY_F22
        0x0c1 => Key::F23, // KEY_F23
        0x0c2 => Key::F24, // KEY_F24
        0x052 => Key::Numpad0, // KEY_KP0
        0x04f => Key::Numpad1, // KEY_KP1
        0x050 => Key::Numpad2, // KEY_KP2
        0x051 => Key::Numpad3, // KEY_KP3
        0x04b => Key::Numpad4, // KEY_KP4
        0x04c => Key::Numpad5, // KEY_KP5
        0x04d => Key::Numpad6, // KEY_KP6
        0x047 => Key::Numpad7, // KEY_KP7
        0x048 => Key::Numpad8, // KEY_KP8
        0x049 => Key::Numpad9, // KEY_KP9
        0x060 => Key::NumpadEnter, // KEY_KPENTER
        0x04e => Key::NumpadPlus, // KEY_KPPLUS
        0x04a => Key::NumpadMinus, // KEY_KPMINUS
        0x037 => Key::NumpadAsterisk, // KEY_KPASTERISK
        0x062 => Key::NumpadSlash, // KEY_KPSLASH
        0x053 => Key::NumpadDot, // KEY_KPDOT
        0x075 => Key::NumpadEqual, // KEY_KPEQUAL
        0x079 => Key::NumpadComma, // KEY_KPCOMMA
        0x05f => Key::KpJpComma, // KEY_KPJPCOMMA
        0x110 => Key::MouseLeft, // BTN_LEFT
        0x111 => Key::MouseRight, // BTN_RIGHT
        0x112 => Key::MouseMiddle, // BTN_MIDDLE
        0x113 => Key::MouseSide, // BTN_SIDE
        0x114 => Key::MouseExtra, // BTN_EXTRA
        0x115 => Key::MouseForward, // BTN_FORWARD
        0x116 => Key::MouseBack, // BTN_BACK
        _ => Key::Other(code),
    }
}

/// The evdev key code a key is sent with, if it has one: every named key
/// that [`evdev_key`] produces has one; [`Key::Other`] and the named keys
/// evdev codes are not mapped to have none.
pub open spec fn evdev_code(key: Key) -> Option<u16> {
    match key {
        Key::Escape => Some(0x001), // KEY_ESC
        Key::Digit1 => Some(0x002), // KEY_1
        Key::Digit2 => Some(0x003), // KEY_2
        Key::Digit3 => Some(0x004), // KEY_3
        Key::Digit4 => Some(0x005), // KEY_4
        Key::Digit5 => Some(0x006), // KEY_5
        Key::Digit6 => Some(0x007), // KEY_6
        Key::Digit7 => Some(0x008), // KEY_7
        Key::Digit8 => Some(0x009), // KEY_8
        Key::Digit9 => Some(0x00a), // KEY_9
        Key::Digit0 => Some(0x00b), // KEY_0
        Key::Minus => Some(0x00c), // KEY_MINUS
        Key::Equal => Some(0x00d), // KEY_EQUAL
        Key::Backspace => Some(0x00e), // KEY_BACKSPACE
        Key::Tab => Some(0x00f), // KEY_TAB
        Key::Q => Some(0x010), // KEY_Q
        Key::W => Some(0x011), // KEY_W
        Key::E => Some(0x012), // KEY_E
        Key::R => Some(0x013), // KEY_R
        Key::T => Some(0x014), // KEY_T
        Key::Y => Some(0x015), // KEY_Y
        Key::U => Some(0x016), // KEY_U
        Key::I => Some(0x017), // KEY_I
        Key::O => Some(0x018), // KEY_O
        Key::P => Some(0x019), // KEY_P
        Key::LeftBracket => Some(0x01a), // KEY_LEFTBRACE
        Key::RightBracket => Some(0x01b), // KEY_RIGHTBRACE
        Key::Enter => Some(0x01c), // KEY_ENTER
        Key::A => Some(0x01e), // KEY_A
        Key::B => Some(0x030), // KEY_B
        Key::C => Some(0x02e), // KEY_C
        Key::S => Some(0x01f), // KEY_S
        Key::D => Some(0x020), // KEY_D
        Key::F => Some(0x021), // KEY_F
        Key::G => Some(0x022), // KEY_G
        Key::H => Some(0x023), // KEY_H
        Key::J => Some(0x024), // KEY_J
        Key::K => Some(0x025), // KEY_K
        Key::L => Some(0x026), // KEY_L
        Key::Semicolon => Some(0x027), // KEY_SEMICOLON
        Key::Apostrophe => Some(0x028), // KEY_APOSTROPHE
        Key::Grave => Some(0x029), // KEY_GRAVE
        Key::Backslash => Some(0x02b), // KEY_BACKSLASH
        Key::Z => Some(0x02c), // KEY_Z
        Key::X => Some(0x02d), // KEY_X
        Key::V => Some(0x02f), // KEY_V
        Key::N => Some(0x031), // KEY_N
        Key::M => Some(0x032), // KEY_M
        Key::Comma => Some(0x033), // KEY_COMMA
        Key::Dot => Some(0x034), // KEY_DOT
        Key::Slash => Some(0x035), // KEY_SLASH
        Key::IntlBackslash => Some(0x056), // KEY_102ND
        Key::Space => Some(0x039), // KEY_SPACE
        Key::LeftCtrl => Some(0x01d), // KEY_LEFTCTRL
        Key::RightCtrl => Some(0x061), // KEY_RIGHTCTRL
        Key::LeftShift => Some(0x02a), // KEY_LEFTSHIFT
        Key::RightShift => Some(0x036), // KEY_RIGHTSHIFT
        Key::LeftAlt => Some(0x038), // KEY_LEFTALT
        Key::RightAlt => Some(0x064), // KEY_RIGHTALT
        Key::LeftMeta => Some(0x07d), // KEY_LEFTMETA
        Key::RightMeta => Some(0x07e), // KEY_RIGHTMETA
        Key::Compose => Some(0x07f), // KEY_COMPOSE
        Key::Fn => Some(0x1d0), // KEY_FN
        Key::Menu => Some(0x08b), // KEY_MENU
        Key::CapsLock => Some(0x03a), // KEY_CAPSLOCK
        Key::NumLock => Some(0x045), // KEY_NUMLOCK
        Key::ScrollLock => Some(0x046), // KEY_SCROLLLOCK
        Key::Insert => Some(0x06e), // KEY_INSERT
        Key::Delete => Some(0x06f), // KEY_DELETE
        Key::Home => Some(0x066), // KEY_HOME
        Key::End => Some(0x06b), // KEY_END
        Key::PageUp => Some(0x068), // KEY_PAGEUP
        Key::PageDown => Some(0x06d), // KEY_PAGEDOWN
        Key::Up => Some(0x067), // KEY_UP
        Key::Down => Some(0x06c), // KEY_DOWN
        Key::Left => Some(0x069), // KEY_LEFT
        Key::Right => Some(0x06a), // KEY_RIGHT
        Key::PrintScreen => Some(0x063), // KEY_SYSRQ
        Key::Pause => Some(0x077), // KEY_PAUSE
        Key::F1 => Some(0x03b), // KEY_F1
        Key::F2 => Some(0x03c), // KEY_F2
        Key::F3 => Some(0x03d), // KEY_F3
        Key::F4 => Some(0x03e), // KEY_F4
        Key::F5 => Some(0x03f), // KEY_F5
        Key::F6 => Some(0x040), // KEY_F6
        Key::F7 => Some(0x041), // KEY_F7
        Key::F8 => Some(0x042), // KEY_F8
        Key::F9 => Some(0x043), // KEY_F9
        Key::F10 => Some(0x044), // KEY_F10
        Key::F11 => Some(0x057), // KEY_F11
        Key::F12 => Some(0x058), // KEY_F12
        Key::F13 => Some(0x0b7), // KEY_F13
        Key::F14 => Some(0x0b8), // KEY_F14
        Key::F15 => Some(0x0b9), // KEY_F15
        Key::F16 => Some(0x0ba), // KEY_F16
        Key::F17 => Some(0x0bb), // KEY_F17
        Key::F18 => Some(0x0bc), // KEY_F18
        Key::F19 => Some(0x0bd), // KEY_F19
        Key::F20 => Some(0x0be), // KEY_F20
        Key::F21 => Some(0x0bf), // KEY_F21
        Key::F22 => Some(0x0c0), // KEY_F22
        Key::F23 => Some(0x0c1), // KEY_F23
        Key::F24 => Some(0x0c2), // KEY_F24
        Key::Numpad0 => Some(0x052), // KEY_KP0
        Key::Numpad1 => Some(0x04f), // KEY_KP1
        Key::Numpad2 => Some(0x050), // KEY_KP2
        Key::Numpad3 => Some(0x051), // KEY_KP3
        Key::Numpad4 => Some(0x04b), // KEY_KP4
        Key::Numpad5 => Some(0x04c), // KEY_KP5
        Key::Numpad6 => Some(0x04d), // KEY_KP6
        Key::Numpad7 => Some(0x047), // KEY_KP7
        Key::Numpad8 => Some(0x048), // KEY_KP8
        Key::Numpad9 => Some(0x049), // KEY_KP9
        Key::NumpadEnter => Some(0x060), // KEY_KPENTER
        Key::NumpadPlus => Some(0x04e), // KEY_KPPLUS
        Key::NumpadMinus => Some(0x04a), // KEY_KPMINUS
        Key::NumpadAsterisk => Some(0x037), // KEY_KPASTERISK
        Key::NumpadSlash => Some(0x062), // KEY_KPSLASH
        Key::NumpadDot => Some(0x053), // KEY_KPDOT
        Key::NumpadEqual => Some(0x075), // KEY_KPEQUAL
        Key::NumpadComma => Some(0x079), // KEY_KPCOMMA
        Key::KpJpComma => Some(0x05f), // KEY_KPJPCOMMA
        Key::MouseLeft => Some(0x110), // BTN_LEFT
        Key::MouseRight => Some(0x111), // BTN_RIGHT
        Key::MouseMiddle => Some(0x112), // BTN_MIDDLE
        Key::MouseSide => Some(0x113), // BTN_SIDE
        Key::MouseExtra => Some(0x114), // BTN_EXTRA
        Key::MouseForward => Some(0x115), // BTN_FORWARD
        Key::MouseBack => Some(0x116), // BTN_BACK
        _ => None,
    }
}

/// Map a raw evdev key code to a [`Key`].
///
/// Covers every key or button a typical keyboard or mouse reports; anything
/// else falls back to [`Key::Other`] with the raw code preserved.
pub fn map_key(code: u16) -> (key: Key)
    ensures
        key == evdev_key(code),
{
    match code {
        0x001 => Key::Escape, // KEY_ESC
        0x002 => Key::Digit1, // KEY_1
        0x003 => Key::Digit2, // KEY_2
        0x004 => Key::Digit3, // KEY_3
        0x005 => Key::Digit4, // KEY_4
        0x006 => Key::Digit5, // KEY_5
        0x007 => Key::Digit6, // KEY_6
        0x008 => Key::Digit7, // KEY_7
        0x009 => Key::Digit8, // KEY_8
        0x00a => Key::Digit9, // KEY_9
        0x00b => Key::Digit0, // KEY_0
        0x00c => Key::Minus, // KEY_MINUS
        0x00d => Key::Equal, // KEY_EQUAL
        0x00e => Key::Backspace, // KEY_BACKSPACE
        0x00f => Key::Tab, // KEY_TAB
        0x010 => Key::Q, // KEY_Q
        0x011 => Key::W, // KEY_W
        0x012 => Key::E, // KEY_E
        0x013 => Key::R, // KEY_R
        0x014 => Key::T, // KEY_T
        0x015 => Key::Y, // KEY_Y
        0x016 => Key::U, // KEY_U
        0x017 => Key::I, // KEY_I
        0x018 => Key::O, // KEY_O
        0x019 => Key::P, // KEY_P
        0x01a => Key::LeftBracket, // KEY_LEFTBRACE
        0x01b => Key::RightBracket, // KEY_RIGHTBRACE
        0x01c => Key::Enter, // KEY_ENTER
        0x01e => Key::A, // KEY_A
        0x030 => Key::B, // KEY_B
        0x02e => Key::C, // KEY_C
        0x01f => Key::S, // KEY_S
        0x020 => Key::D, // KEY_D
        0x021 => Key::F, // KEY_F
        0x022 => Key::G, // KEY_G
        0x023 => Key::H, // KEY_H
        0x024 => Key::J, // KEY_J
        0x025 => Key::K, // KEY_K
        0x026 => Key::L, // KEY_L
        0x027 => Key::Semicolon, // KEY_SEMICOLON
        0x028 => Key::Apostrophe, // KEY_APOSTROPHE
        0x029 => Key::Grave, // KEY_GRAVE
        0x02b => Key::Backslash, // KEY_BACKSLASH
        0x02c => Key::Z, // KEY_Z
        0x02d => Key::X, // KEY_X
        0x02f => Key::V, // KEY_V
        0x031 => Key::N, // KEY_N
        0x032 => Key::M, // KEY_M
        0x033 => Key::Comma, // KEY_COMMA
        0x034 => Key::Dot, // KEY_DOT
        0x035 => Key::Slash, // KEY_SLASH
        0x056 => Key::IntlBackslash, // KEY_102ND
        0x039 => Key::Space, // KEY_SPACE
        0x01d => Key::LeftCtrl, // KEY_LEFTCTRL
        0x061 => Key::RightCtrl, // KEY_RIGHTCTRL
        0x02a => Key::LeftShift, // KEY_LEFTSHIFT
        0x036 => Key::RightShift, // KEY_RIGHTSHIFT
        0x038 => Key::LeftAlt, // KEY_LEFTALT
        0x064 => Key::RightAlt, // KEY_RIGHTALT
        0x07d => Key::LeftMeta, // KEY_LEFTMETA
        0x07e => Key::RightMeta, // KEY_RIGHTMETA
        0x07f => Key::Compose, // KEY_COMPOSE
        0x1d0 => Key::Fn, // KEY_FN
        0x08b => Key::Menu, // KEY_MENU
        0x1b6 => Key::Menu, // KEY_CONTEXT_MENU
        0x03a => Key::CapsLock, // KEY_CAPSLOCK
        0x045 => Key::NumLock, // KEY_NUMLOCK
        0x046 => Key::ScrollLock, // KEY_SCROLLLOCK
        0x06e => Key::Insert, // KEY_INSERT
        0x06f => Key::Delete, // KEY_DELETE
        0x066 => Key::Home, // KEY_HOME
        0x06b => Key::End, // KEY_END
        0x068 => Key::PageUp, // KEY_PAGEUP
        0x06d => Key::PageDown, // KEY_PAGEDOWN
        0x067 => Key::Up, // KEY_UP
        0x06c => Key::Down, // KEY_DOWN
        0x069 => Key::Left, // KEY_LEFT
        0x06a => Key::Right, // KEY_RIGHT
        0x063 => Key::PrintScreen, // KEY_SYSRQ
        0x077 => Key::Pause, // KEY_PAUSE
        0x03b => Key::F1, // KEY_F1
        0x03c => Key::F2, // KEY_F2
        0x03d => Key::F3, // KEY_F3
        0x03e => Key::F4, // KEY_F4
        0x03f => Key::F5, // KEY_F5
        0x040 => Key::F6, // KEY_F6
        0x041 => Key::F7, // KEY_F7
        0x042 => Key::F8, // KEY_F8
        0x043 => Key::F9, // KEY_F9
        0x044 => Key::F10, // KEY_F10
        0x057 => Key::F11, // KEY_F11
        0x058 => Key::F12, // KEY_F12
        0x0b7 => Key::F13, // KEY_F13
        0x0b8 => Key::F14, // KEY_F14
        0x0b9 => Key::F15, // KEY_F15
        0x0ba => Key::F16, // KEY_F16
        0x0bb => Key::F17, // KEY_F17
        0x0bc => Key::F18, // KEY_F18
        0x0bd => Key::F19, // KEY_F19
        0x0be => Key::F20, // KEY_F20
        0x0bf => Key::F21, // KEY_F21
        0x0c0 => Key::F22, // KEY_F22
        0x0c1 => Key::F23, // KEY_F23
        0x0c2 => Key::F24, // KEY_F24
        0x052 => Key::Numpad0, // KEY_KP0
        0x04f => Key::Numpad1, // KEY_KP1
        0x050 => Key::Numpad2, // KEY_KP2
        0x051 => Key::Numpad3, // KEY_KP3
        0x04b => Key::Numpad4, // KEY_KP4
        0x04c => Key::Numpad5, // KEY_KP5
        0x04d => Key::Numpad6, // KEY_KP6
        0x047 => Key::Numpad7, // KEY_KP7
        0x048 => Key::Numpad8, // KEY_KP8
        0x049 => Key::Numpad9, // KEY_KP9
        0x060 => Key::NumpadEnter, // KEY_KPENTER
        0x04e => Key::NumpadPlus, // KEY_KPPLUS
        0x04a => Key::NumpadMinus, // KEY_KPMINUS
        0x037 => Key::NumpadAsterisk, // KEY_KPASTERISK
        0x062 => Key::NumpadSlash, // KEY_KPSLASH
        0x053 => Key::NumpadDot, // KEY_KPDOT
        0x075 => Key::NumpadEqual, // KEY_KPEQUAL
        0x079 => Key::NumpadComma, // KEY_KPCOMMA
        0x05f => Key::KpJpComma, // KEY_KPJPCOMMA
        0x110 => Key::MouseLeft, // BTN_LEFT
        0x111 => Key::MouseRight, // BTN_RIGHT
        0x112 => Key::MouseMiddle, // BTN_MIDDLE
        0x113 => Key::MouseSide, // BTN_SIDE
        0x114 => Key::MouseExtra, // BTN_EXTRA
        0x115 => Key::MouseForward, // BTN_FORWARD
        0x116 => Key::MouseBack, // BTN_BACK
        _ => Key::Other(code),
    }
}

/// The evdev key code that sends `key`.
///
/// Keys without an evdev code, [`Key::Other`] among them, fail with
/// [`Error::KeyNotMapped`].
pub fn key_code(key: Key) -> (code: Result<u16, Error>)
    ensures
        match code {
            Ok(code) => evdev_code(key) == Some(code),
            Err(error) => evdev_code(key) is None && error == Error::KeyNotMapped(key),
        },
{
    match key {
        Key::Escape => Ok(0x001), // KEY_ESC
        Key::Digit1 => Ok(0x002), // KEY_1
        Key::Digit2 => Ok(0x003), // KEY_2
        Key::Digit3 => Ok(0x004), // KEY_3
        Key::Digit4 => Ok(0x005), // KEY_4
        Key::Digit5 => Ok(0x006), // KEY_5
        Key::Digit6 => Ok(0x007), // KEY_6
        Key::Digit7 => Ok(0x008), // KEY_7
        Key::Digit8 => Ok(0x009), // KEY_8
        Key::Digit9 => Ok(0x00a), // KEY_9
        Key::Digit0 => Ok(0x00b), // KEY_0
        Key::Minus => Ok(0x00c), // KEY_MINUS
        Key::Equal => Ok(0x00d), // KEY_EQUAL
        Key::Backspace => Ok(0x00e), // KEY_BACKSPACE
        Key::Tab => Ok(0x00f), // KEY_TAB
        Key::Q => Ok(0x010), // KEY_Q
        Key::W => Ok(0x011), // KEY_W
        Key::E => Ok(0x012), // KEY_E
        Key::R => Ok(0x013), // KEY_R
        Key::T => Ok(0x014), // KEY_T
        Key::Y => Ok(0x015), // KEY_Y
        Key::U => Ok(0x016), // KEY_U
        Key::I => Ok(0x017), // KEY_I
        Key::O => Ok(0x018), // KEY_O
        Key::P => Ok(0x019), // KEY_P
        Key::LeftBracket => Ok(0x01a), // KEY_LEFTBRACE
        Key::RightBracket => Ok(0x01b), // KEY_RIGHTBRACE
        Key::Enter => Ok(0x01c), // KEY_ENTER
        Key::A => Ok(0x01e), // KEY_A
        Key::B => Ok(0x030), // KEY_B
        Key::C => Ok(0x02e), // KEY_C
        Key::S => Ok(0x01f), // KEY_S
        Key::D => Ok(0x020), // KEY_D
        Key::F => Ok(0x021), // KEY_F
        Key::G => Ok(0x022), // KEY_G
        Key::H => Ok(0x023), // KEY_H
        Key::J => Ok(0x024), // KEY_J
        Key::K => Ok(0x025), // KEY_K
        Key::L => Ok(0x026), // KEY_L
        Key::Semicolon => Ok(0x027), // KEY_SEMICOLON
        Key::Apostrophe => Ok(0x028), // KEY_APOSTROPHE
        Key::Grave => Ok(0x029), // KEY_GRAVE
        Key::Backslash => Ok(0x02b), // KEY_BACKSLASH
        Key::Z => Ok(0x02c), // KEY_Z
        Key::X => Ok(0x02d), // KEY_X
        Key::V => Ok(0x02f), // KEY_V
        Key::N => Ok(0x031), // KEY_N
        Key::M => Ok(0x032), // KEY_M
        Key::Comma => Ok(0x033), // KEY_COMMA
        Key::Dot => Ok(0x034), // KEY_DOT
        Key::Slash => Ok(0x035), // KEY_SLASH
        Key::IntlBackslash => Ok(0x056), // KEY_102ND
        Key::Space => Ok(0x039), // KEY_SPACE
        Key::LeftCtrl => Ok(0x01d), // KEY_LEFTCTRL
        Key::RightCtrl => Ok(0x061), // KEY_RIGHTCTRL
        Key::LeftShift => Ok(0x02a), // KEY_LEFTSHIFT
        Key::RightShift => Ok(0x036), // KEY_RIGHTSHIFT
        Key::LeftAlt => Ok(0x038), // KEY_LEFTALT
        Key::RightAlt => Ok(0x064), // KEY_RIGHTALT
        Key::LeftMeta => Ok(0x07d), // KEY_LEFTMETA
        Key::RightMeta => Ok(0x07e), // KEY_RIGHTMETA
        Key::Compose => Ok(0x07f), // KEY_COMPOSE
        Key::Fn => Ok(0x1d0), // KEY_FN
        Key::Menu => Ok(0x08b), // KEY_MENU
        Key::CapsLock => Ok(0x03a), // KEY_CAPSLOCK
        Key::NumLock => Ok(0x045), // KEY_NUMLOCK
        Key::ScrollLock => Ok(0x046), // KEY_SCROLLLOCK
        Key::Insert => Ok(0x06e), // KEY_INSERT
        Key::Delete => Ok(0x06f), // KEY_DELETE
        Key::Home => Ok(0x066), // KEY_HOME
        Key::End => Ok(0x06b), // KEY_END
        Key::PageUp => Ok(0x068), // KEY_PAGEUP
        Key::PageDown => Ok(0x06d), // KEY_PAGEDOWN
        Key::Up => Ok(0x067), // KEY_UP
        Key::Down => Ok(0x06c), // KEY_DOWN
        Key::Left => Ok(0x069), // KEY_LEFT
        Key::Right => Ok(0x06a), // KEY_RIGHT
        Key::PrintScreen => Ok(0x063), // KEY_SYSRQ
        Key::Pause => Ok(0x077), // KEY_PAUSE
        Key::F1 => Ok(0x03b), // KEY_F1
        Key::F2 => Ok(0x03c), // KEY_F2
        Key::F3 => Ok(0x03d), // KEY_F3
        Key::F4 => Ok(0x03e), // KEY_F4
        Key::F5 => Ok(0x03f), // KEY_F5
        Key::F6 => Ok(0x040), // KEY_F6
        Key::F7 => Ok(0x041), // KEY_F7
        Key::F8 => Ok(0x042), // KEY_F8
        Key::F9 => Ok(0x043), // KEY_F9
        Key::F10 => Ok(0x044), // KEY_F10
        Key::F11 => Ok(0x057), // KEY_F11
        Key::F12 => Ok(0x058), // KEY_F12
        Key::F13 => Ok(0x0b7), // KEY_F13
        Key::F14 => Ok(0x0b8), // KEY_F14
        Key::F15 => Ok(0x0b9), // KEY_F15
        Key::F16 => Ok(0x0ba), // KEY_F16
        Key::F17 => Ok(0x0bb), // KEY_F17
        Key::F18 => Ok(0x0bc), // KEY_F18
        Key::F19 => Ok(0x0bd), // KEY_F19
        Key::F20 => Ok(0x0be), // KEY_F20
        Key::F21 => Ok(0x0bf), // KEY_F21
        Key::F22 => Ok(0x0c0), // KEY_F22
        Key::F23 => Ok(0x0c1), // KEY_F23
        Key::F24 => Ok(0x0c2), // KEY_F24
        Key::Numpad0 => Ok(0x052), // KEY_KP0
        Key::Numpad1 => Ok(0x04f), // KEY_KP1
        Key::Numpad2 => Ok(0x050), // KEY_KP2
        Key::Numpad3 => Ok(0x051), // KEY_KP3
        Key::Numpad4 => Ok(0x04b), // KEY_KP4
        Key::Numpad5 => Ok(0x04c), // KEY_KP5
        Key::Numpad6 => Ok(0x04d), // KEY_KP6
        Key::Numpad7 => Ok(0x047), // KEY_KP7
        Key::Numpad8 => Ok(0x048), // KEY_KP8
        Key::Numpad9 => Ok(0x049), // KEY_KP9
        Key::NumpadEnter => Ok(0x060), // KEY_KPENTER
        Key::NumpadPlus => Ok(0x04e), // KEY_KPPLUS
        Key::NumpadMinus => Ok(0x04a), // KEY_KPMINUS
        Key::NumpadAsterisk => Ok(0x037), // KEY_KPASTERISK
        Key::NumpadSlash => Ok(0x062), // KEY_KPSLASH
        Key::NumpadDot => Ok(0x053), // KEY_KPDOT
        Key::NumpadEqual => Ok(0x075), // KEY_KPEQUAL
        Key::NumpadComma => Ok(0x079), // KEY_KPCOMMA
        Key::KpJpComma => Ok(0x05f), // KEY_KPJPCOMMA
        Key::MouseLeft => Ok(0x110), // BTN_LEFT
        Key::MouseRight => Ok(0x111), // BTN_RIGHT
        Key::MouseMiddle => Ok(0x112), // BTN_MIDDLE
        Key::MouseSide => Ok(0x113), // BTN_SIDE
        Key::MouseExtra => Ok(0x114), // BTN_EXTRA
        Key::MouseForward => Ok(0x115), // BTN_FORWARD
        Key::MouseBack => Ok(0x116), // BTN_BACK
        _ => Err(Error::KeyNotMapped(key)),
    }
}

/// A raw evdev input event, as read from a device node.
#[derive(Debug, Clone, Copy)]
pub struct RawEvent {
    /// The event type (`EV_KEY`, `EV_SYN`, `EV_REL`, ...).
    pub event_type: u16,
    /// The event code; for `EV_KEY` events, the key code.
    pub code: u16,
    /// The event value; for `EV_KEY` events, the key state value.
    pub value: i32,
    /// When the kernel recorded the event.
    pub timestamp: SystemTime,
}

/// The key event a raw event stands for on `device`, if any.
pub open spec fn input_event_of(event: RawEvent, device: DeviceId) -> Option<InputKeyEvent> {
    if event.event_type != EV_KEY {
        None
    } else {
        match state_of_value(event.value) {
            Some(state) => Some(
                InputKeyEvent {
                    key: evdev_key(event.code),
                    state,
                    device,
                    timestamp: event.timestamp,
                },
            ),
            None => None,
        }
    }
}

/// Convert a raw evdev event into an [`InputKeyEvent`] from `device`.
///
/// Returns `None` for non-key events (`EV_SYN` markers, relative/absolute
/// axes, ...) and for key events with an unknown state value.
pub fn map_input_event(event: RawEvent, device: &DeviceId) -> (mapped: Option<InputKeyEvent>)
    ensures
        mapped == input_event_of(event, *device),
{
    if event.event_type != EV_KEY {
        return None;
    }
    match KeyState::from_value(event.value) {
        Some(state) => Some(
            InputKeyEvent {
                key: map_key(event.code),
                state,
                device: device.clone(),
                timestamp: event.timestamp,
            },
        ),
        None => None,
    }
}

/// The event that sends `key` in `state` through a uinput device: its
/// type, code and value, as `evdev::InputEvent::new` takes them.
///
/// Keys without an evdev code fail with [`Error::KeyNotMapped`].
pub fn outgoing_event(key: Key, state: KeyState) -> (event: Result<(u16, u16, i32), Error>)
    ensures
        match event {
            Ok((event_type, code, value)) => {
                &&& event_type == EV_KEY
                &&& evdev_code(key) == Some(code)
                &&& value == state_value(state)
            },
            Err(error) => evdev_code(key) is None && error == Error::KeyNotMapped(key),
        },
{
    let code = key_code(key)?;
    Ok((EV_KEY, code, state.to_value()))
}

/// Every key event with a known state value is heard, whatever its code:
/// as the key its code stands for (the raw code for keys without a name),
/// in the state its value stands for, from the given device, at the
/// event's time. Every other event is dropped.
pub proof fn lemma_key_events_are_heard(event: RawEvent, device: DeviceId)
    ensures
        event.event_type == EV_KEY && 0 <= event.value <= 2 ==> (input_event_of(event, device)
            matches Some(heard) && heard.key == evdev_key(event.code) && state_value(heard.state)
            == event.value && heard.device == device && heard.timestamp == event.timestamp && (
        is_named(heard.key) || heard.key == Key::Other(event.code))),
        event.event_type != EV_KEY || event.value < 0 || event.value > 2 ==> input_event_of(
            event,
            device,
        ) is None,
{
}

/// A key sent with an evdev code is heard back as the same key.
pub proof fn lemma_sent_key_is_heard_back(key: Key)
    requires
        evdev_code(key) is Some,
    ensures
        evdev_key(evdev_code(key).unwrap()) == key,
{
}

/// An event sent for a key in some state is heard back, from any device,
/// as that key in that state: what the uinput device emits reaches a
/// listener like an event from a physical keyboard.
pub proof fn lemma_sent_event_is_heard_back(
    key: Key,
    state: KeyState,
    timestamp: SystemTime,
    device: DeviceId,
)
    requires
        evdev_code(key) is Some,
    ensures
        input_event_of(
            RawEvent {
                event_type: EV_KEY,
                code: evdev_code(key).unwrap(),
                value: state_value(state),
                timestamp,
            },
            device,
        ) == Some(InputKeyEvent { key, state, device, timestamp }),
{
    lemma_sent_key_is_heard_back(key);
}

/// Every code is heard either as a named key, which can be sent, or as
/// [`Key::Other`] carrying the code itself; and every code but
/// `KEY_CONTEXT_MENU` is sent back as itself.
pub proof fn lemma_heard_key_is_sendable(code: u16)
    ensures
        is_named(evdev_key(code)) ==> evdev_code(evdev_key(code)) is Some,
        !is_named(evdev_key(code)) ==> evdev_key(code) == Key::Other(code),
        is_named(evdev_key(code)) && code != KEY_CONTEXT_MENU ==> evdev_code(evdev_key(code))
            == Some(code),
{
}

/// Keys carrying a raw code cannot be sent.
pub proof fn lemma_other_keys_are_not_sent(code: u16)
    ensures
        evdev_code(Key::Other(code)) is None,
{
}

} // verus!
