//! What `SendInput` is given to inject a key event.
//!
//! `Hold` has no Windows equivalent: the system synthesizes auto-repeat
//! while a key is physically held, so a hold is sent as a plain press.

use vstd::prelude::*;

use crate::error::Error;
use crate::keys::{Key, KeyState};
use crate::keys::is_named;
use super::hooks::{
    keyboard_message, mouse_message, LLKHF_EXTENDED, LLKHF_UP, WM_LBUTTONDOWN, WM_LBUTTONUP,
    WM_MBUTTONDOWN, WM_MBUTTONUP, WM_RBUTTONDOWN, WM_RBUTTONUP, WM_XBUTTONDOWN, WM_XBUTTONUP,
};
use super::mapping::{injection_target, map_key, shares_code, InjectTarget, MouseButton};

verus! {

/// `KEYEVENTF_KEYUP`: the key is being released.
pub const KEYEVENTF_KEYUP: u32 = 0x0002;
/// `MOUSEEVENTF_LEFTDOWN`
pub const MOUSEEVENTF_LEFTDOWN: u32 = 0x0002;
/// `MOUSEEVENTF_LEFTUP`
pub const MOUSEEVENTF_LEFTUP: u32 = 0x0004;
/// `MOUSEEVENTF_RIGHTDOWN`
pub const MOUSEEVENTF_RIGHTDOWN: u32 = 0x0008;
/// `MOUSEEVENTF_RIGHTUP`
pub const MOUSEEVENTF_RIGHTUP: u32 = 0x0010;
/// `MOUSEEVENTF_MIDDLEDOWN`
pub const MOUSEEVENTF_MIDDLEDOWN: u32 = 0x0020;
/// `MOUSEEVENTF_MIDDLEUP`
pub const MOUSEEVENTF_MIDDLEUP: u32 = 0x0040;
/// `MOUSEEVENTF_XDOWN`
pub const MOUSEEVENTF_XDOWN: u32 = 0x0080;
/// `MOUSEEVENTF_XUP`
pub const MOUSEEVENTF_XUP: u32 = 0x0100;
/// `XBUTTON1` as `mouseData`.
pub const XBUTTON1_DATA: u32 = 0x0001;
/// `XBUTTON2` as `mouseData`.
pub const XBUTTON2_DATA: u32 = 0x0002;

/// One input for `SendInput`.
#[derive(Debug, Clone, Copy, PartialEq, Eq, Structural)]
pub enum Injection {
    /// A `KEYBDINPUT` with this virtual-key code and these flags.
    Keyboard { vk: u16, flags: u32 },
    /// A `MOUSEINPUT` with these flags and this `mouseData`.
    Mouse { flags: u32, mouse_data: u32 },
}

/// The `MOUSEINPUT` flags and `mouseData` that press (or, with `up`,
/// release) a mouse button.
pub open spec fn mouse_input(button: MouseButton, up: bool) -> (u32, u32) {
    match (button, up) {
        (MouseButton::Left, false) => (MOUSEEVENTF_LEFTDOWN, 0),
        (MouseButton::Left, true) => (MOUSEEVENTF_LEFTUP, 0),
        (MouseButton::Right, false) => (MOUSEEVENTF_RIGHTDOWN, 0),
        (MouseButton::Right, true) => (MOUSEEVENTF_RIGHTUP, 0),
        (MouseButton::Middle, false) => (MOUSEEVENTF_MIDDLEDOWN, 0),
        (MouseButton::Middle, true) => (MOUSEEVENTF_MIDDLEUP, 0),
        (MouseButton::Side, false) => (MOUSEEVENTF_XDOWN, XBUTTON1_DATA),
        (MouseButton::Side, true) => (MOUSEEVENTF_XUP, XBUTTON1_DATA),
        (MouseButton::Extra, false) => (MOUSEEVENTF_XDOWN, XBUTTON2_DATA),
        (MouseButton::Extra, true) => (MOUSEEVENTF_XUP, XBUTTON2_DATA),
    }
}

/// The input that injects `key` in `state`, if `key` can be injected: a
/// release for `Up`, a press for `Down` and `Hold`.
pub open spec fn injection_of(key: Key, state: KeyState) -> Option<Injection> {
    let up = state == KeyState::Up;
    match injection_target(key) {
        Some(InjectTarget::Vk(vk)) => Some(
            Injection::Keyboard { vk, flags: if up { KEYEVENTF_KEYUP } else { 0 } },
        ),
        Some(InjectTarget::Mouse(button)) => Some(
            Injection::Mouse { flags: mouse_input(button, up).0, mouse_data: mouse_input(button, up).1 },
        ),
        None => None,
    }
}

fn mouse_flags(button: MouseButton, up: bool) -> (input: (u32, u32))
    ensures
        input == mouse_input(button, up),
{
    match (button, up) {
        (MouseButton::Left, false) => (MOUSEEVENTF_LEFTDOWN, 0),
        (MouseButton::Left, true) => (MOUSEEVENTF_LEFTUP, 0),
        (MouseButton::Right, false) => (MOUSEEVENTF_RIGHTDOWN, 0),
        (MouseButton::Right, true) => (MOUSEEVENTF_RIGHTUP, 0),
        (MouseButton::Middle, false) => (MOUSEEVENTF_MIDDLEDOWN, 0),
        (MouseButton::Middle, true) => (MOUSEEVENTF_MIDDLEUP, 0),
        (MouseButton::Side, false) => (MOUSEEVENTF_XDOWN, XBUTTON1_DATA),
        (MouseButton::Side, true) => (MOUSEEVENTF_XUP, XBUTTON1_DATA),
        (MouseButton::Extra, false) => (MOUSEEVENTF_XDOWN, XBUTTON2_DATA),
        (MouseButton::Extra, true) => (MOUSEEVENTF_XUP, XBUTTON2_DATA),
    }
}

/// The input that injects `key` in `state`.
///
/// Keys Windows has no virtual-key code for fail with
/// [`Error::KeyNotMapped`].
pub fn injection(key: Key, state: KeyState) -> (input: Result<Injection, Error>)
    ensures
        match input {
            Ok(input) => injection_of(key, state) == Some(input),
            Err(error) => injection_of(key, state) is None && error == Error::KeyNotMapped(key),
        },
{
    let up = state == KeyState::Up;
    match map_key(key)? {
        InjectTarget::Vk(vk) => Ok(Injection::Keyboard { vk, flags: if up { KEYEVENTF_KEYUP } else { 0 } }),
        InjectTarget::Mouse(button) => {
            let (flags, mouse_data) = mouse_flags(button, up);
            Ok(Injection::Mouse { flags, mouse_data })
        },
    }
}

/// The `KBDLLHOOKSTRUCT` flags the low-level keyboard hook sees for a
/// `KEYBDINPUT` injected with `input_flags`: `LLKHF_UP` for a release
/// (`KEYEVENTF_KEYUP`), and `LLKHF_EXTENDED` when the key is reported as
/// extended.
pub open spec fn hook_flags_of_input(input_flags: u32, extended: bool) -> u32 {
    (if input_flags & KEYEVENTF_KEYUP != 0 { LLKHF_UP } else { 0 }) | (if extended {
        LLKHF_EXTENDED
    } else {
        0
    })
}

/// The message and `mouseData` the low-level mouse hook sees for a
/// `MOUSEINPUT` injected with these flags and `mouseData`: each
/// `MOUSEEVENTF_*DOWN`/`*UP` flag becomes the matching `WM_*BUTTONDOWN`/
/// `*UP` message, and for X buttons the button moves to the high word.
pub open spec fn hook_message_of_input(flags: u32, mouse_data: u32) -> Option<(u32, u32)> {
    if flags == MOUSEEVENTF_LEFTDOWN {
        Some((WM_LBUTTONDOWN, 0))
    } else if flags == MOUSEEVENTF_LEFTUP {
        Some((WM_LBUTTONUP, 0))
    } else if flags == MOUSEEVENTF_RIGHTDOWN {
        Some((WM_RBUTTONDOWN, 0))
    } else if flags == MOUSEEVENTF_RIGHTUP {
        Some((WM_RBUTTONUP, 0))
    } else if flags == MOUSEEVENTF_MIDDLEDOWN {
        Some((WM_MBUTTONDOWN, 0))
    } else if flags == MOUSEEVENTF_MIDDLEUP {
        Some((WM_MBUTTONUP, 0))
    } else if flags == MOUSEEVENTF_XDOWN {
        Some((WM_XBUTTONDOWN, mouse_data << 16u32))
    } else if flags == MOUSEEVENTF_XUP {
        Some((WM_XBUTTONUP, mouse_data << 16u32))
    } else {
        None
    }
}

/// The state a listener hears for an injected state: `Hold` is sent as a
/// press.
pub open spec fn heard_state(state: KeyState) -> KeyState {
    if state == KeyState::Up { KeyState::Up } else { KeyState::Down }
}

/// Pressing and releasing a mouse button are different inputs: a release
/// carries one of the `*UP` flags, a press one of the `*DOWN` flags.
pub proof fn lemma_mouse_press_and_release_differ(button: MouseButton)
    ensures
        mouse_input(button, true) != mouse_input(button, false),
        mouse_input(button, true).0 == MOUSEEVENTF_LEFTUP || mouse_input(button, true).0
            == MOUSEEVENTF_RIGHTUP || mouse_input(button, true).0 == MOUSEEVENTF_MIDDLEUP
            || mouse_input(button, true).0 == MOUSEEVENTF_XUP,
        mouse_input(button, false).0 == MOUSEEVENTF_LEFTDOWN || mouse_input(button, false).0
            == MOUSEEVENTF_RIGHTDOWN || mouse_input(button, false).0 == MOUSEEVENTF_MIDDLEDOWN
            || mouse_input(button, false).0 == MOUSEEVENTF_XDOWN,
{
}

/// A mouse button injected in some state is heard back by the mouse hook
/// as the same button, released for `Up` and pressed otherwise.
pub proof fn lemma_injected_button_is_heard_back(key: Key, state: KeyState)
    requires
        injection_target(key) matches Some(InjectTarget::Mouse(_)),
    ensures
        injection_of(key, state) matches Some(Injection::Mouse { flags, mouse_data })
            && hook_message_of_input(flags, mouse_data) matches Some((message, data))
            && mouse_message(message, data) == Some((key, heard_state(state))),
{
    assert((1u32 << 16u32) >> 16u32 == 1u32) by (bit_vector);
    assert((2u32 << 16u32) >> 16u32 == 2u32) by (bit_vector);
}

/// A named key injected as a virtual-key code is heard back by the
/// keyboard hook as the same key, released for `Up` and pressed
/// otherwise, whether or not the hook flags it as extended, except the
/// keys that share their code with another key.
pub proof fn lemma_injected_key_is_heard_back(key: Key, state: KeyState, extended: bool)
    requires
        is_named(key),
        !shares_code(key),
        injection_target(key) matches Some(InjectTarget::Vk(_)),
    ensures
        injection_of(key, state) matches Some(Injection::Keyboard { vk, flags })
            && keyboard_message(vk as u32, hook_flags_of_input(flags, extended)) == Some(
            (key, heard_state(state)),
        ),
{
    assert(KEYEVENTF_KEYUP & KEYEVENTF_KEYUP != 0u32) by (bit_vector);
    assert(0u32 & KEYEVENTF_KEYUP == 0u32) by (bit_vector);
    assert((LLKHF_UP | LLKHF_EXTENDED) & LLKHF_UP != 0u32 && (LLKHF_UP | LLKHF_EXTENDED)
        & LLKHF_EXTENDED != 0u32) by (bit_vector);
    assert((LLKHF_UP | 0u32) & LLKHF_UP != 0u32 && (LLKHF_UP | 0u32) & LLKHF_EXTENDED == 0u32)
        by (bit_vector);
    assert((0u32 | LLKHF_EXTENDED) & LLKHF_UP == 0u32 && (0u32 | LLKHF_EXTENDED)
        & LLKHF_EXTENDED != 0u32) by (bit_vector);
    assert((0u32 | 0u32) & LLKHF_UP == 0u32 && (0u32 | 0u32) & LLKHF_EXTENDED == 0u32)
        by (bit_vector);
    if let Some(InjectTarget::Vk(vk)) = injection_target(key) {
        super::mapping::lemma_injection_roundtrip_either_side(key, extended);
        assert((vk as u32) as u16 == vk);
    }
}

} // verus!
