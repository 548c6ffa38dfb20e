//! What the low-level hook callbacks make of the messages they receive.
//!
//! Low-level hooks report system-wide events but do not identify the
//! physical device an event came from, so every event is attributed to a
//! fixed [`DeviceId`] ("Windows keyboard" / "Windows mouse").

use std::time::SystemTime;
use vstd::prelude::*;

use crate::keys::{DeviceId, InputKeyEvent, Key, KeyState};
use super::mapping::{map_vk, windows_key};

verus! {

/// `KBDLLHOOKSTRUCT` flag: the key is in the extended section.
pub const LLKHF_EXTENDED: u32 = 0x01;
/// `KBDLLHOOKSTRUCT` flag: the key is being released.
pub const LLKHF_UP: u32 = 0x80;

/// `WM_LBUTTONDOWN`
pub const WM_LBUTTONDOWN: u32 = 0x0201;
/// `WM_LBUTTONUP`
pub const WM_LBUTTONUP: u32 = 0x0202;
/// `WM_RBUTTONDOWN`
pub const WM_RBUTTONDOWN: u32 = 0x0204;
/// `WM_RBUTTONUP`
pub const WM_RBUTTONUP: u32 = 0x0205;
/// `WM_MBUTTONDOWN`
pub const WM_MBUTTONDOWN: u32 = 0x0207;
/// `WM_MBUTTONUP`
pub const WM_MBUTTONUP: u32 = 0x0208;
/// `WM_XBUTTONDOWN`
pub const WM_XBUTTONDOWN: u32 = 0x020b;
/// `WM_XBUTTONUP`
pub const WM_XBUTTONUP: u32 = 0x020c;
/// `XBUTTON1`: the first extra (side) button.
pub const XBUTTON1: u16 = 0x0001;
/// `XBUTTON2`: the second extra button.
pub const XBUTTON2: u16 = 0x0002;

/// The device every keyboard event is attributed to.
pub open spec fn keyboard_device_id() -> (Seq<char>, Seq<char>) {
    ("Windows keyboard"@, "WH_KEYBOARD_LL"@)
}

/// The device every mouse button event is attributed to.
pub open spec fn mouse_device_id() -> (Seq<char>, Seq<char>) {
    ("Windows mouse"@, "WH_MOUSE_LL"@)
}

/// The fixed [`DeviceId`] attributed to keyboard events.
pub fn keyboard_device() -> (id: DeviceId)
    ensures
        id@ == keyboard_device_id(),
{
    DeviceId { name: String::from_str("Windows keyboard"), location: String::from_str("WH_KEYBOARD_LL") }
}

/// The fixed [`DeviceId`] attributed to mouse button events.
pub fn mouse_device() -> (id: DeviceId)
    ensures
        id@ == mouse_device_id(),
{
    DeviceId { name: String::from_str("Windows mouse"), location: String::from_str("WH_MOUSE_LL") }
}

/// The key and state a keyboard hook message reports, given its
/// virtual-key code and flags: `None` for the synthetic IME codes.
pub open spec fn keyboard_message(vk_code: u32, flags: u32) -> Option<(Key, KeyState)> {
    match windows_key(vk_code as u16, flags & LLKHF_EXTENDED != 0) {
        Some(key) => Some((key, if flags & LLKHF_UP != 0 { KeyState::Up } else { KeyState::Down })),
        None => None,
    }
}

/// The mouse button and state a mouse hook message reports, given the
/// message and its `mouseData` (whose high word names the X button):
/// `None` for messages about anything but a button.
pub open spec fn mouse_message(message: u32, mouse_data: u32) -> Option<(Key, KeyState)> {
    if message == WM_LBUTTONDOWN {
        Some((Key::MouseLeft, KeyState::Down))
    } else if message == WM_LBUTTONUP {
        Some((Key::MouseLeft, KeyState::Up))
    } else if message == WM_RBUTTONDOWN {
        Some((Key::MouseRight, KeyState::Down))
    } else if message == WM_RBUTTONUP {
        Some((Key::MouseRight, KeyState::Up))
    } else if message == WM_MBUTTONDOWN {
        Some((Key::MouseMiddle, KeyState::Down))
    } else if message == WM_MBUTTONUP {
        Some((Key::MouseMiddle, KeyState::Up))
    } else if message == WM_XBUTTONDOWN || message == WM_XBUTTONUP {
        let state = if message == WM_XBUTTONDOWN { KeyState::Down } else { KeyState::Up };
        let button = (mouse_data >> 16u32) as u16;
        if button == XBUTTON1 {
            Some((Key::MouseSide, state))
        } else if button == XBUTTON2 {
            Some((Key::MouseExtra, state))
        } else {
            None
        }
    } else {
        None
    }
}

/// Whether `event` is the event for `reported` on the device `device`
/// at `timestamp`, or both are absent.
pub open spec fn hook_event_matches(
    event: Option<InputKeyEvent>,
    reported: Option<(Key, KeyState)>,
    device: (Seq<char>, Seq<char>),
    timestamp: SystemTime,
) -> bool {
    match (event, reported) {
        (Some(event), Some((key, state))) => {
            &&& event.key == key
            &&& event.state == state
            &&& event.device@ == device
            &&& event.timestamp == timestamp
        },
        (None, None) => true,
        _ => false,
    }
}

/// The event a keyboard hook message stands for, at `timestamp`.
pub fn keyboard_hook_event(vk_code: u32, flags: u32, timestamp: SystemTime) -> (event: Option<InputKeyEvent>)
    ensures
        hook_event_matches(event, keyboard_message(vk_code, flags), keyboard_device_id(), timestamp),
{
    match map_vk(vk_code as u16, flags & LLKHF_EXTENDED != 0) {
        Some(key) => Some(
            InputKeyEvent {
                key,
                state: if flags & LLKHF_UP != 0 { KeyState::Up } else { KeyState::Down },
                device: keyboard_device(),
                timestamp,
            },
        ),
        None => None,
    }
}

/// The event a mouse hook message stands for, at `timestamp`.
pub fn mouse_hook_event(message: u32, mouse_data: u32, timestamp: SystemTime) -> (event: Option<InputKeyEvent>)
    ensures
        hook_event_matches(event, mouse_message(message, mouse_data), mouse_device_id(), timestamp),
{
    let (key, down) = if message == WM_LBUTTONDOWN {
        (Some(Key::MouseLeft), true)
    } else if message == WM_LBUTTONUP {
        (Some(Key::MouseLeft), false)
    } else if message == WM_RBUTTONDOWN {
        (Some(Key::MouseRight), true)
    } else if message == WM_RBUTTONUP {
        (Some(Key::MouseRight), false)
    } else if message == WM_MBUTTONDOWN {
        (Some(Key::MouseMiddle), true)
    } else if message == WM_MBUTTONUP {
        (Some(Key::MouseMiddle), false)
    } else if message == WM_XBUTTONDOWN || message == WM_XBUTTONUP {
        let button = (mouse_data >> 16u32) as u16;
        let key = if button == XBUTTON1 {
            Some(Key::MouseSide)
        } else if button == XBUTTON2 {
            Some(Key::MouseExtra)
        } else {
            None
        };
        (key, message == WM_XBUTTONDOWN)
    } else {
        (None, false)
    };
    match key {
        Some(key) => Some(
            InputKeyEvent {
                key,
                state: if down { KeyState::Down } else { KeyState::Up },
                device: mouse_device(),
                timestamp,
            },
        ),
        None => None,
    }
}

/// Every mouse hook event is about a mouse button.
pub proof fn lemma_mouse_messages_are_buttons(message: u32, mouse_data: u32)
    ensures
        mouse_message(message, mouse_data) matches Some((key, _)) ==> key == Key::MouseLeft
            || key == Key::MouseRight || key == Key::MouseMiddle || key == Key::MouseSide || key
            == Key::MouseExtra,
{
}

/// Each button message reports its own button: left, right and middle
/// messages the left, right and middle button, X messages the side or
/// extra button; and every release message reports `Up`, every press
/// message `Down`.
pub proof fn lemma_mouse_messages_report_their_button_and_state(message: u32, mouse_data: u32)
    ensures
        mouse_message(message, mouse_data) matches Some((key, state)) ==> {
            &&& (state == KeyState::Up <==> (message == WM_LBUTTONUP || message == WM_RBUTTONUP
                || message == WM_MBUTTONUP || message == WM_XBUTTONUP))
            &&& (state == KeyState::Down <==> (message == WM_LBUTTONDOWN || message
                == WM_RBUTTONDOWN || message == WM_MBUTTONDOWN || message == WM_XBUTTONDOWN))
            &&& (key == Key::MouseLeft <==> (message == WM_LBUTTONDOWN || message == WM_LBUTTONUP))
            &&& (key == Key::MouseRight <==> (message == WM_RBUTTONDOWN || message
                == WM_RBUTTONUP))
            &&& (key == Key::MouseMiddle <==> (message == WM_MBUTTONDOWN || message
                == WM_MBUTTONUP))
            &&& (key == Key::MouseSide || key == Key::MouseExtra <==> (message == WM_XBUTTONDOWN
                || message == WM_XBUTTONUP))
        },
        (message == WM_LBUTTONDOWN || message == WM_LBUTTONUP || message == WM_RBUTTONDOWN
            || message == WM_RBUTTONUP || message == WM_MBUTTONDOWN || message == WM_MBUTTONUP)
            ==> mouse_message(message, mouse_data) is Some,
{
}

/// A keyboard message reports `Up` exactly when its flags say the key is
/// being released, and drops only the synthetic IME codes.
pub proof fn lemma_keyboard_message_state(vk_code: u32, flags: u32)
    ensures
        keyboard_message(vk_code, flags) matches Some((_, state)) ==> (state == KeyState::Up
            <==> flags & LLKHF_UP != 0) && state != KeyState::Hold,
{
}

/// How many milliseconds ago an event happened, given the current tick
/// count `now` (milliseconds since boot, 64-bit) and the event's 32-bit
/// `ticks`: the event is taken to lie within the last 32-bit wrap period
/// (about 49.7 days); one that would lie before boot is taken as now.
pub open spec fn event_age(now: u64, ticks: u32) -> u64 {
    let low = now % 0x1_0000_0000;
    if ticks <= low {
        (low - ticks) as u64
    } else if now >= 0x1_0000_0000 {
        (low + 0x1_0000_0000 - ticks) as u64
    } else {
        0
    }
}

/// The age of a hook event, from the current tick count and the event's
/// `time` field (both milliseconds since boot; the latter 32-bit).
pub fn event_age_millis(now: u64, ticks: u32) -> (age: u64)
    ensures
        age == event_age(now, ticks),
        age < 0x1_0000_0000,
{
    let mut event: u64 = (now & !0xFFFF_FFFFu64) | (ticks as u64);
    let wide = ticks as u64;
    assert((now & !0xFFFF_FFFFu64) == now - now % 0x1_0000_0000) by (bit_vector);
    assert((now & !0xFFFF_FFFFu64) | wide == (now & !0xFFFF_FFFFu64) + wide) by (bit_vector)
        requires
            wide < 0x1_0000_0000,
    ;
    if event > now {
        event = event.wrapping_sub(1u64 << 32u64);
    }
    assert(1u64 << 32u64 == 0x1_0000_0000) by (bit_vector);
    now.saturating_sub(event)
}

/// The age of an event is how far its 32-bit tick count lies behind the
/// current one: going back `age` milliseconds from `now` lands on `ticks`
/// in the low 32 bits, within less than one wrap period, and never before
/// boot. Only an event that would lie before boot gets the age 0.
pub proof fn lemma_event_age_lands_on_ticks(now: u64, ticks: u32)
    ensures
        event_age(now, ticks) <= now,
        event_age(now, ticks) < 0x1_0000_0000,
        (ticks as int) <= now % 0x1_0000_0000 || now >= 0x1_0000_0000 ==> (now - event_age(now,
            ticks)) % 0x1_0000_0000 == ticks,
        !((ticks as int) <= now % 0x1_0000_0000 || now >= 0x1_0000_0000) ==> event_age(now, ticks)
            == 0,
{
    let low = now % 0x1_0000_0000;
    let high = now - low;
    assert(high % 0x1_0000_0000 == 0) by (nonlinear_arith)
        requires
            low == now % 0x1_0000_0000,
            high == now - low,
    ;
    if (ticks as int) <= low {
        assert(now - event_age(now, ticks) == high + ticks);
        assert((high + ticks) % 0x1_0000_0000 == ticks as int) by (nonlinear_arith)
            requires
                high % 0x1_0000_0000 == 0,
                0 <= ticks < 0x1_0000_0000,
                high >= 0,
        ;
    } else if now >= 0x1_0000_0000 {
        assert(high >= 0x1_0000_0000) by (nonlinear_arith)
            requires
                low == now % 0x1_0000_0000,
                high == now - low,
                now >= 0x1_0000_0000,
                high % 0x1_0000_0000 == 0,
        ;
        assert(now - event_age(now, ticks) == (high - 0x1_0000_0000) + ticks);
        assert(((high - 0x1_0000_0000) + ticks) % 0x1_0000_0000 == ticks as int) by (nonlinear_arith)
            requires
                high % 0x1_0000_0000 == 0,
                0 <= ticks < 0x1_0000_0000,
                high >= 0x1_0000_0000,
        ;
    }
}

} // verus!
