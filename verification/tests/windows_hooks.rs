use std::time::SystemTime;

use windows_sys::Win32::UI::Input::KeyboardAndMouse as kbd;
use windows_sys::Win32::UI::WindowsAndMessaging as wm;

use keyrs::platform::windows::hooks as h;
use keyrs::platform::windows::inject::{self, Injection};
use keyrs::platform::windows::{
    event_age_millis, injection, keyboard_device, keyboard_hook_event, mouse_device,
    mouse_hook_event,
};
use keyrs::{Error, Key, KeyState};

#[test]
fn hook_constants_are_the_windows_constants() {
    assert_eq!(h::LLKHF_EXTENDED, wm::LLKHF_EXTENDED);
    assert_eq!(h::LLKHF_UP, wm::LLKHF_UP);
    assert_eq!(h::WM_LBUTTONDOWN, wm::WM_LBUTTONDOWN);
    assert_eq!(h::WM_LBUTTONUP, wm::WM_LBUTTONUP);
    assert_eq!(h::WM_RBUTTONDOWN, wm::WM_RBUTTONDOWN);
    assert_eq!(h::WM_RBUTTONUP, wm::WM_RBUTTONUP);
    assert_eq!(h::WM_MBUTTONDOWN, wm::WM_MBUTTONDOWN);
    assert_eq!(h::WM_MBUTTONUP, wm::WM_MBUTTONUP);
    assert_eq!(h::WM_XBUTTONDOWN, wm::WM_XBUTTONDOWN);
    assert_eq!(h::WM_XBUTTONUP, wm::WM_XBUTTONUP);
    assert_eq!(h::XBUTTON1, wm::XBUTTON1);
    assert_eq!(h::XBUTTON2, wm::XBUTTON2);
}

#[test]
fn injection_constants_are_the_windows_constants() {
    assert_eq!(inject::KEYEVENTF_KEYUP, kbd::KEYEVENTF_KEYUP);
    assert_eq!(inject::MOUSEEVENTF_LEFTDOWN, kbd::MOUSEEVENTF_LEFTDOWN);
    assert_eq!(inject::MOUSEEVENTF_LEFTUP, kbd::MOUSEEVENTF_LEFTUP);
    assert_eq!(inject::MOUSEEVENTF_RIGHTDOWN, kbd::MOUSEEVENTF_RIGHTDOWN);
    assert_eq!(inject::MOUSEEVENTF_RIGHTUP, kbd::MOUSEEVENTF_RIGHTUP);
    assert_eq!(inject::MOUSEEVENTF_MIDDLEDOWN, kbd::MOUSEEVENTF_MIDDLEDOWN);
    assert_eq!(inject::MOUSEEVENTF_MIDDLEUP, kbd::MOUSEEVENTF_MIDDLEUP);
    assert_eq!(inject::MOUSEEVENTF_XDOWN, kbd::MOUSEEVENTF_XDOWN);
    assert_eq!(inject::MOUSEEVENTF_XUP, kbd::MOUSEEVENTF_XUP);
    assert_eq!(inject::XBUTTON1_DATA, u32::from(wm::XBUTTON1));
    assert_eq!(inject::XBUTTON2_DATA, u32::from(wm::XBUTTON2));
}

#[test]
fn keyboard_hook_reports_key_state_and_side() {
    let at = SystemTime::UNIX_EPOCH;
    let down = keyboard_hook_event(u32::from(kbd::VK_A), 0, at).unwrap();
    assert_eq!(down.key, Key::A);
    assert_eq!(down.state, KeyState::Down);
    assert_eq!(down.device, keyboard_device());
    assert_eq!(down.timestamp, at);

    let up = keyboard_hook_event(u32::from(kbd::VK_SHIFT), wm::LLKHF_UP | wm::LLKHF_EXTENDED, at).unwrap();
    assert_eq!(up.key, Key::RightShift);
    assert_eq!(up.state, KeyState::Up);

    assert!(keyboard_hook_event(u32::from(kbd::VK_PACKET), 0, at).is_none());
}

#[test]
fn mouse_hook_reports_buttons_only() {
    let at = SystemTime::UNIX_EPOCH;
    let left = mouse_hook_event(wm::WM_LBUTTONDOWN, 0, at).unwrap();
    assert_eq!((left.key, left.state), (Key::MouseLeft, KeyState::Down));
    assert_eq!(left.device, mouse_device());
    let middle = mouse_hook_event(wm::WM_MBUTTONUP, 0, at).unwrap();
    assert_eq!((middle.key, middle.state), (Key::MouseMiddle, KeyState::Up));
    let side = mouse_hook_event(wm::WM_XBUTTONDOWN, u32::from(wm::XBUTTON1) << 16, at).unwrap();
    assert_eq!((side.key, side.state), (Key::MouseSide, KeyState::Down));
    let extra = mouse_hook_event(wm::WM_XBUTTONUP, u32::from(wm::XBUTTON2) << 16, at).unwrap();
    assert_eq!((extra.key, extra.state), (Key::MouseExtra, KeyState::Up));
    assert!(mouse_hook_event(wm::WM_XBUTTONDOWN, 3 << 16, at).is_none());
    assert!(mouse_hook_event(wm::WM_MOUSEMOVE, 0, at).is_none());
}

#[test]
fn fixed_device_ids() {
    assert_eq!(keyboard_device().name, "Windows keyboard");
    assert_eq!(keyboard_device().location, "WH_KEYBOARD_LL");
    assert_eq!(mouse_device().name, "Windows mouse");
    assert_eq!(mouse_device().location, "WH_MOUSE_LL");
}

#[test]
fn event_age_within_the_wrap_period() {
    assert_eq!(event_age_millis(1_000, 400), 600);
    assert_eq!(event_age_millis(1_000, 1_000), 0);
    // The tick count wrapped since the event.
    assert_eq!(event_age_millis(0x1_0000_0005, 0xFFFF_FFFB), 10);
    // An event "after" the current tick right after boot is taken as now.
    assert_eq!(event_age_millis(5, 10), 0);
    assert_eq!(event_age_millis(u64::MAX, 0), 0xFFFF_FFFF);
}

#[test]
fn injection_of_keys_and_buttons() {
    assert_eq!(
        injection(Key::A, KeyState::Down).unwrap(),
        Injection::Keyboard { vk: kbd::VK_A, flags: 0 }
    );
    assert_eq!(
        injection(Key::A, KeyState::Up).unwrap(),
        Injection::Keyboard { vk: kbd::VK_A, flags: kbd::KEYEVENTF_KEYUP }
    );
    // A hold is sent as a plain press.
    assert_eq!(
        injection(Key::Enter, KeyState::Hold).unwrap(),
        Injection::Keyboard { vk: kbd::VK_RETURN, flags: 0 }
    );
    assert_eq!(
        injection(Key::MouseRight, KeyState::Down).unwrap(),
        Injection::Mouse { flags: kbd::MOUSEEVENTF_RIGHTDOWN, mouse_data: 0 }
    );
    assert_eq!(
        injection(Key::MouseExtra, KeyState::Up).unwrap(),
        Injection::Mouse { flags: kbd::MOUSEEVENTF_XUP, mouse_data: u32::from(wm::XBUTTON2) }
    );
    assert!(matches!(injection(Key::Power, KeyState::Down), Err(Error::KeyNotMapped(Key::Power))));
}
