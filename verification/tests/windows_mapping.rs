use windows_sys::Win32::UI::Input::KeyboardAndMouse as kbd;

use keyrs::platform::windows::{map_key, map_vk, InjectTarget};
use keyrs::{Error, Key};

#[test]
fn maps_known_virtual_key_codes() {
    const MAPPINGS: &[(u16, Key)] = &[
        (kbd::VK_ESCAPE, Key::Escape),
        (kbd::VK_A, Key::A),
        (kbd::VK_0, Key::Digit0),
        (kbd::VK_RETURN, Key::Enter),
        (kbd::VK_SPACE, Key::Space),
        (kbd::VK_UP, Key::Up),
        (kbd::VK_F24, Key::F24),
        (kbd::VK_NUMPAD7, Key::Numpad7),
        (kbd::VK_VOLUME_UP, Key::VolumeUp),
        (kbd::VK_BROWSER_BACK, Key::BrowserBack),
        (kbd::VK_LAUNCH_APP2, Key::Calculator),
    ];
    for &(vk, expected) in MAPPINGS {
        assert_eq!(map_vk(vk, false), Some(expected), "code 0x{vk:02x}");
    }
}

#[test]
fn distinguishes_left_and_right_modifiers() {
    assert_eq!(map_vk(kbd::VK_SHIFT, false), Some(Key::LeftShift));
    assert_eq!(map_vk(kbd::VK_SHIFT, true), Some(Key::RightShift));
    assert_eq!(map_vk(kbd::VK_CONTROL, true), Some(Key::RightCtrl));
    assert_eq!(map_vk(kbd::VK_MENU, false), Some(Key::LeftAlt));
    assert_eq!(map_vk(kbd::VK_LSHIFT, true), Some(Key::LeftShift));
    assert_eq!(map_vk(kbd::VK_RSHIFT, false), Some(Key::RightShift));
}

#[test]
fn preserves_unknown_codes_and_filters_ime_codes() {
    assert_eq!(map_vk(kbd::VK_ATTN, false), Some(Key::Other(kbd::VK_ATTN)));
    assert_eq!(map_vk(kbd::VK_PACKET, false), None);
    assert_eq!(map_vk(kbd::VK_PROCESSKEY, false), None);
}

#[test]
fn every_named_key_maps_or_is_rejected() {
    for key in Key::get_all_keys() {
        match map_key(key) {
            Ok(target) => assert_ne!(target, InjectTarget::Vk(0)),
            Err(Error::KeyNotMapped(k)) => assert_eq!(k, key),
            Err(other) => panic!("unexpected error for {}: {other:?}", key.to_string()),
        }
    }
}

#[test]
fn injection_roundtrips_through_listening() {
    // Keys whose virtual-key code is shared with another key: Windows
    // has no distinct code for these, so they deliberately do not
    // round-trip.
    const SHARED_CODES: &[Key] = &[
        Key::NumpadEnter, // shares VK_RETURN with Enter
        Key::Katakana,    // shares VK_KANA with Hiragana
        Key::Hangeul,     // VK_HANGUL is the same code as VK_KANA
    ];

    for key in Key::get_all_keys() {
        let Ok(target) = map_key(key) else { continue };
        let InjectTarget::Vk(vk) = target else {
            continue;
        };
        if SHARED_CODES.contains(&key) {
            continue;
        }
        assert_eq!(map_vk(vk, false), Some(key), "key {} does not roundtrip", key.to_string());
    }
}

#[test]
fn other_codes_pass_through_for_injection() {
    assert_eq!(map_key(Key::Other(0x70)).unwrap(), InjectTarget::Vk(0x70));
}

#[test]
fn filtered_ime_codes_are_the_windows_constants() {
    assert_eq!(keyrs::platform::windows::mapping::VK_PACKET, kbd::VK_PACKET);
    assert_eq!(keyrs::platform::windows::mapping::VK_PROCESSKEY, kbd::VK_PROCESSKEY);
}

#[test]
fn keys_without_a_virtual_key_are_rejected() {
    for key in [Key::Compose, Key::Fn, Key::Power, Key::MouseForward, Key::MouseBack, Key::Yen] {
        assert!(matches!(map_key(key), Err(Error::KeyNotMapped(k)) if k == key));
    }
}

#[test]
fn shared_codes_are_heard_as_their_partner() {
    assert_eq!(map_key(Key::NumpadEnter).unwrap(), InjectTarget::Vk(kbd::VK_RETURN));
    assert_eq!(map_vk(kbd::VK_RETURN, false), Some(Key::Enter));
    assert_eq!(map_key(Key::Katakana).unwrap(), InjectTarget::Vk(kbd::VK_KANA));
    assert_eq!(map_vk(kbd::VK_KANA, false), Some(Key::Hiragana));
    assert_eq!(map_vk(kbd::VK_CLEAR, false), Some(Key::Numpad5));
}

#[test]
fn every_named_key_heard_can_be_injected() {
    for vk in 0..=u16::MAX {
        for extended in [false, true] {
            match map_vk(vk, extended) {
                None => assert!(vk == kbd::VK_PACKET || vk == kbd::VK_PROCESSKEY),
                Some(Key::Other(code)) => assert_eq!(code, vk),
                Some(key) => assert!(map_key(key).is_ok(), "{} cannot be injected", key.to_string()),
            }
        }
    }
}

#[test]
fn the_s_key_is_heard_and_injected() {
    assert_eq!(map_vk(kbd::VK_S, false), Some(Key::S));
    assert_eq!(map_key(Key::S).unwrap(), InjectTarget::Vk(kbd::VK_S));
}
