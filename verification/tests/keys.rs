use keyrs::keys::NAMED_KEY_COUNT;
use keyrs::{DeviceId, Key, KeyState};

#[test]
fn key_state_from_value() {
    assert_eq!(KeyState::from_value(0), Some(KeyState::Up));
    assert_eq!(KeyState::from_value(1), Some(KeyState::Down));
    assert_eq!(KeyState::from_value(2), Some(KeyState::Hold));
    assert_eq!(KeyState::from_value(3), None);
}

#[test]
fn key_state_to_value() {
    assert_eq!(KeyState::Up.to_value(), 0);
    assert_eq!(KeyState::Down.to_value(), 1);
    assert_eq!(KeyState::Hold.to_value(), 2);
}

#[test]
fn key_state_value_roundtrip() {
    for value in 0..=2 {
        assert_eq!(KeyState::from_value(value).unwrap().to_value(), value);
    }
}

#[test]
fn key_display() {
    assert_eq!(Key::Digit1.to_string(), "1");
    assert_eq!(Key::Minus.to_string(), "-");
    assert_eq!(Key::Backslash.to_string(), "\\");
    assert_eq!(Key::NumpadEnter.to_string(), "NumpadEnter");
    assert_eq!(Key::Other(0x70).to_string(), "Other(0x70)");
}

#[test]
fn device_id_equality() {
    let a = DeviceId {
        name: "kbd".into(),
        location: "/dev/input/event0".into(),
    };
    let b = DeviceId {
        name: "kbd".into(),
        location: "/dev/input/event0".into(),
    };
    let c = DeviceId {
        name: "kbd".into(),
        location: "/dev/input/event1".into(),
    };
    assert_eq!(a, b);
    assert_ne!(a, c);
}

#[test]
fn state_values_outside_the_range_are_rejected() {
    assert_eq!(KeyState::from_value(-1), None);
    assert_eq!(KeyState::from_value(i32::MAX), None);
    assert_eq!(KeyState::from_value(i32::MIN), None);
}

#[test]
fn every_state_roundtrips_through_its_value() {
    for state in [KeyState::Up, KeyState::Down, KeyState::Hold] {
        assert_eq!(KeyState::from_value(state.to_value()), Some(state));
    }
}

#[test]
fn key_state_display() {
    assert_eq!(KeyState::Down.to_string(), "Down");
    assert_eq!(KeyState::Up.to_string(), "Up");
    assert_eq!(KeyState::Hold.to_string(), "Hold");
}

#[test]
fn other_key_display_pads_and_keeps_all_hex_digits() {
    assert_eq!(Key::Other(0).to_string(), "Other(0x00)");
    assert_eq!(Key::Other(0x5).to_string(), "Other(0x05)");
    assert_eq!(Key::Other(0x1b6).to_string(), "Other(0x1b6)");
    assert_eq!(Key::Other(0xffff).to_string(), "Other(0xffff)");
}

#[test]
fn key_debug_text_matches_derived_debug() {
    for key in Key::get_all_keys() {
        assert_eq!(key.debug_text(), format!("{key:?}"));
    }
    for code in [0u16, 7, 112, 0x1b6, u16::MAX] {
        let key = Key::Other(code);
        assert_eq!(key.debug_text(), format!("{key:?}"));
    }
}

#[test]
fn all_keys_lists_each_named_key_once() {
    let keys = Key::get_all_keys();
    assert_eq!(keys.len(), NAMED_KEY_COUNT as usize);
    assert_eq!(keys[0], Key::Escape);
    assert_eq!(keys[keys.len() - 1], Key::MouseBack);
    for (i, a) in keys.iter().enumerate() {
        assert!(!matches!(a, Key::Other(_)));
        for b in &keys[i + 1..] {
            assert_ne!(a, b);
        }
    }
    assert!(keys.contains(&Key::NumpadEnter));
    assert!(keys.contains(&Key::ZenkakuHankaku));
}

#[test]
fn device_id_display_and_identity() {
    let a = DeviceId { name: "kbd".into(), location: "usb-1".into() };
    let b = a.clone();
    let c = DeviceId { name: "kbd".into(), location: "usb-2".into() };
    assert_eq!(a.to_string(), "kbd (usb-1)");
    assert!(a.same_device(&b));
    assert!(!a.same_device(&c));
}
