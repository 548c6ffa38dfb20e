use std::time::SystemTime;

use keyrs::platform::linux::{key_code, map_input_event, map_key, outgoing_event, RawEvent};
use keyrs::{DeviceId, Error, Key, KeyState};

/// Every key code keyrs knows about, and the variant it must map to.
const MAPPINGS: &[(u16, Key)] = &[
    // Main keys (US layout)
    (evdev::KeyCode::KEY_ESC.code(), Key::Escape),
    (evdev::KeyCode::KEY_1.code(), Key::Digit1),
    (evdev::KeyCode::KEY_2.code(), Key::Digit2),
    (evdev::KeyCode::KEY_3.code(), Key::Digit3),
    (evdev::KeyCode::KEY_4.code(), Key::Digit4),
    (evdev::KeyCode::KEY_5.code(), Key::Digit5),
    (evdev::KeyCode::KEY_6.code(), Key::Digit6),
    (evdev::KeyCode::KEY_7.code(), Key::Digit7),
    (evdev::KeyCode::KEY_8.code(), Key::Digit8),
    (evdev::KeyCode::KEY_9.code(), Key::Digit9),
    (evdev::KeyCode::KEY_0.code(), Key::Digit0),
    (evdev::KeyCode::KEY_MINUS.code(), Key::Minus),
    (evdev::KeyCode::KEY_EQUAL.code(), Key::Equal),
    (evdev::KeyCode::KEY_BACKSPACE.code(), Key::Backspace),
    (evdev::KeyCode::KEY_TAB.code(), Key::Tab),
    (evdev::KeyCode::KEY_Q.code(), Key::Q),
    (evdev::KeyCode::KEY_W.code(), Key::W),
    (evdev::KeyCode::KEY_E.code(), Key::E),
    (evdev::KeyCode::KEY_R.code(), Key::R),
    (evdev::KeyCode::KEY_T.code(), Key::T),
    (evdev::KeyCode::KEY_Y.code(), Key::Y),
    (evdev::KeyCode::KEY_U.code(), Key::U),
    (evdev::KeyCode::KEY_I.code(), Key::I),
    (evdev::KeyCode::KEY_O.code(), Key::O),
    (evdev::KeyCode::KEY_P.code(), Key::P),
    (evdev::KeyCode::KEY_LEFTBRACE.code(), Key::LeftBracket),
    (evdev::KeyCode::KEY_RIGHTBRACE.code(), Key::RightBracket),
    (evdev::KeyCode::KEY_ENTER.code(), Key::Enter),
    (evdev::KeyCode::KEY_A.code(), Key::A),
    (evdev::KeyCode::KEY_B.code(), Key::B),
    (evdev::KeyCode::KEY_C.code(), Key::C),
    (evdev::KeyCode::KEY_D.code(), Key::D),
    (evdev::KeyCode::KEY_F.code(), Key::F),
    (evdev::KeyCode::KEY_G.code(), Key::G),
    (evdev::KeyCode::KEY_H.code(), Key::H),
    (evdev::KeyCode::KEY_J.code(), Key::J),
    (evdev::KeyCode::KEY_K.code(), Key::K),
    (evdev::KeyCode::KEY_L.code(), Key::L),
    (evdev::KeyCode::KEY_SEMICOLON.code(), Key::Semicolon),
    (evdev::KeyCode::KEY_APOSTROPHE.code(), Key::Apostrophe),
    (evdev::KeyCode::KEY_GRAVE.code(), Key::Grave),
    (evdev::KeyCode::KEY_BACKSLASH.code(), Key::Backslash),
    (evdev::KeyCode::KEY_Z.code(), Key::Z),
    (evdev::KeyCode::KEY_X.code(), Key::X),
    (evdev::KeyCode::KEY_V.code(), Key::V),
    (evdev::KeyCode::KEY_N.code(), Key::N),
    (evdev::KeyCode::KEY_M.code(), Key::M),
    (evdev::KeyCode::KEY_COMMA.code(), Key::Comma),
    (evdev::KeyCode::KEY_DOT.code(), Key::Dot),
    (evdev::KeyCode::KEY_SLASH.code(), Key::Slash),
    (evdev::KeyCode::KEY_102ND.code(), Key::IntlBackslash),
    (evdev::KeyCode::KEY_SPACE.code(), Key::Space),
    // Modifiers and locks
    (evdev::KeyCode::KEY_LEFTCTRL.code(), Key::LeftCtrl),
    (evdev::KeyCode::KEY_RIGHTCTRL.code(), Key::RightCtrl),
    (evdev::KeyCode::KEY_LEFTSHIFT.code(), Key::LeftShift),
    (evdev::KeyCode::KEY_RIGHTSHIFT.code(), Key::RightShift),
    (evdev::KeyCode::KEY_LEFTALT.code(), Key::LeftAlt),
    (evdev::KeyCode::KEY_RIGHTALT.code(), Key::RightAlt),
    (evdev::KeyCode::KEY_LEFTMETA.code(), Key::LeftMeta),
    (evdev::KeyCode::KEY_RIGHTMETA.code(), Key::RightMeta),
    (evdev::KeyCode::KEY_COMPOSE.code(), Key::Compose),
    (evdev::KeyCode::KEY_FN.code(), Key::Fn),
    (evdev::KeyCode::KEY_MENU.code(), Key::Menu),
    (evdev::KeyCode::KEY_CONTEXT_MENU.code(), Key::Menu),
    (evdev::KeyCode::KEY_CAPSLOCK.code(), Key::CapsLock),
    (evdev::KeyCode::KEY_NUMLOCK.code(), Key::NumLock),
    (evdev::KeyCode::KEY_SCROLLLOCK.code(), Key::ScrollLock),
    // Navigation
    (evdev::KeyCode::KEY_INSERT.code(), Key::Insert),
    (evdev::KeyCode::KEY_DELETE.code(), Key::Delete),
    (evdev::KeyCode::KEY_HOME.code(), Key::Home),
    (evdev::KeyCode::KEY_END.code(), Key::End),
    (evdev::KeyCode::KEY_PAGEUP.code(), Key::PageUp),
    (evdev::KeyCode::KEY_PAGEDOWN.code(), Key::PageDown),
    (evdev::KeyCode::KEY_UP.code(), Key::Up),
    (evdev::KeyCode::KEY_DOWN.code(), Key::Down),
    (evdev::KeyCode::KEY_LEFT.code(), Key::Left),
    (evdev::KeyCode::KEY_RIGHT.code(), Key::Right),
    (evdev::KeyCode::KEY_SYSRQ.code(), Key::PrintScreen),
    (evdev::KeyCode::KEY_PAUSE.code(), Key::Pause),
    // Function keys
    (evdev::KeyCode::KEY_F1.code(), Key::F1),
    (evdev::KeyCode::KEY_F2.code(), Key::F2),
    (evdev::KeyCode::KEY_F3.code(), Key::F3),
    (evdev::KeyCode::KEY_F4.code(), Key::F4),
    (evdev::KeyCode::KEY_F5.code(), Key::F5),
    (evdev::KeyCode::KEY_F6.code(), Key::F6),
    (evdev::KeyCode::KEY_F7.code(), Key::F7),
    (evdev::KeyCode::KEY_F8.code(), Key::F8),
    (evdev::KeyCode::KEY_F9.code(), Key::F9),
    (evdev::KeyCode::KEY_F10.code(), Key::F10),
    (evdev::KeyCode::KEY_F11.code(), Key::F11),
    (evdev::KeyCode::KEY_F12.code(), Key::F12),
    (evdev::KeyCode::KEY_F13.code(), Key::F13),
    (evdev::KeyCode::KEY_F14.code(), Key::F14),
    (evdev::KeyCode::KEY_F15.code(), Key::F15),
    (evdev::KeyCode::KEY_F16.code(), Key::F16),
    (evdev::KeyCode::KEY_F17.code(), Key::F17),
    (evdev::KeyCode::KEY_F18.code(), Key::F18),
    (evdev::KeyCode::KEY_F19.code(), Key::F19),
    (evdev::KeyCode::KEY_F20.code(), Key::F20),
    (evdev::KeyCode::KEY_F21.code(), Key::F21),
    (evdev::KeyCode::KEY_F22.code(), Key::F22),
    (evdev::KeyCode::KEY_F23.code(), Key::F23),
    (evdev::KeyCode::KEY_F24.code(), Key::F24),
    // Numpad
    (evdev::KeyCode::KEY_KP0.code(), Key::Numpad0),
    (evdev::KeyCode::KEY_KP1.code(), Key::Numpad1),
    (evdev::KeyCode::KEY_KP2.code(), Key::Numpad2),
    (evdev::KeyCode::KEY_KP3.code(), Key::Numpad3),
    (evdev::KeyCode::KEY_KP4.code(), Key::Numpad4),
    (evdev::KeyCode::KEY_KP5.code(), Key::Numpad5),
    (evdev::KeyCode::KEY_KP6.code(), Key::Numpad6),
    (evdev::KeyCode::KEY_KP7.code(), Key::Numpad7),
    (evdev::KeyCode::KEY_KP8.code(), Key::Numpad8),
    (evdev::KeyCode::KEY_KP9.code(), Key::Numpad9),
    (evdev::KeyCode::KEY_KPENTER.code(), Key::NumpadEnter),
    (evdev::KeyCode::KEY_KPPLUS.code(), Key::NumpadPlus),
    (evdev::KeyCode::KEY_KPMINUS.code(), Key::NumpadMinus),
    (evdev::KeyCode::KEY_KPASTERISK.code(), Key::NumpadAsterisk),
    (evdev::KeyCode::KEY_KPSLASH.code(), Key::NumpadSlash),
    (evdev::KeyCode::KEY_KPDOT.code(), Key::NumpadDot),
    (evdev::KeyCode::KEY_KPEQUAL.code(), Key::NumpadEqual),
    (evdev::KeyCode::KEY_KPCOMMA.code(), Key::NumpadComma),
    (evdev::KeyCode::KEY_KPJPCOMMA.code(), Key::KpJpComma),
    // Mouse buttons
    (evdev::KeyCode::BTN_LEFT.code(), Key::MouseLeft),
    (evdev::KeyCode::BTN_RIGHT.code(), Key::MouseRight),
    (evdev::KeyCode::BTN_MIDDLE.code(), Key::MouseMiddle),
    (evdev::KeyCode::BTN_SIDE.code(), Key::MouseSide),
    (evdev::KeyCode::BTN_EXTRA.code(), Key::MouseExtra),
    (evdev::KeyCode::BTN_FORWARD.code(), Key::MouseForward),
    (evdev::KeyCode::BTN_BACK.code(), Key::MouseBack),
];

fn device() -> DeviceId {
    DeviceId {
        name: "test device".into(),
        location: "test location".into(),
    }
}

/// A raw event as the Linux backend reads it from an `evdev::InputEvent`.
fn raw(event: evdev::InputEvent) -> RawEvent {
    RawEvent {
        event_type: event.event_type().0,
        code: event.code(),
        value: event.value(),
        timestamp: event.timestamp(),
    }
}

fn key_event(code: u16, value: i32) -> RawEvent {
    raw(evdev::InputEvent::new(evdev::EventType::KEY.0, code, value))
}

#[test]
fn maps_all_known_key_codes() {
    let device = device();
    for &(code, expected) in MAPPINGS {
        let event = key_event(code, 1);
        let mapped = map_input_event(event, &device).expect("known key should map");
        assert_eq!(mapped.key, expected, "code 0x{code:02x} mapped incorrectly");
    }
}

#[test]
fn preserves_unknown_key_codes() {
    let code = evdev::KeyCode::KEY_MACRO.code();
    let event = key_event(code, 1);
    let mapped = map_input_event(event, &device()).expect("key event should map");
    assert_eq!(mapped.key, Key::Other(code));
}

#[test]
fn maps_key_states() {
    assert_eq!(
        map_input_event(key_event(1, 0), &device()).unwrap().state,
        KeyState::Up
    );
    assert_eq!(
        map_input_event(key_event(1, 1), &device()).unwrap().state,
        KeyState::Down
    );
    assert_eq!(
        map_input_event(key_event(1, 2), &device()).unwrap().state,
        KeyState::Hold
    );
}

#[test]
fn rejects_unknown_state_values() {
    let event = key_event(evdev::KeyCode::KEY_A.code(), 3);
    assert!(map_input_event(event, &device()).is_none());
}

#[test]
fn filters_non_key_events() {
    let sync = raw(evdev::InputEvent::new(evdev::EventType::SYNCHRONIZATION.0, 0, 0));
    assert!(map_input_event(sync, &device()).is_none());

    let relative = raw(evdev::InputEvent::new(evdev::EventType::RELATIVE.0, 0, 5));
    assert!(map_input_event(relative, &device()).is_none());
}

#[test]
fn carries_device_and_timestamp() {
    let device = device();
    let event = key_event(evdev::KeyCode::KEY_D.code(), 1);
    let mapped = map_input_event(event, &device).expect("key event should map");
    assert_eq!(mapped.device, device);
    assert_eq!(mapped.timestamp, SystemTime::UNIX_EPOCH);
}

#[test]
fn named_keys_are_sent_with_the_code_they_are_heard_with() {
    for &(code, key) in MAPPINGS {
        let sent = key_code(key).expect("a heard key can be sent");
        if code == evdev::KeyCode::KEY_CONTEXT_MENU.code() {
            assert_eq!(sent, evdev::KeyCode::KEY_MENU.code());
        } else {
            assert_eq!(sent, code);
        }
        assert_eq!(map_key(sent), key);
    }
}

#[test]
fn keys_without_an_evdev_code_are_not_sent() {
    assert!(matches!(key_code(Key::Other(0x70)), Err(Error::KeyNotMapped(Key::Other(0x70)))));
    assert!(matches!(key_code(Key::VolumeUp), Err(Error::KeyNotMapped(Key::VolumeUp))));
    assert!(matches!(
        outgoing_event(Key::Other(30), KeyState::Down),
        Err(Error::KeyNotMapped(Key::Other(30)))
    ));
}

#[test]
fn outgoing_events_carry_type_code_and_state_value() {
    assert_eq!(
        outgoing_event(Key::A, KeyState::Down).unwrap(),
        (evdev::EventType::KEY.0, evdev::KeyCode::KEY_A.code(), 1)
    );
    assert_eq!(
        outgoing_event(Key::MouseLeft, KeyState::Up).unwrap(),
        (evdev::EventType::KEY.0, evdev::KeyCode::BTN_LEFT.code(), 0)
    );
    assert_eq!(
        outgoing_event(Key::Enter, KeyState::Hold).unwrap(),
        (evdev::EventType::KEY.0, evdev::KeyCode::KEY_ENTER.code(), 2)
    );
}

#[test]
fn sent_events_are_heard_back_as_the_same_key_and_state() {
    let device = device();
    for key in Key::get_all_keys() {
        let Ok((event_type, code, value)) = outgoing_event(key, KeyState::Down) else {
            continue;
        };
        for state in [KeyState::Up, KeyState::Down, KeyState::Hold] {
            let (_, _, value) = outgoing_event(key, state).unwrap();
            let heard = map_input_event(
                raw(evdev::InputEvent::new(event_type, code, value)),
                &device,
            )
            .expect("a sent event is a key event");
            assert_eq!((heard.key, heard.state), (key, state));
        }
        assert_eq!(value, 1);
    }
}

#[test]
fn every_code_is_a_named_sendable_key_or_kept_raw() {
    for code in 0..=u16::MAX {
        match map_key(code) {
            Key::Other(raw) => assert_eq!(raw, code),
            key => assert!(key_code(key).is_ok()),
        }
    }
}

#[test]
fn the_s_key_is_heard_and_sent() {
    let code = evdev::KeyCode::KEY_S.code();
    assert_eq!(map_key(code), Key::S);
    assert_eq!(key_code(Key::S).unwrap(), code);
}
