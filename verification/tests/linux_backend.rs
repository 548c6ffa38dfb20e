use std::time::SystemTime;

use keyrs::platform::linux::{device_id, get_key_set, has_key_events, key_code, ReaderTable};
use keyrs::platform::{next_event_step, Received};
use keyrs::{DeviceId, Error, InputKeyEvent, Key, KeyState};

fn id(name: &str, location: &str) -> DeviceId {
    DeviceId { name: name.into(), location: location.into() }
}

/// Applies a scan as the backend does: stops (collects) the removed
/// readers, then starts (inserts) one reader per device to start.
fn scan_into(table: &mut ReaderTable<u32>, scan: Vec<(DeviceId, u32)>, stopped: &mut Vec<u32>, started: &mut Vec<u32>) {
    let (removed, to_start) = table.apply_scan(scan);
    for (_, handle) in removed {
        stopped.push(handle);
    }
    for (id, n) in to_start {
        started.push(n);
        assert!(table.insert(id, n * 10).is_none());
    }
}

#[test]
fn scan_starts_new_devices_and_stops_missing_ones() {
    let mut started = Vec::new();
    let mut stopped = Vec::new();
    let mut table: ReaderTable<u32> = ReaderTable::new();

    scan_into(&mut table, vec![(id("kbd", "a"), 1u32), (id("mouse", "b"), 2u32)], &mut stopped, &mut started);
    assert_eq!(table.len(), 2);
    assert!(table.contains(&id("kbd", "a")));
    assert!(table.contains(&id("mouse", "b")));
    assert_eq!(started, vec![1, 2]);
    assert!(stopped.is_empty());

    // "kbd" disappears, "mouse" stays (and keeps its reader), "pad" is new
    // and listed twice.
    let scan = vec![(id("mouse", "b"), 3u32), (id("pad", "c"), 4u32), (id("pad", "c"), 5u32)];
    scan_into(&mut table, scan, &mut stopped, &mut started);
    assert_eq!(started, vec![1, 2, 4]);
    assert_eq!(stopped, vec![10]);
    assert!(!table.contains(&id("kbd", "a")));
    assert_eq!(table.into_entries(), vec![(id("mouse", "b"), 20), (id("pad", "c"), 40)]);
}

#[test]
fn empty_scan_stops_every_reader() {
    let mut stopped = Vec::new();
    let mut table: ReaderTable<u32> = ReaderTable::new();
    scan_into(&mut table, vec![(id("kbd", "a"), 7u32)], &mut Vec::new(), &mut Vec::new());
    scan_into(&mut table, Vec::new(), &mut stopped, &mut Vec::new());
    assert_eq!(table.len(), 0);
    assert_eq!(stopped, vec![70]);
}

#[test]
fn same_name_at_another_location_is_another_device() {
    let mut table: ReaderTable<u32> = ReaderTable::new();
    scan_into(&mut table, vec![(id("kbd", "a"), 1u32), (id("kbd", "b"), 2u32)], &mut Vec::new(), &mut Vec::new());
    assert_eq!(table.len(), 2);
}

#[test]
fn apply_scan_returns_the_diff_without_starting_anything() {
    let mut table: ReaderTable<u32> = ReaderTable::new();
    assert!(table.insert(id("a", "1"), 1).is_none());
    assert!(table.insert(id("b", "2"), 2).is_none());
    let (removed, to_start) =
        table.apply_scan(vec![(id("c", "3"), 'c'), (id("a", "1"), 'a'), (id("c", "3"), 'x')]);
    assert_eq!(removed, vec![(id("b", "2"), 2)]);
    assert_eq!(to_start, vec![(id("c", "3"), 'c')]);
    assert_eq!(table.into_entries(), vec![(id("a", "1"), 1)]);
}

#[test]
fn insert_refuses_a_device_already_read() {
    let mut table: ReaderTable<u32> = ReaderTable::new();
    assert_eq!(table.insert(id("a", "1"), 1), None);
    assert_eq!(table.insert(id("a", "1"), 2), Some(2));
    assert_eq!(table.into_entries(), vec![(id("a", "1"), 1)]);
}

#[test]
fn key_set_holds_exactly_the_sendable_codes() {
    let set = get_key_set();
    let mut expected: Vec<evdev::KeyCode> = Key::get_all_keys()
        .into_iter()
        .filter_map(|key| key_code(key).ok())
        .map(evdev::KeyCode::new)
        .collect();
    expected.sort();
    expected.dedup();
    let held: Vec<evdev::KeyCode> = set.codes.iter().collect();
    assert_eq!(held, expected);
    assert!(set.codes.contains(evdev::KeyCode::KEY_A));
    assert!(set.codes.contains(evdev::KeyCode::BTN_LEFT));
    assert!(set.codes.contains(evdev::KeyCode::KEY_MENU));
    assert!(!set.codes.contains(evdev::KeyCode::KEY_CONTEXT_MENU));
    assert!(!set.codes.contains(evdev::KeyCode::KEY_VOLUMEUP));
}

#[test]
fn devices_with_key_codes_are_read() {
    assert!(!has_key_events(None));
    assert!(!has_key_events(Some(&vec![])));
    assert!(!has_key_events(Some(&vec![0])));
    assert!(has_key_events(Some(&vec![0, evdev::KeyCode::BTN_LEFT.code()])));
}

#[test]
fn device_identity_falls_back() {
    let named = device_id(Some("kbd"), Some("usb-1/input0"), "/dev/input/event3");
    assert_eq!(named, id("kbd", "usb-1/input0"));
    let bare = device_id(None, None, "/dev/input/event3");
    assert_eq!(bare, id("unnamed device", "/dev/input/event3"));
}

#[test]
fn listener_hands_out_events_and_waits_through_lag() {
    let event = InputKeyEvent {
        key: Key::A,
        state: KeyState::Down,
        device: id("kbd", "a"),
        timestamp: SystemTime::UNIX_EPOCH,
    };
    assert_eq!(next_event_step(Received::Event(event.clone())).unwrap().unwrap(), event);
    assert!(next_event_step(Received::Lagged(3)).is_none());
    assert!(matches!(next_event_step(Received::Closed), Some(Err(Error::EventSourceClosed))));
}

#[test]
fn error_display() {
    assert_eq!(Error::EventSourceClosed.to_string(), "event source closed");
    assert_eq!(Error::KeyNotMapped(Key::A).to_string(), "key not mapped: A");
    assert_eq!(Error::KeyNotMapped(Key::Other(30)).to_string(), "key not mapped: Other(30)");
    let io = Error::from(std::io::Error::other("boom"));
    assert_eq!(io.to_string(), "device I/O error: boom");
}

#[test]
fn event_display() {
    let event = InputKeyEvent {
        key: Key::Digit1,
        state: KeyState::Hold,
        device: id("kbd", "usb-1"),
        timestamp: SystemTime::UNIX_EPOCH,
    };
    assert_eq!(
        event.to_string(),
        format!("InputKeyEvent {{ key: 1, state: Hold, device: kbd (usb-1), at: {:?} }}", SystemTime::UNIX_EPOCH)
    );
}

#[test]
fn removing_missing_devices_hands_out_exactly_their_readers() {
    let mut table: ReaderTable<u32> = ReaderTable::new();
    for (name, n) in [("a", 1u32), ("b", 2), ("c", 3)] {
        assert!(table.insert(id(name, &n.to_string()), n).is_none());
    }
    let scan = vec![(id("c", "3"), ()), (id("a", "1"), ())];
    let removed = table.remove_missing(&scan);
    assert_eq!(removed, vec![(id("b", "2"), 2)]);
    assert_eq!(table.len(), 2);
    assert!(table.contains(&id("a", "1")));
    assert!(table.contains(&id("c", "3")));
}
