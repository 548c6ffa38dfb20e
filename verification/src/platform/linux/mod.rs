//! The Linux backend's logic, built on evdev (`/dev/input/event*`) for
//! listening and a uinput virtual device for sending.
//!
//! Raw key codes carried by [`crate::keys::Key::Other`] are Linux evdev key
//! codes (keyboard keys live in the `KEY_*` range, mouse buttons in the
//! `BTN_*` range of the same code space).

pub mod device;
pub mod keyset;
pub mod manager;
pub mod mapping;

pub use device::{device_id, has_key_events};
pub use keyset::{get_key_set, KeySet};
pub use manager::ReaderTable;
pub use mapping::{key_code, map_input_event, map_key, outgoing_event, RawEvent};
