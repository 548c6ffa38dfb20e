//! The Windows backend's logic, built on the low-level keyboard and mouse
//! hooks (`WH_KEYBOARD_LL` / `WH_MOUSE_LL`) for listening and `SendInput`
//! for sending.
//!
//! [`crate::keys::Key::Other`] codes are Windows virtual-key codes (`VK_*`).

pub mod hooks;
pub mod inject;
pub mod mapping;

pub use hooks::{
    event_age_millis, keyboard_device, keyboard_hook_event, mouse_device, mouse_hook_event,
};
pub use inject::{injection, Injection};
pub use mapping::{map_key, map_vk, InjectTarget, MouseButton};
