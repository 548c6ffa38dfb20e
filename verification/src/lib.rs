//! Cross-platform input events: listen to key presses and mouse button
//! clicks, and send them back.
//!
//! # Layout
//!
//! - [`keys`]: platform-neutral event vocabulary ([`Key`], [`KeyState`],
//!   [`InputKeyEvent`]). Nothing here depends on a platform backend.
//! - [`platform`]: what each platform backend decides: how its native
//!   codes and events map to and from the vocabulary, which devices it
//!   reads, and what it injects.
//! - [`error`]: the [`Error`] type.

pub mod error;
pub mod keys;
pub mod platform;
pub mod text;

pub use error::Error;
pub use keys::{DeviceId, DeviceType, InputKeyEvent, Key, KeyState};
