//! The error type of the library.

use vstd::prelude::*;

use crate::keys::{key_debug_text, Key};

verus! {

/// Errors from the operating system's input facilities.
#[verifier::external_type_specification]
#[verifier::external_body]
pub struct ExIoError(std::io::Error);

/// Errors returned by keyrs.
#[non_exhaustive]
#[derive(Debug)]
pub enum Error {
    /// An I/O error from the underlying platform backend (e.g. a device
    /// that could not be read).
    Io(std::io::Error),
    /// The event source has shut down; no further events will be delivered.
    EventSourceClosed,
    /// The key has no code on this platform, so it cannot be sent.
    KeyNotMapped(Key),
}

impl From<std::io::Error> for Error {
    fn from(error: std::io::Error) -> (wrapped: Self)
        ensures
            wrapped == Error::Io(error),
    {
        Error::Io(error)
    }
}

impl vstd::std_specs::convert::FromSpecImpl<std::io::Error> for Error {
    open spec fn obeys_from_spec() -> bool {
        true
    }

    open spec fn from_spec(v: std::io::Error) -> Self {
        Error::Io(v)
    }
}

impl Error {
    /// The display text of this error (what `Display` shows for it).
    ///
    /// An I/O error shows its own display text after the prefix.
    pub fn to_string(&self) -> (text: String)
        ensures
            match self {
                Error::Io(e) => exists|shown: String|
                    #![trigger vstd::string::to_string_from_display_ensures::<std::io::Error>(e, shown)]
                    vstd::string::to_string_from_display_ensures::<std::io::Error>(e, shown)
                        && text@ == "device I/O error: "@ + shown@,
                Error::EventSourceClosed => text@ == "event source closed"@,
                Error::KeyNotMapped(key) => text@ == "key not mapped: "@ + key_debug_text(*key),
            },
    {
        match self {
            Error::Io(e) => {
                let shown = e.to_string();
                let mut text = String::from_str("device I/O error: ");
                text.append(shown.as_str());
                text
            },
            Error::EventSourceClosed => String::from_str("event source closed"),
            Error::KeyNotMapped(key) => {
                let mut text = String::from_str("key not mapped: ");
                text.append(key.debug_text().as_str());
                text
            },
        }
    }
}

} // verus!
