//! How an evdev device is recognised and identified.

use vstd::prelude::*;

use crate::keys::DeviceId;

verus! {

/// Whether a device reports at least one supported key or button code,
/// given its supported key codes (`None` when it reports no key capability
/// at all). This covers keyboards as well as mice: mouse buttons
/// (including the side buttons) live in the `BTN_*` range of the same code
/// space.
pub fn has_key_events(supported: Option<&Vec<u16>>) -> (reports: bool)
    ensures
        reports == (supported matches Some(codes) && exists|i: int|
            0 <= i < codes@.len() && #[trigger] codes@[i] > 0),
{
    let codes = match supported {
        Some(codes) => codes,
        None => return false,
    };
    let mut i: usize = 0;
    while i < codes.len()
        invariant
            supported == Some(codes),
            i <= codes.len(),
            forall|j: int| 0 <= j < i ==> codes@[j] == 0,
        decreases codes.len() - i,
    {
        if codes[i] > 0 {
            assert(supported matches Some(c) && c@[i as int] > 0);
            return true;
        }
        i = i + 1;
    }
    false
}

/// The name a device without one is given.
pub open spec fn unnamed_device() -> Seq<char> {
    "unnamed device"@
}

/// The identity of an evdev device: its reported name (or
/// `unnamed device`), and its physical path, falling back to its device
/// node.
pub fn device_id(name: Option<&str>, physical_path: Option<&str>, node: &str) -> (id: DeviceId)
    ensures
        id.name@ == match name {
            Some(name) => name@,
            None => unnamed_device(),
        },
        id.location@ == match physical_path {
            Some(path) => path@,
            None => node@,
        },
{
    let name = match name {
        Some(name) => String::from_str(name),
        None => String::from_str("unnamed device"),
    };
    let location = match physical_path {
        Some(path) => String::from_str(path),
        None => String::from_str(node),
    };
    DeviceId { name, location }
}

} // verus!
