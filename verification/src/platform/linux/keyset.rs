//! The set of key codes the uinput virtual device advertises.

use vstd::prelude::*;

use crate::keys::{all_named_keys, is_named, key_ordinal, lemma_key_ordinal, Key};
use super::mapping::{evdev_code, key_code};

verus! {

/// One past the largest evdev key code (`KEY_CNT`).
pub const KEY_CODE_LIMIT: u16 = 0x300;

/// A set of evdev key codes, held in an `evdev::AttributeSet<KeyCode>`.
#[verifier::external_body]
pub struct KeySet {
    pub codes: evdev::AttributeSet<evdev::KeyCode>,
}

/// The key codes a [`KeySet`] holds.
pub uninterp spec fn key_set_codes(set: KeySet) -> Set<u16>;

impl KeySet {
    /// An empty set (`evdev::AttributeSet::new`): it holds no code.
    #[verifier::external_body]
    pub fn new() -> (set: KeySet)
        ensures
            key_set_codes(set) == Set::<u16>::empty(),
    {
        KeySet { codes: evdev::AttributeSet::new() }
    }

    /// Adds `code` (`evdev::AttributeSet::insert`, which sets the code's
    /// bit and panics for codes past the set's end): afterwards the set
    /// holds what it held and `code`.
    #[verifier::external_body]
    pub fn insert(&mut self, code: u16)
        requires
            code < KEY_CODE_LIMIT,
        ensures
            key_set_codes(*final(self)) == key_set_codes(*old(self)).insert(code),
    {
        self.codes.insert(evdev::KeyCode::new(code))
    }
}

/// The codes of every key that can be sent.
pub open spec fn sendable_codes() -> Set<u16> {
    Set::new(|code: u16| exists|key: Key| evdev_code(key) == Some(code))
}

/// The codes of the first `n` named keys that can be sent.
pub open spec fn sendable_codes_among(keys: Seq<Key>, n: int) -> Set<u16> {
    Set::new(|code: u16| exists|j: int| 0 <= j < n && evdev_code(#[trigger] keys[j]) == Some(code))
}

/// The keys the virtual device advertises: exactly the codes of the keys
/// that map back to an evdev code.
pub fn get_key_set() -> (set: KeySet)
    ensures
        key_set_codes(set) == sendable_codes(),
{
    let keys = Key::get_all_keys();
    let mut set = KeySet::new();
    let mut i: usize = 0;
    assert(sendable_codes_among(keys@, 0) =~= Set::<u16>::empty());
    while i < keys.len()
        invariant
            i <= keys.len(),
            keys@ == all_named_keys(),
            key_set_codes(set) == sendable_codes_among(keys@, i as int),
        decreases keys.len() - i,
    {
        let key = keys[i];
        match key_code(key) {
            Ok(code) => {
                assert(code < KEY_CODE_LIMIT) by {
                    lemma_sendable_code_is_in_range(key);
                }
                set.insert(code);
                assert(sendable_codes_among(keys@, i + 1) =~= sendable_codes_among(keys@, i as int).insert(code));
            },
            Err(_) => {
                assert(sendable_codes_among(keys@, i + 1) =~= sendable_codes_among(keys@, i as int));
            },
        }
        i = i + 1;
    }
    assert forall|code: u16| #[trigger] sendable_codes().contains(code) implies sendable_codes_among(keys@, keys@.len() as int).contains(code) by {
        let key = choose|key: Key| evdev_code(key) == Some(code);
        lemma_sendable_key_is_named(key);
        lemma_key_ordinal(key);
        assert(keys@[key_ordinal(key)] == key);
    }
    assert(key_set_codes(set) =~= sendable_codes());
    set
}

/// Every key with an evdev code is a named key.
proof fn lemma_sendable_key_is_named(key: Key)
    requires
        evdev_code(key) is Some,
    ensures
        is_named(key),
{
}

/// Every evdev code a key is sent with lies below [`KEY_CODE_LIMIT`].
proof fn lemma_sendable_code_is_in_range(key: Key)
    requires
        evdev_code(key) is Some,
    ensures
        evdev_code(key).unwrap() < KEY_CODE_LIMIT,
{
}

} // verus!
