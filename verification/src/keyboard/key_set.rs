//! The set of keys that a virtual keyboard announces.

use vstd::prelude::*;

use crate::config::keycode::{Keycode, KEY_COUNT};

verus! {

/// `evdev::AttributeSetRef`, the borrowed form of an attribute set. Nothing
/// is assumed of what a value of it holds.
#[verifier::external_type_specification]
#[verifier::external_body]
#[verifier::reject_recursive_types(T)]
pub struct ExAttributeSetRef<T>(evdev::AttributeSetRef<T>);

/// An `evdev::AttributeSet` of key codes: the keys that a virtual keyboard
/// is created with.
#[verifier::external_body]
pub struct KeySet {
    keys: evdev::AttributeSet<evdev::KeyCode>,
}

/// The scancodes of the keys that a key set holds.
pub uninterp spec fn key_set_codes(set: KeySet) -> Set<u16>;

/// `evdev::AttributeSet::new` makes a set with no key in it.
#[verifier::external_body]
fn empty_key_set() -> (set: KeySet)
    ensures
        key_set_codes(set) == Set::<u16>::empty(),
{
    KeySet { keys: evdev::AttributeSet::new() }
}

/// `evdev::AttributeSet::insert` adds one key to the set and leaves the
/// others as they are. The set has room for the scancodes below `KEY_COUNT`
/// and no others.
#[verifier::external_body]
fn insert_key(set: &mut KeySet, code: u16)
    requires
        code < KEY_COUNT,
    ensures
        key_set_codes(*final(set)) == key_set_codes(*old(set)).insert(code),
{
    set.keys.insert(evdev::KeyCode::new(code));
}

/// The scancodes of the keys that a borrowed attribute set holds.
pub uninterp spec fn attribute_codes(attributes: &evdev::AttributeSetRef<evdev::KeyCode>) -> Set<u16>;

/// Dereferencing an `evdev::AttributeSet` gives its borrowed form over the
/// same bits: it holds the keys that the set holds.
#[verifier::external_body]
fn borrow_key_set(set: &KeySet) -> (attributes: &evdev::AttributeSetRef<evdev::KeyCode>)
    ensures
        attribute_codes(attributes) == key_set_codes(*set),
{
    &set.keys
}

/// The scancodes of the first `n` of `keys`.
pub open spec fn scancodes(keys: Seq<Keycode>, n: nat) -> Set<u16>
    decreases n,
{
    if n == 0 {
        Set::<u16>::empty()
    } else {
        scancodes(keys, (n - 1) as nat).insert(keys[n - 1].raw())
    }
}

/// A scancode is among those of the first `n` keys exactly when one of them
/// has it.
pub proof fn lemma_scancodes_are_those_of_the_keys(keys: Seq<Keycode>, n: nat, code: u16)
    requires
        n <= keys.len(),
    ensures
        scancodes(keys, n).contains(code) <==> exists|i: int|
            0 <= i < n && (#[trigger] keys[i]).raw() == code,
    decreases n,
{
    if n > 0 {
        lemma_scancodes_are_those_of_the_keys(keys, (n - 1) as nat, code);
        if scancodes(keys, n).contains(code) {
            if keys[n - 1].raw() == code {
                assert(0 <= n - 1 < n && keys[n - 1].raw() == code);
            } else {
                let i = choose|i: int| 0 <= i < n - 1 && (#[trigger] keys[i]).raw() == code;
                assert(0 <= i < n && keys[i].raw() == code);
            }
        }
    }
}

impl KeySet {
    /// The set in the form that a virtual keyboard is created with: it
    /// holds the keys of this set.
    pub fn attributes(&self) -> (attributes: &evdev::AttributeSetRef<evdev::KeyCode>)
        ensures
            attribute_codes(attributes) == key_set_codes(*self),
    {
        borrow_key_set(self)
    }

    /// The set of the keys that a keyboard listens to: it holds the
    /// scancode of each of `listen_to`, and nothing else.
    pub fn of(listen_to: &[Keycode]) -> (set: KeySet)
        ensures
            key_set_codes(set) == scancodes(listen_to@, listen_to@.len()),
    {
        let mut set = empty_key_set();
        let mut i: usize = 0;
        while i < listen_to.len()
            invariant
                i <= listen_to@.len(),
                key_set_codes(set) == scancodes(listen_to@, i as nat),
            decreases listen_to@.len() - i,
        {
            insert_key(&mut set, listen_to[i].code());
            i = i + 1;
        }
        set
    }
}

} // verus!
