//! The keys that are held down on one device.

use crate::keycodes::{lemma_code_injective, Key};
use crate::modifier::{key_mask, Modifier};
use vstd::prelude::*;

verus! {

/// The set of keys that are currently held down on one device.
///
/// One flag per key code, the table growing as far as the codes seen so far
/// need it.
#[derive(Debug)]
pub struct ActiveKeySet {
    pressed: Vec<bool>,
}

impl View for ActiveKeySet {
    type V = Set<Key>;

    closed spec fn view(&self) -> Set<Key> {
        Set::new(|key: Key| holds(self.pressed@, key))
    }
}

/// Whether the flag of `key` is there and set.
spec fn holds(pressed: Seq<bool>, key: Key) -> bool {
    key.spec_code() < pressed.len() && pressed[key.spec_code() as int]
}

/// The bit of `key` if the set holds it, 0 if not.
pub open spec fn mask_if_pressed(active: Set<Key>, key: Key) -> u8 {
    if active.contains(key) {
        key_mask(key)
    } else {
        0
    }
}

/// The bits of the modifier keys that a set holds, or-ed together. No other
/// key has a bit.
pub open spec fn pressed_mask(active: Set<Key>) -> u8 {
    0u8 | mask_if_pressed(active, Key::KeyLeftAlt) | mask_if_pressed(active, Key::KeyRightAlt)
        | mask_if_pressed(active, Key::KeyLeftCtrl) | mask_if_pressed(active, Key::KeyRightCtrl)
        | mask_if_pressed(active, Key::KeyLeftMeta) | mask_if_pressed(active, Key::KeyRightMeta)
        | mask_if_pressed(active, Key::KeyLeftShift) | mask_if_pressed(active, Key::KeyRightShift)
}

impl ActiveKeySet {
    /// The empty set: no key is held down.
    pub fn new() -> (active: Self)
        ensures
            active@ == Set::<Key>::empty(),
    {
        let active = ActiveKeySet { pressed: Vec::new() };
        assert(active@ =~= Set::<Key>::empty());
        active
    }

    /// The set of the given keys.
    pub fn from_keys(keys: &[Key]) -> (active: Self)
        ensures
            active@ == keys@.to_set(),
    {
        let mut active = ActiveKeySet::new();
        let mut i: usize = 0;
        while i < keys.len()
            invariant
                i <= keys@.len(),
                active@ == keys@.take(i as int).to_set(),
            decreases keys@.len() - i,
        {
            active.insert(keys[i]);
            proof {
                let before = keys@.take(i as int);
                let after = keys@.take(i + 1);
                assert(after == before.push(keys@[i as int]));
                assert(after.to_set() =~= before.to_set().insert(keys@[i as int])) by {
                    assert forall|k: Key| after.to_set().contains(k) implies before.to_set().insert(
                        keys@[i as int],
                    ).contains(k) by {
                        let j = choose|j: int| 0 <= j < after.len() && after[j] == k;
                        if j < i {
                            assert(before[j] == k);
                        }
                    }
                    assert forall|k: Key|
                        before.to_set().insert(keys@[i as int]).contains(k) implies after.to_set().contains(
                        k,
                    ) by {
                        if k == keys@[i as int] {
                            assert(after[i as int] == k);
                        } else {
                            let j = choose|j: int| 0 <= j < before.len() && before[j] == k;
                            assert(after[j] == k);
                        }
                    }
                }
            }
            i += 1;
        }
        assert(keys@.take(i as int) == keys@);
        active
    }

    /// Whether the key is held down.
    pub fn contains(&self, key: Key) -> (found: bool)
        ensures
            found == self@.contains(key),
    {
        let code = key.code() as usize;
        code < self.pressed.len() && self.pressed[code]
    }

    /// Adds a key: it is now held down. Says whether it was not held down before.
    pub fn insert(&mut self, key: Key) -> (added: bool)
        ensures
            final(self)@ == old(self)@.insert(key),
            added == !old(self)@.contains(key),
    {
        let code = key.code() as usize;
        while self.pressed.len() <= code
            invariant
                self@ == old(self)@,
                code == key.spec_code(),
            decreases code + 1 - self.pressed@.len(),
        {
            let ghost before = self@;
            self.pressed.push(false);
            assert(self@ =~= before);
        }
        let added = !self.pressed[code];
        let ghost before = self@;
        self.pressed.set(code, true);
        proof {
            assert forall|k: Key| self@.contains(k) == before.insert(key).contains(k) by {
                if k.spec_code() == key.spec_code() {
                    lemma_code_injective(k, key);
                }
            }
            assert(self@ =~= before.insert(key));
        }
        added
    }

    /// Takes a key out: it is no longer held down. Says whether it was held
    /// down before.
    pub fn remove(&mut self, key: Key) -> (removed: bool)
        ensures
            final(self)@ == old(self)@.remove(key),
            removed == old(self)@.contains(key),
    {
        let code = key.code() as usize;
        if code >= self.pressed.len() {
            assert(self@ =~= old(self)@.remove(key));
            return false;
        }
        let removed = self.pressed[code];
        let ghost before = self@;
        self.pressed.set(code, false);
        proof {
            assert forall|k: Key| self@.contains(k) == before.remove(key).contains(k) by {
                if k.spec_code() == key.spec_code() {
                    lemma_code_injective(k, key);
                }
            }
            assert(self@ =~= before.remove(key));
        }
        removed
    }

    /// The bits of the modifier keys that are held down.
    pub fn modifier_mask(&self) -> (mask: u8)
        ensures
            mask == pressed_mask(self@),
    {
        let mut mask: u8 = 0;
        mask = mask | self.bit_of(Key::KeyLeftAlt);
        mask = mask | self.bit_of(Key::KeyRightAlt);
        mask = mask | self.bit_of(Key::KeyLeftCtrl);
        mask = mask | self.bit_of(Key::KeyRightCtrl);
        mask = mask | self.bit_of(Key::KeyLeftMeta);
        mask = mask | self.bit_of(Key::KeyRightMeta);
        mask = mask | self.bit_of(Key::KeyLeftShift);
        mask = mask | self.bit_of(Key::KeyRightShift);
        mask
    }

    /// The bit of a key if it is held down, 0 if not.
    fn bit_of(&self, key: Key) -> (bit: u8)
        ensures
            bit == mask_if_pressed(self@, key),
    {
        if self.contains(key) {
            Modifier::mask_from_key(key)
        } else {
            0
        }
    }
}

impl Clone for ActiveKeySet {
    fn clone(&self) -> (copy: Self)
        ensures
            copy@ == self@,
    {
        let copy = ActiveKeySet { pressed: self.pressed.clone() };
        assert(copy.pressed@ == self.pressed@);
        copy
    }
}

} // verus!
