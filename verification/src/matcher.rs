//! Exact matching of a shortcut against the keys that are held down.

use crate::active_keys::{mask_if_pressed, pressed_mask, ActiveKeySet};
use crate::keycodes::Key;
use crate::modifier::{is_modifier_key, key_mask, lemma_accepts_by_mask, Modifier};
use crate::modifier_list::{combined_mask, ModifierList};
use crate::shortcut::{Shortcut, ShortcutView};
use vstd::prelude::*;
use vstd::seq_lib::seq_to_set_is_finite;

verus! {

/// The bit of a mask at a position, as 0 or 1.
pub open spec fn bit_at(mask: u8, position: u8) -> u8 {
    (mask >> position) & 1
}

/// The number of bits that are set in a mask.
pub open spec fn count_ones(mask: u8) -> nat {
    (bit_at(mask, 0) + bit_at(mask, 1) + bit_at(mask, 2) + bit_at(mask, 3) + bit_at(mask, 4)
        + bit_at(mask, 5) + bit_at(mask, 6) + bit_at(mask, 7)) as nat
}

/// 1 if the set holds the key, 0 if not.
pub open spec fn one_if_pressed(active: Set<Key>, key: Key) -> nat {
    if active.contains(key) {
        1
    } else {
        0
    }
}

/// The number of modifier keys that a set holds, counted key by key.
pub open spec fn pressed_modifier_count(active: Set<Key>) -> nat {
    one_if_pressed(active, Key::KeyLeftAlt) + one_if_pressed(active, Key::KeyRightAlt)
        + one_if_pressed(active, Key::KeyLeftCtrl) + one_if_pressed(active, Key::KeyRightCtrl)
        + one_if_pressed(active, Key::KeyLeftMeta) + one_if_pressed(active, Key::KeyRightMeta)
        + one_if_pressed(active, Key::KeyLeftShift) + one_if_pressed(active, Key::KeyRightShift)
}

/// The modifier keys that a set holds.
pub open spec fn pressed_modifiers(active: Set<Key>) -> Set<Key> {
    Set::new(|key: Key| is_modifier_key(key) && active.contains(key))
}

/// Whether one of the modifiers accepts the key.
pub open spec fn accepted(modifiers: Seq<Modifier>, key: Key) -> bool {
    exists|i: int| 0 <= i < modifiers.len() && (#[trigger] modifiers[i]).accepts(key)
}

/// Whether the modifier is held: a key that it accepts is held down, on one
/// side or the other for a generic modifier.
pub open spec fn satisfied(modifier: Modifier, active: Set<Key>) -> bool {
    exists|key: Key| #[trigger] active.contains(key) && modifier.accepts(key)
}

impl ShortcutView {
    /// Whether the keys that are held down trigger the shortcut:
    /// - every modifier key that is held down is one that a listed modifier accepts,
    /// - every listed modifier is held, on at least one side,
    /// - as many modifier keys are held down as the list names different
    ///   modifiers, so that one modifier does not stand for two keys, and
    /// - the key of the shortcut is held down.
    ///
    /// Neither the order of the modifiers nor a modifier listed twice has any
    /// part in it.
    pub open spec fn is_triggered(self, active: Set<Key>) -> bool {
        &&& forall|key: Key|
            is_modifier_key(key) && #[trigger] active.contains(key) ==> accepted(
                self.modifiers,
                key,
            )
        &&& forall|i: int|
            0 <= i < self.modifiers.len() ==> satisfied(#[trigger] self.modifiers[i], active)
        &&& pressed_modifiers(active).len() == self.modifiers.to_set().len()
        &&& active.contains(self.key)
    }
}

/// The number of bits that are set in a mask.
pub fn ones(mask: u8) -> (count: u8)
    ensures
        count == count_ones(mask),
        count <= 8,
{
    assert(bit_at(mask, 0) <= 1 && bit_at(mask, 1) <= 1 && bit_at(mask, 2) <= 1 && bit_at(mask, 3)
        <= 1 && bit_at(mask, 4) <= 1 && bit_at(mask, 5) <= 1 && bit_at(mask, 6) <= 1 && bit_at(
        mask,
        7,
    ) <= 1) by (bit_vector);
    ((mask >> 0) & 1) + ((mask >> 1) & 1) + ((mask >> 2) & 1) + ((mask >> 3) & 1) + ((mask >> 4)
        & 1) + ((mask >> 5) & 1) + ((mask >> 6) & 1) + ((mask >> 7) & 1)
}

/// The number of different modifiers in a list.
pub fn distinct_modifiers(modifiers: &ModifierList) -> (count: usize)
    ensures
        count == modifiers@.to_set().len(),
{
    let mut seen: Vec<Modifier> = Vec::new();
    let mut i: usize = 0;
    while i < modifiers.len()
        invariant
            i <= modifiers@.len(),
            seen@.no_duplicates(),
            seen@.len() <= i,
            seen@.to_set() == modifiers@.take(i as int).to_set(),
        decreases modifiers@.len() - i,
    {
        let modifier = modifiers.get(i);
        let mut known = false;
        let mut j: usize = 0;
        while j < seen.len()
            invariant
                j <= seen@.len(),
                known == exists|k: int| 0 <= k < j && seen@[k] == modifier,
            decreases seen@.len() - j,
        {
            if seen[j] == modifier {
                known = true;
            }
            j += 1;
        }
        proof {
            let before = modifiers@.take(i as int);
            assert(modifiers@.take(i + 1) == before.push(modifier));
            before.lemma_push_to_set_commute(modifier);
            seen@.lemma_push_to_set_commute(modifier);
            assert(known == seen@.contains(modifier));
            if known {
                assert(seen@.to_set().contains(modifier));
                assert(seen@.to_set().insert(modifier) == seen@.to_set());
            }
        }
        if !known {
            seen.push(modifier);
        }
        i += 1;
    }
    proof {
        assert(modifiers@.take(i as int) == modifiers@);
        seen@.unique_seq_to_set();
    }
    seen.len()
}

impl Shortcut {
    /// Whether the keys that are held down on a device trigger the shortcut.
    pub fn is_triggered(&self, active_keys: &ActiveKeySet) -> (triggered: bool)
        ensures
            triggered == self@.is_triggered(active_keys@),
    {
        let modifiers = self.modifiers();
        let desired = modifiers.as_mask();
        let pressed = active_keys.modifier_mask();
        proof {
            lemma_match_by_masks(self@, active_keys@);
        }
        if desired & pressed != pressed {
            // A modifier key is held that the shortcut does not ask for.
            return false;
        }
        if ones(pressed) as usize != distinct_modifiers(modifiers) {
            // One modifier would have to stand for two keys, or two for one.
            return false;
        }
        let mut i: usize = 0;
        while i < modifiers.len()
            invariant
                i <= modifiers@.len(),
                modifiers@ == self@.modifiers,
                pressed == pressed_mask(active_keys@),
                forall|j: int| 0 <= j < i ==> (#[trigger] modifiers@[j]).spec_mask() & pressed != 0,
            decreases modifiers@.len() - i,
        {
            if modifiers.get(i).as_mask() & pressed == 0 {
                // A listed modifier is not held on either side.
                proof {
                    lemma_match_by_masks(self@, active_keys@);
                }
                return false;
            }
            i += 1;
        }
        active_keys.contains(self.key())
    }
}

/// A mask that is put together from one bit per position holds exactly those bits.
proof fn lemma_bits_of_union(b0: u8, b1: u8, b2: u8, b3: u8, b4: u8, b5: u8, b6: u8, b7: u8)
    by (bit_vector)
    requires
        b0 == 0 || b0 == 0b0000_0001,
        b1 == 0 || b1 == 0b0000_0010,
        b2 == 0 || b2 == 0b0000_0100,
        b3 == 0 || b3 == 0b0000_1000,
        b4 == 0 || b4 == 0b0001_0000,
        b5 == 0 || b5 == 0b0010_0000,
        b6 == 0 || b6 == 0b0100_0000,
        b7 == 0 || b7 == 0b1000_0000,
    ensures
        ({
            let mask = 0u8 | b0 | b1 | b2 | b3 | b4 | b5 | b6 | b7;
            &&& mask & 0b0000_0001 == b0 && bit_at(mask, 0) == (if b0 == 0 { 0u8 } else { 1u8 })
            &&& mask & 0b0000_0010 == b1 && bit_at(mask, 1) == (if b1 == 0 { 0u8 } else { 1u8 })
            &&& mask & 0b0000_0100 == b2 && bit_at(mask, 2) == (if b2 == 0 { 0u8 } else { 1u8 })
            &&& mask & 0b0000_1000 == b3 && bit_at(mask, 3) == (if b3 == 0 { 0u8 } else { 1u8 })
            &&& mask & 0b0001_0000 == b4 && bit_at(mask, 4) == (if b4 == 0 { 0u8 } else { 1u8 })
            &&& mask & 0b0010_0000 == b5 && bit_at(mask, 5) == (if b5 == 0 { 0u8 } else { 1u8 })
            &&& mask & 0b0100_0000 == b6 && bit_at(mask, 6) == (if b6 == 0 { 0u8 } else { 1u8 })
            &&& mask & 0b1000_0000 == b7 && bit_at(mask, 7) == (if b7 == 0 { 0u8 } else { 1u8 })
        }),
{
}

/// The pressed mask holds the bit of a modifier key exactly when the key is
/// held down, and it has as many bits as modifier keys are held down.
pub proof fn lemma_pressed_mask(active: Set<Key>)
    ensures
        forall|key: Key|
            is_modifier_key(key) ==> (pressed_mask(active) & #[trigger] key_mask(key) != 0
                <==> active.contains(key)),
        count_ones(pressed_mask(active)) == pressed_modifier_count(active),
{
    lemma_bits_of_union(
        mask_if_pressed(active, Key::KeyLeftAlt),
        mask_if_pressed(active, Key::KeyRightAlt),
        mask_if_pressed(active, Key::KeyLeftCtrl),
        mask_if_pressed(active, Key::KeyRightCtrl),
        mask_if_pressed(active, Key::KeyLeftMeta),
        mask_if_pressed(active, Key::KeyRightMeta),
        mask_if_pressed(active, Key::KeyLeftShift),
        mask_if_pressed(active, Key::KeyRightShift),
    );
}

/// The combined mask holds the bit of a modifier key exactly when one of the
/// modifiers accepts the key.
pub proof fn lemma_combined_mask(modifiers: Seq<Modifier>, key: Key)
    requires
        is_modifier_key(key),
    ensures
        combined_mask(modifiers) & key_mask(key) != 0 <==> accepted(modifiers, key),
    decreases modifiers.len(),
{
    let bit = key_mask(key);
    if modifiers.len() == 0 {
        assert(0u8 & bit == 0) by (bit_vector);
    } else {
        let before = combined_mask(modifiers.drop_last());
        let last = modifiers.last().spec_mask();
        lemma_combined_mask(modifiers.drop_last(), key);
        lemma_accepts_by_mask(modifiers.last(), key);
        assert((before | last) & bit != 0 <==> before & bit != 0 || last & bit != 0)
            by (bit_vector);
        if accepted(modifiers.drop_last(), key) {
            let i = choose|i: int|
                0 <= i < modifiers.drop_last().len() && (#[trigger] modifiers.drop_last()[i]).accepts(
                    key,
                );
            assert(modifiers[i].accepts(key));
        }
        if accepted(modifiers, key) {
            let i = choose|i: int| 0 <= i < modifiers.len() && (#[trigger] modifiers[i]).accepts(key);
            if i < modifiers.len() - 1 {
                assert(modifiers.drop_last()[i].accepts(key));
            }
        }
    }
}

/// A mask lies within another exactly when each of its bits does.
proof fn lemma_mask_within(pressed: u8, desired: u8)
    by (bit_vector)
    ensures
        desired & pressed == pressed <==> {
            &&& (pressed & 0b0000_0001 != 0 ==> desired & 0b0000_0001 != 0)
            &&& (pressed & 0b0000_0010 != 0 ==> desired & 0b0000_0010 != 0)
            &&& (pressed & 0b0000_0100 != 0 ==> desired & 0b0000_0100 != 0)
            &&& (pressed & 0b0000_1000 != 0 ==> desired & 0b0000_1000 != 0)
            &&& (pressed & 0b0001_0000 != 0 ==> desired & 0b0001_0000 != 0)
            &&& (pressed & 0b0010_0000 != 0 ==> desired & 0b0010_0000 != 0)
            &&& (pressed & 0b0100_0000 != 0 ==> desired & 0b0100_0000 != 0)
            &&& (pressed & 0b1000_0000 != 0 ==> desired & 0b1000_0000 != 0)
        },
{
}

/// Two masks have a bit in common exactly when one of the eight bits lies in
/// both.
proof fn lemma_masks_meet(mask: u8, pressed: u8)
    by (bit_vector)
    ensures
        mask & pressed != 0 <==> {
            ||| (mask & 0b0000_0001 != 0 && pressed & 0b0000_0001 != 0)
            ||| (mask & 0b0000_0010 != 0 && pressed & 0b0000_0010 != 0)
            ||| (mask & 0b0000_0100 != 0 && pressed & 0b0000_0100 != 0)
            ||| (mask & 0b0000_1000 != 0 && pressed & 0b0000_1000 != 0)
            ||| (mask & 0b0001_0000 != 0 && pressed & 0b0001_0000 != 0)
            ||| (mask & 0b0010_0000 != 0 && pressed & 0b0010_0000 != 0)
            ||| (mask & 0b0100_0000 != 0 && pressed & 0b0100_0000 != 0)
            ||| (mask & 0b1000_0000 != 0 && pressed & 0b1000_0000 != 0)
        },
{
}

/// A modifier is held exactly when its mask and the pressed mask have a bit
/// in common.
pub proof fn lemma_satisfied_by_mask(modifier: Modifier, active: Set<Key>)
    ensures
        satisfied(modifier, active) <==> modifier.spec_mask() & pressed_mask(active) != 0,
{
    let mask = modifier.spec_mask();
    let pressed = pressed_mask(active);
    lemma_pressed_mask(active);
    lemma_masks_meet(mask, pressed);
    lemma_accepts_by_mask(modifier, Key::KeyLeftAlt);
    lemma_accepts_by_mask(modifier, Key::KeyRightAlt);
    lemma_accepts_by_mask(modifier, Key::KeyLeftCtrl);
    lemma_accepts_by_mask(modifier, Key::KeyRightCtrl);
    lemma_accepts_by_mask(modifier, Key::KeyLeftMeta);
    lemma_accepts_by_mask(modifier, Key::KeyRightMeta);
    lemma_accepts_by_mask(modifier, Key::KeyLeftShift);
    lemma_accepts_by_mask(modifier, Key::KeyRightShift);
    assert(pressed & key_mask(Key::KeyLeftAlt) != 0 <==> active.contains(Key::KeyLeftAlt));
    assert(pressed & key_mask(Key::KeyRightAlt) != 0 <==> active.contains(Key::KeyRightAlt));
    assert(pressed & key_mask(Key::KeyLeftCtrl) != 0 <==> active.contains(Key::KeyLeftCtrl));
    assert(pressed & key_mask(Key::KeyRightCtrl) != 0 <==> active.contains(Key::KeyRightCtrl));
    assert(pressed & key_mask(Key::KeyLeftMeta) != 0 <==> active.contains(Key::KeyLeftMeta));
    assert(pressed & key_mask(Key::KeyRightMeta) != 0 <==> active.contains(Key::KeyRightMeta));
    assert(pressed & key_mask(Key::KeyLeftShift) != 0 <==> active.contains(Key::KeyLeftShift));
    assert(pressed & key_mask(Key::KeyRightShift) != 0 <==> active.contains(Key::KeyRightShift));
    if mask & pressed != 0 {
        let key = if mask & 0b0000_0001 != 0 && pressed & 0b0000_0001 != 0 {
            Key::KeyLeftAlt
        } else if mask & 0b0000_0010 != 0 && pressed & 0b0000_0010 != 0 {
            Key::KeyRightAlt
        } else if mask & 0b0000_0100 != 0 && pressed & 0b0000_0100 != 0 {
            Key::KeyLeftCtrl
        } else if mask & 0b0000_1000 != 0 && pressed & 0b0000_1000 != 0 {
            Key::KeyRightCtrl
        } else if mask & 0b0001_0000 != 0 && pressed & 0b0001_0000 != 0 {
            Key::KeyLeftMeta
        } else if mask & 0b0010_0000 != 0 && pressed & 0b0010_0000 != 0 {
            Key::KeyRightMeta
        } else if mask & 0b0100_0000 != 0 && pressed & 0b0100_0000 != 0 {
            Key::KeyLeftShift
        } else {
            Key::KeyRightShift
        };
        assert(active.contains(key) && modifier.accepts(key));
    }
    if satisfied(modifier, active) {
        let key = choose|key: Key| #[trigger] active.contains(key) && modifier.accepts(key);
        assert(is_modifier_key(key));
        assert(mask & key_mask(key) != 0 && pressed & key_mask(key) != 0);
    }
}

/// The modifier keys among the first keys of the list of eight that a set holds.
spec fn pressed_among(active: Set<Key>, keys: Seq<Key>) -> Set<Key>
    decreases keys.len(),
{
    if keys.len() == 0 {
        Set::empty()
    } else if active.contains(keys.last()) {
        pressed_among(active, keys.drop_last()).insert(keys.last())
    } else {
        pressed_among(active, keys.drop_last())
    }
}

/// The keys of `keys` that `active` holds are finitely many, and they are the
/// ones counted one by one.
proof fn lemma_pressed_among(active: Set<Key>, keys: Seq<Key>)
    requires
        keys.no_duplicates(),
    ensures
        pressed_among(active, keys).finite(),
        forall|key: Key|
            pressed_among(active, keys).contains(key) <==> keys.contains(key) && active.contains(key),
        pressed_among(active, keys).len() == keys.filter(|key: Key| active.contains(key)).len(),
    decreases keys.len(),
{
    reveal(Seq::filter);
    if keys.len() > 0 {
        let before = keys.drop_last();
        lemma_pressed_among(active, before);
        assert forall|key: Key| keys.contains(key) <==> before.contains(key) || key == keys.last() by {
            if before.contains(key) {
                let i = choose|i: int| 0 <= i < before.len() && before[i] == key;
                assert(keys[i] == key);
            }
            if keys.contains(key) {
                let i = choose|i: int| 0 <= i < keys.len() && keys[i] == key;
                if i < keys.len() - 1 {
                    assert(before[i] == key);
                }
            }
        }
        assert(!before.contains(keys.last())) by {
            if before.contains(keys.last()) {
                let i = choose|i: int| 0 <= i < before.len() && before[i] == keys.last();
                assert(keys[i] == keys[keys.len() - 1]);
            }
        }
    }
}

/// The eight modifier keys.
pub open spec fn modifier_keys() -> Seq<Key> {
    seq![
        Key::KeyLeftAlt,
        Key::KeyRightAlt,
        Key::KeyLeftCtrl,
        Key::KeyRightCtrl,
        Key::KeyLeftMeta,
        Key::KeyRightMeta,
        Key::KeyLeftShift,
        Key::KeyRightShift,
    ]
}

/// The number of modifier keys that a set holds is the size of the set of
/// these keys.
pub proof fn lemma_pressed_modifier_count(active: Set<Key>)
    ensures
        pressed_modifiers(active).finite(),
        pressed_modifier_count(active) == pressed_modifiers(active).len(),
{
    let keys = modifier_keys();
    lemma_pressed_among(active, keys);
    assert(pressed_among(active, keys) =~= pressed_modifiers(active)) by {
        assert forall|key: Key| is_modifier_key(key) implies keys.contains(key) by {
            let i: int = match key {
                Key::KeyLeftAlt => 0,
                Key::KeyRightAlt => 1,
                Key::KeyLeftCtrl => 2,
                Key::KeyRightCtrl => 3,
                Key::KeyLeftMeta => 4,
                Key::KeyRightMeta => 5,
                Key::KeyLeftShift => 6,
                _ => 7,
            };
            assert(keys[i] == key);
        }
        assert forall|key: Key| keys.contains(key) implies is_modifier_key(key) by {
            let i = choose|i: int| 0 <= i < keys.len() && keys[i] == key;
            assert(is_modifier_key(keys[0]) && is_modifier_key(keys[1]) && is_modifier_key(keys[2])
                && is_modifier_key(keys[3]) && is_modifier_key(keys[4]) && is_modifier_key(keys[5])
                && is_modifier_key(keys[6]) && is_modifier_key(keys[7]));
        }
    }
    let held = |key: Key| active.contains(key);
    reveal_with_fuel(Seq::filter, 9);
    assert(keys.filter(held).len() == pressed_modifier_count(active)) by {
        let k1 = keys.drop_last();
        let k2 = k1.drop_last();
        let k3 = k2.drop_last();
        let k4 = k3.drop_last();
        let k5 = k4.drop_last();
        let k6 = k5.drop_last();
        let k7 = k6.drop_last();
        let k8 = k7.drop_last();
        assert(k8.len() == 0);
        assert(keys.last() == Key::KeyRightShift);
        assert(k1.last() == Key::KeyLeftShift);
        assert(k2.last() == Key::KeyRightMeta);
        assert(k3.last() == Key::KeyLeftMeta);
        assert(k4.last() == Key::KeyRightCtrl);
        assert(k5.last() == Key::KeyLeftCtrl);
        assert(k6.last() == Key::KeyRightAlt);
        assert(k7.last() == Key::KeyLeftAlt);
    }
}

/// Every held modifier key is accepted by a listed modifier exactly when the
/// pressed mask lies within the combined mask of the modifiers.
pub proof fn lemma_within_by_masks(modifiers: Seq<Modifier>, active: Set<Key>)
    ensures
        (forall|key: Key|
            is_modifier_key(key) && #[trigger] active.contains(key) ==> accepted(modifiers, key))
            <==> combined_mask(modifiers) & pressed_mask(active) == pressed_mask(active),
{
    let desired = combined_mask(modifiers);
    let pressed = pressed_mask(active);
    let within = desired & pressed == pressed;
    let all_accepted = forall|key: Key|
        is_modifier_key(key) && #[trigger] active.contains(key) ==> accepted(modifiers, key);
    lemma_pressed_mask(active);
    lemma_mask_within(pressed, desired);
    lemma_combined_mask(modifiers, Key::KeyLeftAlt);
    lemma_combined_mask(modifiers, Key::KeyRightAlt);
    lemma_combined_mask(modifiers, Key::KeyLeftCtrl);
    lemma_combined_mask(modifiers, Key::KeyRightCtrl);
    lemma_combined_mask(modifiers, Key::KeyLeftMeta);
    lemma_combined_mask(modifiers, Key::KeyRightMeta);
    lemma_combined_mask(modifiers, Key::KeyLeftShift);
    lemma_combined_mask(modifiers, Key::KeyRightShift);
    assert(pressed & key_mask(Key::KeyLeftAlt) != 0 <==> active.contains(Key::KeyLeftAlt));
    assert(pressed & key_mask(Key::KeyRightAlt) != 0 <==> active.contains(Key::KeyRightAlt));
    assert(pressed & key_mask(Key::KeyLeftCtrl) != 0 <==> active.contains(Key::KeyLeftCtrl));
    assert(pressed & key_mask(Key::KeyRightCtrl) != 0 <==> active.contains(Key::KeyRightCtrl));
    assert(pressed & key_mask(Key::KeyLeftMeta) != 0 <==> active.contains(Key::KeyLeftMeta));
    assert(pressed & key_mask(Key::KeyRightMeta) != 0 <==> active.contains(Key::KeyRightMeta));
    assert(pressed & key_mask(Key::KeyLeftShift) != 0 <==> active.contains(Key::KeyLeftShift));
    assert(pressed & key_mask(Key::KeyRightShift) != 0 <==> active.contains(Key::KeyRightShift));
    if within {
        assert forall|key: Key| is_modifier_key(key) && active.contains(key) implies accepted(
            modifiers,
            key,
        ) by {
            lemma_combined_mask(modifiers, key);
            assert(pressed & key_mask(key) != 0);
        }
    }
    if all_accepted {
        assert(active.contains(Key::KeyLeftAlt) ==> accepted(modifiers, Key::KeyLeftAlt));
        assert(active.contains(Key::KeyRightAlt) ==> accepted(modifiers, Key::KeyRightAlt));
        assert(active.contains(Key::KeyLeftCtrl) ==> accepted(modifiers, Key::KeyLeftCtrl));
        assert(active.contains(Key::KeyRightCtrl) ==> accepted(modifiers, Key::KeyRightCtrl));
        assert(active.contains(Key::KeyLeftMeta) ==> accepted(modifiers, Key::KeyLeftMeta));
        assert(active.contains(Key::KeyRightMeta) ==> accepted(modifiers, Key::KeyRightMeta));
        assert(active.contains(Key::KeyLeftShift) ==> accepted(modifiers, Key::KeyLeftShift));
        assert(active.contains(Key::KeyRightShift) ==> accepted(modifiers, Key::KeyRightShift));
        assert(within);
    }
    assert(within <==> all_accepted);
}

/// Matching by masks. A shortcut is triggered exactly when
/// - the pressed mask lies within the combined mask of its modifiers,
/// - the mask of each of its modifiers has a bit in common with the pressed mask,
/// - the pressed mask has as many bits as the list names different modifiers, and
/// - its key is held down.
pub proof fn lemma_match_by_masks(shortcut: ShortcutView, active: Set<Key>)
    ensures
        shortcut.is_triggered(active) <==> {
            &&& combined_mask(shortcut.modifiers) & pressed_mask(active) == pressed_mask(active)
            &&& forall|i: int|
                0 <= i < shortcut.modifiers.len() ==> (#[trigger] shortcut.modifiers[i]).spec_mask()
                    & pressed_mask(active) != 0
            &&& count_ones(pressed_mask(active)) == shortcut.modifiers.to_set().len()
            &&& active.contains(shortcut.key)
        },
{
    let modifiers = shortcut.modifiers;
    lemma_within_by_masks(modifiers, active);
    lemma_pressed_mask(active);
    lemma_pressed_modifier_count(active);
    assert forall|i: int| 0 <= i < modifiers.len() implies (satisfied(
        #[trigger] modifiers[i],
        active,
    ) <==> modifiers[i].spec_mask() & pressed_mask(active) != 0) by {
        lemma_satisfied_by_mask(modifiers[i], active);
    }
}

/// The exact-match law. A shortcut is triggered exactly when
/// - every modifier key that is held down is accepted by one of its modifiers,
/// - every one of its modifiers is held, on at least one side,
/// - as many modifier keys are held down as it names different modifiers, and
/// - its key is held down.
pub proof fn lemma_exact_match(shortcut: ShortcutView, active: Set<Key>)
    ensures
        shortcut.is_triggered(active) <==> {
            &&& forall|key: Key|
                is_modifier_key(key) && #[trigger] active.contains(key) ==> accepted(
                    shortcut.modifiers,
                    key,
                )
            &&& forall|i: int|
                0 <= i < shortcut.modifiers.len() ==> exists|key: Key|
                    #[trigger] active.contains(key) && (#[trigger] shortcut.modifiers[i]).accepts(key)
            &&& pressed_modifier_count(active) == shortcut.modifiers.to_set().len()
            &&& active.contains(shortcut.key)
        },
{
    lemma_pressed_modifier_count(active);
}

/// When a shortcut is triggered, every one of its modifiers is held on at
/// least one side: a key that the modifier accepts is held down.
pub proof fn lemma_triggered_holds_every_modifier(
    shortcut: ShortcutView,
    active: Set<Key>,
    i: int,
)
    requires
        shortcut.is_triggered(active),
        0 <= i < shortcut.modifiers.len(),
    ensures
        exists|key: Key| #[trigger] active.contains(key) && shortcut.modifiers[i].accepts(key),
        shortcut.modifiers[i].spec_mask() & pressed_mask(active) != 0,
{
    assert(satisfied(shortcut.modifiers[i], active));
    lemma_satisfied_by_mask(shortcut.modifiers[i], active);
}

/// A match is exact, not a superset: when a shortcut is triggered, one more
/// modifier key held down ends the match.
pub proof fn lemma_extra_modifier_ends_match(shortcut: ShortcutView, active: Set<Key>, extra: Key)
    requires
        shortcut.is_triggered(active),
        is_modifier_key(extra),
        !active.contains(extra),
    ensures
        !shortcut.is_triggered(active.insert(extra)),
{
    lemma_exact_match(shortcut, active);
    lemma_exact_match(shortcut, active.insert(extra));
}

/// A match asks for every listed modifier: when a shortcut is triggered, a
/// modifier key let go ends the match.
pub proof fn lemma_released_modifier_ends_match(
    shortcut: ShortcutView,
    active: Set<Key>,
    released: Key,
)
    requires
        shortcut.is_triggered(active),
        is_modifier_key(released),
        active.contains(released),
    ensures
        !shortcut.is_triggered(active.remove(released)),
{
    lemma_exact_match(shortcut, active);
    lemma_exact_match(shortcut, active.remove(released));
}

/// Keys that are no modifier keys, other than the key of the shortcut, have no
/// part in a match.
pub proof fn lemma_other_keys_ignored(shortcut: ShortcutView, active: Set<Key>, other: Key)
    requires
        !is_modifier_key(other),
        other != shortcut.key,
    ensures
        shortcut.is_triggered(active.insert(other)) == shortcut.is_triggered(active),
        shortcut.is_triggered(active.remove(other)) == shortcut.is_triggered(active),
{
    lemma_match_by_masks(shortcut, active);
    lemma_match_by_masks(shortcut, active.insert(other));
    lemma_match_by_masks(shortcut, active.remove(other));
    assert(pressed_mask(active.insert(other)) == pressed_mask(active));
    assert(pressed_mask(active.remove(other)) == pressed_mask(active));
}

/// Neither the order of the modifiers nor a modifier that is listed twice has
/// any part in a match: two shortcuts with the same key that name the same
/// modifiers are triggered by the same sets of keys.
pub proof fn lemma_order_is_ignored(a: ShortcutView, b: ShortcutView, active: Set<Key>)
    requires
        a.key == b.key,
        a.modifiers.to_set() == b.modifiers.to_set(),
    ensures
        a.is_triggered(active) == b.is_triggered(active),
{
    assert forall|key: Key| accepted(a.modifiers, key) == accepted(b.modifiers, key) by {
        if accepted(a.modifiers, key) {
            let i = choose|i: int| 0 <= i < a.modifiers.len() && (#[trigger] a.modifiers[i]).accepts(key);
            assert(a.modifiers.to_set().contains(a.modifiers[i]));
            assert(b.modifiers.contains(a.modifiers[i]));
            let j = choose|j: int| 0 <= j < b.modifiers.len() && b.modifiers[j] == a.modifiers[i];
            assert(b.modifiers[j].accepts(key));
        }
        if accepted(b.modifiers, key) {
            let i = choose|i: int| 0 <= i < b.modifiers.len() && (#[trigger] b.modifiers[i]).accepts(key);
            assert(b.modifiers.to_set().contains(b.modifiers[i]));
            assert(a.modifiers.contains(b.modifiers[i]));
            let j = choose|j: int| 0 <= j < a.modifiers.len() && a.modifiers[j] == b.modifiers[i];
            assert(a.modifiers[j].accepts(key));
        }
    }
    let all_a = forall|i: int|
        0 <= i < a.modifiers.len() ==> satisfied(#[trigger] a.modifiers[i], active);
    let all_b = forall|i: int|
        0 <= i < b.modifiers.len() ==> satisfied(#[trigger] b.modifiers[i], active);
    if all_a {
        assert forall|i: int| 0 <= i < b.modifiers.len() implies satisfied(
            #[trigger] b.modifiers[i],
            active,
        ) by {
            assert(b.modifiers.to_set().contains(b.modifiers[i]));
            assert(a.modifiers.contains(b.modifiers[i]));
            let j = choose|j: int| 0 <= j < a.modifiers.len() && a.modifiers[j] == b.modifiers[i];
            assert(satisfied(a.modifiers[j], active));
        }
    }
    if all_b {
        assert forall|i: int| 0 <= i < a.modifiers.len() implies satisfied(
            #[trigger] a.modifiers[i],
            active,
        ) by {
            assert(a.modifiers.to_set().contains(a.modifiers[i]));
            assert(b.modifiers.contains(a.modifiers[i]));
            let j = choose|j: int| 0 <= j < b.modifiers.len() && b.modifiers[j] == a.modifiers[i];
            assert(satisfied(b.modifiers[j], active));
        }
    }
}

/// 1 if one of the modifiers accepts the key, 0 if not.
pub open spec fn one_if_accepted(modifiers: Seq<Modifier>, key: Key) -> nat {
    if accepted(modifiers, key) {
        1
    } else {
        0
    }
}

/// The number of modifier keys that one of the modifiers accepts.
pub open spec fn accepted_count(modifiers: Seq<Modifier>) -> nat {
    one_if_accepted(modifiers, Key::KeyLeftAlt) + one_if_accepted(modifiers, Key::KeyRightAlt)
        + one_if_accepted(modifiers, Key::KeyLeftCtrl) + one_if_accepted(
        modifiers,
        Key::KeyRightCtrl,
    ) + one_if_accepted(modifiers, Key::KeyLeftMeta) + one_if_accepted(
        modifiers,
        Key::KeyRightMeta,
    ) + one_if_accepted(modifiers, Key::KeyLeftShift) + one_if_accepted(
        modifiers,
        Key::KeyRightShift,
    )
}

/// Whether one more modifier makes one more key accepted.
proof fn lemma_accepted_push(modifiers: Seq<Modifier>, key: Key)
    requires
        modifiers.len() > 0,
    ensures
        accepted(modifiers, key) <==> accepted(modifiers.drop_last(), key)
            || modifiers.last().accepts(key),
{
    if accepted(modifiers.drop_last(), key) {
        let i = choose|i: int|
            0 <= i < modifiers.drop_last().len() && (#[trigger] modifiers.drop_last()[i]).accepts(
                key,
            );
        assert(modifiers[i].accepts(key));
    }
    if accepted(modifiers, key) {
        let i = choose|i: int| 0 <= i < modifiers.len() && (#[trigger] modifiers[i]).accepts(key);
        if i < modifiers.len() - 1 {
            assert(modifiers.drop_last()[i].accepts(key));
        }
    }
}

/// Side-specific modifiers accept as many keys as the list names different
/// modifiers: one each.
pub proof fn lemma_accepted_count(modifiers: Seq<Modifier>)
    requires
        forall|i: int| 0 <= i < modifiers.len() ==> (#[trigger] modifiers[i]).is_side_specific(),
    ensures
        accepted_count(modifiers) == modifiers.to_set().len(),
    decreases modifiers.len(),
{
    if modifiers.len() == 0 {
        assert(modifiers.to_set() =~= Set::<Modifier>::empty());
    } else {
        let before = modifiers.drop_last();
        let last = modifiers.last();
        assert forall|i: int| 0 <= i < before.len() implies (#[trigger] before[i]).is_side_specific() by {
            assert(modifiers[i].is_side_specific());
        }
        lemma_accepted_count(before);
        assert(modifiers == before.push(last));
        before.lemma_push_to_set_commute(last);
        seq_to_set_is_finite(before);
        lemma_accepted_push(modifiers, Key::KeyLeftAlt);
        lemma_accepted_push(modifiers, Key::KeyRightAlt);
        lemma_accepted_push(modifiers, Key::KeyLeftCtrl);
        lemma_accepted_push(modifiers, Key::KeyRightCtrl);
        lemma_accepted_push(modifiers, Key::KeyLeftMeta);
        lemma_accepted_push(modifiers, Key::KeyRightMeta);
        lemma_accepted_push(modifiers, Key::KeyLeftShift);
        lemma_accepted_push(modifiers, Key::KeyRightShift);
        assert(last.is_side_specific());
        // An earlier modifier accepts the key of the last one exactly when it is the same modifier.
        assert forall|key: Key| last.accepts(key) implies (accepted(before, key)
            <==> before.contains(last)) by {
            if accepted(before, key) {
                let i = choose|i: int| 0 <= i < before.len() && (#[trigger] before[i]).accepts(key);
                assert(modifiers[i].is_side_specific());
                assert(before[i] == last);
            }
            if before.contains(last) {
                let i = choose|i: int| 0 <= i < before.len() && before[i] == last;
                assert(before[i].accepts(key));
            }
        }
        assert(before.to_set().contains(last) == before.contains(last));
    }
}

/// The exact-match law for side-specific modifiers: the shortcut is triggered
/// exactly when the modifier keys that are held down are the keys of its
/// modifiers, no more and no fewer, and its key is held down.
pub proof fn lemma_exact_modifier_set(shortcut: ShortcutView, active: Set<Key>)
    requires
        forall|i: int|
            0 <= i < shortcut.modifiers.len() ==> (#[trigger] shortcut.modifiers[i]).is_side_specific(),
    ensures
        shortcut.is_triggered(active) <==> {
            &&& forall|key: Key|
                is_modifier_key(key) ==> (#[trigger] active.contains(key) <==> accepted(
                    shortcut.modifiers,
                    key,
                ))
            &&& active.contains(shortcut.key)
        },
{
    let modifiers = shortcut.modifiers;
    let same = forall|key: Key|
        is_modifier_key(key) ==> (#[trigger] active.contains(key) <==> accepted(modifiers, key));
    lemma_exact_match(shortcut, active);
    lemma_accepted_count(modifiers);
    if shortcut.is_triggered(active) {
        assert forall|key: Key| is_modifier_key(key) && accepted(modifiers, key) implies active.contains(
            key,
        ) by {
            let i = choose|i: int| 0 <= i < modifiers.len() && (#[trigger] modifiers[i]).accepts(key);
            assert(modifiers[i].is_side_specific());
            assert(satisfied(modifiers[i], active));
            let held = choose|held: Key| #[trigger] active.contains(held) && modifiers[i].accepts(held);
            assert(held == key);
        }
        assert(same);
    }
    if same {
        assert(active.contains(Key::KeyLeftAlt) <==> accepted(modifiers, Key::KeyLeftAlt));
        assert(active.contains(Key::KeyRightAlt) <==> accepted(modifiers, Key::KeyRightAlt));
        assert(active.contains(Key::KeyLeftCtrl) <==> accepted(modifiers, Key::KeyLeftCtrl));
        assert(active.contains(Key::KeyRightCtrl) <==> accepted(modifiers, Key::KeyRightCtrl));
        assert(active.contains(Key::KeyLeftMeta) <==> accepted(modifiers, Key::KeyLeftMeta));
        assert(active.contains(Key::KeyRightMeta) <==> accepted(modifiers, Key::KeyRightMeta));
        assert(active.contains(Key::KeyLeftShift) <==> accepted(modifiers, Key::KeyLeftShift));
        assert(active.contains(Key::KeyRightShift) <==> accepted(modifiers, Key::KeyRightShift));
        assert(pressed_modifier_count(active) == accepted_count(modifiers));
        assert forall|i: int| 0 <= i < modifiers.len() implies satisfied(
            #[trigger] modifiers[i],
            active,
        ) by {
            assert(modifiers[i].is_side_specific());
            let key = match modifiers[i] {
                Modifier::LeftAlt => Key::KeyLeftAlt,
                Modifier::RightAlt => Key::KeyRightAlt,
                Modifier::LeftCtrl => Key::KeyLeftCtrl,
                Modifier::RightCtrl => Key::KeyRightCtrl,
                Modifier::LeftMeta => Key::KeyLeftMeta,
                Modifier::RightMeta => Key::KeyRightMeta,
                Modifier::LeftShift => Key::KeyLeftShift,
                _ => Key::KeyRightShift,
            };
            assert(modifiers[i].accepts(key));
            assert(accepted(modifiers, key));
            assert(active.contains(key));
        }
    }
}

} // verus!
