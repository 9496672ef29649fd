//! Modifiers, their bit masks and their names.

use crate::error::ParseError;
use crate::keycodes::Key;
use crate::text::{chars_of, is_name_char, same_text};
use vstd::prelude::*;

verus! {

/// A modifier that a shortcut can ask for: the key on one side, or the key on
/// either side.
#[derive(Clone, Copy, Debug, Hash, PartialEq, Eq, Structural)]
pub enum Modifier {
    Alt,
    LeftAlt,
    RightAlt,
    Ctrl,
    LeftCtrl,
    RightCtrl,
    Shift,
    LeftShift,
    RightShift,
    Meta,
    LeftMeta,
    RightMeta,
}

/// The bit that a modifier key has in a mask, 0 for every other key.
pub open spec fn key_mask(key: Key) -> u8 {
    match key {
        Key::KeyLeftAlt => 0b0000_0001,
        Key::KeyRightAlt => 0b0000_0010,
        Key::KeyLeftCtrl => 0b0000_0100,
        Key::KeyRightCtrl => 0b0000_1000,
        Key::KeyLeftMeta => 0b0001_0000,
        Key::KeyRightMeta => 0b0010_0000,
        Key::KeyLeftShift => 0b0100_0000,
        Key::KeyRightShift => 0b1000_0000,
        _ => 0,
    }
}

/// Whether the key is one of the eight modifier keys.
pub open spec fn is_modifier_key(key: Key) -> bool {
    key_mask(key) != 0
}

impl Modifier {
    /// The bits of the modifier keys that satisfy this modifier: one bit for a
    /// side-specific modifier, the bits of both sides for a generic one.
    pub open spec fn spec_mask(self) -> u8 {
        match self {
            Modifier::Alt => 0b0000_0011,
            Modifier::LeftAlt => 0b0000_0001,
            Modifier::RightAlt => 0b0000_0010,
            Modifier::Ctrl => 0b0000_1100,
            Modifier::LeftCtrl => 0b0000_0100,
            Modifier::RightCtrl => 0b0000_1000,
            Modifier::Meta => 0b0011_0000,
            Modifier::LeftMeta => 0b0001_0000,
            Modifier::RightMeta => 0b0010_0000,
            Modifier::Shift => 0b1100_0000,
            Modifier::LeftShift => 0b0100_0000,
            Modifier::RightShift => 0b1000_0000,
        }
    }

    /// Whether pressing `key` satisfies this modifier.
    pub open spec fn accepts(self, key: Key) -> bool {
        match self {
            Modifier::Alt => key == Key::KeyLeftAlt || key == Key::KeyRightAlt,
            Modifier::LeftAlt => key == Key::KeyLeftAlt,
            Modifier::RightAlt => key == Key::KeyRightAlt,
            Modifier::Ctrl => key == Key::KeyLeftCtrl || key == Key::KeyRightCtrl,
            Modifier::LeftCtrl => key == Key::KeyLeftCtrl,
            Modifier::RightCtrl => key == Key::KeyRightCtrl,
            Modifier::Meta => key == Key::KeyLeftMeta || key == Key::KeyRightMeta,
            Modifier::LeftMeta => key == Key::KeyLeftMeta,
            Modifier::RightMeta => key == Key::KeyRightMeta,
            Modifier::Shift => key == Key::KeyLeftShift || key == Key::KeyRightShift,
            Modifier::LeftShift => key == Key::KeyLeftShift,
            Modifier::RightShift => key == Key::KeyRightShift,
        }
    }

    /// Whether the modifier asks for the key on one side only.
    pub open spec fn is_side_specific(self) -> bool {
        match self {
            Modifier::Alt | Modifier::Ctrl | Modifier::Shift | Modifier::Meta => false,
            _ => true,
        }
    }

    /// The name of the modifier as it stands between `<` and `>`.
    pub open spec fn spec_name(self) -> Seq<char> {
        match self {
            Modifier::Alt => "Alt"@,
            Modifier::LeftAlt => "LeftAlt"@,
            Modifier::RightAlt => "RightAlt"@,
            Modifier::Ctrl => "Ctrl"@,
            Modifier::LeftCtrl => "LeftCtrl"@,
            Modifier::RightCtrl => "RightCtrl"@,
            Modifier::Shift => "Shift"@,
            Modifier::LeftShift => "LeftShift"@,
            Modifier::RightShift => "RightShift"@,
            Modifier::Meta => "Meta"@,
            Modifier::LeftMeta => "LeftMeta"@,
            Modifier::RightMeta => "RightMeta"@,
        }
    }

    /// The bits of the modifier keys that satisfy this modifier.
    pub fn as_mask(&self) -> (mask: u8)
        ensures
            mask == self.spec_mask(),
    {
        match self {
            Modifier::Alt => 0b0000_0011,
            Modifier::LeftAlt => 0b0000_0001,
            Modifier::RightAlt => 0b0000_0010,
            Modifier::Ctrl => 0b0000_1100,
            Modifier::LeftCtrl => 0b0000_0100,
            Modifier::RightCtrl => 0b0000_1000,
            Modifier::Meta => 0b0011_0000,
            Modifier::LeftMeta => 0b0001_0000,
            Modifier::RightMeta => 0b0010_0000,
            Modifier::Shift => 0b1100_0000,
            Modifier::LeftShift => 0b0100_0000,
            Modifier::RightShift => 0b1000_0000,
        }
    }

    /// The bit that a modifier key has in a mask, 0 for every other key.
    pub fn mask_from_key(key: Key) -> (mask: u8)
        ensures
            mask == key_mask(key),
    {
        match key {
            Key::KeyLeftAlt => 0b0000_0001,
            Key::KeyRightAlt => 0b0000_0010,
            Key::KeyLeftCtrl => 0b0000_0100,
            Key::KeyRightCtrl => 0b0000_1000,
            Key::KeyLeftMeta => 0b0001_0000,
            Key::KeyRightMeta => 0b0010_0000,
            Key::KeyLeftShift => 0b0100_0000,
            Key::KeyRightShift => 0b1000_0000,
            _ => 0,
        }
    }

    /// The name of the modifier as it stands between `<` and `>`.
    pub fn name(&self) -> (name: &'static str)
        ensures
            name@ == self.spec_name(),
    {
        match self {
            Modifier::Alt => "Alt",
            Modifier::LeftAlt => "LeftAlt",
            Modifier::RightAlt => "RightAlt",
            Modifier::Ctrl => "Ctrl",
            Modifier::LeftCtrl => "LeftCtrl",
            Modifier::RightCtrl => "RightCtrl",
            Modifier::Shift => "Shift",
            Modifier::LeftShift => "LeftShift",
            Modifier::RightShift => "RightShift",
            Modifier::Meta => "Meta",
            Modifier::LeftMeta => "LeftMeta",
            Modifier::RightMeta => "RightMeta",
        }
    }

    /// The modifier at a position of the closed set, which has twelve members.
    fn nth(index: usize) -> (modifier: Modifier)
        requires
            index < 12,
        ensures
            modifier == all_modifiers()[index as int],
    {
        match index {
            0 => Modifier::Alt,
            1 => Modifier::LeftAlt,
            2 => Modifier::RightAlt,
            3 => Modifier::Ctrl,
            4 => Modifier::LeftCtrl,
            5 => Modifier::RightCtrl,
            6 => Modifier::Shift,
            7 => Modifier::LeftShift,
            8 => Modifier::RightShift,
            9 => Modifier::Meta,
            10 => Modifier::LeftMeta,
            _ => Modifier::RightMeta,
        }
    }

    /// The modifier with the given name, if the closed set holds one.
    pub fn from_name_chars(name: &[char]) -> (found: Option<Modifier>)
        ensures
            match found {
                Some(m) => m.spec_name() == name@,
                None => forall|m: Modifier| m.spec_name() != name@,
            },
    {
        let mut index: usize = 0;
        while index < 12
            invariant
                index <= 12,
                forall|i: int| 0 <= i < index ==> all_modifiers()[i].spec_name() != name@,
            decreases 12 - index,
        {
            let candidate = Modifier::nth(index);
            if same_text(candidate.name(), name) {
                return Some(candidate);
            }
            index += 1;
        }
        proof {
            assert forall|m: Modifier| m.spec_name() != name@ by {
                lemma_all_modifiers(m);
            }
        }
        None
    }

    /// The modifier with the given name, if the closed set holds one.
    pub fn from_name(name: &str) -> (found: Option<Modifier>)
        ensures
            match found {
                Some(m) => m.spec_name() == name@,
                None => forall|m: Modifier| m.spec_name() != name@,
            },
    {
        let chars = chars_of(name);
        Modifier::from_name_chars(chars.as_slice())
    }
}

impl core::str::FromStr for Modifier {
    type Err = ParseError;

    /// The modifier with the given name. A name that no modifier of the closed
    /// set has is refused as an invalid modifier.
    fn from_str(name: &str) -> (parsed: Result<Modifier, ParseError>)
        ensures
            match parsed {
                Ok(modifier) => modifier.spec_name() == name@,
                Err(e) => e == ParseError::InvalidModifier && forall|m: Modifier|
                    m.spec_name() != name@,
            },
    {
        match Modifier::from_name(name) {
            Some(modifier) => Ok(modifier),
            None => Err(ParseError::InvalidModifier),
        }
    }
}

/// The closed set of modifiers.
pub open spec fn all_modifiers() -> Seq<Modifier> {
    seq![
        Modifier::Alt,
        Modifier::LeftAlt,
        Modifier::RightAlt,
        Modifier::Ctrl,
        Modifier::LeftCtrl,
        Modifier::RightCtrl,
        Modifier::Shift,
        Modifier::LeftShift,
        Modifier::RightShift,
        Modifier::Meta,
        Modifier::LeftMeta,
        Modifier::RightMeta,
    ]
}

/// Every modifier stands in [`all_modifiers`].
pub proof fn lemma_all_modifiers(m: Modifier)
    ensures
        exists|i: int| 0 <= i < 12 && all_modifiers()[i] == m,
{
    let i: int = match m {
        Modifier::Alt => 0,
        Modifier::LeftAlt => 1,
        Modifier::RightAlt => 2,
        Modifier::Ctrl => 3,
        Modifier::LeftCtrl => 4,
        Modifier::RightCtrl => 5,
        Modifier::Shift => 6,
        Modifier::LeftShift => 7,
        Modifier::RightShift => 8,
        Modifier::Meta => 9,
        Modifier::LeftMeta => 10,
        Modifier::RightMeta => 11,
    };
    assert(all_modifiers()[i] == m);
}

/// Makes the characters of the twelve modifier names known to the verifier.
proof fn lemma_modifier_names_known()
    ensures
        "Alt"@ == seq!['A', 'l', 't'],
        "LeftAlt"@ == seq!['L', 'e', 'f', 't', 'A', 'l', 't'],
        "RightAlt"@ == seq!['R', 'i', 'g', 'h', 't', 'A', 'l', 't'],
        "Ctrl"@ == seq!['C', 't', 'r', 'l'],
        "LeftCtrl"@ == seq!['L', 'e', 'f', 't', 'C', 't', 'r', 'l'],
        "RightCtrl"@ == seq!['R', 'i', 'g', 'h', 't', 'C', 't', 'r', 'l'],
        "Shift"@ == seq!['S', 'h', 'i', 'f', 't'],
        "LeftShift"@ == seq!['L', 'e', 'f', 't', 'S', 'h', 'i', 'f', 't'],
        "RightShift"@ == seq!['R', 'i', 'g', 'h', 't', 'S', 'h', 'i', 'f', 't'],
        "Meta"@ == seq!['M', 'e', 't', 'a'],
        "LeftMeta"@ == seq!['L', 'e', 'f', 't', 'M', 'e', 't', 'a'],
        "RightMeta"@ == seq!['R', 'i', 'g', 'h', 't', 'M', 'e', 't', 'a'],
{
    reveal_strlit("Alt");
    reveal_strlit("LeftAlt");
    reveal_strlit("RightAlt");
    reveal_strlit("Ctrl");
    reveal_strlit("LeftCtrl");
    reveal_strlit("RightCtrl");
    reveal_strlit("Shift");
    reveal_strlit("LeftShift");
    reveal_strlit("RightShift");
    reveal_strlit("Meta");
    reveal_strlit("LeftMeta");
    reveal_strlit("RightMeta");
}

/// Two modifiers with the same name are the same modifier.
pub proof fn lemma_modifier_name_injective(a: Modifier, b: Modifier)
    requires
        a.spec_name() == b.spec_name(),
    ensures
        a == b,
{
    lemma_modifier_names_known();
    let s = a.spec_name();
    let t = b.spec_name();
    assert(s.len() == t.len());
    assert(s[0] == t[0]);
    assert(s[4] == t[4]);
    assert(s[5] == t[5]);
}

/// No modifier name opens another modifier's name.
pub proof fn lemma_modifier_name_prefix_free(a: Modifier, b: Modifier)
    requires
        a.spec_name().is_prefix_of(b.spec_name()),
    ensures
        a == b,
{
    lemma_modifier_names_known();
    let s = a.spec_name();
    let t = b.spec_name();
    assert(s.len() <= t.len());
    assert(s == t.subrange(0, s.len() as int));
    assert(s[0] == t[0]);
    assert(s[1] == t[1]);
    assert(s[2] == t[2]);
    if s.len() > 4 {
        assert(s[4] == t[4]);
    }
    if s.len() > 5 {
        assert(s[5] == t[5]);
    }
}

/// A modifier name is made of ASCII letters, at least one of them.
pub proof fn lemma_modifier_name_chars(m: Modifier)
    ensures
        0 < m.spec_name().len(),
        forall|i: int| 0 <= i < m.spec_name().len() ==> is_name_char(#[trigger] m.spec_name()[i]),
{
    lemma_modifier_names_known();
}

/// The mask of a generic modifier is the masks of its two sides, or-ed together.
pub proof fn lemma_generic_masks()
    ensures
        Modifier::Alt.spec_mask() == Modifier::LeftAlt.spec_mask() | Modifier::RightAlt.spec_mask(),
        Modifier::Ctrl.spec_mask() == Modifier::LeftCtrl.spec_mask()
            | Modifier::RightCtrl.spec_mask(),
        Modifier::Meta.spec_mask() == Modifier::LeftMeta.spec_mask()
            | Modifier::RightMeta.spec_mask(),
        Modifier::Shift.spec_mask() == Modifier::LeftShift.spec_mask()
            | Modifier::RightShift.spec_mask(),
{
    assert(0b0000_0011u8 == 0b0000_0001u8 | 0b0000_0010u8 && 0b0000_1100u8 == 0b0000_0100u8
        | 0b0000_1000u8 && 0b0011_0000u8 == 0b0001_0000u8 | 0b0010_0000u8 && 0b1100_0000u8
        == 0b0100_0000u8 | 0b1000_0000u8) by (bit_vector);
}

/// A modifier accepts exactly the modifier keys whose bit its mask holds.
pub proof fn lemma_accepts_by_mask(m: Modifier, key: Key)
    ensures
        m.accepts(key) <==> m.spec_mask() & key_mask(key) != 0,
{
    let mask = m.spec_mask();
    let bit = key_mask(key);
    assert((is_single_bit(bit) || bit == 0) && is_modifier_mask(mask) ==> (mask & bit != 0
        <==> in_mask_by_cases(mask, bit))) by (bit_vector);
}

/// `bit` is one of the eight single bits.
pub open spec fn is_single_bit(bit: u8) -> bool {
    bit == 0b0000_0001 || bit == 0b0000_0010 || bit == 0b0000_0100 || bit == 0b0000_1000 || bit
        == 0b0001_0000 || bit == 0b0010_0000 || bit == 0b0100_0000 || bit == 0b1000_0000
}

/// `mask` is the mask of one of the twelve modifiers.
pub open spec fn is_modifier_mask(mask: u8) -> bool {
    is_single_bit(mask) || mask == 0b0000_0011 || mask == 0b0000_1100 || mask == 0b0011_0000
        || mask == 0b1100_0000
}

/// What it means for a single bit to lie in a modifier's mask, case by case.
spec fn in_mask_by_cases(mask: u8, bit: u8) -> bool {
    mask == bit || (mask == 0b0000_0011 && (bit == 0b0000_0001 || bit == 0b0000_0010)) || (mask
        == 0b0000_1100 && (bit == 0b0000_0100 || bit == 0b0000_1000)) || (mask == 0b0011_0000 && (
    bit == 0b0001_0000 || bit == 0b0010_0000)) || (mask == 0b1100_0000 && (bit == 0b0100_0000
        || bit == 0b1000_0000))
}

} // verus!
