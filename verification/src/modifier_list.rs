//! Lists of modifiers: their combined mask and their text.

use crate::error::ParseError;
use crate::modifier::{lemma_modifier_name_chars, lemma_modifier_name_injective, Modifier};
use crate::text::{chars_of, find_from, is_name_char};
use vstd::prelude::*;

verus! {

/// The modifiers of a shortcut in the order in which they were written. The
/// order shows in the text only; matching goes by the combined mask.
#[derive(Debug, Hash)]
pub struct ModifierList(Vec<Modifier>);

impl View for ModifierList {
    type V = Seq<Modifier>;

    closed spec fn view(&self) -> Seq<Modifier> {
        self.0@
    }
}

/// The masks of all the modifiers, or-ed together.
pub open spec fn combined_mask(modifiers: Seq<Modifier>) -> u8
    decreases modifiers.len(),
{
    if modifiers.len() == 0 {
        0
    } else {
        combined_mask(modifiers.drop_last()) | modifiers.last().spec_mask()
    }
}

/// A modifier as it stands in a text: its name between `<` and `>`.
pub open spec fn token(modifier: Modifier) -> Seq<char> {
    seq!['<'] + modifier.spec_name() + seq!['>']
}

/// The text of a list of modifiers: one token after the other.
pub open spec fn modifiers_text(modifiers: Seq<Modifier>) -> Seq<char>
    decreases modifiers.len(),
{
    if modifiers.len() == 0 {
        Seq::empty()
    } else {
        modifiers_text(modifiers.drop_last()) + token(modifiers.last())
    }
}

/// Whether `text` is the text of some list of modifiers.
pub open spec fn is_modifiers_text(text: Seq<char>) -> bool {
    exists|modifiers: Seq<Modifier>| modifiers_text(modifiers) == text
}

impl ModifierList {
    /// The list of the given modifiers, in their order.
    pub fn new(modifiers: Vec<Modifier>) -> (list: Self)
        ensures
            list@ == modifiers@,
    {
        ModifierList(modifiers)
    }

    /// The number of modifiers in the list.
    pub fn len(&self) -> (len: usize)
        ensures
            len == self@.len(),
    {
        self.0.len()
    }

    /// Whether the list holds no modifier.
    pub fn is_empty(&self) -> (empty: bool)
        ensures
            empty == (self@.len() == 0),
    {
        self.0.len() == 0
    }

    /// The modifier at a position of the list.
    pub fn get(&self, index: usize) -> (modifier: Modifier)
        requires
            index < self@.len(),
        ensures
            modifier == self@[index as int],
    {
        self.0[index]
    }

    /// The masks of all the modifiers of the list, or-ed together.
    pub fn as_mask(&self) -> (mask: u8)
        ensures
            mask == combined_mask(self@),
    {
        let mut mask: u8 = 0;
        let mut i: usize = 0;
        while i < self.0.len()
            invariant
                i <= self.0@.len(),
                mask == combined_mask(self.0@.take(i as int)),
            decreases self.0@.len() - i,
        {
            assert(self.0@.take(i + 1).drop_last() == self.0@.take(i as int));
            mask = mask | self.0[i].as_mask();
            i += 1;
        }
        assert(self.0@.take(i as int) == self.0@);
        mask
    }

    /// Whether two lists hold the same modifiers in the same order.
    pub fn equals(&self, other: &ModifierList) -> (same: bool)
        ensures
            same == (self@ == other@),
    {
        if self.0.len() != other.0.len() {
            return false;
        }
        let mut i: usize = 0;
        while i < self.0.len()
            invariant
                i <= self.0@.len(),
                self.0@.len() == other.0@.len(),
                self.0@.take(i as int) == other.0@.take(i as int),
            decreases self.0@.len() - i,
        {
            if self.0[i] != other.0[i] {
                assert(self.0@[i as int] != other.0@[i as int]);
                return false;
            }
            assert(self.0@.take(i + 1) == self.0@.take(i as int).push(self.0@[i as int]));
            assert(other.0@.take(i + 1) == other.0@.take(i as int).push(other.0@[i as int]));
            i += 1;
        }
        assert(self.0@.take(i as int) == self.0@);
        assert(other.0@.take(i as int) == other.0@);
        true
    }

    /// The text of the list: `<Name>` for each modifier, in order.
    pub fn to_string(&self) -> (text: String)
        ensures
            text@ == modifiers_text(self@),
    {
        let mut text = String::new();
        let mut i: usize = 0;
        while i < self.0.len()
            invariant
                i <= self.0@.len(),
                text@ == modifiers_text(self.0@.take(i as int)),
            decreases self.0@.len() - i,
        {
            proof {
                reveal_strlit("<");
                reveal_strlit(">");
                assert(self.0@.take(i + 1).drop_last() == self.0@.take(i as int));
                assert("<"@ == seq!['<']);
                assert(">"@ == seq!['>']);
            }
            text.append("<");
            text.append(self.0[i].name());
            text.append(">");
            assert(text@ == modifiers_text(self.0@.take(i as int)) + token(self.0@[i as int]));
            i += 1;
        }
        assert(self.0@.take(i as int) == self.0@);
        text
    }

    /// Reads the text of a list of modifiers. The text is accepted exactly when
    /// it is a run of `<Name>` tokens, each naming a modifier.
    pub fn parse_chars(text: &[char]) -> (parsed: Result<ModifierList, ParseError>)
        ensures
            match parsed {
                Ok(list) => modifiers_text(list@) == text@,
                Err(e) => e == ParseError::InvalidModifier && !is_modifiers_text(text@),
            },
    {
        let mut modifiers: Vec<Modifier> = Vec::new();
        let mut i: usize = 0;
        assert(text@.skip(0) == text@);
        while i < text.len()
            invariant
                i <= text@.len(),
                modifiers_text(modifiers@) == text@.take(i as int),
                is_modifiers_text(text@) ==> is_modifiers_text(text@.skip(i as int)),
            decreases text@.len() - i,
        {
            // What is left opens with a token if the whole text is one of modifiers.
            let ghost rest = choose|v: Seq<Modifier>| modifiers_text(v) == text@.skip(i as int);
            proof {
                if is_modifiers_text(text@) {
                    lemma_rest_opens_with_token(text@, i as int, rest);
                }
            }
            if text[i] != '<' {
                return Err(ParseError::InvalidModifier);
            }
            let close = match find_from(text, i + 1, '>') {
                Some(close) => close,
                None => {
                    return Err(ParseError::InvalidModifier);
                },
            };
            let name = &text[i + 1..close];
            let modifier = match Modifier::from_name_chars(name) {
                Some(modifier) => modifier,
                None => {
                    return Err(ParseError::InvalidModifier);
                },
            };
            proof {
                lemma_text_push(modifiers@, modifier);
                assert(text@.take(close + 1) == text@.take(i as int) + token(modifier));
                if is_modifiers_text(text@) {
                    assert(modifiers_text(rest.drop_first()) == text@.skip(close + 1));
                }
            }
            modifiers.push(modifier);
            i = close + 1;
        }
        assert(text@.take(i as int) == text@);
        Ok(ModifierList(modifiers))
    }

    /// Reads the text of a list of modifiers: see [`ModifierList::parse_chars`].
    pub fn parse(text: &str) -> (parsed: Result<ModifierList, ParseError>)
        ensures
            match parsed {
                Ok(list) => modifiers_text(list@) == text@,
                Err(e) => e == ParseError::InvalidModifier && !is_modifiers_text(text@),
            },
    {
        let chars = chars_of(text);
        ModifierList::parse_chars(chars.as_slice())
    }
}

impl core::str::FromStr for ModifierList {
    type Err = ParseError;

    /// Reads the text of a list of modifiers: see [`ModifierList::parse_chars`].
    fn from_str(text: &str) -> (parsed: Result<ModifierList, ParseError>)
        ensures
            match parsed {
                Ok(list) => modifiers_text(list@) == text@,
                Err(e) => e == ParseError::InvalidModifier && !is_modifiers_text(text@),
            },
    {
        ModifierList::parse(text)
    }
}

impl Clone for ModifierList {
    fn clone(&self) -> (copy: Self)
        ensures
            copy@ == self@,
    {
        ModifierList(self.0.clone())
    }
}

impl PartialEq for ModifierList {
    fn eq(&self, other: &ModifierList) -> (same: bool) {
        self.equals(other)
    }
}

impl Eq for ModifierList {

}

impl vstd::std_specs::cmp::PartialEqSpecImpl for ModifierList {
    open spec fn obeys_eq_spec() -> bool {
        true
    }

    open spec fn eq_spec(&self, other: &ModifierList) -> bool {
        self@ == other@
    }
}

/// The text of a list with one more modifier ends in that modifier's token.
pub proof fn lemma_text_push(modifiers: Seq<Modifier>, modifier: Modifier)
    ensures
        modifiers_text(modifiers.push(modifier)) == modifiers_text(modifiers) + token(modifier),
{
    assert(modifiers.push(modifier).drop_last() == modifiers);
}

/// The text of two lists, one after the other, is their texts one after the other.
pub proof fn lemma_text_concat(a: Seq<Modifier>, b: Seq<Modifier>)
    ensures
        modifiers_text(a + b) == modifiers_text(a) + modifiers_text(b),
    decreases b.len(),
{
    if b.len() == 0 {
        assert(a + b == a);
    } else {
        lemma_text_concat(a, b.drop_last());
        assert((a + b).drop_last() == a + b.drop_last());
    }
}

/// The text of a list of modifiers holds `<`, `>`, letters and digits only.
pub proof fn lemma_modifiers_text_chars(modifiers: Seq<Modifier>)
    ensures
        forall|i: int|
            0 <= i < modifiers_text(modifiers).len() ==> {
                let c = #[trigger] modifiers_text(modifiers)[i];
                c == '<' || c == '>' || is_name_char(c)
            },
    decreases modifiers.len(),
{
    if modifiers.len() > 0 {
        lemma_modifiers_text_chars(modifiers.drop_last());
        lemma_modifier_name_chars(modifiers.last());
        let before = modifiers_text(modifiers.drop_last());
        let name = modifiers.last().spec_name();
        let text = modifiers_text(modifiers);
        assert forall|i: int| 0 <= i < text.len() implies {
            let c = #[trigger] text[i];
            c == '<' || c == '>' || is_name_char(c)
        } by {
            if i < before.len() {
                assert(text[i] == before[i]);
            } else if i == before.len() {
                assert(text[i] == '<');
            } else if i < before.len() + 1 + name.len() {
                assert(text[i] == name[i - before.len() - 1]);
            } else {
                assert(text[i] == '>');
            }
        }
    }
}

/// The text of a list that is not empty opens with the token of its first
/// modifier, and the text of the other modifiers follows.
pub proof fn lemma_first_token(modifiers: Seq<Modifier>)
    requires
        modifiers.len() > 0,
    ensures
        modifiers_text(modifiers) == token(modifiers[0]) + modifiers_text(modifiers.drop_first()),
{
    let first = seq![modifiers[0]];
    assert(first + modifiers.drop_first() == modifiers);
    lemma_text_concat(first, modifiers.drop_first());
    assert(first.drop_last() == Seq::<Modifier>::empty());
    assert(modifiers_text(first.drop_last()) == Seq::<char>::empty());
    assert(modifiers_text(first) == token(modifiers[0]));
}

/// Where the text of a list of modifiers starts at `i` of a longer text and
/// something is left at `i`, a token stands there: `<`, the name of the first
/// modifier, and the first `>` after `i`; the text of the other modifiers follows.
pub proof fn lemma_rest_opens_with_token(text: Seq<char>, i: int, modifiers: Seq<Modifier>)
    requires
        0 <= i < text.len(),
        modifiers_text(modifiers) == text.skip(i),
    ensures
        modifiers.len() > 0,
        ({
            let name = modifiers[0].spec_name();
            let close = i + 1 + name.len();
            &&& close < text.len()
            &&& text[i] == '<'
            &&& text.subrange(i + 1, close) == name
            &&& text[close] == '>'
            &&& forall|j: int| i + 1 <= j < close ==> text[j] != '>'
            &&& text.skip(close + 1) == modifiers_text(modifiers.drop_first())
        }),
{
    let rest = text.skip(i);
    lemma_first_token(modifiers);
    lemma_modifier_name_chars(modifiers[0]);
    let name = modifiers[0].spec_name();
    let close = i + 1 + name.len();
    let tail = modifiers_text(modifiers.drop_first());
    assert(rest == token(modifiers[0]) + tail);
    assert(rest.len() >= name.len() + 2);
    assert(text[i] == rest[0]);
    assert(text[close] == rest[close - i]);
    assert forall|j: int| i + 1 <= j < close implies text[j] != '>' by {
        assert(text[j] == rest[j - i]);
        assert(rest[j - i] == name[j - i - 1]);
        assert(is_name_char(name[j - i - 1]));
    }
    assert(text.subrange(i + 1, close) == name) by {
        assert forall|j: int| 0 <= j < name.len() implies text.subrange(i + 1, close)[j] == name[j] by {
            assert(text[i + 1 + j] == rest[1 + j]);
        }
    }
    assert(text.skip(close + 1) == tail) by {
        assert forall|j: int| 0 <= j < tail.len() implies text.skip(close + 1)[j] == tail[j] by {
            assert(text[close + 1 + j] == rest[close + 1 - i + j]);
        }
    }
}

/// Two lists of modifiers with the same text are the same list.
pub proof fn lemma_modifiers_text_injective(a: Seq<Modifier>, b: Seq<Modifier>)
    requires
        modifiers_text(a) == modifiers_text(b),
    ensures
        a == b,
    decreases a.len(),
{
    let text = modifiers_text(a);
    if a.len() > 0 {
        lemma_first_token(a);
    }
    if b.len() > 0 {
        lemma_first_token(b);
    }
    if a.len() > 0 && b.len() > 0 {
        assert(text.skip(0) == text);
        lemma_rest_opens_with_token(text, 0, a);
        lemma_rest_opens_with_token(text, 0, b);
        let close_a = 1 + a[0].spec_name().len();
        let close_b = 1 + b[0].spec_name().len();
        assert(close_a == close_b) by {
            if close_a < close_b {
                assert(text[close_a as int] == '>');
            } else if close_b < close_a {
                assert(text[close_b as int] == '>');
            }
        }
        lemma_modifier_name_injective(a[0], b[0]);
        lemma_modifiers_text_injective(a.drop_first(), b.drop_first());
        assert(a == seq![a[0]] + a.drop_first());
        assert(b == seq![b[0]] + b.drop_first());
    } else {
        assert(a.len() == 0 && b.len() == 0);
        assert(a == b);
    }
}

} // verus!
