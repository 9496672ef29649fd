//! Shortcuts: a list of modifiers and a key, and their canonical text.

use crate::error::ParseError;
use crate::key_names::lemma_name_injective;
use crate::keycodes::Key;
use crate::modifier::Modifier;
use crate::modifier_list::{
    is_modifiers_text, lemma_modifiers_text_chars, lemma_modifiers_text_injective, modifiers_text,
    ModifierList,
};
use crate::text::{chars_of, find_from};
use vstd::prelude::*;

verus! {

/// What a shortcut is: the modifiers in the order in which they were written,
/// and the key.
pub struct ShortcutView {
    pub modifiers: Seq<Modifier>,
    pub key: Key,
}

impl ShortcutView {
    /// The canonical text: the tokens of the modifiers, `-`, and the name of the key.
    pub open spec fn text(self) -> Seq<char> {
        modifiers_text(self.modifiers) + seq!['-'] + self.key.spec_name()
    }

    /// A bare shortcut asks for no modifier.
    pub open spec fn is_bare(self) -> bool {
        self.modifiers.len() == 0
    }
}

/// Whether `text` is the canonical text of some shortcut.
pub open spec fn is_shortcut_text(text: Seq<char>) -> bool {
    exists|shortcut: ShortcutView| shortcut.text() == text
}

/// The shortcut that a text stands for, if the text is canonical.
pub open spec fn shortcut_of(text: Seq<char>) -> Option<ShortcutView> {
    if is_shortcut_text(text) {
        Some(choose|shortcut: ShortcutView| shortcut.text() == text)
    } else {
        None
    }
}

/// The error that parsing reports for a text that is not canonical: the first
/// of the three parts of a text that is missing or wrong.
pub open spec fn parse_error(text: Seq<char>) -> ParseError {
    match text.index_of_first('-') {
        None => ParseError::MissingKey,
        Some(dash) => if !is_modifiers_text(text.take(dash)) {
            ParseError::InvalidModifier
        } else {
            ParseError::UnknownKey
        },
    }
}

/// A key together with the modifiers that must be held when it is pressed.
#[derive(Debug, Hash)]
pub struct Shortcut {
    modifiers: ModifierList,
    key: Key,
}

impl View for Shortcut {
    type V = ShortcutView;

    closed spec fn view(&self) -> ShortcutView {
        ShortcutView { modifiers: self.modifiers@, key: self.key }
    }
}

impl Shortcut {
    /// The shortcut of a key and the modifiers to hold with it.
    pub fn new(modifiers: Vec<Modifier>, key: Key) -> (shortcut: Self)
        ensures
            shortcut@ == (ShortcutView { modifiers: modifiers@, key }),
    {
        Shortcut { modifiers: ModifierList::new(modifiers), key }
    }

    /// The modifiers of the shortcut, in the order in which they were written.
    pub fn modifiers(&self) -> (modifiers: &ModifierList)
        ensures
            modifiers@ == self@.modifiers,
    {
        &self.modifiers
    }

    /// The key of the shortcut.
    pub fn key(&self) -> (key: Key)
        ensures
            key == self@.key,
    {
        self.key
    }

    /// Whether the shortcut asks for no modifier.
    pub fn is_bare(&self) -> (bare: bool)
        ensures
            bare == self@.is_bare(),
    {
        self.modifiers.is_empty()
    }

    /// Whether two shortcuts have the same modifiers in the same order and the
    /// same key.
    pub fn equals(&self, other: &Shortcut) -> (same: bool)
        ensures
            same == (self@ == other@),
    {
        self.key == other.key && self.modifiers.equals(&other.modifiers)
    }

    /// The canonical text of the shortcut, such as `<Ctrl><Alt>-KeyO`.
    pub fn to_string(&self) -> (text: String)
        ensures
            text@ == self@.text(),
    {
        let mut text = self.modifiers.to_string();
        proof {
            reveal_strlit("-");
            assert("-"@ == seq!['-']);
        }
        text.append("-");
        text.append(self.key.name());
        text
    }

    /// Reads the canonical text of a shortcut: zero or more `<Modifier>` tokens,
    /// then `-` and the name of a key. Every other text is refused.
    pub fn parse_chars(text: &[char]) -> (parsed: Result<Shortcut, ParseError>)
        ensures
            match parsed {
                Ok(shortcut) => shortcut@.text() == text@ && shortcut_of(text@) == Some(shortcut@),
                Err(e) => !is_shortcut_text(text@) && e == parse_error(text@),
            },
    {
        proof {
            text@.index_of_first_ensures('-');
            assert forall|v: ShortcutView| v.text() == text@ implies text@.index_of_first('-')
                == Some(modifiers_text(v.modifiers).len() as int) by {
                lemma_text_parts(v);
            }
        }
        let dash = match find_from(text, 0, '-') {
            Some(dash) => dash,
            None => {
                return Err(ParseError::MissingKey);
            },
        };
        let len = text.len();
        let head = &text[0..dash];
        let tail = &text[dash + 1..len];
        assert(head@ == text@.take(dash as int));
        assert(tail@ == text@.skip(dash + 1));
        assert forall|v: ShortcutView| v.text() == text@ implies modifiers_text(v.modifiers)
            == head@ && v.key.spec_name() == tail@ by {
            lemma_text_parts(v);
        }
        let modifiers = match ModifierList::parse_chars(head) {
            Ok(modifiers) => modifiers,
            Err(e) => {
                return Err(e);
            },
        };
        let key = match Key::from_name_chars(tail) {
            Some(key) => key,
            None => {
                return Err(ParseError::UnknownKey);
            },
        };
        let shortcut = Shortcut { modifiers, key };
        proof {
            assert(shortcut@.text() == text@);
            lemma_parse_after_format(shortcut@);
        }
        Ok(shortcut)
    }

    /// Reads the canonical text of a shortcut: see [`Shortcut::parse_chars`].
    pub fn parse(text: &str) -> (parsed: Result<Shortcut, ParseError>)
        ensures
            match parsed {
                Ok(shortcut) => shortcut@.text() == text@ && shortcut_of(text@) == Some(shortcut@),
                Err(e) => !is_shortcut_text(text@) && e == parse_error(text@),
            },
    {
        let chars = chars_of(text);
        Shortcut::parse_chars(chars.as_slice())
    }
}

/// The first `-` of a canonical text stands right after the modifiers: what is
/// before it is their text, what is after it is the name of the key.
pub proof fn lemma_text_parts(shortcut: ShortcutView)
    ensures
        ({
            let text = shortcut.text();
            let dash = modifiers_text(shortcut.modifiers).len() as int;
            &&& text.index_of_first('-') == Some(dash)
            &&& text.take(dash) == modifiers_text(shortcut.modifiers)
            &&& text.skip(dash + 1) == shortcut.key.spec_name()
        }),
{
    let text = shortcut.text();
    let head = modifiers_text(shortcut.modifiers);
    let dash = head.len() as int;
    lemma_modifiers_text_chars(shortcut.modifiers);
    text.index_of_first_ensures('-');
    assert(text[dash] == '-');
    assert forall|j: int| 0 <= j < dash implies text[j] != '-' by {
        assert(text[j] == head[j]);
    }
    assert(text.take(dash) == head);
    assert(text.skip(dash + 1) == shortcut.key.spec_name());
}

/// Two shortcuts with the same canonical text are the same shortcut.
pub proof fn lemma_text_injective(a: ShortcutView, b: ShortcutView)
    requires
        a.text() == b.text(),
    ensures
        a == b,
{
    lemma_text_parts(a);
    lemma_text_parts(b);
    lemma_modifiers_text_injective(a.modifiers, b.modifiers);
    lemma_name_injective(a.key, b.key);
}

/// Formatting undoes parsing: the shortcut that a canonical text stands for has
/// that text as its canonical text.
pub proof fn lemma_format_after_parse(text: Seq<char>)
    requires
        is_shortcut_text(text),
    ensures
        shortcut_of(text) is Some,
        shortcut_of(text)->0.text() == text,
{
}

/// Parsing undoes formatting: the canonical text of a shortcut is canonical and
/// stands for that shortcut.
pub proof fn lemma_parse_after_format(shortcut: ShortcutView)
    ensures
        is_shortcut_text(shortcut.text()),
        shortcut_of(shortcut.text()) == Some(shortcut),
{
    let found = choose|found: ShortcutView| found.text() == shortcut.text();
    lemma_text_injective(found, shortcut);
}

impl core::str::FromStr for Shortcut {
    type Err = ParseError;

    /// Reads the canonical text of a shortcut: see [`Shortcut::parse_chars`].
    fn from_str(text: &str) -> (parsed: Result<Shortcut, ParseError>)
        ensures
            match parsed {
                Ok(shortcut) => shortcut@.text() == text@ && shortcut_of(text@) == Some(shortcut@),
                Err(e) => !is_shortcut_text(text@) && e == parse_error(text@),
            },
    {
        Shortcut::parse(text)
    }
}

impl Clone for Shortcut {
    fn clone(&self) -> (copy: Self)
        ensures
            copy@ == self@,
    {
        Shortcut { modifiers: self.modifiers.clone(), key: self.key }
    }
}

impl PartialEq for Shortcut {
    fn eq(&self, other: &Shortcut) -> (same: bool) {
        self.equals(other)
    }
}

impl Eq for Shortcut {

}

impl vstd::std_specs::cmp::PartialEqSpecImpl for Shortcut {
    open spec fn obeys_eq_spec() -> bool {
        true
    }

    open spec fn eq_spec(&self, other: &Shortcut) -> bool {
        self@ == other@
    }
}

} // verus!
