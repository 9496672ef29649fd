//! The identifier of a shortcut: the name under which its notifications go out.

use crate::key_names::{lemma_name_chars, lemma_name_injective};
use crate::modifier::{lemma_modifier_name_chars, lemma_modifier_name_prefix_free, Modifier};
use crate::modifier_list::{modifiers_text, token};
use crate::shortcut::{Shortcut, ShortcutView};
use crate::text::is_name_char;
use vstd::prelude::*;

verus! {

/// The characters of a text that its identifier keeps: all but `<` and `>`.
pub open spec fn kept() -> spec_fn(char) -> bool {
    |c: char| c != '<' && c != '>'
}

/// What a kept character becomes in an identifier: `-` becomes `_`.
pub open spec fn replaced() -> spec_fn(char) -> char {
    |c: char|
        if c == '-' {
            '_'
        } else {
            c
        }
}

/// The identifier that belongs to a text: the text without `<` and `>`, and
/// with `_` in place of `-`.
pub open spec fn identifier_of(text: Seq<char>) -> Seq<char> {
    text.filter(kept()).map_values(replaced())
}

/// The names of the modifiers, one after the other.
pub open spec fn modifier_names(modifiers: Seq<Modifier>) -> Seq<char>
    decreases modifiers.len(),
{
    if modifiers.len() == 0 {
        Seq::empty()
    } else {
        modifier_names(modifiers.drop_last()) + modifiers.last().spec_name()
    }
}

impl ShortcutView {
    /// The identifier of the shortcut: that of its canonical text.
    pub open spec fn identifier(self) -> Seq<char> {
        identifier_of(self.text())
    }
}

impl Shortcut {
    /// The identifier of the shortcut, such as `CtrlAlt_KeyO` for `<Ctrl><Alt>-KeyO`.
    pub fn identifier(&self) -> (identifier: String)
        ensures
            identifier@ == self@.identifier(),
    {
        let modifiers = self.modifiers();
        let mut identifier = String::new();
        let mut i: usize = 0;
        while i < modifiers.len()
            invariant
                i <= modifiers@.len(),
                identifier@ == modifier_names(modifiers@.take(i as int)),
            decreases modifiers@.len() - i,
        {
            assert(modifiers@.take(i + 1).drop_last() == modifiers@.take(i as int));
            identifier.append(modifiers.get(i).name());
            i += 1;
        }
        proof {
            assert(modifiers@.take(i as int) == modifiers@);
            reveal_strlit("_");
            assert("_"@ == seq!['_']);
            lemma_identifier_parts(self@);
        }
        identifier.append("_");
        identifier.append(self.key().name());
        identifier
    }
}

/// The identifier of two texts, one after the other, is their identifiers one
/// after the other.
pub proof fn lemma_identifier_concat(a: Seq<char>, b: Seq<char>)
    ensures
        identifier_of(a + b) == identifier_of(a) + identifier_of(b),
{
    Seq::filter_distributes_over_add(a, b, kept());
}

/// A text of letters and digits is its own identifier.
pub proof fn lemma_identifier_of_name(name: Seq<char>)
    requires
        forall|i: int| 0 <= i < name.len() ==> is_name_char(#[trigger] name[i]),
    ensures
        identifier_of(name) == name,
    decreases name.len(),
{
    reveal(Seq::filter);
    if name.len() > 0 {
        lemma_identifier_of_name(name.drop_last());
        assert(is_name_char(name[name.len() - 1]));
        assert(name.drop_last().push(name.last()) == name);
    }
}

/// The identifier of one character: nothing for `<` and `>`, `_` for `-`.
pub proof fn lemma_identifier_of_mark(c: char)
    ensures
        identifier_of(seq![c]) == if c == '<' || c == '>' {
            Seq::<char>::empty()
        } else if c == '-' {
            seq!['_']
        } else {
            seq![c]
        },
{
    reveal(Seq::filter);
    assert(seq![c].drop_last() == Seq::<char>::empty());
    assert(Seq::<char>::empty().filter(kept()) == Seq::<char>::empty());
}

/// The identifier of the text of a list of modifiers is made of their names.
pub proof fn lemma_identifier_of_modifiers(modifiers: Seq<Modifier>)
    ensures
        identifier_of(modifiers_text(modifiers)) == modifier_names(modifiers),
    decreases modifiers.len(),
{
    if modifiers.len() == 0 {
        reveal(Seq::filter);
    } else {
        let before = modifiers_text(modifiers.drop_last());
        let name = modifiers.last().spec_name();
        lemma_identifier_of_modifiers(modifiers.drop_last());
        lemma_modifier_name_chars(modifiers.last());
        lemma_identifier_of_name(name);
        lemma_identifier_of_mark('<');
        lemma_identifier_of_mark('>');
        lemma_identifier_concat(seq!['<'], name);
        lemma_identifier_concat(seq!['<'] + name, seq!['>']);
        lemma_identifier_concat(before, token(modifiers.last()));
    }
}

/// The identifier of a shortcut is the names of its modifiers, `_`, and the
/// name of its key.
pub proof fn lemma_identifier_parts(shortcut: ShortcutView)
    ensures
        shortcut.identifier() == modifier_names(shortcut.modifiers) + seq!['_']
            + shortcut.key.spec_name(),
{
    let head = modifiers_text(shortcut.modifiers);
    let name = shortcut.key.spec_name();
    lemma_identifier_of_modifiers(shortcut.modifiers);
    lemma_name_chars(shortcut.key);
    lemma_identifier_of_name(name);
    lemma_identifier_of_mark('-');
    lemma_identifier_concat(head, seq!['-']);
    lemma_identifier_concat(head + seq!['-'], name);
}

/// The names of two lists of modifiers, one after the other, are their names
/// one after the other.
pub proof fn lemma_modifier_names_concat(a: Seq<Modifier>, b: Seq<Modifier>)
    ensures
        modifier_names(a + b) == modifier_names(a) + modifier_names(b),
    decreases b.len(),
{
    if b.len() == 0 {
        assert(a + b == a);
    } else {
        lemma_modifier_names_concat(a, b.drop_last());
        assert((a + b).drop_last() == a + b.drop_last());
    }
}

/// The names of a list of modifiers hold letters only.
pub proof fn lemma_modifier_names_chars(modifiers: Seq<Modifier>)
    ensures
        forall|i: int|
            0 <= i < modifier_names(modifiers).len() ==> is_name_char(
                #[trigger] modifier_names(modifiers)[i],
            ),
    decreases modifiers.len(),
{
    if modifiers.len() > 0 {
        lemma_modifier_names_chars(modifiers.drop_last());
        lemma_modifier_name_chars(modifiers.last());
        let before = modifier_names(modifiers.drop_last());
        let name = modifiers.last().spec_name();
        let names = modifier_names(modifiers);
        assert forall|i: int| 0 <= i < names.len() implies is_name_char(#[trigger] names[i]) by {
            if i < before.len() {
                assert(names[i] == before[i]);
            } else {
                assert(names[i] == name[i - before.len()]);
            }
        }
    }
}

/// Two lists of modifiers whose names run together to the same text are the
/// same list: no name opens another, so the names can be told apart again.
pub proof fn lemma_modifier_names_injective(a: Seq<Modifier>, b: Seq<Modifier>)
    requires
        modifier_names(a) == modifier_names(b),
    ensures
        a == b,
    decreases a.len(),
{
    let names = modifier_names(a);
    if a.len() > 0 {
        assert(a == seq![a[0]] + a.drop_first());
        lemma_modifier_names_concat(seq![a[0]], a.drop_first());
        assert(seq![a[0]].drop_last() == Seq::<Modifier>::empty());
        assert(modifier_names(seq![a[0]].drop_last()) == Seq::<char>::empty());
        assert(modifier_names(seq![a[0]]) == a[0].spec_name());
        lemma_modifier_name_chars(a[0]);
    }
    if b.len() > 0 {
        assert(b == seq![b[0]] + b.drop_first());
        lemma_modifier_names_concat(seq![b[0]], b.drop_first());
        assert(seq![b[0]].drop_last() == Seq::<Modifier>::empty());
        assert(modifier_names(seq![b[0]].drop_last()) == Seq::<char>::empty());
        assert(modifier_names(seq![b[0]]) == b[0].spec_name());
        lemma_modifier_name_chars(b[0]);
    }
    if a.len() > 0 && b.len() > 0 {
        let name_a = a[0].spec_name();
        let name_b = b[0].spec_name();
        let rest_a = modifier_names(a.drop_first());
        let rest_b = modifier_names(b.drop_first());
        assert(names == name_a + rest_a);
        assert(names == name_b + rest_b);
        if name_a.len() <= name_b.len() {
            assert(name_a == name_b.subrange(0, name_a.len() as int)) by {
                assert forall|i: int| 0 <= i < name_a.len() implies name_a[i] == name_b[i] by {
                    assert(names[i] == name_a[i]);
                    assert(names[i] == name_b[i]);
                }
            }
            lemma_modifier_name_prefix_free(a[0], b[0]);
        } else {
            assert(name_b == name_a.subrange(0, name_b.len() as int)) by {
                assert forall|i: int| 0 <= i < name_b.len() implies name_b[i] == name_a[i] by {
                    assert(names[i] == name_a[i]);
                    assert(names[i] == name_b[i]);
                }
            }
            lemma_modifier_name_prefix_free(b[0], a[0]);
        }
        assert(rest_a == names.skip(name_a.len() as int));
        assert(rest_b == names.skip(name_b.len() as int));
        lemma_modifier_names_injective(a.drop_first(), b.drop_first());
    } else {
        assert(a.len() == 0 && b.len() == 0);
        assert(a == b);
    }
}

/// Two shortcuts with the same identifier are the same shortcut: the
/// identifier tells the modifiers, their order and the key.
pub proof fn lemma_identifier_injective(a: ShortcutView, b: ShortcutView)
    requires
        a.identifier() == b.identifier(),
    ensures
        a == b,
{
    let identifier = a.identifier();
    let names_a = modifier_names(a.modifiers);
    let names_b = modifier_names(b.modifiers);
    lemma_identifier_parts(a);
    lemma_identifier_parts(b);
    lemma_modifier_names_chars(a.modifiers);
    lemma_modifier_names_chars(b.modifiers);
    // The first `_` ends the names of the modifiers on both sides.
    assert(names_a.len() == names_b.len()) by {
        if names_a.len() < names_b.len() {
            assert(identifier[names_a.len() as int] == '_');
            assert(identifier[names_a.len() as int] == names_b[names_a.len() as int]);
        } else if names_b.len() < names_a.len() {
            assert(identifier[names_b.len() as int] == '_');
            assert(identifier[names_b.len() as int] == names_a[names_b.len() as int]);
        }
    }
    assert(names_a == identifier.take(names_a.len() as int));
    assert(names_b == identifier.take(names_b.len() as int));
    assert(a.key.spec_name() == identifier.skip(names_a.len() as int + 1));
    assert(b.key.spec_name() == identifier.skip(names_b.len() as int + 1));
    lemma_modifier_names_injective(a.modifiers, b.modifiers);
    lemma_name_injective(a.key, b.key);
}

} // verus!
