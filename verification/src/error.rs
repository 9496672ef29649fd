//! The ways in which parsing and registering a shortcut fail.

use vstd::prelude::*;

verus! {

/// Why a text is not the canonical text of a shortcut.
#[derive(Clone, Copy, Debug, Hash, PartialEq, Eq, Structural)]
pub enum ParseError {
    /// The text holds no `-`, so no key follows the modifiers.
    MissingKey,
    /// What stands before the first `-` is not a run of `<Name>` tokens, each
    /// naming a modifier.
    InvalidModifier,
    /// What stands after the first `-` is not the name of a key.
    UnknownKey,
}

impl ParseError {
    /// A sentence that says what is wrong.
    pub fn message(&self) -> (message: &'static str)
        ensures
            message@ == self.spec_message(),
    {
        match self {
            ParseError::MissingKey => "Missing key",
            ParseError::InvalidModifier => "Invalid modifier",
            ParseError::UnknownKey => "Unknown key",
        }
    }

    /// The sentence that [`ParseError::message`] gives.
    pub open spec fn spec_message(self) -> Seq<char> {
        match self {
            ParseError::MissingKey => "Missing key"@,
            ParseError::InvalidModifier => "Invalid modifier"@,
            ParseError::UnknownKey => "Unknown key"@,
        }
    }
}

/// The registry holds as many bare shortcuts as it may, and one more was asked for.
#[derive(Clone, Copy, Debug, Hash, PartialEq, Eq, Structural)]
pub struct QuotaExceeded;

/// Why a registration was refused.
#[derive(Clone, Copy, Debug, Hash, PartialEq, Eq, Structural)]
pub enum RegisterError {
    /// The text is not the canonical text of a shortcut.
    Malformed(ParseError),
    /// The shortcut is bare and new, and the quota of bare shortcuts is used up.
    QuotaExceeded,
}

impl RegisterError {
    /// The sentence that the fault carries to the client.
    pub fn message(&self) -> (message: &'static str)
        ensures
            message@ == self.spec_message(),
    {
        match self {
            RegisterError::Malformed(_) => "Malformed shortcut",
            RegisterError::QuotaExceeded => "Only 3 shortcuts without modifiers are allowed",
        }
    }

    /// The sentence that [`RegisterError::message`] gives.
    pub open spec fn spec_message(self) -> Seq<char> {
        match self {
            RegisterError::Malformed(_) => "Malformed shortcut"@,
            RegisterError::QuotaExceeded => "Only 3 shortcuts without modifiers are allowed"@,
        }
    }
}

} // verus!
