//! What goes into a device listener and what comes out of it.

use crate::shortcut::{Shortcut, ShortcutView};
use vstd::prelude::*;

verus! {

/// One event of an input device, as far as the listener reads it: the code of
/// a key, and 1 when the key went down, 0 when it came up.
#[derive(Clone, Copy, Debug, Hash, PartialEq, Eq, Structural)]
pub struct InputEvent {
    pub code: u16,
    pub value: i32,
}

/// The two states between which a shortcut goes back and forth.
#[derive(Clone, Copy, Debug, Hash, PartialEq, Eq, Structural)]
pub enum ShortcutState {
    Pressed,
    Released,
}

impl ShortcutState {
    /// The state that a notification reports with `pressed`.
    pub fn from_pressed(pressed: bool) -> (state: Self)
        ensures
            state == if pressed {
                ShortcutState::Pressed
            } else {
                ShortcutState::Released
            },
    {
        if pressed {
            ShortcutState::Pressed
        } else {
            ShortcutState::Released
        }
    }

    /// What a notification reports for the state.
    pub fn is_pressed(&self) -> (pressed: bool)
        ensures
            pressed == (*self == ShortcutState::Pressed),
    {
        match self {
            ShortcutState::Pressed => true,
            ShortcutState::Released => false,
        }
    }

    /// The state in a word.
    pub fn as_str(&self) -> (name: &'static str)
        ensures
            name@ == match *self {
                ShortcutState::Pressed => "pressed"@,
                ShortcutState::Released => "released"@,
            },
    {
        match self {
            ShortcutState::Pressed => "pressed",
            ShortcutState::Released => "released",
        }
    }
}

/// A shortcut went from one state to the other.
#[derive(Debug)]
pub struct ShortcutEvent {
    pub shortcut: Shortcut,
    pub state: ShortcutState,
}

/// What an event is: which shortcut changed, and to which state.
pub struct ShortcutEventView {
    pub shortcut: ShortcutView,
    pub state: ShortcutState,
}

impl View for ShortcutEvent {
    type V = ShortcutEventView;

    open spec fn view(&self) -> ShortcutEventView {
        ShortcutEventView { shortcut: self.shortcut@, state: self.state }
    }
}

impl Clone for ShortcutEvent {
    fn clone(&self) -> (copy: Self)
        ensures
            copy@ == self@,
    {
        ShortcutEvent { shortcut: self.shortcut.clone(), state: self.state }
    }
}

} // verus!
