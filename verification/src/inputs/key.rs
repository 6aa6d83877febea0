//! Keys as the input loop sees them.

use vstd::prelude::*;

verus! {

/// One key press.
#[derive(Debug, Clone, Copy, PartialEq, Eq, Hash, Structural)]
pub enum Key {
    Enter,
    Tab,
    Backspace,
    Esc,
    Left,
    Right,
    Up,
    Down,
    Insert,
    Delete,
    Home,
    End,
    PageUp,
    PageDown,
    /// A character key without a modifier.
    Char(char),
    /// A character key held with Control.
    Ctrl(char),
    /// A character key held with Alt.
    Alt(char),
    Unknown,
}

impl Key {
    /// The character a plain character key types; no other key types one.
    pub open spec fn spec_key_char(self) -> Option<char> {
        match self {
            Key::Char(c) => Some(c),
            _ => None,
        }
    }

    /// The character this key types, if it is a plain character key.
    pub fn key_char(&self) -> (typed: Option<char>)
        ensures
            typed == self.spec_key_char(),
    {
        match self {
            Key::Char(c) => Some(*c),
            _ => None,
        }
    }
}

} // verus!
