use vstd::prelude::*;

verus! {

/// A key press, as far as the wizard tells keys apart.
#[derive(Clone, Copy, Debug, PartialEq, Eq, Structural)]
pub enum Key {
    Up,
    Down,
    Left,
    Right,
    Enter,
    Esc,
    Backspace,
    Char(char),
    /// Any key that no step binds.
    Other,
}

/// What the input loop does after a key has been handled.
#[derive(Clone, Copy, Debug, PartialEq, Eq, Structural)]
pub enum Flow {
    Continue,
    Quit,
}

/// The key that ends the wizard at every step.
pub const QUIT_CHAR: char = 'q';

pub open spec fn is_quit_key(k: Key) -> bool {
    k == Key::Char(QUIT_CHAR)
}

impl Key {
    /// Whether this key ends the wizard.
    pub fn is_quit(&self) -> (r: bool)
        ensures
            r == is_quit_key(*self),
    {
        match self {
            Key::Char(c) => *c == QUIT_CHAR,
            _ => false,
        }
    }
}

} // verus!
