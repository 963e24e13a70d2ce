//! Key presses, as the widgets see them.

use vstd::prelude::*;

verus! {

/// The key of a key press.
#[derive(Clone, Copy, Debug, PartialEq, Eq, Structural)]
pub enum Key {
    Up,
    Down,
    Left,
    Right,
    Enter,
    Backspace,
    /// A key that types a character.
    Char(char),
    /// Any other key.
    Other,
}

/// One key press.
#[derive(Clone, Copy, Debug, PartialEq, Eq, Structural)]
pub struct KeyPress {
    pub key: Key,
    /// The control key was held down.
    pub control: bool,
}

impl KeyPress {
    /// A key pressed on its own.
    pub fn plain(key: Key) -> (press: KeyPress)
        ensures
            press == (KeyPress { key, control: false }),
    {
        KeyPress { key, control: false }
    }
}

} // verus!
