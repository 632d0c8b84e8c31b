//! Key presses as the editor sees them.

use vstd::prelude::*;

verus! {

/// The key of a key press.
#[derive(Clone, Copy, Debug, PartialEq, Eq, Structural)]
pub enum Key {
    /// A character key.
    Char(char),
    Left,
    Right,
    Up,
    Down,
    PageUp,
    PageDown,
    Backspace,
    Delete,
    Enter,
    Esc,
    /// Any key the editor has no binding for.
    Other,
}

/// One key press: the key and whether Control was held.
#[derive(Clone, Copy, Debug, PartialEq, Eq, Structural)]
pub struct KeyPress {
    pub key: Key,
    pub ctrl: bool,
}

impl KeyPress {
    /// A key pressed without Control.
    pub fn plain(key: Key) -> (press: KeyPress)
        ensures
            press == (KeyPress { key, ctrl: false }),
    {
        KeyPress { key, ctrl: false }
    }
}

} // verus!
