//! Key codes as the runtime sees them.

use vstd::prelude::*;

verus! {

/// One key press, already decoded by the terminal backend.
#[derive(Clone, Copy, Debug, PartialEq, Eq, Structural)]
pub enum Key {
    /// A printable character.
    Char(char),
    Up,
    Down,
    Left,
    Right,
    Enter,
    Esc,
    Backspace,
    Delete,
    /// Any key the runtime has no use for.
    Other,
}

} // verus!
