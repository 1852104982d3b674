//! Abstract key events. The core is agnostic to how these are obtained
//! from the terminal or GUI; the input collaborator converts its raw
//! events into this type.

use vstd::prelude::*;

verus! {

/// One keystroke.
#[derive(Clone, Copy, PartialEq, Eq, Structural, Debug)]
pub enum Key {
    /// A printable character.
    Char(char),
    /// A character pressed together with Control.
    Ctrl(char),
    Up,
    Down,
    Left,
    Right,
    PageUp,
    PageDown,
    Home,
    End,
    Backspace,
    Delete,
    Esc,
}

} // verus!
