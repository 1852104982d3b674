//! A cursor position in the document: grapheme column `x`, row index `y`.

use vstd::prelude::*;

verus! {

/// A position in the document. `x` is a grapheme column, `y` a row index.
/// It owns nothing; it is always validated against the current document
/// shape before use.
#[derive(Clone, Copy, PartialEq, Eq, Structural, Debug)]
pub struct Position {
    pub x: usize,
    pub y: usize,
}

impl Default for Position {
    fn default() -> (r: Self)
        ensures
            r.x == 0,
            r.y == 0,
    {
        Position { x: 0, y: 0 }
    }
}

} // verus!
