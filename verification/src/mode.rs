//! The editor's modal states.

use vstd::prelude::*;

verus! {

/// Exactly one mode is active at a time. `Normal` is the initial state.
#[derive(Clone, Copy, PartialEq, Eq, Structural, Debug)]
pub enum Mode {
    /// Standard navigation mode.
    Normal,
    /// Text insertion mode.
    Insert,
    /// Character-based visual selection.
    Visual,
    /// Line-based visual selection.
    VisualLine,
    /// Command-line mode.
    Command,
}

} // verus!
