//! Direction of a text search.

use vstd::prelude::*;

verus! {

/// Which way a search scans from its starting column.
#[derive(Clone, Copy, PartialEq, Eq, Structural, Debug)]
pub enum SearchDirection {
    Forward,
    Backward,
}

} // verus!
