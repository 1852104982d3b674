//! Semantic categories assigned to graphemes for rendering.

use vstd::prelude::*;

verus! {

/// The category of one grapheme. The render layer maps each category to a
/// fixed color and nothing else.
#[derive(Clone, Copy, PartialEq, Eq, Structural, Debug)]
pub enum Type {
    Plain,
    Number,
    Match,
    String,
    Character,
    Comment,
    MultilineComment,
    PrimaryKeyword,
    SecondaryKeyword,
    Headline,
    TodoKeyword,
    DoneKeyword,
    Tag,
    ListMarker,
    Bold,
    Italic,
    Underline,
    Link,
    CodeBlock,
}

} // verus!
