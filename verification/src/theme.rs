//! Colors and dimensions handed to the render collaborator.

use vstd::prelude::*;

verus! {

/// An RGB color.
#[derive(Clone, Copy, PartialEq, Eq, Structural, Debug)]
pub struct Color {
    pub r: u8,
    pub g: u8,
    pub b: u8,
}

impl Color {
    pub fn new(r: u8, g: u8, b: u8) -> (c: Self)
        ensures
            c.r == r,
            c.g == g,
            c.b == b,
    {
        Color { r, g, b }
    }
}

/// The color scheme of the editor's chrome.
#[derive(Clone, Copy, PartialEq, Eq, Structural, Debug)]
pub struct Theme {
    pub status_fg: Color,
    pub status_bg: Color,
    pub default_fg: Color,
    pub default_bg: Color,
    pub error_fg: Color,
    pub comment_fg: Color,
    pub keyword_fg: Color,
    pub headline_fg: Color,
    pub highlight_match_bg: Color,
}

impl Default for Theme {
    fn default() -> (t: Self)
        ensures
            t.status_fg == (Color { r: 63, g: 63, b: 63 }),
            t.status_bg == (Color { r: 239, g: 239, b: 239 }),
            t.default_fg == (Color { r: 255, g: 255, b: 255 }),
            t.default_bg == (Color { r: 0, g: 0, b: 0 }),
            t.error_fg == (Color { r: 255, g: 0, b: 0 }),
            t.comment_fg == (Color { r: 110, g: 110, b: 110 }),
            t.keyword_fg == (Color { r: 0, g: 135, b: 255 }),
            t.headline_fg == (Color { r: 0, g: 175, b: 0 }),
            t.highlight_match_bg == (Color { r: 45, g: 45, b: 45 }),
    {
        Theme {
            status_fg: Color { r: 63, g: 63, b: 63 },
            status_bg: Color { r: 239, g: 239, b: 239 },
            default_fg: Color { r: 255, g: 255, b: 255 },
            default_bg: Color { r: 0, g: 0, b: 0 },
            error_fg: Color { r: 255, g: 0, b: 0 },
            comment_fg: Color { r: 110, g: 110, b: 110 },
            keyword_fg: Color { r: 0, g: 135, b: 255 },
            headline_fg: Color { r: 0, g: 175, b: 0 },
            highlight_match_bg: Color { r: 45, g: 45, b: 45 },
        }
    }
}

/// The drawable size of a terminal window, in character cells.
#[derive(Clone, Copy, PartialEq, Eq, Structural, Debug)]
pub struct Size {
    pub width: u16,
    pub height: u16,
}

} // verus!
