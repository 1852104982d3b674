//! File types and the classification rulesets they select.
//!
//! The set of rulesets is fixed and known at compile time: a generic code
//! ruleset driven by `HighlightingOptions`, a markup ruleset, and plain
//! text (everything switched off).

use vstd::prelude::*;
use vstd::string::StrSliceExecFns;
use vstd::string::StringExecFns;

verus! {

/// Which features the code ruleset recognizes, and its keyword classes.
pub struct HighlightingOptions {
    pub numbers: bool,
    pub strings: bool,
    pub characters: bool,
    pub comments: bool,
    pub multiline_comments: bool,
    pub primary_keywords: Vec<String>,
    pub secondary_keywords: Vec<String>,
}

impl HighlightingOptions {
    /// Everything off: plain text.
    pub fn plain() -> (o: Self)
        ensures
            !o.numbers,
            !o.strings,
            !o.characters,
            !o.comments,
            !o.multiline_comments,
            o.primary_keywords@.len() == 0,
            o.secondary_keywords@.len() == 0,
    {
        HighlightingOptions {
            numbers: false,
            strings: false,
            characters: false,
            comments: false,
            multiline_comments: false,
            primary_keywords: Vec::new(),
            secondary_keywords: Vec::new(),
        }
    }
}

/// A file type: a display name plus the ruleset it selects. When `markup`
/// is set the dedicated markup classifier is used and `options` is
/// ignored; otherwise the code ruleset runs with `options`.
pub struct FileType {
    pub name: String,
    pub options: HighlightingOptions,
    pub markup: bool,
}

/// Whether `s` ends with `suffix`, by characters.
pub open spec fn spec_ends_with(s: Seq<char>, suffix: Seq<char>) -> bool {
    s.len() >= suffix.len() && s.skip(s.len() - suffix.len()) == suffix
}

/// Character-wise suffix test.
fn str_ends_with(s: &str, suffix: &str) -> (r: bool)
    ensures
        r == spec_ends_with(s@, suffix@),
{
    let n = s.unicode_len();
    let m = suffix.unicode_len();
    if n < m {
        return false;
    }
    let start = n - m;
    let mut j: usize = 0;
    while j < m
        invariant
            j <= m,
            m == suffix@.len(),
            n == s@.len(),
            m <= n,
            start == n - m,
            forall|k: int| 0 <= k < j ==> s@[start + k] == suffix@[k],
        decreases m - j,
    {
        if s.get_char(start + j) != suffix.get_char(j) {
            proof {
                assert(s@.skip(s@.len() - suffix@.len())[j as int] != suffix@[j as int]);
            }
            return false;
        }
        j = j + 1;
    }
    proof {
        assert(s@.skip(s@.len() - suffix@.len()) =~= suffix@);
    }
    true
}

impl FileType {
    /// The display name of the file type.
    pub fn name(&self) -> (n: &String)
        ensures
            n@ == self.name@,
    {
        &self.name
    }

    /// Derives the file type from a file name: Rust sources get the code
    /// ruleset with the Rust keyword classes, markup files the markup
    /// ruleset, anything else plain text.
    pub fn from_name(file_name: &str) -> (ft: Self)
        ensures
            ft.markup == spec_ends_with(file_name@, ".org"@),
            spec_ends_with(file_name@, ".rs"@) && !spec_ends_with(file_name@, ".org"@)
                ==> ft.options.numbers && ft.options.strings && ft.options.characters
                && ft.options.comments && ft.options.multiline_comments,
            !spec_ends_with(file_name@, ".rs"@) ==> !ft.options.numbers && !ft.options.strings
                && !ft.options.characters && !ft.options.comments
                && !ft.options.multiline_comments && ft.options.primary_keywords@.len() == 0
                && ft.options.secondary_keywords@.len() == 0,
    {
        if str_ends_with(file_name, ".org") {
            FileType {
                name: String::from_str("Org"),
                options: HighlightingOptions::plain(),
                markup: true,
            }
        } else if str_ends_with(file_name, ".rs") {
            FileType { name: String::from_str("Rust"), options: rust_options(), markup: false }
        } else {
            FileType {
                name: String::from_str("No filetype"),
                options: HighlightingOptions::plain(),
                markup: false,
            }
        }
    }

    /// The plain-text file type used when no name is known.
    pub fn default_type() -> (ft: Self)
        ensures
            !ft.markup,
            !ft.options.numbers,
            !ft.options.strings,
            !ft.options.characters,
            !ft.options.comments,
            !ft.options.multiline_comments,
            ft.options.primary_keywords@.len() == 0,
            ft.options.secondary_keywords@.len() == 0,
    {
        FileType {
            name: String::from_str("No filetype"),
            options: HighlightingOptions::plain(),
            markup: false,
        }
    }
}

/// Pushes one keyword onto a keyword list.
fn push_kw(kws: &mut Vec<String>, w: &str)
    ensures
        final(kws).deep_view() == old(kws).deep_view().push(w@),
{
    kws.push(String::from_str(w));
    proof {
        assert(kws.deep_view() =~= old(kws).deep_view().push(w@));
    }
}

/// The code ruleset for Rust sources: all features on, the language's
/// keywords as the primary class and its primitive type names as the
/// secondary class.
fn rust_options() -> (o: HighlightingOptions)
    ensures
        o.numbers && o.strings && o.characters && o.comments && o.multiline_comments,
        o.primary_keywords.deep_view().contains("fn"@),
        o.primary_keywords.deep_view().contains("let"@),
        o.secondary_keywords.deep_view().contains("bool"@),
{
    let mut primary: Vec<String> = Vec::new();
    push_kw(&mut primary, "as");
    push_kw(&mut primary, "break");
    push_kw(&mut primary, "const");
    push_kw(&mut primary, "continue");
    push_kw(&mut primary, "crate");
    push_kw(&mut primary, "dyn");
    push_kw(&mut primary, "else");
    push_kw(&mut primary, "enum");
    push_kw(&mut primary, "false");
    push_kw(&mut primary, "fn");
    push_kw(&mut primary, "for");
    push_kw(&mut primary, "if");
    push_kw(&mut primary, "impl");
    push_kw(&mut primary, "in");
    push_kw(&mut primary, "let");
    push_kw(&mut primary, "loop");
    push_kw(&mut primary, "match");
    push_kw(&mut primary, "mod");
    push_kw(&mut primary, "move");
    push_kw(&mut primary, "mut");
    push_kw(&mut primary, "pub");
    push_kw(&mut primary, "ref");
    push_kw(&mut primary, "return");
    push_kw(&mut primary, "static");
    push_kw(&mut primary, "struct");
    push_kw(&mut primary, "super");
    push_kw(&mut primary, "trait");
    push_kw(&mut primary, "true");
    push_kw(&mut primary, "type");
    push_kw(&mut primary, "use");
    push_kw(&mut primary, "where");
    push_kw(&mut primary, "while");
    let mut secondary: Vec<String> = Vec::new();
    push_kw(&mut secondary, "bool");
    push_kw(&mut secondary, "char");
    push_kw(&mut secondary, "i8");
    push_kw(&mut secondary, "i16");
    push_kw(&mut secondary, "i32");
    push_kw(&mut secondary, "i64");
    push_kw(&mut secondary, "isize");
    push_kw(&mut secondary, "u8");
    push_kw(&mut secondary, "u16");
    push_kw(&mut secondary, "u32");
    push_kw(&mut secondary, "u64");
    push_kw(&mut secondary, "usize");
    push_kw(&mut secondary, "str");
    let o = HighlightingOptions {
        numbers: true,
        strings: true,
        characters: true,
        comments: true,
        multiline_comments: true,
        primary_keywords: primary,
        secondary_keywords: secondary,
    };
    proof {
        assert(o.primary_keywords.deep_view()[9] == "fn"@);
        assert(o.primary_keywords.deep_view()[14] == "let"@);
        assert(o.secondary_keywords.deep_view()[0] == "bool"@);
    }
    o
}

} // verus!
