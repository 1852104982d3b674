use orgonaut::highlighting::Type;
use orgonaut::FileType;
use orgonaut::HighlightingOptions;
use orgonaut::OrgHighlighter;
use orgonaut::Row;

fn code_options(primary: Vec<&str>) -> HighlightingOptions {
    HighlightingOptions {
        numbers: true,
        strings: true,
        characters: true,
        comments: true,
        multiline_comments: true,
        primary_keywords: primary.iter().map(|s| s.to_string()).collect(),
        secondary_keywords: Vec::new(),
    }
}

fn code_filetype() -> FileType {
    FileType {
        name: "Rust".to_string(),
        options: HighlightingOptions::plain(),
        markup: false,
    }
}

fn markup_filetype() -> FileType {
    FileType {
        name: "Org".to_string(),
        options: HighlightingOptions::plain(),
        markup: true,
    }
}

#[test]
fn code_keywords_highlight_whole_words() {
    let mut row = Row::from_line("fn main() {");
    let opts = code_options(vec!["fn"]);
    let carry = row.highlight(&opts, &None, false, &code_filetype());
    assert!(!carry);
    let hl = row.highlighting();
    let expected = vec![
        Type::PrimaryKeyword,
        Type::PrimaryKeyword,
        Type::Plain,
        Type::Plain,
        Type::Plain,
        Type::Plain,
        Type::Plain,
        Type::Plain,
        Type::Plain,
        Type::Plain,
        Type::Plain,
    ];
    assert_eq!(hl, expected);
}

#[test]
fn markup_headline_with_todo_keyword() {
    let hl = OrgHighlighter::new().highlight_line("* TODO write spec");
    assert_eq!(hl.len(), 17);
    assert_eq!(hl[0], Type::Headline);
    assert_eq!(hl[1], Type::Headline);
    for i in 2..6 {
        assert_eq!(hl[i], Type::TodoKeyword);
    }
    for i in 6..17 {
        assert_eq!(hl[i], Type::Headline);
    }
}

#[test]
fn markup_headline_with_done_keyword() {
    let hl = OrgHighlighter::new().highlight_line("** DONE it");
    assert_eq!(hl[0], Type::Headline);
    for i in 3..7 {
        assert_eq!(hl[i], Type::DoneKeyword);
    }
    assert_eq!(hl[7], Type::Headline);
}

#[test]
fn highlight_is_idempotent() {
    // Code ruleset, with a search word active.
    let mut row = Row::from_line("fn fn x");
    let opts = code_options(vec!["fn"]);
    let word = Some("fn".to_string());
    let carry1 = row.highlight(&opts, &word, false, &code_filetype());
    let hl1 = row.highlighting();
    assert!(row.is_highlighted());
    let carry2 = row.highlight(&opts, &word, false, &code_filetype());
    let hl2 = row.highlighting();
    assert_eq!(hl1, hl2);
    assert_eq!(carry1, carry2);

    // Markup ruleset.
    let mut row = Row::from_line("* TODO x");
    let carry1 = row.highlight(&opts, &None, false, &markup_filetype());
    let hl1 = row.highlighting();
    let carry2 = row.highlight(&opts, &None, false, &markup_filetype());
    assert_eq!(hl1, row.highlighting());
    assert_eq!(carry1, carry2);

    // Code ruleset without a search word: the second call hits the cache.
    let mut row = Row::from_line("plain text");
    let carry1 = row.highlight(&opts, &None, false, &code_filetype());
    let hl1 = row.highlighting();
    let carry2 = row.highlight(&opts, &None, false, &code_filetype());
    assert_eq!(hl1, row.highlighting());
    assert_eq!(carry1, carry2);
}

#[test]
fn search_overlay_stamps_matches() {
    let mut row = Row::from_line("abcab");
    let opts = HighlightingOptions::plain();
    let word = Some("ab".to_string());
    row.highlight(&opts, &word, false, &code_filetype());
    let hl = row.highlighting();
    let expected = vec![Type::Match, Type::Match, Type::Plain, Type::Match, Type::Match];
    assert_eq!(hl, expected);
}

#[test]
fn multiline_comment_carries_to_next_row() {
    let opts = code_options(vec![]);
    let mut first = Row::from_line("a /*");
    let carry = first.highlight(&opts, &None, false, &code_filetype());
    assert!(carry);
    let hl = first.highlighting();
    assert_eq!(
        hl,
        vec![Type::Plain, Type::Plain, Type::MultilineComment, Type::MultilineComment]
    );

    let mut second = Row::from_line("x */ y");
    let carry = second.highlight(&opts, &None, true, &code_filetype());
    assert!(!carry);
    let hl = second.highlighting();
    assert_eq!(
        hl,
        vec![
            Type::MultilineComment,
            Type::MultilineComment,
            Type::MultilineComment,
            Type::MultilineComment,
            Type::Plain,
            Type::Plain,
        ]
    );
}

#[test]
fn strings_numbers_and_comments_classify() {
    let opts = code_options(vec![]);
    let mut row = Row::from_line("x \"hi\" 42");
    row.highlight(&opts, &None, false, &code_filetype());
    let hl = row.highlighting();
    assert_eq!(hl[0], Type::Plain);
    for i in 2..6 {
        assert_eq!(hl[i], Type::String);
    }
    assert_eq!(hl[7], Type::Number);
    assert_eq!(hl[8], Type::Number);

    let mut row = Row::from_line("a // b");
    row.highlight(&opts, &None, false, &code_filetype());
    let hl = row.highlighting();
    assert_eq!(hl[0], Type::Plain);
    for i in 2..6 {
        assert_eq!(hl[i], Type::Comment);
    }

    let mut row = Row::from_line("'c' x");
    row.highlight(&opts, &None, false, &code_filetype());
    let hl = row.highlighting();
    assert_eq!(hl[0], Type::Character);
    assert_eq!(hl[1], Type::Character);
    assert_eq!(hl[2], Type::Character);
    assert_eq!(hl[3], Type::Plain);
}

#[test]
fn markup_list_items_and_tags() {
    let hl = OrgHighlighter::new().highlight_line("- item");
    assert_eq!(hl[0], Type::ListMarker);
    assert_eq!(hl[1], Type::ListMarker);
    for i in 2..6 {
        assert_eq!(hl[i], Type::Plain);
    }

    let hl = OrgHighlighter::new().highlight_line("term :: def");
    assert_eq!(hl[5], Type::Tag);
    assert_eq!(hl[6], Type::Tag);
    assert_eq!(hl[0], Type::Plain);
    assert_eq!(hl[8], Type::Plain);
}

#[test]
fn markup_inline_markers_and_links() {
    let hl = OrgHighlighter::new().highlight_line("x *b* y");
    assert_eq!(hl[0], Type::Plain);
    assert_eq!(hl[2], Type::Bold);
    assert_eq!(hl[3], Type::Bold);
    assert_eq!(hl[4], Type::Bold);
    assert_eq!(hl[5], Type::Plain);

    let hl = OrgHighlighter::new().highlight_line("a [[link]]");
    assert_eq!(hl[0], Type::Plain);
    for i in 2..10 {
        assert_eq!(hl[i], Type::Link);
    }

    // An opener immediately followed by whitespace marks nothing.
    let hl = OrgHighlighter::new().highlight_line("a * b *");
    for i in 0..7 {
        assert_eq!(hl[i], Type::Plain);
    }

    // Italic, underline, strikethrough, code and verbatim delimiters.
    let hl = OrgHighlighter::new().highlight_line("x /i/ _u_");
    assert_eq!(hl[2], Type::Italic);
    assert_eq!(hl[4], Type::Italic);
    assert_eq!(hl[6], Type::Underline);
    assert_eq!(hl[8], Type::Underline);
}

#[test]
fn filetype_detection_by_extension() {
    let ft = FileType::from_name("main.rs");
    assert!(!ft.markup);
    assert!(ft.options.multiline_comments);
    assert_eq!(ft.name(), "Rust");

    let ft = FileType::from_name("notes.org");
    assert!(ft.markup);
    assert_eq!(ft.name(), "Org");

    let ft = FileType::from_name("README");
    assert!(!ft.markup);
    assert!(!ft.options.numbers);
}
