use orgonaut::highlighting::Type;
use orgonaut::Row;
use orgonaut::SearchDirection;
use unicode_segmentation::UnicodeSegmentation;

#[test]
fn from_line_counts_grapheme_clusters() {
    // A combining accent forms one cluster with its base character; a
    // per-character segmentation would count two.
    let row = Row::from_line("e\u{301}");
    assert_eq!(row.len(), 1);
    let row = Row::from_line("e\u{301}x");
    assert_eq!(row.len(), 2);
    assert_eq!(Row::from_line("").len(), 0);
}

#[test]
fn delete_then_insert_restores_row() {
    let mut row = Row::from_line("abc");
    row.delete(1);
    assert_eq!(row.to_line(), "ac");
    row.insert(1, 'b');
    assert_eq!(row.to_line(), "abc");
    assert_eq!(row.len(), 3);
}

#[test]
fn length_tracks_grapheme_count() {
    let mut row = Row::from_line("he\u{301}llo");
    row.insert(2, 'x');
    row.delete(0);
    let other = Row::from_line("ab");
    row.append(&other);
    let tail = row.split(3);
    let independent = row.to_line().graphemes(true).count();
    assert_eq!(row.len(), independent);
    let independent_tail = tail.to_line().graphemes(true).count();
    assert_eq!(tail.len(), independent_tail);
}

#[test]
fn split_append_reconstitutes_row() {
    let original = "a e\u{301} b";
    let n = Row::from_line(original).len();
    for at in 0..=n {
        let mut row = Row::from_line(original);
        let tail = row.split(at);
        row.append(&tail);
        assert_eq!(row.to_line(), original);
        assert_eq!(row.len(), n);
    }
}

#[test]
fn find_empty_query_returns_none() {
    let row = Row::from_line("abc");
    assert_eq!(row.find("", 0, SearchDirection::Forward), None);
    assert_eq!(row.find("", 3, SearchDirection::Backward), None);
}

#[test]
fn find_returns_grapheme_indices() {
    // Clusters: accented-e, x, e. A byte-oriented search would report
    // byte offsets, and a plain "e" must not match inside the cluster.
    let row = Row::from_line("e\u{301}xe");
    assert_eq!(row.find("x", 0, SearchDirection::Forward), Some(1));
    assert_eq!(row.find("e", 0, SearchDirection::Forward), Some(2));
    assert_eq!(row.find("e\u{301}", 0, SearchDirection::Forward), Some(0));
}

#[test]
fn find_forward_and_backward() {
    let row = Row::from_line("no match here");
    assert_eq!(row.find("xyz", 0, SearchDirection::Forward), None);
    assert_eq!(row.find("match", 0, SearchDirection::Forward), Some(3));
    // Backward search returns the last match that ends by the column.
    assert_eq!(row.find("e", 13, SearchDirection::Backward), Some(12));
    assert_eq!(row.find("e", 12, SearchDirection::Backward), Some(10));
    // Beyond the end, nothing is found.
    assert_eq!(row.find("match", 14, SearchDirection::Forward), None);
}

#[test]
fn insert_past_end_appends() {
    let mut row = Row::from_line("ab");
    row.insert(10, 'z');
    assert_eq!(row.to_line(), "abz");
    assert_eq!(row.len(), 3);
}

#[test]
fn delete_past_end_is_noop() {
    let mut row = Row::from_line("ab");
    row.delete(5);
    assert_eq!(row.to_line(), "ab");
    assert_eq!(row.len(), 2);
}

#[test]
fn as_bytes_is_utf8_text() {
    let row = Row::from_line("ab c");
    assert_eq!(row.as_bytes(), b"ab c".to_vec());
    let row = Row::from_line("e\u{301}");
    assert_eq!(row.as_bytes(), "e\u{301}".as_bytes().to_vec());
}

#[test]
fn render_cells_clamps_and_replaces_tabs() {
    let row = Row::from_line("a\tb");
    let cells = row.render_cells(0, 10);
    assert_eq!(cells.len(), 3);
    assert_eq!(cells[0].1, "a");
    assert_eq!(cells[1].1, " ");
    assert_eq!(cells[2].1, "b");
    assert_eq!(cells[0].0, Type::Plain);
    let window = row.render_cells(1, 2);
    assert_eq!(window.len(), 1);
    assert_eq!(window[0].1, " ");
}
