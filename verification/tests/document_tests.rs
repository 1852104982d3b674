use orgonaut::highlighting::Type;
use orgonaut::Document;
use orgonaut::Position;
use orgonaut::SearchDirection;

fn doc_of(rows: Vec<&str>) -> Document {
    let lines: Vec<String> = rows.iter().map(|s| s.to_string()).collect();
    Document::from_lines(&lines, None)
}

#[test]
fn insert_newline_splits_row() {
    let mut doc = doc_of(vec!["abc", "def"]);
    doc.insert(&Position { x: 3, y: 0 }, '\n');
    assert_eq!(doc.len(), 3);
    assert_eq!(doc.row(0).unwrap().to_line(), "abc");
    assert_eq!(doc.row(1).unwrap().to_line(), "");
    assert_eq!(doc.row(2).unwrap().to_line(), "def");
    assert!(doc.is_dirty());
}

#[test]
fn insert_newline_mid_row() {
    let mut doc = doc_of(vec!["abcd"]);
    doc.insert(&Position { x: 2, y: 0 }, '\n');
    assert_eq!(doc.len(), 2);
    assert_eq!(doc.row(0).unwrap().to_line(), "ab");
    assert_eq!(doc.row(1).unwrap().to_line(), "cd");
}

#[test]
fn insert_char_past_last_row_appends() {
    let mut doc = doc_of(vec!["ab"]);
    doc.insert(&Position { x: 0, y: 1 }, 'x');
    assert_eq!(doc.len(), 2);
    assert_eq!(doc.row(1).unwrap().to_line(), "x");
    // A row index beyond the insertion point is ignored.
    doc.insert(&Position { x: 0, y: 9 }, 'q');
    assert_eq!(doc.len(), 2);
}

#[test]
fn delete_at_row_end_merges_rows() {
    let mut doc = doc_of(vec!["ab", "cd"]);
    doc.delete(&Position { x: 2, y: 0 });
    assert_eq!(doc.len(), 1);
    assert_eq!(doc.row(0).unwrap().to_line(), "abcd");
    assert!(doc.is_dirty());
}

#[test]
fn delete_at_document_end_is_noop() {
    let mut doc = doc_of(vec!["ab"]);
    doc.delete(&Position { x: 2, y: 0 });
    assert_eq!(doc.len(), 1);
    assert_eq!(doc.row(0).unwrap().to_line(), "ab");
    assert!(!doc.is_dirty());
}

#[test]
fn find_scans_forward_across_rows() {
    let doc = doc_of(vec!["abc", "xbc"]);
    assert_eq!(
        doc.find("bc", &Position { x: 0, y: 0 }, SearchDirection::Forward),
        Some(Position { x: 1, y: 0 })
    );
    assert_eq!(
        doc.find("bc", &Position { x: 2, y: 0 }, SearchDirection::Forward),
        Some(Position { x: 1, y: 1 })
    );
    assert_eq!(
        doc.find("zz", &Position { x: 0, y: 0 }, SearchDirection::Forward),
        None
    );
}

#[test]
fn find_scans_backward_to_earlier_rows() {
    let doc = doc_of(vec!["abc", "xbc"]);
    assert_eq!(
        doc.find("bc", &Position { x: 1, y: 1 }, SearchDirection::Backward),
        Some(Position { x: 1, y: 0 })
    );
    assert_eq!(
        doc.find("bc", &Position { x: 3, y: 1 }, SearchDirection::Backward),
        Some(Position { x: 1, y: 1 })
    );
    assert_eq!(
        doc.find("abc", &Position { x: 0, y: 0 }, SearchDirection::Backward),
        None
    );
}

#[test]
fn to_lines_round_trips() {
    let doc = doc_of(vec!["a", "", "b c"]);
    let lines = doc.to_lines();
    assert_eq!(lines, vec!["a".to_string(), "".to_string(), "b c".to_string()]);
}

#[test]
fn save_cycle_clears_dirty() {
    let mut doc = doc_of(vec!["a"]);
    doc.set_file_name(Some("notes.org".to_string()));
    assert!(doc.file_type().markup);
    doc.insert(&Position { x: 1, y: 0 }, 'b');
    assert!(doc.is_dirty());
    let _lines = doc.to_lines();
    doc.mark_saved();
    assert!(!doc.is_dirty());
}

#[test]
fn document_highlight_threads_carry() {
    let lines: Vec<String> = vec!["/*".to_string(), "*/ fn".to_string()];
    let mut doc = Document::from_lines(&lines, Some("x.rs".to_string()));
    doc.highlight(&None, None);
    let first = doc.row(0).unwrap().highlighting();
    assert_eq!(first, vec![Type::MultilineComment, Type::MultilineComment]);
    let second = doc.row(1).unwrap().highlighting();
    assert_eq!(second[0], Type::MultilineComment);
    assert_eq!(second[1], Type::MultilineComment);
    assert_eq!(second[2], Type::Plain);
    assert_eq!(second[3], Type::PrimaryKeyword);
    assert_eq!(second[4], Type::PrimaryKeyword);
}

#[test]
fn document_highlight_respects_window_bound() {
    let lines: Vec<String> = vec!["fn".to_string(), "fn".to_string()];
    let mut doc = Document::from_lines(&lines, Some("x.rs".to_string()));
    doc.highlight(&None, Some(1));
    assert!(doc.row(0).unwrap().is_highlighted());
    assert!(!doc.row(1).unwrap().is_highlighted());
}
