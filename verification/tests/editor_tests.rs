use orgonaut::Document;
use orgonaut::Editor;
use orgonaut::EditorAction;
use orgonaut::Key;
use orgonaut::Mode;
use orgonaut::Position;
use orgonaut::StatusMessage;

fn editor_with_rows(rows: Vec<&str>) -> Editor {
    let lines: Vec<String> = rows.iter().map(|s| s.to_string()).collect();
    let doc = Document::from_lines(&lines, None);
    Editor::new(doc, 80, 24)
}

#[test]
fn test_position_default() {
    let position = Position::default();
    assert_eq!(position.x, 0);
    assert_eq!(position.y, 0);
}

#[test]
fn test_status_message() {
    let message = "Test message";
    let status = StatusMessage::from(message.to_string());
    assert_eq!(status.text, message);
}

#[test]
fn test_move_cursor_up() {
    let mut editor = editor_with_rows(vec![
        "line1", "line2", "line3", "line4", "line5", "line6",
    ]);
    editor.set_cursor_position(Position { x: 5, y: 5 });

    editor.move_cursor(Key::Up);
    assert_eq!(editor.get_cursor_position().y, 4);
    assert_eq!(editor.get_cursor_position().x, 5);
}

#[test]
fn test_move_cursor_down() {
    let mut editor = editor_with_rows(vec!["line1", "line2", "line3"]);
    editor.set_cursor_position(Position { x: 0, y: 0 });

    editor.move_cursor(Key::Down);
    assert_eq!(editor.get_cursor_position().y, 1);
    assert_eq!(editor.get_cursor_position().x, 0);
}

#[test]
fn test_move_cursor_left() {
    let mut editor = editor_with_rows(vec![
        "line1",
        "line2",
        "line3",
        "line4",
        "line5",
        "line with enough length",
    ]);
    editor.set_cursor_position(Position { x: 5, y: 5 });

    editor.move_cursor(Key::Left);
    assert_eq!(editor.get_cursor_position().y, 5);
    assert_eq!(editor.get_cursor_position().x, 4);
}

#[test]
fn test_move_cursor_right() {
    let mut editor = editor_with_rows(vec!["line1"]);
    editor.set_cursor_position(Position { x: 0, y: 0 });

    editor.move_cursor(Key::Right);
    assert_eq!(editor.get_cursor_position().y, 0);
    assert_eq!(editor.get_cursor_position().x, 1);
}

#[test]
fn test_move_cursor_to_beginning_of_line() {
    let mut editor = editor_with_rows(vec![
        "line1", "line2", "line3", "line4", "line5", "line6",
    ]);
    editor.set_cursor_position(Position { x: 5, y: 5 });

    editor.move_cursor(Key::Home);
    assert_eq!(editor.get_cursor_position().y, 5);
    assert_eq!(editor.get_cursor_position().x, 0);
}

#[test]
fn test_move_cursor_to_end_of_line() {
    let mut editor = editor_with_rows(vec!["line1"]);
    editor.set_cursor_position(Position { x: 0, y: 0 });

    editor.move_cursor(Key::End);
    assert_eq!(editor.get_cursor_position().y, 0);
    assert_eq!(editor.get_cursor_position().x, 5); // "line1" length
}

#[test]
fn test_process_key_quit() {
    let mut editor = editor_with_rows(vec![]);

    editor.process_key(Key::Ctrl('q'));
    assert!(editor.should_quit());
}

#[test]
fn test_process_key_quit_with_dirty_document() {
    let mut editor = editor_with_rows(vec!["ab"]);
    // Mutate the buffer so it counts as dirty.
    editor.get_document_mut().delete(&Position { x: 0, y: 0 });
    assert!(editor.get_document().is_dirty());

    // First attempt doesn't quit, decrements counter
    editor.process_key(Key::Ctrl('q'));
    assert!(!editor.should_quit());
    assert_eq!(editor.get_quit_times(), 3 - 1);

    // After enough attempts, it should quit
    for _ in 0..3 {
        editor.process_key(Key::Ctrl('q'));
    }
    assert!(editor.should_quit());
}

#[test]
fn test_process_key_save() {
    let mut editor = editor_with_rows(vec!["line1"]);
    editor
        .get_document_mut()
        .set_file_name(Some("test.txt".to_string()));
    editor
        .get_document_mut()
        .insert(&Position { x: 5, y: 0 }, '!');
    assert!(editor.get_document().is_dirty());

    let action = editor.process_key(Key::Ctrl('s'));
    assert_eq!(action, EditorAction::Save);
    // The I/O layer writes the lines out and reports success.
    editor.get_document_mut().mark_saved();
    assert!(!editor.get_document().is_dirty());
}

#[test]
fn test_process_key_character_insertion() {
    let mut editor = editor_with_rows(vec!["line1"]);

    // First enter insert mode
    editor.enter_insert_mode();

    editor.process_key(Key::Char('a'));
    assert!(editor.get_document().is_dirty());
    assert_eq!(editor.get_cursor_position().x, 1); // Cursor moved right
}

#[test]
fn test_process_key_delete() {
    let mut editor = editor_with_rows(vec!["line1"]);

    // Characters can be deleted in Normal mode with 'x'
    editor.process_key(Key::Char('x'));
    assert!(editor.get_document().is_dirty());
}

#[test]
fn test_process_key_backspace() {
    let mut editor = editor_with_rows(vec!["line with enough characters"]);
    editor.set_cursor_position(Position { x: 5, y: 0 });

    // Backspace deletes before the cursor in insert mode
    editor.enter_insert_mode();

    editor.process_key(Key::Backspace);
    assert!(editor.get_document().is_dirty());
    assert_eq!(editor.get_cursor_position().x, 4); // Cursor moved left
}

#[test]
fn test_move_cursor_page_up() {
    let lines: Vec<String> = (0..50).map(|i| format!("line {}", i)).collect();
    let doc = Document::from_lines(&lines, None);
    let mut editor = Editor::new(doc, 80, 24);
    editor.set_cursor_position(Position { x: 0, y: 30 });

    editor.move_cursor(Key::PageUp);
    // Should move up by terminal height
    assert_eq!(editor.get_cursor_position().y, 30 - 24);
}

#[test]
fn test_move_cursor_page_down() {
    let lines: Vec<String> = (0..50).map(|i| format!("line {}", i)).collect();
    let doc = Document::from_lines(&lines, None);
    let mut editor = Editor::new(doc, 80, 24);
    editor.set_cursor_position(Position { x: 0, y: 10 });

    editor.move_cursor(Key::PageDown);
    // Should move down by terminal height
    assert_eq!(editor.get_cursor_position().y, 10 + 24);
}

#[test]
fn test_cursor_position_at_document_end() {
    let mut editor = editor_with_rows(vec!["line 1", "line 2", "line 3"]);

    // Try to move cursor beyond document end
    editor.set_cursor_position(Position { x: 0, y: 2 });
    editor.move_cursor(Key::Down);

    // Y should be capped at document length
    assert_eq!(editor.get_cursor_position().y, 3);
}

#[test]
fn test_cursor_position_at_line_end() {
    let mut editor = editor_with_rows(vec!["line 1"]);

    // Move cursor to line end
    editor.set_cursor_position(Position { x: 6, y: 0 });

    // Try to move cursor right at end of line
    editor.move_cursor(Key::Right);

    // X should be 0 and Y should be 1 (next line)
    assert_eq!(editor.get_cursor_position().x, 0);
    assert_eq!(editor.get_cursor_position().y, 1);
}

#[test]
fn test_wrapping_cursor_when_moving_left_at_line_start() {
    let mut editor = editor_with_rows(vec!["line 1", "line 2"]);

    // Position cursor at start of second line
    editor.set_cursor_position(Position { x: 0, y: 1 });

    // Try to move cursor left at start of line
    editor.move_cursor(Key::Left);

    // X should be at end of previous line and Y should be decremented
    assert_eq!(editor.get_cursor_position().y, 0);
    assert_eq!(editor.get_cursor_position().x, 6); // Length of "line 1"
}

#[test]
fn test_mode_initialization() {
    let editor = editor_with_rows(vec![]);
    // Editor should start in Normal mode
    assert_eq!(editor.get_mode(), Mode::Normal);
}

#[test]
fn test_enter_insert_mode() {
    let mut editor = editor_with_rows(vec![]);
    editor.enter_insert_mode();
    assert_eq!(editor.get_mode(), Mode::Insert);
}

#[test]
fn test_enter_command_mode() {
    let mut editor = editor_with_rows(vec![]);
    editor.enter_insert_mode(); // First switch to insert mode
    editor.enter_command_mode();
    assert_eq!(editor.get_mode(), Mode::Command);
}

#[test]
fn test_process_key_i_enters_insert_mode() {
    let mut editor = editor_with_rows(vec![]);
    editor.process_key(Key::Char('i'));
    assert_eq!(editor.get_mode(), Mode::Insert);
}

#[test]
fn test_process_key_esc_returns_to_command_mode() {
    let mut editor = editor_with_rows(vec![]);
    editor.enter_insert_mode();
    editor.process_key(Key::Esc);
    assert_eq!(editor.get_mode(), Mode::Normal);
}

#[test]
fn test_insert_only_works_in_insert_mode() {
    // Editor in normal mode with a document
    let mut editor = editor_with_rows(vec!["test"]);
    let initial_dirty_state = editor.get_document().is_dirty();

    // Try to insert a character while in normal mode
    editor.process_key(Key::Char('a'));

    // Should change to insert mode but not insert the 'a' character
    assert_eq!(editor.get_mode(), Mode::Insert);
    assert_eq!(editor.get_document().is_dirty(), initial_dirty_state);

    // Now in insert mode, insert a character
    editor.process_key(Key::Char('b'));

    // The document should now be dirty (modified)
    assert!(editor.get_document().is_dirty());
}

#[test]
fn count_and_operator_clear_after_line_delete() {
    let mut editor = editor_with_rows(vec!["abc", "def", "ghi"]);

    editor.process_key(Key::Char('3'));
    assert!(editor.get_command_state().has_count());

    editor.process_key(Key::Char('d'));
    assert!(editor.get_command_state().is_operator_pending());
    assert_eq!(editor.get_command_state().get_operator(), Some('d'));

    editor.process_key(Key::Char('d'));
    assert!(editor.get_command_state().is_empty());
    assert!(!editor.get_command_state().is_operator_pending());
    assert_eq!(editor.get_command_state().get_operator(), None);
    assert!(!editor.get_command_state().has_count());
}

#[test]
fn count_repeats_motion() {
    let mut editor = editor_with_rows(vec!["a", "b", "c", "d", "e"]);
    editor.process_key(Key::Char('3'));
    editor.process_key(Key::Char('j'));
    assert_eq!(editor.get_cursor_position().y, 3);
    assert!(editor.get_command_state().is_empty());
}

#[test]
fn count_repeats_delete() {
    let mut editor = editor_with_rows(vec!["abcdef"]);
    editor.process_key(Key::Char('2'));
    editor.process_key(Key::Char('x'));
    assert_eq!(editor.get_document().row(0).unwrap().to_line(), "cdef");
    assert!(editor.get_document().is_dirty());
    assert!(editor.get_command_state().is_empty());
}

#[test]
fn invalid_motion_aborts_pending_operator() {
    let mut editor = editor_with_rows(vec!["abc"]);
    editor.process_key(Key::Char('d'));
    assert!(editor.get_command_state().is_operator_pending());
    editor.process_key(Key::Char('Z'));
    assert!(!editor.get_command_state().is_operator_pending());
    assert!(editor.get_command_state().is_empty());
}

#[test]
fn open_line_below_enters_insert() {
    let mut editor = editor_with_rows(vec!["ab"]);
    editor.process_key(Key::Char('o'));
    assert_eq!(editor.get_document().len(), 2);
    assert_eq!(editor.get_document().row(1).unwrap().to_line(), "");
    assert_eq!(editor.get_cursor_position(), Position { x: 0, y: 1 });
    assert_eq!(editor.get_mode(), Mode::Insert);
}

#[test]
fn visual_mode_records_anchor() {
    let mut editor = editor_with_rows(vec!["abc", "def"]);
    editor.set_cursor_position(Position { x: 1, y: 1 });
    editor.process_key(Key::Char('v'));
    assert_eq!(editor.get_mode(), Mode::Visual);
    assert_eq!(editor.get_selection(), Some(Position { x: 1, y: 1 }));
    editor.process_key(Key::Esc);
    assert_eq!(editor.get_mode(), Mode::Normal);
    assert_eq!(editor.get_selection(), None);
}

#[test]
fn any_key_resets_quit_confirmation() {
    let mut editor = editor_with_rows(vec!["ab"]);
    editor.get_document_mut().delete(&Position { x: 0, y: 0 });
    editor.process_key(Key::Ctrl('q'));
    assert_eq!(editor.get_quit_times(), 2);
    editor.process_key(Key::Char('h'));
    assert_eq!(editor.get_quit_times(), 3);
}

#[test]
fn double_g_moves_to_file_start() {
    let mut editor = editor_with_rows(vec!["abc", "def"]);
    editor.set_cursor_position(Position { x: 2, y: 1 });
    editor.process_key(Key::Char('g'));
    editor.process_key(Key::Char('g'));
    assert_eq!(editor.get_cursor_position(), Position { x: 0, y: 0 });
    assert!(editor.get_command_state().is_empty());
}

#[test]
fn goto_line_with_count() {
    let mut editor = editor_with_rows(vec!["a", "b", "c", "d"]);
    editor.process_key(Key::Char('3'));
    editor.process_key(Key::Char('G'));
    assert_eq!(editor.get_cursor_position(), Position { x: 0, y: 2 });
}

#[test]
fn open_line_above_enters_insert() {
    let mut editor = editor_with_rows(vec!["ab"]);
    editor.process_key(Key::Char('O'));
    assert_eq!(editor.get_document().len(), 2);
    assert_eq!(editor.get_document().row(0).unwrap().to_line(), "");
    assert_eq!(editor.get_document().row(1).unwrap().to_line(), "ab");
    assert_eq!(editor.get_cursor_position(), Position { x: 0, y: 0 });
    assert_eq!(editor.get_mode(), Mode::Insert);
}

#[test]
fn append_at_line_end_enters_insert() {
    let mut editor = editor_with_rows(vec!["ab"]);
    editor.process_key(Key::Char('A'));
    assert_eq!(editor.get_cursor_position(), Position { x: 2, y: 0 });
    assert_eq!(editor.get_mode(), Mode::Insert);
}

#[test]
fn dollar_moves_to_line_end() {
    let mut editor = editor_with_rows(vec!["abcd"]);
    editor.process_key(Key::Char('$'));
    assert_eq!(editor.get_cursor_position(), Position { x: 4, y: 0 });
    editor.process_key(Key::Char('0'));
    assert_eq!(editor.get_cursor_position(), Position { x: 0, y: 0 });
}

#[test]
fn visual_line_mode_anchors_line_start() {
    let mut editor = editor_with_rows(vec!["abc", "def"]);
    editor.set_cursor_position(Position { x: 2, y: 0 });
    editor.process_key(Key::Char('V'));
    assert_eq!(editor.get_mode(), Mode::VisualLine);
    assert_eq!(editor.get_selection(), Some(Position { x: 0, y: 0 }));
    editor.process_key(Key::Char('j'));
    assert_eq!(editor.get_cursor_position().y, 1);
    editor.process_key(Key::Esc);
    assert_eq!(editor.get_mode(), Mode::Normal);
}

#[test]
fn command_mode_returns_to_normal() {
    let mut editor = editor_with_rows(vec!["abc"]);
    editor.process_key(Key::Char(':'));
    assert_eq!(editor.get_mode(), Mode::Command);
    editor.process_key(Key::Char('w'));
    assert_eq!(editor.get_mode(), Mode::Normal);
    assert_eq!(editor.get_document().row(0).unwrap().to_line(), "abc");
}

#[test]
fn enter_splits_line_in_insert_mode() {
    let mut editor = editor_with_rows(vec!["ab"]);
    editor.set_cursor_position(Position { x: 1, y: 0 });
    editor.enter_insert_mode();
    editor.process_key(Key::Char('\n'));
    assert_eq!(editor.get_document().len(), 2);
    assert_eq!(editor.get_document().row(0).unwrap().to_line(), "a");
    assert_eq!(editor.get_document().row(1).unwrap().to_line(), "b");
    assert_eq!(editor.get_cursor_position(), Position { x: 0, y: 1 });
}

#[test]
fn scroll_follows_cursor() {
    let lines: Vec<String> = (0..50).map(|i| format!("line {}", i)).collect();
    let doc = Document::from_lines(&lines, None);
    let mut editor = Editor::new(doc, 80, 24);
    editor.set_cursor_position(Position { x: 0, y: 30 });
    editor.scroll();
    assert_eq!(editor.get_offset().y, 30 - 24 + 1);
    assert_eq!(editor.get_offset().x, 0);
}
