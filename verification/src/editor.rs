//! The editing session: document, cursor, viewport offset, mode and
//! command state, and the interpretation of keystrokes into buffer
//! mutations, cursor motions and actions for the surrounding I/O layer.

use vstd::prelude::*;

use crate::command::count_extended;
use crate::command::digit_val;
use crate::command::push_decimal;
use crate::command::CommandState;
use crate::document::deleted;
use crate::document::deleted_n;
use crate::document::inserted;
use crate::document::Document;
use crate::key::Key;
use crate::mode::Mode;
use crate::position::Position;
use crate::status_message::StatusMessage;
use crate::syntax::is_digit_char;

verus! {

/// How many times an unsaved-changes quit must be confirmed.
pub const QUIT_TIMES: u8 = 3;

/// What the surrounding I/O layer must do after a keystroke: the session
/// itself never touches a file, a prompt or the screen.
#[derive(Clone, Copy, PartialEq, Eq, Structural, Debug)]
pub enum EditorAction {
    /// Nothing beyond redrawing.
    Nothing,
    /// Save the document (prompting for a name if none is set).
    Save,
    /// Open the incremental search prompt.
    Search,
    /// Prompt for a file to open.
    OpenFile,
}

/// The grapheme count of row `y`, or zero past the end.
pub open spec fn row_len_at(doc: Document, y: int) -> int {
    if 0 <= y < doc.spec_rows().len() {
        doc.spec_rows()[y]@.len() as int
    } else {
        0
    }
}

/// Where one navigation keystroke moves the cursor from column `x` of
/// row `y`: the motion itself, then the column clamped to the target
/// row's length.
pub open spec fn moved_xy(doc: Document, x: int, y: int, th: int, key: Key) -> (int, int) {
    let doclen = doc.spec_rows().len() as int;
    let w = row_len_at(doc, y);
    let step: (int, int) = match key {
        Key::Up => (x, if y > 0 {
            y - 1
        } else {
            0
        }),
        Key::Down => (x, if y < doclen {
            y + 1
        } else {
            y
        }),
        Key::Left => if x > 0 {
            (x - 1, y)
        } else if y > 0 {
            (row_len_at(doc, y - 1), y - 1)
        } else {
            (x, y)
        },
        Key::Right => if x < w {
            (x + 1, y)
        } else if y < doclen {
            (0, y + 1)
        } else {
            (x, y)
        },
        Key::PageUp => (x, if y > th {
            y - th
        } else {
            0
        }),
        Key::PageDown => (x, if y + th < doclen {
            y + th
        } else {
            doclen
        }),
        Key::Home => (0, y),
        Key::End => (w, y),
        _ => (x, y),
    };
    let w2 = row_len_at(doc, step.1);
    (if step.0 > w2 {
        w2
    } else {
        step.0
    }, step.1)
}

/// Where one navigation keystroke moves the cursor.
pub open spec fn moved_cursor(doc: Document, p: Position, th: int, key: Key) -> (int, int) {
    moved_xy(doc, p.x as int, p.y as int, th, key)
}

/// Where `n` repetitions of one navigation keystroke move the cursor.
pub open spec fn moved_n(doc: Document, x: int, y: int, th: int, key: Key, n: nat) -> (int, int)
    decreases n,
{
    if n == 0 {
        (x, y)
    } else {
        let m = moved_n(doc, x, y, th, key, (n - 1) as nat);
        moved_xy(doc, m.0, m.1, th, key)
    }
}

/// Where the viewport offset lands so that the cursor stays visible in a
/// window of the given size.
pub open spec fn scrolled(offset: int, cursor: int, extent: int) -> int {
    if cursor < offset {
        cursor
    } else if cursor >= offset + extent {
        if cursor - extent + 1 <= usize::MAX {
            cursor - extent + 1
        } else {
            usize::MAX as int
        }
    } else {
        offset
    }
}

/// The character of a printable keystroke, if it is one.
pub open spec fn key_char(key: Key) -> Option<char> {
    match key {
        Key::Char(c) => Some(c),
        _ => None,
    }
}

/// One editing session.
pub struct Editor {
    document: Document,
    cursor_position: Position,
    offset: Position,
    mode: Mode,
    command_state: CommandState,
    selection_start: Option<Position>,
    should_quit: bool,
    quit_times: u8,
    highlighted_word: Option<String>,
    status_message: StatusMessage,
    terminal_width: usize,
    terminal_height: usize,
}

impl Editor {
    pub closed spec fn doc(&self) -> Document {
        self.document
    }

    pub closed spec fn cursor(&self) -> Position {
        self.cursor_position
    }

    pub closed spec fn offset_spec(&self) -> Position {
        self.offset
    }

    pub closed spec fn mode_spec(&self) -> Mode {
        self.mode
    }

    pub closed spec fn cmd(&self) -> CommandState {
        self.command_state
    }

    pub closed spec fn selection(&self) -> Option<Position> {
        self.selection_start
    }

    pub closed spec fn quitting(&self) -> bool {
        self.should_quit
    }

    pub closed spec fn quit_times_left(&self) -> u8 {
        self.quit_times
    }

    pub closed spec fn search_word(&self) -> Option<String> {
        self.highlighted_word
    }

    pub closed spec fn status(&self) -> Seq<char> {
        self.status_message.text@
    }

    pub closed spec fn width(&self) -> int {
        self.terminal_width as int
    }

    pub closed spec fn height(&self) -> int {
        self.terminal_height as int
    }

    /// The session's structural invariant: the document's rows are well
    /// formed, and the quit confirmation counter never exceeds its
    /// starting value.
    pub open spec fn wf(&self) -> bool {
        self.doc().wf() && self.quit_times_left() <= QUIT_TIMES
    }

    /// A fresh session over a document, with the drawable window size in
    /// character cells. It starts in Normal mode, with nothing pending
    /// and the cursor at the origin.
    pub fn new(document: Document, width: usize, height: usize) -> (e: Editor)
        requires
            document.wf(),
        ensures
            e.wf(),
            e.doc() == document,
            e.cursor() == (Position { x: 0, y: 0 }),
            e.offset_spec() == (Position { x: 0, y: 0 }),
            e.mode_spec() == Mode::Normal,
            e.cmd().is_cleared(),
            e.selection() is None,
            !e.quitting(),
            e.quit_times_left() == QUIT_TIMES,
            e.search_word() is None,
            e.width() == width,
            e.height() == height,
    {
        Editor {
            document,
            cursor_position: Position { x: 0, y: 0 },
            offset: Position { x: 0, y: 0 },
            mode: Mode::Normal,
            command_state: CommandState::new(),
            selection_start: None,
            should_quit: false,
            quit_times: QUIT_TIMES,
            highlighted_word: None,
            status_message: StatusMessage::from(String::new()),
            terminal_width: width,
            terminal_height: height,
        }
    }

    pub fn get_document(&self) -> (d: &Document)
        ensures
            *d == self.doc(),
    {
        &self.document
    }

    pub fn get_document_mut(&mut self) -> (d: &mut Document)
        ensures
            *d == old(self).doc(),
            final(self).doc() == *final(d),
            final(self).cursor() == old(self).cursor(),
            final(self).offset_spec() == old(self).offset_spec(),
            final(self).mode_spec() == old(self).mode_spec(),
            final(self).cmd() == old(self).cmd(),
            final(self).selection() == old(self).selection(),
            final(self).quitting() == old(self).quitting(),
            final(self).quit_times_left() == old(self).quit_times_left(),
            final(self).search_word() == old(self).search_word(),
            final(self).width() == old(self).width(),
            final(self).height() == old(self).height(),
    {
        &mut self.document
    }

    pub fn get_cursor_position(&self) -> (p: Position)
        ensures
            p == self.cursor(),
    {
        self.cursor_position
    }

    pub fn get_offset(&self) -> (p: Position)
        ensures
            p == self.offset_spec(),
    {
        self.offset
    }

    pub fn get_mode(&self) -> (m: Mode)
        ensures
            m == self.mode_spec(),
    {
        self.mode
    }

    pub fn should_quit(&self) -> (b: bool)
        ensures
            b == self.quitting(),
    {
        self.should_quit
    }

    pub fn get_quit_times(&self) -> (n: u8)
        ensures
            n == self.quit_times_left(),
    {
        self.quit_times
    }

    pub fn get_selection(&self) -> (s: Option<Position>)
        ensures
            s == self.selection(),
    {
        self.selection_start
    }

    pub fn get_command_state(&self) -> (s: &CommandState)
        ensures
            *s == self.cmd(),
    {
        &self.command_state
    }

    pub fn get_highlighted_word(&self) -> (w: &Option<String>)
        ensures
            *w == self.search_word(),
    {
        &self.highlighted_word
    }

    pub fn status_text(&self) -> (t: &String)
        ensures
            t@ == self.status(),
    {
        &self.status_message.text
    }

    pub fn set_status_message(&mut self, message: StatusMessage)
        ensures
            final(self).status() == message.text@,
            final(self).doc() == old(self).doc(),
            final(self).cursor() == old(self).cursor(),
            final(self).mode_spec() == old(self).mode_spec(),
            final(self).cmd() == old(self).cmd(),
    {
        self.status_message = message;
    }

    /// Records the word to paint as search matches on the next redraw.
    pub fn set_highlighted_word(&mut self, word: Option<String>)
        ensures
            final(self).search_word() == word,
            final(self).doc() == old(self).doc(),
            final(self).cursor() == old(self).cursor(),
            final(self).mode_spec() == old(self).mode_spec(),
            final(self).cmd() == old(self).cmd(),
    {
        self.highlighted_word = word;
    }

    /// Places the cursor, clamping it to the document shape: the row
    /// index to the row count, the column to that row's length.
    pub fn set_cursor_position(&mut self, p: Position)
        requires
            old(self).wf(),
        ensures
            final(self).wf(),
            final(self).doc() == old(self).doc(),
            final(self).cursor().y == (if p.y as int <= old(self).doc().spec_rows().len() {
                p.y as int
            } else {
                old(self).doc().spec_rows().len() as int
            }),
            final(self).cursor().x == (if p.x as int <= row_len_at(
                old(self).doc(),
                final(self).cursor().y as int,
            ) {
                p.x as int
            } else {
                row_len_at(old(self).doc(), final(self).cursor().y as int)
            }),
            final(self).mode_spec() == old(self).mode_spec(),
            final(self).cmd() == old(self).cmd(),
    {
        let doclen = self.document.len();
        let y = if p.y <= doclen {
            p.y
        } else {
            doclen
        };
        let w = match self.document.row(y) {
            Some(row) => row.len(),
            None => 0,
        };
        let x = if p.x <= w {
            p.x
        } else {
            w
        };
        self.cursor_position = Position { x, y };
    }

    /// Moves the cursor one navigation step, then clamps the column to
    /// the target row's length.
    pub fn move_cursor(&mut self, key: Key)
        requires
            old(self).wf(),
        ensures
            final(self).wf(),
            final(self).doc() == old(self).doc(),
            final(self).cursor().x == moved_cursor(
                old(self).doc(),
                old(self).cursor(),
                old(self).height(),
                key,
            ).0,
            final(self).cursor().y == moved_cursor(
                old(self).doc(),
                old(self).cursor(),
                old(self).height(),
                key,
            ).1,
            final(self).offset_spec() == old(self).offset_spec(),
            final(self).mode_spec() == old(self).mode_spec(),
            final(self).cmd() == old(self).cmd(),
            final(self).selection() == old(self).selection(),
            final(self).quitting() == old(self).quitting(),
            final(self).quit_times_left() == old(self).quit_times_left(),
            final(self).search_word() == old(self).search_word(),
            final(self).status() == old(self).status(),
            final(self).width() == old(self).width(),
            final(self).height() == old(self).height(),
    {
        let terminal_height = self.terminal_height;
        let mut y = self.cursor_position.y;
        let mut x = self.cursor_position.x;
        let height = self.document.len();
        let width = match self.document.row(y) {
            Some(row) => row.len(),
            None => 0,
        };
        match key {
            Key::Up => {
                if y > 0 {
                    y = y - 1;
                }
            },
            Key::Down => {
                if y < height {
                    y = y + 1;
                }
            },
            Key::Left => {
                if x > 0 {
                    x = x - 1;
                } else if y > 0 {
                    y = y - 1;
                    x = match self.document.row(y) {
                        Some(row) => row.len(),
                        None => 0,
                    };
                }
            },
            Key::Right => {
                if x < width {
                    x = x + 1;
                } else if y < height {
                    y = y + 1;
                    x = 0;
                }
            },
            Key::PageUp => {
                y = if y > terminal_height {
                    y - terminal_height
                } else {
                    0
                };
            },
            Key::PageDown => {
                y = if terminal_height < height && y < height - terminal_height {
                    y + terminal_height
                } else {
                    height
                };
            },
            Key::Home => {
                x = 0;
            },
            Key::End => {
                x = width;
            },
            _ => {},
        }
        let new_width = match self.document.row(y) {
            Some(row) => row.len(),
            None => 0,
        };
        if x > new_width {
            x = new_width;
        }
        self.cursor_position = Position { x, y };
    }

    /// Scrolls the viewport so the cursor stays inside the window.
    pub fn scroll(&mut self)
        ensures
            final(self).doc() == old(self).doc(),
            final(self).cursor() == old(self).cursor(),
            final(self).offset_spec().x == scrolled(
                old(self).offset_spec().x as int,
                old(self).cursor().x as int,
                old(self).width(),
            ),
            final(self).offset_spec().y == scrolled(
                old(self).offset_spec().y as int,
                old(self).cursor().y as int,
                old(self).height(),
            ),
            final(self).mode_spec() == old(self).mode_spec(),
            final(self).cmd() == old(self).cmd(),
            final(self).selection() == old(self).selection(),
            final(self).quitting() == old(self).quitting(),
            final(self).quit_times_left() == old(self).quit_times_left(),
            final(self).search_word() == old(self).search_word(),
            final(self).status() == old(self).status(),
            final(self).width() == old(self).width(),
            final(self).height() == old(self).height(),
    {
        let x = self.cursor_position.x;
        let y = self.cursor_position.y;
        let width = self.terminal_width;
        let height = self.terminal_height;
        let mut off_y = self.offset.y;
        let mut off_x = self.offset.x;
        if y < off_y {
            off_y = y;
        } else if height <= y && y - height >= off_y {
            off_y = (y - height).saturating_add(1);
        }
        if x < off_x {
            off_x = x;
        } else if width <= x && x - width >= off_x {
            off_x = (x - width).saturating_add(1);
        }
        self.offset = Position { x: off_x, y: off_y };
    }
}

/// The cursor of `e` stands at the given column and row.
pub open spec fn cursor_eq(e: Editor, m: (int, int)) -> bool {
    e.cursor().x as int == m.0 && e.cursor().y as int == m.1
}

/// The session entered Insert mode, with all transient command state
/// cleared.
pub open spec fn to_insert(e: Editor) -> bool {
    &&& e.mode_spec() == Mode::Insert
    &&& e.cmd().is_cleared()
    &&& e.selection() is None
}

/// The session returned to plain Normal mode, clearing count, operator
/// and selection anchor, without touching the buffer or cursor.
pub open spec fn to_normal(e0: Editor, e1: Editor) -> bool {
    &&& e1.mode_spec() == Mode::Normal
    &&& e1.cmd().is_cleared()
    &&& e1.selection() is None
    &&& e1.doc() == e0.doc()
    &&& e1.cursor() == e0.cursor()
}

/// Nothing observable changed: document, cursor, mode, command state and
/// selection anchor are as before.
pub open spec fn unchanged_step(e0: Editor, e1: Editor) -> bool {
    &&& e1.doc() == e0.doc()
    &&& e1.cursor() == e0.cursor()
    &&& e1.mode_spec() == e0.mode_spec()
    &&& e1.cmd() == e0.cmd()
    &&& e1.selection() == e0.selection()
}

/// The document is untouched and the cursor moved as `key` directs.
pub open spec fn moved_step(e0: Editor, e1: Editor, key: Key) -> bool {
    &&& e1.doc() == e0.doc()
    &&& cursor_eq(e1, moved_xy(e0.doc(), e0.cursor().x as int, e0.cursor().y as int, e0.height(), key))
    &&& e1.mode_spec() == e0.mode_spec()
    &&& e1.selection() == e0.selection()
}

/// The count a command applies: the typed prefix, or one.
pub open spec fn effective_count(e: Editor) -> int {
    match e.cmd().count_opt() {
        Some(n) => n as int,
        None => 1,
    }
}

/// Whether the keystroke accumulates into the count prefix in Normal
/// mode: a digit, where a zero only extends an already started count.
pub open spec fn normal_digit(e: Editor, key: Key) -> bool {
    match key_char(key) {
        Some(c) => is_digit_char(c) && (c != '0' || e.cmd().count_opt() is Some),
        None => false,
    }
}

/// The pending operator completes as a whole-line-scoped action when its
/// key is pressed again; the stub reports the intent and clears state.
pub open spec fn operator_step(e0: Editor, e1: Editor, op: char) -> bool {
    &&& e1.doc() == e0.doc()
    &&& e1.cursor() == e0.cursor()
    &&& e1.mode_spec() == e0.mode_spec()
    &&& e1.selection() == e0.selection()
    &&& if e0.cmd().pending() && e0.cmd().operator() == Some(op) {
        e1.cmd().is_cleared()
    } else {
        &&& e1.cmd().pending()
        &&& e1.cmd().operator() == Some(op)
        &&& e1.cmd().count_opt() == e0.cmd().count_opt()
        &&& e1.cmd().buffer_view() == e0.cmd().buffer_view()
        &&& e1.cmd().start_pos() == e0.cmd().start_pos()
    }
}

/// A motion key moved the cursor and consumed the transient state.
pub open spec fn motion_step(e0: Editor, e1: Editor, key: Key, n: int) -> bool {
    &&& e1.doc() == e0.doc()
    &&& n >= 0
    &&& cursor_eq(
        e1,
        moved_n(e0.doc(), e0.cursor().x as int, e0.cursor().y as int, e0.height(), key, n as nat),
    )
    &&& e1.mode_spec() == e0.mode_spec()
    &&& e1.cmd().is_cleared()
    &&& e1.selection() == e0.selection()
}

/// What one keystroke does in Normal mode. The first keys of a multi-key
/// command take precedence, then count digits; an operator key pressed
/// twice completes a line-scoped action, once enters operator-pending;
/// an unrecognized key while an operator is pending aborts it.
pub open spec fn normal_step(e0: Editor, e1: Editor, key: Key, a: EditorAction) -> bool {
    let d0 = e0.doc();
    let p0 = e0.cursor();
    let th = e0.height();
    let n0 = d0.spec_rows().len() as int;
    if e0.cmd().buffer_view().len() > 0 {
        &&& a == EditorAction::Nothing
        &&& e1.doc() == d0
        &&& e1.mode_spec() == e0.mode_spec()
        &&& e1.cmd().is_cleared()
        &&& e1.selection() == e0.selection()
        &&& (key == Key::Char('g') ==> e1.cursor() == (Position { x: 0, y: 0 }))
        &&& (key != Key::Char('g') ==> e1.cursor() == p0)
    } else if normal_digit(e0, key) {
        &&& a == EditorAction::Nothing
        &&& e1.doc() == d0
        &&& e1.cursor() == p0
        &&& e1.mode_spec() == e0.mode_spec()
        &&& e1.selection() == e0.selection()
        &&& e1.cmd().buffer_view() == e0.cmd().buffer_view()
        &&& e1.cmd().pending() == e0.cmd().pending()
        &&& e1.cmd().operator() == e0.cmd().operator()
        &&& e1.cmd().start_pos() == e0.cmd().start_pos()
        &&& e1.cmd().count_opt() == Some(
            count_extended(
                match e0.cmd().count_opt() {
                    Some(n) => n as int,
                    None => 0,
                },
                digit_val(key_char(key)->Some_0),
            ) as usize,
        )
    } else {
        match key {
            Key::Char(c) => {
                if c == 'i' {
                    unchanged_doc_cursor(e0, e1) && to_insert(e1) && a == EditorAction::Nothing
                } else if c == 'I' {
                    e1.doc() == d0 && cursor_eq(
                        e1,
                        moved_xy(d0, p0.x as int, p0.y as int, th, Key::Home),
                    ) && to_insert(e1) && a == EditorAction::Nothing
                } else if c == 'a' {
                    let moves = p0.y < n0 && row_len_at(d0, p0.y as int) > 0 && p0.x < row_len_at(
                        d0,
                        p0.y as int,
                    );
                    &&& e1.doc() == d0
                    &&& (moves ==> cursor_eq(
                        e1,
                        moved_xy(d0, p0.x as int, p0.y as int, th, Key::Right),
                    ))
                    &&& (!moves ==> e1.cursor() == p0)
                    &&& to_insert(e1)
                    &&& a == EditorAction::Nothing
                } else if c == 'A' {
                    e1.doc() == d0 && cursor_eq(
                        e1,
                        moved_xy(d0, p0.x as int, p0.y as int, th, Key::End),
                    ) && to_insert(e1) && a == EditorAction::Nothing
                } else if c == 'o' {
                    let m1 = moved_xy(d0, p0.x as int, p0.y as int, th, Key::End);
                    &&& inserted(d0, e1.doc(), m1.0, m1.1, '\n')
                    &&& cursor_eq(e1, moved_xy(e1.doc(), m1.0, m1.1, th, Key::Down))
                    &&& to_insert(e1)
                    &&& a == EditorAction::Nothing
                } else if c == 'O' {
                    let m1 = moved_xy(d0, p0.x as int, p0.y as int, th, Key::Home);
                    &&& inserted(d0, e1.doc(), m1.0, m1.1, '\n')
                    &&& cursor_eq(e1, moved_xy(e1.doc(), m1.0, m1.1, th, Key::Up))
                    &&& to_insert(e1)
                    &&& a == EditorAction::Nothing
                } else if c == 'x' {
                    &&& deleted_n(
                        d0,
                        e1.doc(),
                        p0.x as int,
                        p0.y as int,
                        effective_count(e0),
                    )
                    &&& e1.cursor() == p0
                    &&& e1.mode_spec() == e0.mode_spec()
                    &&& e1.cmd().is_cleared()
                    &&& e1.selection() == e0.selection()
                    &&& a == EditorAction::Nothing
                } else if c == 'd' {
                    operator_step(e0, e1, 'd') && a == EditorAction::Nothing
                } else if c == 'y' {
                    operator_step(e0, e1, 'y') && a == EditorAction::Nothing
                } else if c == 'g' {
                    &&& e1.doc() == d0
                    &&& e1.cursor() == p0
                    &&& e1.mode_spec() == e0.mode_spec()
                    &&& e1.selection() == e0.selection()
                    &&& e1.cmd().buffer_view() == e0.cmd().buffer_view().push('g')
                    &&& e1.cmd().pending() == e0.cmd().pending()
                    &&& e1.cmd().operator() == e0.cmd().operator()
                    &&& e1.cmd().count_opt() == e0.cmd().count_opt()
                    &&& a == EditorAction::Nothing
                } else if c == 'v' {
                    &&& unchanged_doc_cursor(e0, e1)
                    &&& e1.mode_spec() == Mode::Visual
                    &&& e1.selection() == Some(p0)
                    &&& e1.cmd().is_cleared()
                    &&& a == EditorAction::Nothing
                } else if c == 'V' {
                    &&& unchanged_doc_cursor(e0, e1)
                    &&& e1.mode_spec() == Mode::VisualLine
                    &&& e1.selection() == Some(Position { x: 0, y: p0.y })
                    &&& e1.cmd().is_cleared()
                    &&& a == EditorAction::Nothing
                } else if c == ':' {
                    &&& unchanged_doc_cursor(e0, e1)
                    &&& e1.mode_spec() == Mode::Command
                    &&& e1.cmd().is_cleared()
                    &&& e1.selection() == e0.selection()
                    &&& a == EditorAction::Nothing
                } else if c == '/' {
                    unchanged_step(e0, e1) && a == EditorAction::Search
                } else if c == 'h' {
                    motion_step(e0, e1, Key::Left, effective_count(e0)) && a
                        == EditorAction::Nothing
                } else if c == 'j' {
                    motion_step(e0, e1, Key::Down, effective_count(e0)) && a
                        == EditorAction::Nothing
                } else if c == 'k' {
                    motion_step(e0, e1, Key::Up, effective_count(e0)) && a == EditorAction::Nothing
                } else if c == 'l' {
                    motion_step(e0, e1, Key::Right, effective_count(e0)) && a
                        == EditorAction::Nothing
                } else if c == 'w' || c == 'b' || c == 'e' {
                    &&& e1.doc() == d0
                    &&& e1.cursor() == p0
                    &&& e1.mode_spec() == e0.mode_spec()
                    &&& e1.cmd().is_cleared()
                    &&& e1.selection() == e0.selection()
                    &&& a == EditorAction::Nothing
                } else if c == '0' {
                    motion_step(e0, e1, Key::Home, 1) && a == EditorAction::Nothing
                } else if c == '$' {
                    motion_step(e0, e1, Key::End, 1) && a == EditorAction::Nothing
                } else if c == 'G' {
                    &&& e1.doc() == d0
                    &&& e1.mode_spec() == e0.mode_spec()
                    &&& e1.cmd().is_cleared()
                    &&& e1.selection() == e0.selection()
                    &&& (match e0.cmd().count_opt() {
                        Some(n) => {
                            let line = if n > 0 {
                                n as int - 1
                            } else {
                                0
                            };
                            if line < n0 {
                                e1.cursor() == (Position { x: 0, y: line as usize })
                            } else {
                                e1.cursor() == p0
                            }
                        },
                        None => e1.cursor().x == 0 && e1.cursor().y as int == (if n0 > 0 {
                            n0 - 1
                        } else {
                            0
                        }),
                    })
                    &&& a == EditorAction::Nothing
                } else {
                    normal_fallback(e0, e1) && a == EditorAction::Nothing
                }
            },
            Key::Left => motion_step(e0, e1, Key::Left, effective_count(e0)) && a
                == EditorAction::Nothing,
            Key::Down => motion_step(e0, e1, Key::Down, effective_count(e0)) && a
                == EditorAction::Nothing,
            Key::Up => motion_step(e0, e1, Key::Up, effective_count(e0)) && a
                == EditorAction::Nothing,
            Key::Right => motion_step(e0, e1, Key::Right, effective_count(e0)) && a
                == EditorAction::Nothing,
            Key::PageUp | Key::PageDown | Key::Home | Key::End => motion_step(e0, e1, key, 1) && a
                == EditorAction::Nothing,
            Key::Ctrl(c) => {
                if c == 'f' {
                    &&& e1.doc() == d0
                    &&& e1.cursor() == p0
                    &&& e1.mode_spec() == e0.mode_spec()
                    &&& e1.cmd().is_cleared()
                    &&& e1.selection() == e0.selection()
                    &&& a == EditorAction::Search
                } else if c == 'o' {
                    &&& e1.doc() == d0
                    &&& e1.cursor() == p0
                    &&& e1.mode_spec() == e0.mode_spec()
                    &&& e1.cmd().is_cleared()
                    &&& e1.selection() == e0.selection()
                    &&& a == EditorAction::OpenFile
                } else {
                    normal_fallback(e0, e1) && a == EditorAction::Nothing
                }
            },
            _ => normal_fallback(e0, e1) && a == EditorAction::Nothing,
        }
    }
}

/// Document and cursor are untouched.
pub open spec fn unchanged_doc_cursor(e0: Editor, e1: Editor) -> bool {
    e1.doc() == e0.doc() && e1.cursor() == e0.cursor()
}

/// An unrecognized key in Normal mode: a pending operator aborts, and
/// nothing else happens.
pub open spec fn normal_fallback(e0: Editor, e1: Editor) -> bool {
    &&& e1.doc() == e0.doc()
    &&& e1.cursor() == e0.cursor()
    &&& e1.mode_spec() == e0.mode_spec()
    &&& e1.selection() == e0.selection()
    &&& (e0.cmd().pending() ==> e1.cmd().is_cleared())
    &&& (!e0.cmd().pending() ==> e1.cmd() == e0.cmd())
}

/// What one keystroke does in Insert mode.
pub open spec fn insert_step(e0: Editor, e1: Editor, key: Key, a: EditorAction) -> bool {
    let d0 = e0.doc();
    let p0 = e0.cursor();
    let th = e0.height();
    match key {
        Key::Esc => to_normal(e0, e1) && a == EditorAction::Nothing,
        Key::Ctrl(c) => if c == 'o' {
            unchanged_step(e0, e1) && a == EditorAction::OpenFile
        } else {
            unchanged_step(e0, e1) && a == EditorAction::Nothing
        },
        Key::Char(c) => {
            &&& inserted(d0, e1.doc(), p0.x as int, p0.y as int, c)
            &&& cursor_eq(e1, moved_xy(e1.doc(), p0.x as int, p0.y as int, th, Key::Right))
            &&& e1.mode_spec() == e0.mode_spec()
            &&& e1.cmd() == e0.cmd()
            &&& e1.selection() == e0.selection()
            &&& a == EditorAction::Nothing
        },
        Key::Delete => {
            &&& deleted(d0, e1.doc(), p0.x as int, p0.y as int)
            &&& e1.cursor() == p0
            &&& e1.mode_spec() == e0.mode_spec()
            &&& e1.cmd() == e0.cmd()
            &&& e1.selection() == e0.selection()
            &&& a == EditorAction::Nothing
        },
        Key::Backspace => {
            if p0.x > 0 || p0.y > 0 {
                let m = moved_xy(d0, p0.x as int, p0.y as int, th, Key::Left);
                &&& deleted(d0, e1.doc(), m.0, m.1)
                &&& cursor_eq(e1, m)
                &&& e1.mode_spec() == e0.mode_spec()
                &&& e1.cmd() == e0.cmd()
                &&& e1.selection() == e0.selection()
                &&& a == EditorAction::Nothing
            } else {
                unchanged_step(e0, e1) && a == EditorAction::Nothing
            }
        },
        Key::Up | Key::Down | Key::Left | Key::Right | Key::PageUp | Key::PageDown | Key::Home
            | Key::End => {
            &&& moved_step(e0, e1, key)
            &&& e1.cmd() == e0.cmd()
            &&& a == EditorAction::Nothing
        },
    }
}

/// What one keystroke does in Visual mode.
pub open spec fn visual_step(e0: Editor, e1: Editor, key: Key, a: EditorAction) -> bool {
    let p0 = e0.cursor();
    a == EditorAction::Nothing && match key {
        Key::Esc => to_normal(e0, e1),
        Key::Char(c) => {
            if c == 'v' {
                to_normal(e0, e1)
            } else if c == 'V' {
                &&& unchanged_doc_cursor(e0, e1)
                &&& e1.mode_spec() == Mode::VisualLine
                &&& e1.selection() == Some(Position { x: 0, y: p0.y })
                &&& e1.cmd().is_cleared()
            } else if c == 'h' {
                moved_step(e0, e1, Key::Left) && e1.cmd() == e0.cmd()
            } else if c == 'j' {
                moved_step(e0, e1, Key::Down) && e1.cmd() == e0.cmd()
            } else if c == 'k' {
                moved_step(e0, e1, Key::Up) && e1.cmd() == e0.cmd()
            } else if c == 'l' {
                moved_step(e0, e1, Key::Right) && e1.cmd() == e0.cmd()
            } else if c == 'y' || c == 'd' {
                to_normal(e0, e1)
            } else {
                unchanged_step(e0, e1)
            }
        },
        Key::Up | Key::Down | Key::Left | Key::Right | Key::PageUp | Key::PageDown | Key::Home
            | Key::End => moved_step(e0, e1, key) && e1.cmd() == e0.cmd(),
        _ => unchanged_step(e0, e1),
    }
}

/// What one keystroke does in VisualLine mode: only vertical motion is
/// allowed.
pub open spec fn visual_line_step(e0: Editor, e1: Editor, key: Key, a: EditorAction) -> bool {
    let p0 = e0.cursor();
    a == EditorAction::Nothing && match key {
        Key::Esc => to_normal(e0, e1),
        Key::Char(c) => {
            if c == 'V' {
                to_normal(e0, e1)
            } else if c == 'v' {
                &&& unchanged_doc_cursor(e0, e1)
                &&& e1.mode_spec() == Mode::Visual
                &&& e1.selection() == Some(p0)
                &&& e1.cmd().is_cleared()
            } else if c == 'j' {
                moved_step(e0, e1, Key::Down) && e1.cmd() == e0.cmd()
            } else if c == 'k' {
                moved_step(e0, e1, Key::Up) && e1.cmd() == e0.cmd()
            } else if c == 'y' || c == 'd' {
                to_normal(e0, e1)
            } else {
                unchanged_step(e0, e1)
            }
        },
        Key::Up => moved_step(e0, e1, Key::Up) && e1.cmd() == e0.cmd(),
        Key::Down => moved_step(e0, e1, Key::Down) && e1.cmd() == e0.cmd(),
        _ => unchanged_step(e0, e1),
    }
}

/// What one keystroke does in Command-line mode: it always returns to
/// Normal mode.
pub open spec fn command_step(e0: Editor, e1: Editor, key: Key, a: EditorAction) -> bool {
    to_normal(e0, e1) && a == EditorAction::Nothing
}

impl Editor {
    /// The untouched fields every keystroke handler leaves alone.
    pub open spec fn handler_frame(e0: Editor, e1: Editor) -> bool {
        &&& e1.offset_spec() == e0.offset_spec()
        &&& e1.quitting() == e0.quitting()
        &&& e1.quit_times_left() == e0.quit_times_left()
        &&& e1.search_word() == e0.search_word()
        &&& e1.width() == e0.width()
        &&& e1.height() == e0.height()
    }

    pub fn enter_insert_mode(&mut self)
        ensures
            to_insert(*final(self)),
            unchanged_doc_cursor(*old(self), *final(self)),
            Self::handler_frame(*old(self), *final(self)),
    {
        self.mode = Mode::Insert;
        self.command_state.clear();
        self.selection_start = None;
        self.status_message = StatusMessage::from(String::from_str("-- INSERT MODE --"));
    }

    pub fn enter_normal_mode(&mut self)
        ensures
            to_normal(*old(self), *final(self)),
            Self::handler_frame(*old(self), *final(self)),
    {
        self.mode = Mode::Normal;
        self.command_state.clear();
        self.selection_start = None;
        self.status_message = StatusMessage::from(String::from_str("-- NORMAL MODE --"));
    }

    pub fn enter_visual_mode(&mut self)
        ensures
            unchanged_doc_cursor(*old(self), *final(self)),
            final(self).mode_spec() == Mode::Visual,
            final(self).selection() == Some(old(self).cursor()),
            final(self).cmd().is_cleared(),
            Self::handler_frame(*old(self), *final(self)),
    {
        self.mode = Mode::Visual;
        self.selection_start = Some(self.cursor_position);
        self.command_state.clear();
        self.status_message = StatusMessage::from(String::from_str("-- VISUAL MODE --"));
    }

    pub fn enter_visual_line_mode(&mut self)
        ensures
            unchanged_doc_cursor(*old(self), *final(self)),
            final(self).mode_spec() == Mode::VisualLine,
            final(self).selection() == Some(Position { x: 0, y: old(self).cursor().y }),
            final(self).cmd().is_cleared(),
            Self::handler_frame(*old(self), *final(self)),
    {
        self.mode = Mode::VisualLine;
        self.selection_start = Some(Position { x: 0, y: self.cursor_position.y });
        self.command_state.clear();
        self.status_message = StatusMessage::from(String::from_str("-- VISUAL LINE MODE --"));
    }

    pub fn enter_command_mode(&mut self)
        ensures
            unchanged_doc_cursor(*old(self), *final(self)),
            final(self).mode_spec() == Mode::Command,
            final(self).cmd().is_cleared(),
            final(self).selection() == old(self).selection(),
            Self::handler_frame(*old(self), *final(self)),
    {
        self.mode = Mode::Command;
        self.command_state.clear();
        self.status_message = StatusMessage::from(String::from_str("-- COMMAND MODE --"));
    }

    /// Moves the cursor `count` times in one direction and then clears
    /// the transient command state.
    fn repeat_motion(&mut self, key: Key, count: usize)
        requires
            old(self).wf(),
        ensures
            final(self).wf(),
            final(self).doc() == old(self).doc(),
            cursor_eq(
                *final(self),
                moved_n(
                    old(self).doc(),
                    old(self).cursor().x as int,
                    old(self).cursor().y as int,
                    old(self).height(),
                    key,
                    count as nat,
                ),
            ),
            final(self).mode_spec() == old(self).mode_spec(),
            final(self).cmd().is_cleared(),
            final(self).selection() == old(self).selection(),
            Self::handler_frame(*old(self), *final(self)),
    {
        let mut k: usize = 0;
        while k < count
            invariant
                k <= count,
                self.wf(),
                self.doc() == old(self).doc(),
                cursor_eq(
                    *self,
                    moved_n(
                        old(self).doc(),
                        old(self).cursor().x as int,
                        old(self).cursor().y as int,
                        old(self).height(),
                        key,
                        k as nat,
                    ),
                ),
                self.mode_spec() == old(self).mode_spec(),
                self.cmd() == old(self).cmd(),
                self.selection() == old(self).selection(),
                Self::handler_frame(*old(self), *self),
            decreases count - k,
        {
            self.move_cursor(key);
            k = k + 1;
        }
        self.command_state.clear();
    }

    /// Interprets one keystroke in Normal mode.
    fn process_key_normal(&mut self, key: Key) -> (a: EditorAction)
        requires
            old(self).wf(),
        ensures
            final(self).wf(),
            normal_step(*old(self), *final(self), key, a),
            Self::handler_frame(*old(self), *final(self)),
    {
        // A buffered multi-key command consumes the next key first.
        if self.command_state.has_buffered() {
            self.command_state.clear();
            match key {
                Key::Char('g') => {
                    self.cursor_position = Position { x: 0, y: 0 };
                },
                _ => {
                    self.status_message = StatusMessage::from(
                        String::from_str("g command not implemented"),
                    );
                },
            }
            return EditorAction::Nothing;
        }
        // Count digits accumulate without any other effect.
        if let Key::Char(c) = key {
            let u = c as u32;
            if 0x30 <= u && u <= 0x39 && (c != '0' || self.command_state.has_count()) {
                self.command_state.parse_count(c);
                return EditorAction::Nothing;
            }
        }
        match key {
            Key::Char('i') => {
                self.enter_insert_mode();
                EditorAction::Nothing
            },
            Key::Char('I') => {
                self.move_cursor(Key::Home);
                self.enter_insert_mode();
                EditorAction::Nothing
            },
            Key::Char('a') => {
                let y = self.cursor_position.y;
                let x = self.cursor_position.x;
                let moves = match self.document.row(y) {
                    Some(row) => {
                        proof {
                            assert(self.doc().spec_rows()[y as int].wf());
                        }
                        !row.is_empty() && x < row.len()
                    },
                    None => false,
                };
                if moves {
                    self.move_cursor(Key::Right);
                }
                self.enter_insert_mode();
                EditorAction::Nothing
            },
            Key::Char('A') => {
                self.move_cursor(Key::End);
                self.enter_insert_mode();
                EditorAction::Nothing
            },
            Key::Char('o') => {
                self.move_cursor(Key::End);
                let pos = self.cursor_position;
                self.document.insert(&pos, '\n');
                self.move_cursor(Key::Down);
                self.enter_insert_mode();
                EditorAction::Nothing
            },
            Key::Char('O') => {
                self.move_cursor(Key::Home);
                let pos = self.cursor_position;
                self.document.insert(&pos, '\n');
                self.move_cursor(Key::Up);
                self.enter_insert_mode();
                EditorAction::Nothing
            },
            Key::Char('x') => {
                let count = self.command_state.get_count();
                let pos = self.cursor_position;
                self.document.delete_n(&pos, count);
                self.command_state.clear();
                EditorAction::Nothing
            },
            Key::Char('d') => {
                self.handle_operator_key('d');
                EditorAction::Nothing
            },
            Key::Char('y') => {
                self.handle_operator_key('y');
                EditorAction::Nothing
            },
            Key::Char('g') => {
                self.command_state.push('g');
                self.status_message = StatusMessage::from(String::from_str("g"));
                EditorAction::Nothing
            },
            Key::Char('v') => {
                self.enter_visual_mode();
                EditorAction::Nothing
            },
            Key::Char('V') => {
                self.enter_visual_line_mode();
                EditorAction::Nothing
            },
            Key::Char(':') => {
                self.enter_command_mode();
                EditorAction::Nothing
            },
            Key::Char('/') => EditorAction::Search,
            Key::Char('h') | Key::Left => {
                let count = self.command_state.get_count();
                self.repeat_motion(Key::Left, count);
                EditorAction::Nothing
            },
            Key::Char('j') | Key::Down => {
                let count = self.command_state.get_count();
                self.repeat_motion(Key::Down, count);
                EditorAction::Nothing
            },
            Key::Char('k') | Key::Up => {
                let count = self.command_state.get_count();
                self.repeat_motion(Key::Up, count);
                EditorAction::Nothing
            },
            Key::Char('l') | Key::Right => {
                let count = self.command_state.get_count();
                self.repeat_motion(Key::Right, count);
                EditorAction::Nothing
            },
            Key::Char('w') | Key::Char('b') | Key::Char('e') => {
                self.status_message = StatusMessage::from(
                    String::from_str("word motion not implemented"),
                );
                self.command_state.clear();
                EditorAction::Nothing
            },
            Key::Char('0') => {
                self.repeat_motion(Key::Home, 1);
                EditorAction::Nothing
            },
            Key::Char('$') => {
                self.repeat_motion(Key::End, 1);
                EditorAction::Nothing
            },
            Key::Char('G') => {
                if self.command_state.has_count() {
                    let n = self.command_state.get_count();
                    let line = if n > 0 {
                        n - 1
                    } else {
                        0
                    };
                    if line < self.document.len() {
                        self.cursor_position = Position { x: 0, y: line };
                    }
                } else {
                    let len = self.document.len();
                    let y = if len > 0 {
                        len - 1
                    } else {
                        0
                    };
                    self.cursor_position = Position { x: 0, y };
                }
                self.command_state.clear();
                EditorAction::Nothing
            },
            Key::PageUp | Key::PageDown | Key::Home | Key::End => {
                self.repeat_motion(key, 1);
                EditorAction::Nothing
            },
            Key::Ctrl('f') => {
                self.command_state.clear();
                EditorAction::Search
            },
            Key::Ctrl('o') => {
                self.command_state.clear();
                EditorAction::OpenFile
            },
            _ => {
                if self.command_state.is_operator_pending() {
                    self.command_state.clear();
                }
                EditorAction::Nothing
            },
        }
    }

    /// An operator key: pressed again while pending it completes the
    /// whole-line-scoped action (reported, with the count, in the status
    /// area) and clears state; otherwise it enters operator-pending.
    fn handle_operator_key(&mut self, op: char)
        ensures
            operator_step(*old(self), *final(self), op),
            Self::handler_frame(*old(self), *final(self)),
    {
        let pending = self.command_state.is_operator_pending();
        let same = match self.command_state.get_operator() {
            Some(cur) => cur == op,
            None => false,
        };
        if pending && same {
            let count = self.command_state.get_count();
            let mut msg = if op == 'd' {
                String::from_str("Delete ")
            } else {
                String::from_str("Yank ")
            };
            push_decimal(count, &mut msg);
            msg.append(" lines");
            self.status_message = StatusMessage::from(msg);
            self.command_state.clear();
        } else {
            self.command_state.set_operator_pending(op);
            let mut msg = String::new();
            msg.push(op);
            self.status_message = StatusMessage::from(msg);
        }
    }

    /// Interprets one keystroke in Insert mode.
    fn process_key_insert(&mut self, key: Key) -> (a: EditorAction)
        requires
            old(self).wf(),
        ensures
            final(self).wf(),
            insert_step(*old(self), *final(self), key, a),
            Self::handler_frame(*old(self), *final(self)),
    {
        match key {
            Key::Esc => {
                self.enter_normal_mode();
                EditorAction::Nothing
            },
            Key::Ctrl('o') => EditorAction::OpenFile,
            Key::Ctrl(_) => EditorAction::Nothing,
            Key::Char(c) => {
                let pos = self.cursor_position;
                self.document.insert(&pos, c);
                self.move_cursor(Key::Right);
                EditorAction::Nothing
            },
            Key::Delete => {
                let pos = self.cursor_position;
                self.document.delete(&pos);
                EditorAction::Nothing
            },
            Key::Backspace => {
                if self.cursor_position.x > 0 || self.cursor_position.y > 0 {
                    self.move_cursor(Key::Left);
                    let pos = self.cursor_position;
                    self.document.delete(&pos);
                }
                EditorAction::Nothing
            },
            Key::Up | Key::Down | Key::Left | Key::Right | Key::PageUp | Key::PageDown
                | Key::Home | Key::End => {
                self.move_cursor(key);
                EditorAction::Nothing
            },
        }
    }

    /// Interprets one keystroke in Visual mode.
    fn process_key_visual(&mut self, key: Key) -> (a: EditorAction)
        requires
            old(self).wf(),
        ensures
            final(self).wf(),
            visual_step(*old(self), *final(self), key, a),
            Self::handler_frame(*old(self), *final(self)),
    {
        match key {
            Key::Esc | Key::Char('v') => {
                self.enter_normal_mode();
            },
            Key::Char('V') => {
                self.enter_visual_line_mode();
            },
            Key::Char('h') => {
                self.move_cursor(Key::Left);
            },
            Key::Char('j') => {
                self.move_cursor(Key::Down);
            },
            Key::Char('k') => {
                self.move_cursor(Key::Up);
            },
            Key::Char('l') => {
                self.move_cursor(Key::Right);
            },
            Key::Char('y') | Key::Char('d') => {
                self.status_message = StatusMessage::from(
                    String::from_str("selection not implemented"),
                );
                self.enter_normal_mode();
            },
            Key::Up | Key::Down | Key::Left | Key::Right | Key::PageUp | Key::PageDown
                | Key::Home | Key::End => {
                self.move_cursor(key);
            },
            _ => {},
        }
        EditorAction::Nothing
    }

    /// Interprets one keystroke in VisualLine mode.
    fn process_key_visual_line(&mut self, key: Key) -> (a: EditorAction)
        requires
            old(self).wf(),
        ensures
            final(self).wf(),
            visual_line_step(*old(self), *final(self), key, a),
            Self::handler_frame(*old(self), *final(self)),
    {
        match key {
            Key::Esc | Key::Char('V') => {
                self.enter_normal_mode();
            },
            Key::Char('v') => {
                self.enter_visual_mode();
            },
            Key::Char('j') | Key::Down => {
                self.move_cursor(Key::Down);
            },
            Key::Char('k') | Key::Up => {
                self.move_cursor(Key::Up);
            },
            Key::Char('y') | Key::Char('d') => {
                self.status_message = StatusMessage::from(
                    String::from_str("selection not implemented"),
                );
                self.enter_normal_mode();
            },
            _ => {},
        }
        EditorAction::Nothing
    }

    /// Interprets one keystroke in Command-line mode.
    fn process_key_command(&mut self, key: Key) -> (a: EditorAction)
        requires
            old(self).wf(),
        ensures
            final(self).wf(),
            command_step(*old(self), *final(self), key, a),
            Self::handler_frame(*old(self), *final(self)),
    {
        match key {
            Key::Esc => {
                self.enter_normal_mode();
            },
            _ => {
                self.status_message = StatusMessage::from(
                    String::from_str("Command mode not fully implemented"),
                );
                self.enter_normal_mode();
            },
        }
        EditorAction::Nothing
    }

    /// Interprets one keystroke. Quitting with unsaved changes must be
    /// confirmed `QUIT_TIMES` times; saving is handed to the I/O layer
    /// as an action; any other key resets the quit confirmation counter
    /// and is interpreted by the active mode. The caller re-scrolls the
    /// viewport afterwards.
    pub fn process_key(&mut self, key: Key) -> (a: EditorAction)
        requires
            old(self).wf(),
        ensures
            final(self).wf(),
            final(self).offset_spec() == old(self).offset_spec(),
            final(self).search_word() == old(self).search_word(),
            final(self).width() == old(self).width(),
            final(self).height() == old(self).height(),
            key == Key::Ctrl('q') ==> a == EditorAction::Nothing && unchanged_step(
                *old(self),
                *final(self),
            ) && (if old(self).quit_times_left() > 0 && old(self).doc().spec_dirty() {
                final(self).quitting() == old(self).quitting() && final(self).quit_times_left()
                    == old(self).quit_times_left() - 1
            } else {
                final(self).quitting() && final(self).quit_times_left() == old(
                    self,
                ).quit_times_left()
            }),
            key == Key::Ctrl('s') ==> a == EditorAction::Save && unchanged_step(
                *old(self),
                *final(self),
            ) && final(self).quitting() == old(self).quitting() && final(self).quit_times_left()
                == old(self).quit_times_left(),
            key != Key::Ctrl('q') && key != Key::Ctrl('s') ==> final(self).quit_times_left()
                == QUIT_TIMES && final(self).quitting() == old(self).quitting() && (match old(
                self,
            ).mode_spec() {
                Mode::Normal => normal_step(*old(self), *final(self), key, a),
                Mode::Insert => insert_step(*old(self), *final(self), key, a),
                Mode::Visual => visual_step(*old(self), *final(self), key, a),
                Mode::VisualLine => visual_line_step(*old(self), *final(self), key, a),
                Mode::Command => command_step(*old(self), *final(self), key, a),
            }),
    {
        match key {
            Key::Ctrl('q') => {
                if self.quit_times > 0 && self.document.is_dirty() {
                    let mut msg = String::from_str(
                        "WARNING! File has unsaved changes. Press Ctrl-Q ",
                    );
                    push_decimal(self.quit_times as usize, &mut msg);
                    msg.append(" more times to quit.");
                    self.status_message = StatusMessage::from(msg);
                    self.quit_times = self.quit_times - 1;
                    return EditorAction::Nothing;
                }
                self.should_quit = true;
                EditorAction::Nothing
            },
            Key::Ctrl('s') => EditorAction::Save,
            _ => {
                if self.quit_times < QUIT_TIMES {
                    self.quit_times = QUIT_TIMES;
                    self.status_message = StatusMessage::from(String::new());
                }
                match self.mode {
                    Mode::Normal => self.process_key_normal(key),
                    Mode::Insert => self.process_key_insert(key),
                    Mode::Visual => self.process_key_visual(key),
                    Mode::VisualLine => self.process_key_visual_line(key),
                    Mode::Command => self.process_key_command(key),
                }
            },
        }
    }
}

} // verus!
