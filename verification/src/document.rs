//! The document: an ordered sequence of rows, the file name and type,
//! and the dirty flag. Bounds violations are never errors: every index
//! past the end is clamped or ignored, so malformed cursor arithmetic
//! cannot corrupt the buffer.

use vstd::prelude::*;

use crate::filetype::FileType;
use crate::graphemes::graphemes_of;
use crate::highlighting::Type;
use crate::position::Position;
use crate::row::Row;
use crate::search::SearchDirection;

verus! {

/// The carry flag entering row `i` when the whole document is classified
/// from the top: row 0 starts outside any comment, and each row hands its
/// carry-out to the next.
pub open spec fn carry_at(
    rows: Seq<Row>,
    opts: crate::filetype::HighlightingOptions,
    word: Option<String>,
    ft: FileType,
    i: int,
) -> bool
    decreases i when 0 <= i
{
    if i <= 0 {
        false
    } else {
        rows[i - 1].highlight_spec_carry(opts, word, carry_at(rows, opts, word, ft, i - 1), ft)
    }
}


/// What `Document::insert` does: the relation between the document
/// before and after inserting character `c` at column `x` of row `y`.
pub open spec fn inserted(d0: Document, d1: Document, x: int, y: int, c: char) -> bool {
    let rows = d0.spec_rows();
    let n = rows.len() as int;
    &&& (y > n ==> d1.spec_rows() == rows && d1.spec_dirty() == d0.spec_dirty())
    &&& (y <= n ==> d1.spec_dirty())
    &&& (c == '\n' && y == n ==> d1.spec_rows().len() == n + 1 && (forall|j: int|
        0 <= j < n ==> d1.spec_rows()[j] == rows[j]) && d1.spec_rows()[y]@ == Seq::<
        Seq<char>,
    >::empty())
    &&& (c == '\n' && 0 <= y < n ==> ({
        let t = rows[y]@;
        let cut = if x <= t.len() {
            x
        } else {
            t.len() as int
        };
        &&& d1.spec_rows().len() == n + 1
        &&& (forall|j: int| 0 <= j < y ==> d1.spec_rows()[j] == rows[j])
        &&& d1.spec_rows()[y]@ == t.take(cut)
        &&& d1.spec_rows()[y + 1]@ == t.skip(cut)
        &&& (forall|j: int| y + 2 <= j < n + 1 ==> d1.spec_rows()[j] == rows[j - 1])
    }))
    &&& (c != '\n' && y == n ==> d1.spec_rows().len() == n + 1 && (forall|j: int|
        0 <= j < n ==> d1.spec_rows()[j] == rows[j]) && d1.spec_rows()[y]@ == seq![seq![c]])
    &&& (c != '\n' && 0 <= y < n ==> ({
        let t = rows[y]@;
        &&& d1.spec_rows().len() == n
        &&& (forall|j: int| 0 <= j < n && j != y ==> d1.spec_rows()[j] == rows[j])
        &&& d1.spec_rows()[y]@ == (if x < t.len() {
            t.insert(x, seq![c])
        } else {
            t.push(seq![c])
        })
    }))
}

/// What `Document::delete` does: the relation between the document
/// before and after deleting the grapheme at column `x` of row `y`.
pub open spec fn deleted(d0: Document, d1: Document, x: int, y: int) -> bool {
    let rows = d0.spec_rows();
    let n = rows.len() as int;
    if y >= n || y < 0 {
        d1.spec_rows() == rows && d1.spec_dirty() == d0.spec_dirty()
    } else {
        let t = rows[y]@;
        if x == t.len() && y + 1 < n {
            &&& d1.spec_rows().len() == n - 1
            &&& (forall|j: int|
                0 <= j < d1.spec_rows().len() && j != y ==> d1.spec_rows()[j] == (if j < y {
                    rows[j]
                } else {
                    rows[j + 1]
                }))
            &&& d1.spec_rows()[y]@ == t + rows[y + 1]@
            &&& d1.spec_dirty()
        } else if 0 <= x < t.len() {
            &&& d1.spec_rows().len() == n
            &&& (forall|j: int| 0 <= j < n && j != y ==> d1.spec_rows()[j] == rows[j])
            &&& d1.spec_rows()[y]@ == t.remove(x)
            &&& d1.spec_dirty()
        } else {
            d1.spec_rows() == rows && d1.spec_dirty() == d0.spec_dirty()
        }
    }
}

/// What `Document::delete_n` does for a span that stays inside one row;
/// spans that reach a row end merge rows, of which only the shrinking
/// row count is stated.
pub open spec fn deleted_n(d0: Document, d1: Document, x: int, y: int, n: int) -> bool {
    let rows = d0.spec_rows();
    &&& d1.spec_rows().len() <= rows.len()
    &&& (y >= rows.len() ==> d1.spec_rows() == rows && d1.spec_dirty() == d0.spec_dirty())
    &&& (n == 0 ==> d1.spec_rows() == rows && d1.spec_dirty() == d0.spec_dirty())
    &&& ({
        let t = if 0 <= y < rows.len() {
            rows[y]@
        } else {
            Seq::<Seq<char>>::empty()
        };
        n > 0 && 0 <= y < rows.len() && x + n <= t.len() && 0 <= x ==> {
            &&& d1.spec_rows().len() == rows.len()
            &&& (forall|j: int| 0 <= j < rows.len() && j != y ==> d1.spec_rows()[j] == rows[j])
            &&& d1.spec_rows()[y]@ == t.take(x) + t.skip(x + n)
            &&& d1.spec_dirty()
        }
    })
}

/// A text document of rows.
pub struct Document {
    rows: Vec<Row>,
    file_name: Option<String>,
    file_type: FileType,
    dirty: bool,
}

impl Document {
    /// The rows, as spec values.
    pub closed spec fn spec_rows(&self) -> Seq<Row> {
        self.rows@
    }

    /// Whether the document was mutated since it was loaded or last
    /// saved.
    pub closed spec fn spec_dirty(&self) -> bool {
        self.dirty
    }

    /// The file name, if one is known.
    pub closed spec fn spec_file_name(&self) -> Option<String> {
        self.file_name
    }

    /// The active file type.
    pub closed spec fn ft(&self) -> FileType {
        self.file_type
    }

    /// Every row's cached length agrees with its text.
    pub open spec fn wf(&self) -> bool {
        forall|i: int| 0 <= i < self.spec_rows().len() ==> (#[trigger] self.spec_rows()[i]).wf()
    }

    /// An empty, unnamed document.
    pub fn default() -> (d: Document)
        ensures
            d.wf(),
            d.spec_rows().len() == 0,
            !d.spec_dirty(),
            d.spec_file_name() is None,
    {
        Document {
            rows: Vec::new(),
            file_name: None,
            file_type: FileType::default_type(),
            dirty: false,
        }
    }

    /// Builds a document from its lines, in order; the file type is
    /// derived from the name.
    pub fn from_lines(lines: &Vec<String>, file_name: Option<String>) -> (d: Document)
        ensures
            d.wf(),
            d.spec_rows().len() == lines@.len(),
            forall|i: int|
                0 <= i < lines@.len() ==> (#[trigger] d.spec_rows()[i])@ == graphemes_of(
                    lines@[i]@,
                ),
            !d.spec_dirty(),
            d.spec_file_name() == file_name,
    {
        let file_type = match &file_name {
            Some(name) => FileType::from_name(name.as_str()),
            None => FileType::default_type(),
        };
        let mut rows: Vec<Row> = Vec::new();
        let mut i: usize = 0;
        while i < lines.len()
            invariant
                i <= lines@.len(),
                rows@.len() == i,
                forall|j: int| 0 <= j < i ==> (#[trigger] rows@[j]).wf(),
                forall|j: int|
                    0 <= j < i ==> (#[trigger] rows@[j])@ == graphemes_of(lines@[j]@),
            decreases lines@.len() - i,
        {
            rows.push(Row::from_line(lines[i].as_str()));
            i = i + 1;
        }
        Document { rows, file_name, file_type, dirty: false }
    }

    /// The number of rows.
    pub fn len(&self) -> (n: usize)
        ensures
            n == self.spec_rows().len(),
    {
        self.rows.len()
    }

    pub fn is_empty(&self) -> (b: bool)
        ensures
            b == (self.spec_rows().len() == 0),
    {
        self.rows.len() == 0
    }

    pub fn is_dirty(&self) -> (b: bool)
        ensures
            b == self.spec_dirty(),
    {
        self.dirty
    }

    /// The row at a line index, if it exists.
    pub fn row(&self, index: usize) -> (r: Option<&Row>)
        ensures
            match r {
                Some(row) => index < self.spec_rows().len() && *row == self.spec_rows()[index as int],
                None => index >= self.spec_rows().len(),
            },
    {
        if index < self.rows.len() {
            Some(&self.rows[index])
        } else {
            None
        }
    }

    /// The file name, if one is known.
    pub fn file_name(&self) -> (r: &Option<String>)
        ensures
            *r == self.spec_file_name(),
    {
        &self.file_name
    }

    /// Names (or renames) the file; the file type follows the new name.
    pub fn set_file_name(&mut self, name: Option<String>)
        ensures
            final(self).spec_file_name() == name,
            final(self).spec_rows() == old(self).spec_rows(),
            final(self).spec_dirty() == old(self).spec_dirty(),
    {
        self.file_type = match &name {
            Some(n) => FileType::from_name(n.as_str()),
            None => FileType::default_type(),
        };
        self.file_name = name;
    }

    /// The active file type.
    pub fn file_type(&self) -> (r: &FileType)
        ensures
            *r == self.ft(),
    {
        &self.file_type
    }

    /// The document's lines, each row's text as one string.
    pub fn to_lines(&self) -> (r: Vec<String>)
        requires
            self.wf(),
        ensures
            r@.len() == self.spec_rows().len(),
            forall|i: int|
                0 <= i < r@.len() ==> (#[trigger] r@[i])@ == self.spec_rows()[i].chars(),
    {
        let mut r: Vec<String> = Vec::new();
        let mut i: usize = 0;
        while i < self.rows.len()
            invariant
                i <= self.rows@.len(),
                self.wf(),
                r@.len() == i,
                forall|j: int| 0 <= j < i ==> (#[trigger] r@[j])@ == self.spec_rows()[j].chars(),
            decreases self.rows@.len() - i,
        {
            r.push(self.rows[i].to_line());
            i = i + 1;
        }
        r
    }

    /// Marks the document clean after a successful save.
    pub fn mark_saved(&mut self)
        ensures
            !final(self).spec_dirty(),
            final(self).spec_rows() == old(self).spec_rows(),
            final(self).spec_file_name() == old(self).spec_file_name(),
            final(self).ft() == old(self).ft(),
    {
        self.dirty = false;
    }

    /// Inserts one character at a position. A newline splits the row at
    /// the cursor column into two rows; at the line after the last row a
    /// new row is appended; inside a row the character is inserted at the
    /// cursor column. A position below that is ignored. Any effective
    /// change marks the document dirty.
    pub fn insert(&mut self, at: &Position, c: char)
        requires
            old(self).wf(),
        ensures
            final(self).wf(),
            final(self).spec_file_name() == old(self).spec_file_name(),
            final(self).ft() == old(self).ft(),
            inserted(*old(self), *final(self), at.x as int, at.y as int, c),
    {
        let n = self.rows.len();
        if at.y > n {
            return ;
        }
        self.dirty = true;
        if c == '\n' {
            if at.y == n {
                self.rows.push(Row::default());
            } else {
                proof {
                    assert(old(self).spec_rows()[at.y as int].wf());
                }
                let mut row = self.rows.remove(at.y);
                let new_row = row.split(at.x);
                self.rows.insert(at.y, new_row);
                self.rows.insert(at.y, row);
                proof {
                    let t = old(self).spec_rows()[at.y as int]@;
                    if at.x > t.len() {
                        assert(t.take(t.len() as int) =~= t);
                        assert(t.skip(t.len() as int) =~= Seq::<Seq<char>>::empty());
                    }
                }
            }
        } else if at.y == n {
            let mut row = Row::default();
            row.insert(0, c);
            proof {
                assert(row@ =~= seq![seq![c]]);
            }
            self.rows.push(row);
        } else {
            proof {
                assert(old(self).spec_rows()[at.y as int].wf());
            }
            let mut row = self.rows.remove(at.y);
            row.insert(at.x, c);
            self.rows.insert(at.y, row);
        }
    }

    /// Re-evaluates highlighting for rows `0 .. until` (or the whole
    /// document when `until` is absent), threading the multiline-comment
    /// carry flag from each row to the next. Rows from `until` on are
    /// left untouched, which keeps the cost bounded by the visible
    /// window.
    pub fn highlight(&mut self, word: &Option<String>, until: Option<usize>)
        requires
            old(self).wf(),
        ensures
            final(self).wf(),
            final(self).spec_rows().len() == old(self).spec_rows().len(),
            final(self).spec_dirty() == old(self).spec_dirty(),
            final(self).spec_file_name() == old(self).spec_file_name(),
            final(self).ft() == old(self).ft(),
            ({
                let rows = old(self).spec_rows();
                let n = rows.len() as int;
                let ft = old(self).ft();
                let opts = ft.options;
                let lim = match until {
                    Some(u) => if u < n {
                        u as int
                    } else {
                        n
                    },
                    None => n,
                };
                &&& (forall|j: int| lim <= j < n ==> final(self).spec_rows()[j] == rows[j])
                &&& (forall|j: int|
                    0 <= j < lim ==> (#[trigger] final(self).spec_rows()[j])@ == rows[j]@)
                &&& (forall|j: int|
                    0 <= j < lim ==> (#[trigger] final(self).spec_rows()[j]).hl()
                        == rows[j].highlight_spec_hl(
                        opts,
                        *word,
                        carry_at(rows, opts, *word, ft, j),
                        ft,
                    ))
                &&& (forall|j: int|
                    0 <= j < lim ==> (#[trigger] final(self).spec_rows()[j]).highlighted()
                        == rows[j].highlight_spec_highlighted(
                        opts,
                        *word,
                        carry_at(rows, opts, *word, ft, j),
                        ft,
                    ))
            }),
    {
        let n = self.rows.len();
        let lim = match until {
            Some(u) => if u < n {
                u
            } else {
                n
            },
            None => n,
        };
        let ghost orig = self.rows@;
        let ghost ftg = self.ft();
        let mut carry = false;
        let mut i: usize = 0;
        while i < lim
            invariant
                i <= lim <= n,
                n == orig.len(),
                self.rows@.len() == n,
                self.ft() == ftg,
                self.spec_dirty() == old(self).spec_dirty(),
                self.spec_file_name() == old(self).spec_file_name(),
                orig == old(self).spec_rows(),
                old(self).wf(),
                forall|j: int| i <= j < n ==> self.rows@[j] == orig[j],
                forall|j: int| 0 <= j < i ==> (#[trigger] self.rows@[j]).wf(),
                forall|j: int| 0 <= j < i ==> (#[trigger] self.rows@[j])@ == orig[j]@,
                forall|j: int|
                    0 <= j < i ==> (#[trigger] self.rows@[j]).hl() == orig[j].highlight_spec_hl(
                        ftg.options,
                        *word,
                        carry_at(orig, ftg.options, *word, ftg, j),
                        ftg,
                    ),
                forall|j: int|
                    0 <= j < i ==> (#[trigger] self.rows@[j]).highlighted()
                        == orig[j].highlight_spec_highlighted(
                        ftg.options,
                        *word,
                        carry_at(orig, ftg.options, *word, ftg, j),
                        ftg,
                    ),
                carry == carry_at(orig, ftg.options, *word, ftg, i as int),
            decreases lim - i,
        {
            let ghost prev = self.rows@;
            proof {
                assert(orig[i as int].wf());
            }
            let mut row = self.rows.remove(i);
            let next_carry = row.highlight(&self.file_type.options, word, carry, &self.file_type);
            self.rows.insert(i, row);
            proof {
                assert(self.rows@ =~= prev.update(i as int, row));
                assert(carry_at(orig, ftg.options, *word, ftg, i as int + 1) == next_carry);
            }
            carry = next_carry;
            i = i + 1;
        }
        proof {
            assert forall|j: int|
                0 <= j < self.spec_rows().len() implies (#[trigger] self.spec_rows()[j]).wf() by {
                if j >= i {
                    assert(self.spec_rows()[j] == orig[j]);
                    assert(orig[j].wf());
                }
            }
        }
    }

    /// Searches row by row from a starting position (its column clamped
    /// to the starting row's length): `Forward` scans the rest of the
    /// starting row and then each following row from column 0;
    /// `Backward` scans the starting row up to the cursor column and
    /// then each preceding row in full, nearest match first. It does not
    /// wrap past the document's start or end.
    pub fn find(&self, query: &str, at: &Position, direction: SearchDirection) -> (r: Option<
        Position,
    >)
        requires
            self.wf(),
        ensures
            query@.len() == 0 ==> r is None,
            ({
                let gq = graphemes_of(query@);
                let rows = self.spec_rows();
                let n = rows.len() as int;
                let x0 = if at.y < n && at.x <= rows[at.y as int]@.len() {
                    at.x as int
                } else if at.y < n {
                    rows[at.y as int]@.len() as int
                } else {
                    0
                };
                match r {
                    Some(p) => {
                        &&& gq.len() > 0
                        &&& at.y < n
                        &&& p.y < n
                        &&& Row::match_at(rows[p.y as int]@, gq, p.x as int)
                        &&& (direction == SearchDirection::Forward ==> {
                            &&& at.y <= p.y
                            &&& (p.y == at.y ==> x0 <= p.x && (forall|j: int|
                                x0 <= j < p.x ==> !Row::match_at(rows[at.y as int]@, gq, j)))
                            &&& (p.y > at.y ==> !Row::has_match_between(
                                rows[at.y as int]@,
                                gq,
                                x0,
                                rows[at.y as int]@.len() as int,
                            ) && (forall|j: int|
                                0 <= j < p.x ==> !Row::match_at(rows[p.y as int]@, gq, j)))
                            &&& (forall|y: int|
                                at.y < y < p.y ==> !Row::has_match_between(
                                    (#[trigger] rows[y])@,
                                    gq,
                                    0,
                                    rows[y]@.len() as int,
                                ))
                        })
                        &&& (direction == SearchDirection::Backward ==> {
                            &&& p.y <= at.y
                            &&& (p.y == at.y ==> p.x + gq.len() <= x0 && (forall|j: int|
                                p.x < j && j + gq.len() <= x0 ==> !Row::match_at(
                                    rows[at.y as int]@,
                                    gq,
                                    j,
                                )))
                            &&& (p.y < at.y ==> !Row::has_match_between(
                                rows[at.y as int]@,
                                gq,
                                0,
                                x0,
                            ) && (forall|j: int|
                                p.x < j && j + gq.len() <= rows[p.y as int]@.len()
                                    ==> !Row::match_at(rows[p.y as int]@, gq, j)))
                            &&& (forall|y: int|
                                p.y < y < at.y ==> !Row::has_match_between(
                                    (#[trigger] rows[y])@,
                                    gq,
                                    0,
                                    rows[y]@.len() as int,
                                ))
                        })
                    },
                    None => gq.len() == 0 || at.y >= n || (match direction {
                        SearchDirection::Forward => !Row::has_match_between(
                            rows[at.y as int]@,
                            gq,
                            x0,
                            rows[at.y as int]@.len() as int,
                        ) && (forall|y: int|
                            at.y < y < n ==> !Row::has_match_between(
                                (#[trigger] rows[y])@,
                                gq,
                                0,
                                rows[y]@.len() as int,
                            )),
                        SearchDirection::Backward => !Row::has_match_between(
                            rows[at.y as int]@,
                            gq,
                            0,
                            x0,
                        ) && (forall|y: int|
                            0 <= y < at.y ==> !Row::has_match_between(
                                (#[trigger] rows[y])@,
                                gq,
                                0,
                                rows[y]@.len() as int,
                            )),
                    }),
                }
            }),
    {
        let n = self.rows.len();
        if at.y >= n {
            return None;
        }
        let row_len = self.rows[at.y].len();
        let x0 = if at.x <= row_len {
            at.x
        } else {
            row_len
        };
        match direction {
            SearchDirection::Forward => {
                let mut y = at.y;
                let mut x = x0;
                while y < n
                    invariant
                        direction == SearchDirection::Forward,
                        self.wf(),
                        n == self.spec_rows().len(),
                        at.y <= y,
                        at.y < n,
                        x0 == (if at.x <= self.spec_rows()[at.y as int]@.len() {
                            at.x as int
                        } else {
                            self.spec_rows()[at.y as int]@.len() as int
                        }),
                        x == (if y == at.y {
                            x0 as int
                        } else {
                            0
                        }),
                        y > at.y && graphemes_of(query@).len() > 0 ==> !Row::has_match_between(
                            self.spec_rows()[at.y as int]@,
                            graphemes_of(query@),
                            x0 as int,
                            self.spec_rows()[at.y as int]@.len() as int,
                        ),
                        graphemes_of(query@).len() > 0 ==> (forall|y2: int|
                            at.y < y2 < y ==> !Row::has_match_between(
                                (#[trigger] self.spec_rows()[y2])@,
                                graphemes_of(query@),
                                0,
                                self.spec_rows()[y2]@.len() as int,
                            )),
                    decreases n - y,
                {
                    match self.rows[y].find(query, x, direction) {
                        Some(mx) => {
                            return Some(Position { x: mx, y });
                        },
                        None => {},
                    }
                    y = y + 1;
                    x = 0;
                }
                None
            },
            SearchDirection::Backward => {
                let mut y = at.y;
                let mut x = x0;
                loop
                    invariant
                        direction == SearchDirection::Backward,
                        self.wf(),
                        n == self.spec_rows().len(),
                        y <= at.y,
                        at.y < n,
                        x0 == (if at.x <= self.spec_rows()[at.y as int]@.len() {
                            at.x as int
                        } else {
                            self.spec_rows()[at.y as int]@.len() as int
                        }),
                        x == (if y == at.y {
                            x0 as int
                        } else {
                            self.spec_rows()[y as int]@.len() as int
                        }),
                        x <= self.spec_rows()[y as int]@.len(),
                        y < at.y && graphemes_of(query@).len() > 0 ==> !Row::has_match_between(
                            self.spec_rows()[at.y as int]@,
                            graphemes_of(query@),
                            0,
                            x0 as int,
                        ),
                        graphemes_of(query@).len() > 0 ==> (forall|y2: int|
                            y < y2 < at.y ==> !Row::has_match_between(
                                (#[trigger] self.spec_rows()[y2])@,
                                graphemes_of(query@),
                                0,
                                self.spec_rows()[y2]@.len() as int,
                            )),
                    decreases y,
                {
                    match self.rows[y].find(query, x, direction) {
                        Some(mx) => {
                            return Some(Position { x: mx, y });
                        },
                        None => {},
                    }
                    if y == 0 {
                        return None;
                    }
                    y = y - 1;
                    x = self.rows[y].len();
                }
            },
        }
    }

    /// Deletes the grapheme at a position. At the end of a row that is
    /// not the last, the next row is merged into it; inside a row the
    /// grapheme under the cursor is removed; at the logical end of the
    /// document nothing happens. Any effective change marks the document
    /// dirty.
    pub fn delete(&mut self, at: &Position)
        requires
            old(self).wf(),
        ensures
            final(self).wf(),
            final(self).spec_file_name() == old(self).spec_file_name(),
            final(self).ft() == old(self).ft(),
            deleted(*old(self), *final(self), at.x as int, at.y as int),
            final(self).spec_rows().len() <= old(self).spec_rows().len(),
    {
        let n = self.rows.len();
        if at.y >= n {
            return ;
        }
        let row_len = self.rows[at.y].len();
        if at.x == row_len && at.y + 1 < n {
            proof {
                assert(old(self).spec_rows()[at.y as int].wf());
                assert(old(self).spec_rows()[at.y as int + 1].wf());
            }
            let next_row = self.rows.remove(at.y + 1);
            let mut row = self.rows.remove(at.y);
            row.append(&next_row);
            self.rows.insert(at.y, row);
            self.dirty = true;
        } else if at.x < row_len {
            proof {
                assert(old(self).spec_rows()[at.y as int].wf());
            }
            let mut row = self.rows.remove(at.y);
            row.delete(at.x);
            self.rows.insert(at.y, row);
            self.dirty = true;
        }
    }
    /// Deletes up to `n` graphemes at one position, as `n` single
    /// deletions would. When the whole span lies inside one row, exactly
    /// that span of graphemes disappears; spans that reach a row end
    /// merge following rows in turn.
    pub fn delete_n(&mut self, at: &Position, n: usize)
        requires
            old(self).wf(),
        ensures
            final(self).wf(),
            final(self).spec_file_name() == old(self).spec_file_name(),
            final(self).ft() == old(self).ft(),
            deleted_n(*old(self), *final(self), at.x as int, at.y as int, n as int),
    {
        let ghost rows0 = self.spec_rows();
        let ghost t = if (at.y as int) < rows0.len() {
            rows0[at.y as int]@
        } else {
            Seq::<Seq<char>>::empty()
        };
        let ghost exact = n > 0 && (at.y as int) < rows0.len() && at.x + n <= t.len();
        let mut k: usize = 0;
        while k < n
            invariant
                k <= n,
                self.wf(),
                self.spec_file_name() == old(self).spec_file_name(),
                self.ft() == old(self).ft(),
                self.spec_rows().len() <= rows0.len(),
                rows0 == old(self).spec_rows(),
                t == (if (at.y as int) < rows0.len() {
                    rows0[at.y as int]@
                } else {
                    Seq::<Seq<char>>::empty()
                }),
                exact == (n > 0 && (at.y as int) < rows0.len() && at.x + n <= t.len()),
                k == 0 ==> self.spec_rows() == rows0 && self.spec_dirty() == old(self).spec_dirty(),
                at.y >= rows0.len() ==> self.spec_rows() == rows0 && self.spec_dirty() == old(self).spec_dirty(),
                exact ==> {
                    &&& self.spec_rows().len() == rows0.len()
                    &&& (forall|j: int|
                        0 <= j < rows0.len() && j != at.y ==> self.spec_rows()[j] == rows0[j])
                    &&& self.spec_rows()[at.y as int]@ == t.take(at.x as int) + t.skip(at.x + k)
                    &&& (k > 0 ==> self.spec_dirty())
                },
            decreases n - k,
        {
            let ghost before = self.spec_rows();
            self.delete(at);
            proof {
                if exact {
                    let cur = before[at.y as int]@;
                    assert(cur == t.take(at.x as int) + t.skip(at.x + k));
                    assert(cur.len() == t.len() - k);
                    assert(at.x < cur.len());
                    assert(cur.remove(at.x as int) =~= t.take(at.x as int) + t.skip(
                        at.x + (k + 1),
                    ));
                }
            }
            k = k + 1;
        }
    }

}

} // verus!
