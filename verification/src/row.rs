//! One line of the document: a sequence of grapheme clusters with a
//! parallel highlighting annotation.
//!
//! A `Row` is modelled as the sequence of its grapheme clusters, each
//! cluster a sequence of characters (`Seq<Seq<char>>`). Every editing and
//! query operation is indexed by grapheme, never by byte, so multi-byte
//! content is never split mid-cluster.

use vstd::prelude::*;
use vstd::string::StrSliceExecFns;
use vstd::string::StringExecFns;

use crate::filetype::FileType;
use crate::filetype::HighlightingOptions;
use crate::graphemes::graphemes_of;
use crate::graphemes::split_graphemes;
use crate::highlighting::Type;
use crate::org::classify_markup;
use crate::org::markup_classify;
use crate::search::SearchDirection;
use crate::syntax::cluster_is;
use crate::syntax::classify_code;
use crate::syntax::lemma_scan_code_carry;
use crate::syntax::lemma_scan_code_len;
use crate::syntax::scan_code;

verus! {

/// One line of text. `text` holds one grapheme cluster per element;
/// `highlighting` annotates the clusters positionally (it may be stale or
/// shorter than the text; uncovered indices render as `Type::Plain`);
/// `len` caches the grapheme count.
pub struct Row {
    text: Vec<String>,
    highlighting: Vec<Type>,
    highlighted: bool,
    len: usize,
}

impl View for Row {
    type V = Seq<Seq<char>>;

    /// A row is viewed as its sequence of grapheme clusters.
    closed spec fn view(&self) -> Seq<Seq<char>> {
        self.text.deep_view()
    }
}

/// Appends one character to a string. Relies on `String::push`, which
/// appends the given character to the end of the string.
pub assume_specification[ std::string::String::push ](s: &mut std::string::String, ch: char)
    ensures
        final(s)@ == old(s)@.push(ch),
;

/// A fresh one-character grapheme cluster.
fn char_cluster(c: char) -> (r: String)
    ensures
        r@ == seq![c],
{
    let mut s = String::new();
    s.push(c);
    proof {
        assert(s@ =~= seq![c]);
    }
    s
}

impl Default for Row {
    fn default() -> (r: Self)
        ensures
            r.wf(),
            r@ == Seq::<Seq<char>>::empty(),
            r.hl() == Seq::<Type>::empty(),
            !r.highlighted(),
    {
        let r = Row { text: Vec::new(), highlighting: Vec::new(), highlighted: false, len: 0 };
        proof {
            assert(r@ =~= Seq::<Seq<char>>::empty());
        }
        r
    }
}

/// `hl` with positions `i .. i + n` overridden by the `Match` category.
pub open spec fn stamped(hl: Seq<Type>, i: int, n: int) -> Seq<Type> {
    Seq::new(hl.len(), |k: int| if i <= k < i + n { Type::Match } else { hl[k] })
}

/// The starting index of the first match of `q` at or after `pos`, if any.
pub open spec fn first_match_from(t: Seq<Seq<char>>, q: Seq<Seq<char>>, pos: int) -> Option<int>
    decreases t.len() - pos when 0 <= pos && q.len() > 0
{
    if pos + q.len() > t.len() {
        None
    } else if Row::match_at(t, q, pos) {
        Some(pos)
    } else {
        first_match_from(t, q, pos + 1)
    }
}

/// What `first_match_from` finds is the first match: a match in range,
/// with none before it; and if it finds nothing there is none.
pub proof fn lemma_first_match_from(t: Seq<Seq<char>>, q: Seq<Seq<char>>, pos: int)
    requires
        0 <= pos,
        q.len() > 0,
    ensures
        match first_match_from(t, q, pos) {
            Some(m) => pos <= m && m + q.len() <= t.len() && Row::match_at(t, q, m) && (forall|
                j: int,
            | pos <= j < m ==> !Row::match_at(t, q, j)),
            None => forall|j: int| pos <= j && j + q.len() <= t.len() ==> !Row::match_at(t, q, j),
        },
    decreases t.len() - pos,
{
    if pos + q.len() > t.len() {
    } else if Row::match_at(t, q, pos) {
    } else {
        lemma_first_match_from(t, q, pos + 1);
    }
}

/// The search overlay: every non-overlapping occurrence of `q` in `t`,
/// scanned left to right from `pos` and advancing past each match before
/// searching again, stamped with the `Match` category over `hl`.
pub open spec fn overlay(t: Seq<Seq<char>>, q: Seq<Seq<char>>, hl: Seq<Type>, pos: int) -> Seq<
    Type,
>
    decreases t.len() - pos when 0 <= pos via overlay_decreases
{
    if q.len() == 0 {
        hl
    } else {
        match first_match_from(t, q, pos) {
            None => hl,
            Some(m) => overlay(t, q, stamped(hl, m, q.len() as int), m + q.len()),
        }
    }
}

#[via_fn]
proof fn overlay_decreases(t: Seq<Seq<char>>, q: Seq<Seq<char>>, hl: Seq<Type>, pos: int) {
    if q.len() > 0 {
        lemma_first_match_from(t, q, pos);
    }
}

/// A base classification with the search overlay applied when a search
/// word is active.
pub open spec fn overlaid(t: Seq<Seq<char>>, word: Option<String>, base: Seq<Type>) -> Seq<Type> {
    match word {
        Some(w) => overlay(t, graphemes_of(w@), base, 0),
        None => base,
    }
}

impl Row {
    /// The cached grapheme count agrees with the text.
    pub closed spec fn wf(&self) -> bool {
        self.len == self.text@.len()
    }

    /// Whether the cached highlighting annotation is considered current.
    pub closed spec fn highlighted(&self) -> bool {
        self.highlighted
    }

    /// Whether the cached highlighting annotation is considered current.
    pub fn is_highlighted(&self) -> (b: bool)
        ensures
            b == self.highlighted(),
    {
        self.highlighted
    }

    /// The highlighting annotation, one category per covered grapheme.
    pub closed spec fn hl(&self) -> Seq<Type> {
        self.highlighting@
    }

    /// The characters of the row, clusters concatenated.
    pub open spec fn chars(&self) -> Seq<char> {
        self@.flatten()
    }

    /// A copy of the highlighting annotation.
    pub fn highlighting(&self) -> (r: Vec<Type>)
        ensures
            r@ == self.hl(),
    {
        let mut r: Vec<Type> = Vec::new();
        let mut i: usize = 0;
        while i < self.highlighting.len()
            invariant
                i <= self.highlighting@.len(),
                r@ == self.hl().take(i as int),
            decreases self.highlighting@.len() - i,
        {
            r.push(self.highlighting[i]);
            proof {
                assert(r@ =~= self.hl().take(i as int + 1));
            }
            i = i + 1;
        }
        proof {
            assert(self.hl().take(self.hl().len() as int) =~= self.hl());
        }
        r
    }

    /// Builds a row from a line of text by segmenting it into grapheme
    /// clusters. The new row carries fresh (empty) highlighting state.
    pub fn from_line(s: &str) -> (r: Row)
        ensures
            r.wf(),
            r@ == graphemes_of(s@),
            r.chars() == s@,
            r.hl() == Seq::<Type>::empty(),
            !r.highlighted(),
    {
        let text = split_graphemes(s);
        let len = text.len();
        Row { text, highlighting: Vec::new(), highlighted: false, len }
    }

    /// The number of grapheme clusters in the row.
    pub fn len(&self) -> (l: usize)
        requires
            self.wf(),
        ensures
            l == self@.len(),
    {
        self.len
    }

    pub fn is_empty(&self) -> (b: bool)
        requires
            self.wf(),
        ensures
            b == (self@.len() == 0),
    {
        self.len == 0
    }

    /// Inserts one character before grapheme index `at` as a cluster of its
    /// own; if `at` is at or past the end, appends it. Invalidates the
    /// cached highlighting.
    pub fn insert(&mut self, at: usize, c: char)
        requires
            old(self).wf(),
        ensures
            final(self).wf(),
            at < old(self)@.len() ==> final(self)@ == old(self)@.insert(at as int, seq![c]),
            at >= old(self)@.len() ==> final(self)@ == old(self)@.push(seq![c]),
            final(self)@.len() == old(self)@.len() + 1,
            final(self).hl() == old(self).hl(),
            !final(self).highlighted(),
    {
        let cluster = char_cluster(c);
        let ghost prev = self.text.deep_view();
        if at >= self.len {
            self.text.push(cluster);
            proof {
                assert(self.text.deep_view() =~= prev.push(seq![c]));
            }
        } else {
            self.text.insert(at, cluster);
            proof {
                assert(self.text.deep_view() =~= prev.insert(at as int, seq![c]));
            }
        }
        self.len = self.text.len();
        self.highlighted = false;
    }

    /// Removes the grapheme at `at`; a no-op if `at` is past the end.
    /// Invalidates the cached highlighting when it removes anything.
    pub fn delete(&mut self, at: usize)
        requires
            old(self).wf(),
        ensures
            final(self).wf(),
            at < old(self)@.len() ==> final(self)@ == old(self)@.remove(at as int)
                && !final(self).highlighted(),
            at >= old(self)@.len() ==> final(self)@ == old(self)@
                && final(self).highlighted() == old(self).highlighted(),
            final(self).hl() == old(self).hl(),
    {
        if at >= self.len {
            return ;
        }
        let ghost prev = self.text.deep_view();
        self.text.remove(at);
        proof {
            assert(self.text.deep_view() =~= prev.remove(at as int));
        }
        self.len = self.text.len();
        self.highlighted = false;
    }

    /// Concatenates another row's text onto the end of this one; the
    /// lengths add.
    pub fn append(&mut self, other: &Row)
        requires
            old(self).wf(),
            other.wf(),
        ensures
            final(self).wf(),
            final(self)@ == old(self)@ + other@,
            final(self)@.len() == old(self)@.len() + other@.len(),
            final(self).hl() == old(self).hl(),
            final(self).highlighted() == old(self).highlighted(),
    {
        let ghost base = self.text.deep_view();
        let mut i: usize = 0;
        while i < other.text.len()
            invariant
                i <= other.text@.len(),
                self.text.deep_view() =~= base + other.text.deep_view().take(i as int),
                self.highlighting == old(self).highlighting,
                self.highlighted == old(self).highlighted,
            decreases other.text@.len() - i,
        {
            let ghost prev = self.text.deep_view();
            let cluster = other.text[i].clone();
            self.text.push(cluster);
            proof {
                assert(self.text.deep_view() =~= prev.push(other.text.deep_view()[i as int]));
                assert(self.text.deep_view() =~= base + other.text.deep_view().take(i as int + 1));
            }
            i = i + 1;
        }
        proof {
            assert(other.text.deep_view().take(other.text@.len() as int) =~= other@);
        }
        self.len = self.text.len();
    }

    /// Splits the row at grapheme index `at`: graphemes before `at` stay in
    /// place, the rest move to the returned row, which carries fresh
    /// (empty) highlighting state. An `at` past the end moves nothing.
    pub fn split(&mut self, at: usize) -> (r: Row)
        requires
            old(self).wf(),
        ensures
            final(self).wf(),
            r.wf(),
            at <= old(self)@.len() ==> final(self)@ == old(self)@.take(at as int)
                && r@ == old(self)@.skip(at as int),
            at > old(self)@.len() ==> final(self)@ == old(self)@ && r@ == Seq::<Seq<char>>::empty(),
            old(self)@ == final(self)@ + r@,
            final(self).hl() == old(self).hl(),
            !final(self).highlighted(),
            r.hl() == Seq::<Type>::empty(),
            !r.highlighted(),
    {
        let cut = if at <= self.len {
            at
        } else {
            self.len
        };
        let ghost prev = self.text.deep_view();
        let tail = self.text.split_off(cut);
        proof {
            assert(self.text.deep_view() =~= prev.take(cut as int));
            assert(tail.deep_view() =~= prev.skip(cut as int));
            assert(prev =~= prev.take(cut as int) + prev.skip(cut as int));
        }
        self.len = self.text.len();
        self.highlighted = false;
        let rlen = tail.len();
        Row { text: tail, highlighting: Vec::new(), highlighted: false, len: rlen }
    }

    /// Whether the row contains the query's clusters, starting exactly at
    /// grapheme index `i`.
    pub open spec fn match_at(t: Seq<Seq<char>>, q: Seq<Seq<char>>, i: int) -> bool {
        &&& 0 <= i
        &&& i + q.len() <= t.len()
        &&& t.subrange(i, i + q.len() as int) == q
    }

    /// Whether some match of `q` starts at or after `lo` and ends at or
    /// before `hi`.
    pub open spec fn has_match_between(t: Seq<Seq<char>>, q: Seq<Seq<char>>, lo: int, hi: int) -> bool {
        exists|i: int| lo <= i && i + q.len() <= hi && Self::match_at(t, q, i)
    }

    /// Whether the query's clusters stand at grapheme index `i`.
    fn matches_at(&self, q: &Vec<String>, i: usize) -> (b: bool)
        requires
            self.wf(),
            i + q@.len() <= self@.len(),
        ensures
            b == Self::match_at(self@, q.deep_view(), i as int),
    {
        let n = q.len();
        let mut j: usize = 0;
        while j < n
            invariant
                j <= n,
                n == q@.len(),
                i + n <= self@.len(),
                self.wf(),
                forall|k: int| 0 <= k < j ==> self@[i + k] == q.deep_view()[k],
            decreases n - j,
        {
            if !(self.text[i + j] == q[j]) {
                proof {
                    assert(self@[i + j] != q.deep_view()[j as int]);
                    assert(self@.subrange(i as int, i as int + q.deep_view().len() as int)[j as int]
                        == self@[i + j]);
                }
                return false;
            }
            j = j + 1;
        }
        proof {
            assert(self@.subrange(i as int, i as int + q.deep_view().len() as int)
                =~= q.deep_view());
        }
        true
    }

    /// Searches for `query` as a literal run of grapheme clusters, so a
    /// returned index is always a grapheme index and a match never
    /// starts inside a multi-codepoint cluster. `Forward` scans
    /// `[at, len)` and returns the first match's starting grapheme
    /// index; `Backward` scans `[0, at)` (the match must end by `at`)
    /// and returns the last such index. An empty query, or `at` beyond
    /// the end, finds nothing.
    pub fn find(&self, query: &str, at: usize, direction: SearchDirection) -> (r: Option<usize>)
        requires
            self.wf(),
        ensures
            query@.len() == 0 ==> r is None,
            ({
                let gq = graphemes_of(query@);
                let t = self@;
                match r {
                    Some(i) => {
                        &&& gq.len() > 0
                        &&& at <= t.len()
                        &&& Self::match_at(t, gq, i as int)
                        &&& direction == SearchDirection::Forward ==> at <= i && (forall|j: int|
                            at <= j < i ==> !Self::match_at(t, gq, j))
                        &&& direction == SearchDirection::Backward ==> i + gq.len() <= at && (
                        forall|j: int| i < j && j + gq.len() <= at ==> !Self::match_at(t, gq, j))
                    },
                    None => gq.len() == 0 || at > t.len() || (match direction {
                        SearchDirection::Forward => !Self::has_match_between(t, gq, at as int, t.len() as int),
                        SearchDirection::Backward => !Self::has_match_between(t, gq, 0, at as int),
                    }),
                }
            }),
    {
        let q = split_graphemes(query);
        proof {
            if query@.len() == 0 && q.deep_view().len() > 0 {
                // Nonempty clusters cannot flatten to an empty string.
                q.deep_view().lemma_flatten_and_flatten_alt_are_equivalent();
                q.deep_view().lemma_flatten_length_ge_single_element_length(0);
            }
        }
        if q.len() == 0 || at > self.len {
            return None;
        }
        match direction {
            SearchDirection::Forward => {
                if q.len() > self.len {
                    return None;
                }
                let last = self.len - q.len();
                let mut i = at;
                while i <= last
                    invariant
                        direction == SearchDirection::Forward,
                        query@.len() > 0,
                        self.wf(),
                        at <= i,
                        at <= self@.len(),
                        q@.len() > 0,
                        q.deep_view() == graphemes_of(query@),
                        last == self@.len() - q@.len(),
                        q@.len() <= self@.len(),
                        forall|j: int| at <= j < i ==> !Self::match_at(self@, q.deep_view(), j),
                    decreases last + 1 - i,
                {
                    if self.matches_at(&q, i) {
                        return Some(i);
                    }
                    i = i + 1;
                }
                proof {
                    assert forall|j: int|
                        at <= j && j + graphemes_of(query@).len() <= self@.len() implies !Self::match_at(
                        self@,
                        graphemes_of(query@),
                        j,
                    ) by {
                        assert(!Self::match_at(self@, q.deep_view(), j));
                    }
                }
                None
            },
            SearchDirection::Backward => {
                if q.len() > at {
                    return None;
                }
                // Candidate start indices are 0 ..= at - q.len(), scanned
                // from the highest down; `bound` is one past the next
                // candidate to try.
                let mut bound = at - q.len() + 1;
                while bound > 0
                    invariant
                        direction == SearchDirection::Backward,
                        query@.len() > 0,
                        self.wf(),
                        q@.len() > 0,
                        at <= self@.len(),
                        q.deep_view() == graphemes_of(query@),
                        q@.len() <= at,
                        bound <= at - q@.len() + 1,
                        forall|j: int|
                            bound <= j && j + q.deep_view().len() <= at ==> !Self::match_at(
                                self@,
                                q.deep_view(),
                                j,
                            ),
                    decreases bound,
                {
                    let i = bound - 1;
                    if self.matches_at(&q, i) {
                        return Some(i);
                    }
                    bound = i;
                }
                proof {
                    assert forall|j: int|
                        0 <= j && j + graphemes_of(query@).len() <= at implies !Self::match_at(
                        self@,
                        graphemes_of(query@),
                        j,
                    ) by {
                        assert(!Self::match_at(self@, q.deep_view(), j));
                    }
                }
                None
            },
        }
    }

    /// Stamps every non-overlapping occurrence of the search word with the
    /// `Match` category, scanning left to right and advancing past each
    /// match before searching again.
    fn highlight_match(&mut self, word: &Option<String>)
        requires
            old(self).wf(),
            old(self).hl().len() == old(self)@.len(),
        ensures
            final(self).wf(),
            final(self)@ == old(self)@,
            final(self).highlighted() == old(self).highlighted(),
            final(self).hl().len() == old(self)@.len(),
            match word {
                Some(w) => final(self).hl() == overlay(
                    old(self)@,
                    graphemes_of(w@),
                    old(self).hl(),
                    0,
                ),
                None => final(self).hl() == old(self).hl(),
            },
    {
        let w = match word {
            Some(w) => w,
            None => {
                return ;
            },
        };
        let q = split_graphemes(w.as_str());
        let qlen = q.len();
        let ghost t = self@;
        let ghost gq = graphemes_of(w@);
        let ghost hl0 = self.hl();
        if qlen == 0 {
            proof {
                assert(gq.len() == 0);
            }
            return ;
        }
        let mut index: usize = 0;
        loop
            invariant
                self.wf(),
                self@ == t,
                self.highlighted() == old(self).highlighted(),
                self.hl().len() == t.len(),
                gq == graphemes_of(w@),
                gq.len() == qlen,
                qlen > 0,
                index <= t.len(),
                overlay(t, gq, hl0, 0) == overlay(t, gq, self.hl(), index as int),
            ensures
                self.wf(),
                self@ == t,
                self.highlighted() == old(self).highlighted(),
                self.hl().len() == t.len(),
                self.hl() == overlay(t, gq, hl0, 0),
            decreases t.len() - index,
        {
            let found = self.find(w.as_str(), index, SearchDirection::Forward);
            match found {
                None => {
                    proof {
                        lemma_first_match_from(t, gq, index as int);
                        if let Some(m2) = first_match_from(t, gq, index as int) {
                            assert(Self::has_match_between(t, gq, index as int, t.len() as int));
                            assert(false);
                        }
                        assert(overlay(t, gq, self.hl(), index as int) == self.hl());
                    }
                    break ;
                },
                Some(m) => {
                    proof {
                        lemma_first_match_from(t, gq, index as int);
                        match first_match_from(t, gq, index as int) {
                            None => {
                                assert(!Row::match_at(t, gq, m as int));
                            },
                            Some(m2) => {
                                if m2 < m {
                                    assert(!Row::match_at(t, gq, m2));
                                } else if m < m2 {
                                    assert(!Row::match_at(t, gq, m as int));
                                }
                            },
                        }
                        assert(first_match_from(t, gq, index as int) == Some(m as int));
                        assert(m + qlen <= t.len());
                    }
                    let end = m + qlen;
                    let ghost prev = self.hl();
                    let mut k = m;
                    proof {
                        assert(stamped(prev, m as int, 0) =~= prev);
                    }
                    while k < end
                        invariant
                            m <= k <= end,
                            end == m + qlen,
                            end <= t.len(),
                            self.wf(),
                            self@ == t,
                            self.highlighted() == old(self).highlighted(),
                            self.hl().len() == t.len(),
                            self.hl() == stamped(prev, m as int, k - m),
                        decreases end - k,
                    {
                        self.highlighting[k] = Type::Match;
                        proof {
                            assert(self.hl() =~= stamped(prev, m as int, k + 1 - m));
                        }
                        k = k + 1;
                    }
                    proof {
                        assert(self.hl() == stamped(prev, m as int, gq.len() as int));
                        assert(overlay(t, gq, prev, index as int) == overlay(
                            t,
                            gq,
                            stamped(prev, m as int, gq.len() as int),
                            m + gq.len(),
                        ));
                    }
                    index = end;
                },
            }
        }
    }

    /// The cached classification can be reused: the row is already marked
    /// highlighted, no search word is active, and the cache cannot be
    /// hiding an open block comment (its last category is not
    /// `MultilineComment`, and the row is not an empty one scanned inside
    /// an open comment).
    pub open spec fn code_cache_fresh(&self, word: Option<String>, carry_in: bool) -> bool {
        &&& self.highlighted()
        &&& word is None
        &&& !(self.hl().len() > 0 && self.hl().last() == Type::MultilineComment)
        &&& !(self@.len() == 0 && carry_in)
    }

    /// The annotation `highlight` leaves on the row.
    pub open spec fn highlight_spec_hl(
        &self,
        opts: HighlightingOptions,
        word: Option<String>,
        carry_in: bool,
        ft: FileType,
    ) -> Seq<Type> {
        if ft.markup {
            overlaid(self@, word, markup_classify(self@))
        } else if self.code_cache_fresh(word, carry_in) {
            self.hl()
        } else {
            overlaid(self@, word, scan_code(self@, opts, 0, carry_in).0)
        }
    }

    /// The carry flag `highlight` reports: whether the row's trailing
    /// state still has an open multiline comment to propagate.
    pub open spec fn highlight_spec_carry(
        &self,
        opts: HighlightingOptions,
        word: Option<String>,
        carry_in: bool,
        ft: FileType,
    ) -> bool {
        if ft.markup {
            false
        } else if self.code_cache_fresh(word, carry_in) {
            false
        } else {
            scan_code(self@, opts, 0, carry_in).1
        }
    }

    /// Whether `highlight` leaves the row marked highlighted.
    pub open spec fn highlight_spec_highlighted(
        &self,
        opts: HighlightingOptions,
        word: Option<String>,
        carry_in: bool,
        ft: FileType,
    ) -> bool {
        if ft.markup {
            true
        } else if self.code_cache_fresh(word, carry_in) {
            self.highlighted()
        } else {
            true
        }
    }

    /// Classifies the row. The markup ruleset always recomputes; the code
    /// ruleset skips recomputation when the cached classification is
    /// fresh, and otherwise scans the row with `start_with_comment` as
    /// the carry-in flag. A non-empty search word overlays `Match` spans
    /// either way. Returns whether an open multiline comment propagates
    /// to the next row.
    pub fn highlight(
        &mut self,
        opts: &HighlightingOptions,
        word: &Option<String>,
        start_with_comment: bool,
        file_type: &FileType,
    ) -> (carry: bool)
        requires
            old(self).wf(),
        ensures
            final(self).wf(),
            final(self)@ == old(self)@,
            final(self).hl() == old(self).highlight_spec_hl(
                *opts,
                *word,
                start_with_comment,
                *file_type,
            ),
            carry == old(self).highlight_spec_carry(*opts, *word, start_with_comment, *file_type),
            final(self).highlighted() == old(self).highlight_spec_highlighted(
                *opts,
                *word,
                start_with_comment,
                *file_type,
            ),
    {
        if file_type.markup {
            let hl = classify_markup(&self.text);
            self.highlighting = hl;
            self.highlight_match(word);
            self.highlighted = true;
            return false;
        }
        if self.highlighted && word.is_none() {
            let hn = self.highlighting.len();
            let tail_ok = hn == 0 || !(self.highlighting[hn - 1] == Type::MultilineComment);
            let fresh = tail_ok && !(self.len == 0 && start_with_comment);
            if fresh {
                return false;
            }
        }
        let r = classify_code(&self.text, opts, start_with_comment);
        self.highlighting = r.0;
        self.highlight_match(word);
        self.highlighted = true;
        r.1
    }

    /// Highlighting is idempotent: once a row is marked highlighted, a
    /// second call of `highlight` with the same search word and carry-in
    /// flag leaves the classification exactly as the first call did, and
    /// reports the same carry flag. `second` stands for the row as the
    /// first call left it.
    pub proof fn lemma_highlight_idempotent(
        first: Row,
        second: Row,
        opts: HighlightingOptions,
        word: Option<String>,
        carry_in: bool,
        ft: FileType,
    )
        requires
            first.wf(),
            second@ == first@,
            second.hl() == first.highlight_spec_hl(opts, word, carry_in, ft),
            second.highlighted() == first.highlight_spec_highlighted(opts, word, carry_in, ft),
        ensures
            second.highlight_spec_hl(opts, word, carry_in, ft) == second.hl(),
            second.highlight_spec_carry(opts, word, carry_in, ft) == first.highlight_spec_carry(
                opts,
                word,
                carry_in,
                ft,
            ),
    {
        if ft.markup {
        } else if first.code_cache_fresh(word, carry_in) {
            assert(second.code_cache_fresh(word, carry_in));
        } else {
            match word {
                Some(w) => {
                    assert(!second.code_cache_fresh(word, carry_in));
                },
                None => {
                    let scan = scan_code(first@, opts, 0, carry_in);
                    assert(second.hl() == scan.0);
                    if second.code_cache_fresh(word, carry_in) {
                        // The second call skips and reports no carry; the
                        // first scan cannot have ended inside an open
                        // comment either, or its last category would be
                        // `MultilineComment`.
                        if scan.1 {
                            lemma_scan_code_carry(first@, opts, 0, carry_in);
                            if first@.len() > 0 {
                                lemma_scan_code_len(first@, opts, 0, carry_in);
                                assert(second.hl().len() > 0 && second.hl().last()
                                    == Type::MultilineComment);
                            }
                        }
                        assert(first.highlight_spec_carry(opts, word, carry_in, ft) == false);
                    } else {
                    }
                },
            }
        }
    }

    /// Deleting the grapheme at a valid index and re-inserting the
    /// original character restores the row's content and length, for
    /// every index whose grapheme is that single character. The two
    /// clauses cover `insert`'s in-range and append cases.
    pub proof fn lemma_delete_insert_restores(t: Seq<Seq<char>>, i: int, c: char)
        requires
            0 <= i < t.len(),
            t[i] == seq![c],
        ensures
            i < t.len() - 1 ==> t.remove(i).insert(i, seq![c]) == t,
            i == t.len() - 1 ==> t.remove(i).push(seq![c]) == t,
    {
        if i < t.len() - 1 {
            assert(t.remove(i).insert(i, seq![c]) =~= t);
        } else {
            assert(t.remove(i).push(seq![c]) =~= t);
        }
    }

    /// Splitting a row at any index in `0..=len` and appending the
    /// split-off part back reconstitutes the original text exactly:
    /// `split` leaves `t.take(at)` and returns `t.skip(at)`, and `append`
    /// concatenates them again.
    pub proof fn lemma_split_append_restores(t: Seq<Seq<char>>, at: int)
        requires
            0 <= at <= t.len(),
        ensures
            t.take(at) + t.skip(at) == t,
    {
        assert(t.take(at) + t.skip(at) =~= t);
    }

    /// The visible slice of the row between grapheme columns `start` and
    /// `end`, clamped to `start <= end <= len`: for each grapheme its
    /// category (uncovered indices are unclassified) and its text, with a
    /// tab rendered as a single space. The render collaborator maps
    /// categories to colors and draws.
    pub fn render_cells(&self, start: usize, end: usize) -> (r: Vec<(Type, String)>)
        requires
            self.wf(),
        ensures
            ({
                let e = if end > self@.len() {
                    self@.len() as int
                } else {
                    end as int
                };
                let s = if start as int > e {
                    e
                } else {
                    start as int
                };
                &&& r@.len() == e - s
                &&& forall|k: int|
                    0 <= k < r@.len() ==> (#[trigger] r@[k]).0 == (if s + k < self.hl().len() {
                        self.hl()[s + k]
                    } else {
                        Type::Plain
                    })
                &&& forall|k: int|
                    0 <= k < r@.len() ==> (#[trigger] r@[k]).1@ == (if self@[s + k]
                        == seq!['\t'] {
                        seq![' ']
                    } else {
                        self@[s + k]
                    })
            }),
    {
        let e = if end > self.len {
            self.len
        } else {
            end
        };
        let s = if start > e {
            e
        } else {
            start
        };
        let mut r: Vec<(Type, String)> = Vec::new();
        let mut k = s;
        while k < e
            invariant
                s <= k <= e,
                e <= self@.len(),
                self.wf(),
                r@.len() == k - s,
                forall|j: int|
                    0 <= j < r@.len() ==> (#[trigger] r@[j]).0 == (if s + j < self.hl().len() {
                        self.hl()[s + j]
                    } else {
                        Type::Plain
                    }),
                forall|j: int|
                    0 <= j < r@.len() ==> (#[trigger] r@[j]).1@ == (if self@[s + j]
                        == seq!['\t'] {
                        seq![' ']
                    } else {
                        self@[s + j]
                    }),
            decreases e - k,
        {
            let cat = if k < self.highlighting.len() {
                self.highlighting[k]
            } else {
                Type::Plain
            };
            let cell = if cluster_is(&self.text[k], '\t') {
                char_cluster(' ')
            } else {
                self.text[k].clone()
            };
            r.push((cat, cell));
            k = k + 1;
        }
        r
    }

    /// The row's text as one string, clusters concatenated in order.
    pub fn to_line(&self) -> (r: String)
        ensures
            r@ == self.chars(),
    {
        let mut line = String::new();
        let mut i: usize = 0;
        proof {
            assert(self.text.deep_view().take(0).flatten() =~= Seq::<char>::empty());
        }
        while i < self.text.len()
            invariant
                i <= self.text@.len(),
                line@ == self.text.deep_view().take(i as int).flatten(),
            decreases self.text@.len() - i,
        {
            let ghost prefix = self.text.deep_view().take(i as int);
            line.append(self.text[i].as_str());
            proof {
                prefix.lemma_flatten_push(self.text.deep_view()[i as int]);
                assert(self.text.deep_view().take(i as int + 1) =~= prefix.push(
                    self.text.deep_view()[i as int],
                ));
            }
            i = i + 1;
        }
        proof {
            assert(self.text.deep_view().take(self.text@.len() as int) =~= self@);
        }
        line
    }

    /// The UTF-8 bytes of the row's text.
    pub fn as_bytes(&self) -> (r: Vec<u8>)
        ensures
            r@ == vstd::utf8::encode_utf8(self.chars()),
    {
        let line = self.to_line();
        line.as_str().as_bytes_vec()
    }
}

} // verus!
