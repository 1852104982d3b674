//! The code ruleset: a single forward scan over a row's grapheme clusters
//! that recognizes numeric literals, quoted strings, quoted characters,
//! line comments, block comments carried across rows, and two keyword
//! classes matched on whole-word boundaries.
//!
//! `scan_code` is the mathematical model of the scan; `classify_code`
//! computes it.

use vstd::prelude::*;
use vstd::string::StrSliceExecFns;
use vstd::string::StringExecFns;

use crate::filetype::HighlightingOptions;
use crate::highlighting::Type;

verus! {

/// Whether `c` is a separator: ASCII punctuation or ASCII whitespace.
pub open spec fn is_separator_char(c: char) -> bool {
    ||| (0x21 <= c as u32 && c as u32 <= 0x2f)
    ||| (0x3a <= c as u32 && c as u32 <= 0x40)
    ||| (0x5b <= c as u32 && c as u32 <= 0x60)
    ||| (0x7b <= c as u32 && c as u32 <= 0x7e)
    ||| c as u32 == 0x20
    ||| c as u32 == 0x09
    ||| c as u32 == 0x0a
    ||| c as u32 == 0x0c
    ||| c as u32 == 0x0d
}

/// Whether `c` is an ASCII digit.
pub open spec fn is_digit_char(c: char) -> bool {
    0x30 <= c as u32 && c as u32 <= 0x39
}

/// Separators split candidate words; a word is a maximal run of
/// non-separator graphemes.
pub fn is_separator(c: char) -> (b: bool)
    ensures
        b == is_separator_char(c),
{
    let u = c as u32;
    (0x21 <= u && u <= 0x2f) || (0x3a <= u && u <= 0x40) || (0x5b <= u && u <= 0x60) || (0x7b <= u
        && u <= 0x7e) || u == 0x20 || u == 0x09 || u == 0x0a || u == 0x0c || u == 0x0d
}

/// A grapheme cluster that is exactly one separator character.
pub open spec fn is_sep_cluster(g: Seq<char>) -> bool {
    g.len() == 1 && is_separator_char(g[0])
}

/// A grapheme cluster that is exactly one ASCII digit.
pub open spec fn is_digit_cluster(g: Seq<char>) -> bool {
    g.len() == 1 && is_digit_char(g[0])
}

/// A word or number may only start at the line start or after a
/// separator.
pub open spec fn boundary_before(t: Seq<Seq<char>>, i: int) -> bool {
    i == 0 || is_sep_cluster(t[i - 1])
}

/// The end of the maximal run of non-separator clusters from `i`.
pub open spec fn run_end(t: Seq<Seq<char>>, i: int) -> int
    decreases t.len() - i when 0 <= i <= t.len()
{
    if i >= t.len() {
        i
    } else if is_sep_cluster(t[i]) {
        i
    } else {
        run_end(t, i + 1)
    }
}

pub proof fn lemma_run_end_bounds(t: Seq<Seq<char>>, i: int)
    requires
        0 <= i <= t.len(),
    ensures
        i <= run_end(t, i) <= t.len(),
    decreases t.len() - i,
{
    if i < t.len() && !is_sep_cluster(t[i]) {
        lemma_run_end_bounds(t, i + 1);
    }
}

/// The index of the first closing double quote at or after `i`, or the
/// length if the string literal is unterminated.
pub open spec fn string_close(t: Seq<Seq<char>>, i: int) -> int
    decreases t.len() - i when 0 <= i <= t.len()
{
    if i >= t.len() {
        i
    } else if t[i] == seq!['"'] {
        i
    } else {
        string_close(t, i + 1)
    }
}

pub proof fn lemma_string_close_bounds(t: Seq<Seq<char>>, i: int)
    requires
        0 <= i <= t.len(),
    ensures
        i <= string_close(t, i) <= t.len(),
    decreases t.len() - i,
{
    if i < t.len() && t[i] != seq!['"'] {
        lemma_string_close_bounds(t, i + 1);
    }
}

/// The end of a numeric literal: the first cluster from `i` that is
/// neither a digit nor a decimal point.
pub open spec fn number_end(t: Seq<Seq<char>>, i: int) -> int
    decreases t.len() - i when 0 <= i <= t.len()
{
    if i >= t.len() {
        i
    } else if is_digit_cluster(t[i]) || t[i] == seq!['.'] {
        number_end(t, i + 1)
    } else {
        i
    }
}

pub proof fn lemma_number_end_bounds(t: Seq<Seq<char>>, i: int)
    requires
        0 <= i <= t.len(),
    ensures
        i <= number_end(t, i) <= t.len(),
    decreases t.len() - i,
{
    if i < t.len() && (is_digit_cluster(t[i]) || t[i] == seq!['.']) {
        lemma_number_end_bounds(t, i + 1);
    }
}

/// The classification of clusters `i..` of a row under the code ruleset,
/// entered with `in_ml` telling whether an unterminated block comment is
/// open, together with that state at the end of the row (the carry flag
/// handed to the next row).
pub open spec fn scan_code(t: Seq<Seq<char>>, o: HighlightingOptions, i: int, in_ml: bool) -> (Seq<
    Type,
>, bool)
    decreases t.len() - i when 0 <= i <= t.len() via scan_code_decreases
{
    if i >= t.len() {
        (Seq::empty(), in_ml)
    } else if in_ml {
        if t[i] == seq!['*'] && i + 1 < t.len() && t[i + 1] == seq!['/'] {
            let rest = scan_code(t, o, i + 2, false);
            (seq![Type::MultilineComment, Type::MultilineComment] + rest.0, rest.1)
        } else {
            let rest = scan_code(t, o, i + 1, true);
            (seq![Type::MultilineComment] + rest.0, rest.1)
        }
    } else if o.multiline_comments && t[i] == seq!['/'] && i + 1 < t.len() && t[i + 1]
        == seq!['*'] {
        let rest = scan_code(t, o, i + 2, true);
        (seq![Type::MultilineComment, Type::MultilineComment] + rest.0, rest.1)
    } else if o.comments && t[i] == seq!['/'] && i + 1 < t.len() && t[i + 1] == seq!['/'] {
        (Seq::new((t.len() - i) as nat, |k: int| Type::Comment), false)
    } else if o.strings && t[i] == seq!['"'] {
        let close = string_close(t, i + 1);
        if close < t.len() {
            let rest = scan_code(t, o, close + 1, false);
            (Seq::new((close + 1 - i) as nat, |k: int| Type::String) + rest.0, rest.1)
        } else {
            (Seq::new((t.len() - i) as nat, |k: int| Type::String), false)
        }
    } else if o.characters && t[i] == seq!['\''] {
        let close = if i + 1 < t.len() && t[i + 1] == seq!['\\'] {
            i + 3
        } else {
            i + 2
        };
        if close < t.len() && t[close] == seq!['\''] {
            let rest = scan_code(t, o, close + 1, false);
            (Seq::new((close + 1 - i) as nat, |k: int| Type::Character) + rest.0, rest.1)
        } else {
            let rest = scan_code(t, o, i + 1, false);
            (seq![Type::Plain] + rest.0, rest.1)
        }
    } else if o.numbers && is_digit_cluster(t[i]) && boundary_before(t, i) {
        let e = number_end(t, i + 1);
        let rest = scan_code(t, o, e, false);
        (Seq::new((e - i) as nat, |k: int| Type::Number) + rest.0, rest.1)
    } else if !is_sep_cluster(t[i]) && boundary_before(t, i) {
        let e = run_end(t, i + 1);
        let w = t.subrange(i, e).flatten();
        let cat = if o.primary_keywords.deep_view().contains(w) {
            Type::PrimaryKeyword
        } else if o.secondary_keywords.deep_view().contains(w) {
            Type::SecondaryKeyword
        } else {
            Type::Plain
        };
        let rest = scan_code(t, o, e, false);
        (Seq::new((e - i) as nat, |k: int| cat) + rest.0, rest.1)
    } else {
        let rest = scan_code(t, o, i + 1, false);
        (seq![Type::Plain] + rest.0, rest.1)
    }
}

#[via_fn]
proof fn scan_code_decreases(t: Seq<Seq<char>>, o: HighlightingOptions, i: int, in_ml: bool) {
    if 0 <= i && i < t.len() {
        lemma_string_close_bounds(t, i + 1);
        lemma_number_end_bounds(t, i + 1);
        lemma_run_end_bounds(t, i + 1);
    }
}

/// The scan covers every cluster from `i` on: one category per cluster.
pub proof fn lemma_scan_code_len(t: Seq<Seq<char>>, o: HighlightingOptions, i: int, in_ml: bool)
    requires
        0 <= i <= t.len(),
    ensures
        scan_code(t, o, i, in_ml).0.len() == t.len() - i,
    decreases t.len() - i,
{
    if i < t.len() {
        lemma_string_close_bounds(t, i + 1);
        lemma_number_end_bounds(t, i + 1);
        lemma_run_end_bounds(t, i + 1);
        let r = scan_code(t, o, i, in_ml);
        if in_ml {
            if t[i] == seq!['*'] && i + 1 < t.len() && t[i + 1] == seq!['/'] {
                lemma_scan_code_len(t, o, i + 2, false);
            } else {
                lemma_scan_code_len(t, o, i + 1, true);
            }
        } else if o.multiline_comments && t[i] == seq!['/'] && i + 1 < t.len() && t[i + 1]
            == seq!['*'] {
            lemma_scan_code_len(t, o, i + 2, true);
        } else if o.comments && t[i] == seq!['/'] && i + 1 < t.len() && t[i + 1] == seq!['/'] {
        } else if o.strings && t[i] == seq!['"'] {
            let close = string_close(t, i + 1);
            if close < t.len() {
                lemma_scan_code_len(t, o, close + 1, false);
            }
        } else if o.characters && t[i] == seq!['\''] {
            let close = if i + 1 < t.len() && t[i + 1] == seq!['\\'] {
                i + 3
            } else {
                i + 2
            };
            if close < t.len() && t[close] == seq!['\''] {
                lemma_scan_code_len(t, o, close + 1, false);
            } else {
                lemma_scan_code_len(t, o, i + 1, false);
            }
        } else if o.numbers && is_digit_cluster(t[i]) && boundary_before(t, i) {
            lemma_scan_code_len(t, o, number_end(t, i + 1), false);
        } else if !is_sep_cluster(t[i]) && boundary_before(t, i) {
            lemma_scan_code_len(t, o, run_end(t, i + 1), false);
        } else {
            lemma_scan_code_len(t, o, i + 1, false);
        }
    }
}

/// A scan that reports an open block comment painted its final cluster as
/// part of that comment (or covered no cluster at all).
pub proof fn lemma_scan_code_carry(t: Seq<Seq<char>>, o: HighlightingOptions, i: int, in_ml: bool)
    requires
        0 <= i <= t.len(),
        scan_code(t, o, i, in_ml).1,
    ensures
        (i == t.len() && in_ml) || (scan_code(t, o, i, in_ml).0.len() > 0 && scan_code(
            t,
            o,
            i,
            in_ml,
        ).0.last() == Type::MultilineComment),
    decreases t.len() - i,
{
    if i < t.len() {
        lemma_string_close_bounds(t, i + 1);
        lemma_number_end_bounds(t, i + 1);
        lemma_run_end_bounds(t, i + 1);
        if in_ml {
            if t[i] == seq!['*'] && i + 1 < t.len() && t[i + 1] == seq!['/'] {
                lemma_scan_code_carry(t, o, i + 2, false);
                lemma_scan_code_len(t, o, i + 2, false);
            } else {
                lemma_scan_code_carry(t, o, i + 1, true);
                lemma_scan_code_len(t, o, i + 1, true);
            }
        } else if o.multiline_comments && t[i] == seq!['/'] && i + 1 < t.len() && t[i + 1]
            == seq!['*'] {
            lemma_scan_code_carry(t, o, i + 2, true);
            lemma_scan_code_len(t, o, i + 2, true);
        } else if o.comments && t[i] == seq!['/'] && i + 1 < t.len() && t[i + 1] == seq!['/'] {
        } else if o.strings && t[i] == seq!['"'] {
            let close = string_close(t, i + 1);
            if close < t.len() {
                lemma_scan_code_carry(t, o, close + 1, false);
                lemma_scan_code_len(t, o, close + 1, false);
            }
        } else if o.characters && t[i] == seq!['\''] {
            let close = if i + 1 < t.len() && t[i + 1] == seq!['\\'] {
                i + 3
            } else {
                i + 2
            };
            if close < t.len() && t[close] == seq!['\''] {
                lemma_scan_code_carry(t, o, close + 1, false);
                lemma_scan_code_len(t, o, close + 1, false);
            } else {
                lemma_scan_code_carry(t, o, i + 1, false);
                lemma_scan_code_len(t, o, i + 1, false);
            }
        } else if o.numbers && is_digit_cluster(t[i]) && boundary_before(t, i) {
            let e = number_end(t, i + 1);
            lemma_scan_code_carry(t, o, e, false);
            lemma_scan_code_len(t, o, e, false);
        } else if !is_sep_cluster(t[i]) && boundary_before(t, i) {
            let e = run_end(t, i + 1);
            lemma_scan_code_carry(t, o, e, false);
            lemma_scan_code_len(t, o, e, false);
        } else {
            lemma_scan_code_carry(t, o, i + 1, false);
            lemma_scan_code_len(t, o, i + 1, false);
        }
    }
}

/// Extracts the only character of a single-character cluster.
pub(crate) fn cluster_single_char(g: &String) -> (r: Option<char>)
    ensures
        match r {
            Some(c) => g@ == seq![c],
            None => g@.len() != 1,
        },
{
    if g.as_str().unicode_len() == 1 {
        let c = g.as_str().get_char(0);
        proof {
            assert(g@ =~= seq![c]);
        }
        Some(c)
    } else {
        None
    }
}

/// Whether the cluster is exactly the single character `c`.
pub(crate) fn cluster_is(g: &String, c: char) -> (r: bool)
    ensures
        r == (g@ == seq![c]),
{
    match cluster_single_char(g) {
        Some(d) => {
            proof {
                if d != c {
                    assert(seq![d][0] == d);
                    assert(g@ != seq![c]);
                }
            }
            d == c
        },
        None => {
            proof {
                assert(seq![c].len() == 1);
            }
            false
        },
    }
}

/// Whether the cluster is one separator character.
fn cluster_is_sep(g: &String) -> (r: bool)
    ensures
        r == is_sep_cluster(g@),
{
    match cluster_single_char(g) {
        Some(d) => is_separator(d),
        None => false,
    }
}

/// Whether the cluster is one ASCII digit.
fn cluster_is_digit(g: &String) -> (r: bool)
    ensures
        r == is_digit_cluster(g@),
{
    match cluster_single_char(g) {
        Some(d) => {
            let u = d as u32;
            0x30 <= u && u <= 0x39
        },
        None => false,
    }
}

/// Scans to the end of the maximal non-separator run from `i`.
fn find_run_end(text: &Vec<String>, i: usize) -> (e: usize)
    requires
        i <= text@.len(),
    ensures
        e == run_end(text.deep_view(), i as int),
        i <= e <= text@.len(),
{
    let ghost td = text.deep_view();
    let mut j = i;
    loop
        invariant
            i <= j <= text@.len(),
            td == text.deep_view(),
            run_end(td, i as int) == run_end(td, j as int),
        decreases text@.len() - j,
    {
        if j == text.len() {
            return j;
        }
        if cluster_is_sep(&text[j]) {
            return j;
        }
        proof {
            assert(run_end(td, j as int) == run_end(td, j as int + 1));
        }
        j = j + 1;
    }
}

/// Scans for the first closing double quote at or after `i`.
fn find_string_close(text: &Vec<String>, i: usize) -> (e: usize)
    requires
        i <= text@.len(),
    ensures
        e == string_close(text.deep_view(), i as int),
        i <= e <= text@.len(),
{
    let ghost td = text.deep_view();
    let mut j = i;
    loop
        invariant
            i <= j <= text@.len(),
            td == text.deep_view(),
            string_close(td, i as int) == string_close(td, j as int),
        decreases text@.len() - j,
    {
        if j == text.len() {
            return j;
        }
        if cluster_is(&text[j], '"') {
            return j;
        }
        proof {
            assert(string_close(td, j as int) == string_close(td, j as int + 1));
        }
        j = j + 1;
    }
}

/// Scans to the end of a numeric literal from `i`.
fn find_number_end(text: &Vec<String>, i: usize) -> (e: usize)
    requires
        i <= text@.len(),
    ensures
        e == number_end(text.deep_view(), i as int),
        i <= e <= text@.len(),
{
    let ghost td = text.deep_view();
    let mut j = i;
    loop
        invariant
            i <= j <= text@.len(),
            td == text.deep_view(),
            number_end(td, i as int) == number_end(td, j as int),
        decreases text@.len() - j,
    {
        if j == text.len() {
            return j;
        }
        if !(cluster_is_digit(&text[j]) || cluster_is(&text[j], '.')) {
            return j;
        }
        proof {
            assert(number_end(td, j as int) == number_end(td, j as int + 1));
        }
        j = j + 1;
    }
}

/// The characters of clusters `i..j`, concatenated.
fn concat_range(text: &Vec<String>, i: usize, j: usize) -> (r: String)
    requires
        i <= j <= text@.len(),
    ensures
        r@ == text.deep_view().subrange(i as int, j as int).flatten(),
{
    let ghost td = text.deep_view();
    let mut w = String::new();
    let mut k = i;
    proof {
        assert(td.subrange(i as int, i as int).flatten() =~= Seq::<char>::empty());
    }
    while k < j
        invariant
            i <= k <= j <= text@.len(),
            td == text.deep_view(),
            w@ == td.subrange(i as int, k as int).flatten(),
        decreases j - k,
    {
        let ghost prefix = td.subrange(i as int, k as int);
        w.append(text[k].as_str());
        proof {
            prefix.lemma_flatten_push(td[k as int]);
            assert(td.subrange(i as int, k as int + 1) =~= prefix.push(td[k as int]));
        }
        k = k + 1;
    }
    w
}

/// Whether the keyword list holds exactly the word `w`.
fn list_contains(kws: &Vec<String>, w: &String) -> (r: bool)
    ensures
        r == kws.deep_view().contains(w@),
{
    let mut k: usize = 0;
    while k < kws.len()
        invariant
            k <= kws@.len(),
            forall|j: int| 0 <= j < k ==> kws.deep_view()[j] != w@,
        decreases kws@.len() - k,
    {
        if kws[k] == *w {
            proof {
                assert(kws.deep_view()[k as int] == w@);
            }
            return true;
        }
        k = k + 1;
    }
    proof {
        assert(!kws.deep_view().contains(w@)) by {
            if kws.deep_view().contains(w@) {
                let j = choose|j: int| 0 <= j < kws.deep_view().len() && kws.deep_view()[j] == w@;
                assert(kws.deep_view()[j] != w@);
            }
        }
    }
    false
}

/// Appends `count` copies of one category.
pub(crate) fn push_repeat(out: &mut Vec<Type>, cat: Type, count: usize)
    ensures
        final(out)@ == old(out)@ + Seq::new(count as nat, |k: int| cat),
{
    let mut j: usize = 0;
    proof {
        assert(out@ =~= old(out)@ + Seq::new(0, |k: int| cat));
    }
    while j < count
        invariant
            j <= count,
            out@ == old(out)@ + Seq::new(j as nat, |k: int| cat),
        decreases count - j,
    {
        out.push(cat);
        proof {
            assert(out@ =~= old(out)@ + Seq::new((j + 1) as nat, |k: int| cat));
        }
        j = j + 1;
    }
}

/// Classifies a whole row under the code ruleset: computes `scan_code`
/// from column 0 with the given carry-in flag, returning one category per
/// grapheme cluster and the carry-out flag.
#[verifier::rlimit(100)]
pub fn classify_code(text: &Vec<String>, opts: &HighlightingOptions, start_in_ml: bool) -> (r: (
    Vec<Type>,
    bool,
))
    ensures
        r.0@ == scan_code(text.deep_view(), *opts, 0, start_in_ml).0,
        r.1 == scan_code(text.deep_view(), *opts, 0, start_in_ml).1,
        r.0@.len() == text.deep_view().len(),
{
    let ghost td = text.deep_view();
    let n = text.len();
    let mut out: Vec<Type> = Vec::new();
    let mut ml = start_in_ml;
    let mut i: usize = 0;
    proof {
        assert(out@ =~= Seq::<Type>::empty());
    }
    while i < n
        invariant
            i <= n,
            n == td.len(),
            td == text.deep_view(),
            out@.len() == i,
            scan_code(td, *opts, 0, start_in_ml).0 == out@ + scan_code(td, *opts, i as int, ml).0,
            scan_code(td, *opts, 0, start_in_ml).1 == scan_code(td, *opts, i as int, ml).1,
        decreases n - i,
    {
        let ghost pre = out@;
        let ghost cur = scan_code(td, *opts, i as int, ml);
        if ml {
            if cluster_is(&text[i], '*') && i + 1 < n && cluster_is(&text[i + 1], '/') {
                let ghost rest = scan_code(td, *opts, i as int + 2, false);
                out.push(Type::MultilineComment);
                out.push(Type::MultilineComment);
                proof {
                    assert(out@ =~= pre + seq![Type::MultilineComment, Type::MultilineComment]);
                    assert(scan_code(td, *opts, 0, start_in_ml).0 =~= out@ + rest.0);
                }
                i = i + 2;
                ml = false;
            } else {
                let ghost rest = scan_code(td, *opts, i as int + 1, true);
                out.push(Type::MultilineComment);
                proof {
                    assert(out@ =~= pre + seq![Type::MultilineComment]);
                    assert(scan_code(td, *opts, 0, start_in_ml).0 =~= out@ + rest.0);
                }
                i = i + 1;
            }
        } else if opts.multiline_comments && cluster_is(&text[i], '/') && i + 1 < n && cluster_is(
            &text[i + 1],
            '*',
        ) {
            let ghost rest = scan_code(td, *opts, i as int + 2, true);
            out.push(Type::MultilineComment);
            out.push(Type::MultilineComment);
            proof {
                assert(out@ =~= pre + seq![Type::MultilineComment, Type::MultilineComment]);
                assert(scan_code(td, *opts, 0, start_in_ml).0 =~= out@ + rest.0);
            }
            i = i + 2;
            ml = true;
        } else if opts.comments && cluster_is(&text[i], '/') && i + 1 < n && cluster_is(
            &text[i + 1],
            '/',
        ) {
            push_repeat(&mut out, Type::Comment, n - i);
            proof {
                assert(scan_code(td, *opts, n as int, false).0 =~= Seq::<Type>::empty());
                assert(scan_code(td, *opts, 0, start_in_ml).0 =~= out@ + scan_code(
                    td,
                    *opts,
                    n as int,
                    false,
                ).0);
            }
            i = n;
            ml = false;
        } else if opts.strings && cluster_is(&text[i], '"') {
            let close = find_string_close(text, i + 1);
            if close < n {
                let ghost rest = scan_code(td, *opts, close as int + 1, false);
                push_repeat(&mut out, Type::String, close + 1 - i);
                proof {
                    assert(scan_code(td, *opts, 0, start_in_ml).0 =~= out@ + rest.0);
                }
                i = close + 1;
            } else {
                push_repeat(&mut out, Type::String, n - i);
                proof {
                    assert(scan_code(td, *opts, n as int, false).0 =~= Seq::<Type>::empty());
                    assert(scan_code(td, *opts, 0, start_in_ml).0 =~= out@ + scan_code(
                        td,
                        *opts,
                        n as int,
                        false,
                    ).0);
                }
                i = n;
            }
            ml = false;
        } else if opts.characters && cluster_is(&text[i], '\'') {
            let esc = i + 1 < n && cluster_is(&text[i + 1], '\\');
            let ghost close = if esc {
                i + 3
            } else {
                i + 2
            };
            let closed = if esc {
                n - i > 3 && cluster_is(&text[i + 3], '\'')
            } else {
                n - i > 2 && cluster_is(&text[i + 2], '\'')
            };
            if closed {
                let span = if esc {
                    4
                } else {
                    3
                };
                let ghost rest = scan_code(td, *opts, close + 1, false);
                push_repeat(&mut out, Type::Character, span);
                proof {
                    assert(cur.0 =~= Seq::new((close + 1 - i) as nat, |k: int| Type::Character)
                        + rest.0);
                    assert(out@ =~= pre + Seq::new(span as nat, |k: int| Type::Character));
                    assert(scan_code(td, *opts, 0, start_in_ml).0 =~= out@ + rest.0);
                }
                i = i + span;
            } else {
                let ghost rest = scan_code(td, *opts, i as int + 1, false);
                out.push(Type::Plain);
                proof {
                    assert(out@ =~= pre + seq![Type::Plain]);
                    assert(scan_code(td, *opts, 0, start_in_ml).0 =~= out@ + rest.0);
                }
                i = i + 1;
            }
            ml = false;
        } else {
            let digit = cluster_is_digit(&text[i]);
            let sep = cluster_is_sep(&text[i]);
            let bnd = i == 0 || cluster_is_sep(&text[i - 1]);
            if opts.numbers && digit && bnd {
                let e = find_number_end(text, i + 1);
                let ghost rest = scan_code(td, *opts, e as int, false);
                push_repeat(&mut out, Type::Number, e - i);
                proof {
                    assert(scan_code(td, *opts, 0, start_in_ml).0 =~= out@ + rest.0);
                }
                i = e;
            } else if !sep && bnd {
                let e = find_run_end(text, i + 1);
                let w = concat_range(text, i, e);
                let cat = if list_contains(&opts.primary_keywords, &w) {
                    Type::PrimaryKeyword
                } else if list_contains(&opts.secondary_keywords, &w) {
                    Type::SecondaryKeyword
                } else {
                    Type::Plain
                };
                let ghost rest = scan_code(td, *opts, e as int, false);
                push_repeat(&mut out, cat, e - i);
                proof {
                    assert(scan_code(td, *opts, 0, start_in_ml).0 =~= out@ + rest.0);
                }
                i = e;
            } else {
                let ghost rest = scan_code(td, *opts, i as int + 1, false);
                out.push(Type::Plain);
                proof {
                    assert(out@ =~= pre + seq![Type::Plain]);
                    assert(scan_code(td, *opts, 0, start_in_ml).0 =~= out@ + rest.0);
                }
                i = i + 1;
            }
            ml = false;
        }
    }
    proof {
        assert(scan_code(td, *opts, n as int, ml).0 =~= Seq::<Type>::empty());
        assert(out@ =~= scan_code(td, *opts, 0, start_in_ml).0);
        lemma_scan_code_len(td, *opts, 0, start_in_ml);
    }
    (out, ml)
}

} // verus!
