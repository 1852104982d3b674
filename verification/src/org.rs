//! The markup ruleset: a dedicated classifier for markup files.
//!
//! A line is one of: a headline (leading run of `*`, with two special
//! leading keywords after the stars mapped to their own categories), a
//! list item (a fixed two-column marker prefix), a definition/tag line
//! (a double colon marks colon runs as tags), or ordinary text scanned
//! for paired inline markers and bracketed links.

use vstd::prelude::*;

use crate::graphemes::graphemes_of;
use crate::graphemes::split_graphemes;
use crate::highlighting::Type;
use crate::syntax::cluster_is;
use crate::syntax::cluster_single_char;
use crate::syntax::push_repeat;

verus! {

/// Whether `c` is ASCII whitespace.
pub open spec fn is_ws_char(c: char) -> bool {
    ||| c as u32 == 0x20
    ||| c as u32 == 0x09
    ||| c as u32 == 0x0a
    ||| c as u32 == 0x0c
    ||| c as u32 == 0x0d
}

/// A grapheme cluster that is exactly one whitespace character.
pub open spec fn is_ws_cluster(g: Seq<char>) -> bool {
    g.len() == 1 && is_ws_char(g[0])
}

/// The category of a paired inline marker's delimiter, if the cluster is
/// one: bold, italic, underline, strikethrough, code, verbatim.
pub open spec fn delim_cat(g: Seq<char>) -> Option<Type> {
    if g == seq!['*'] {
        Some(Type::Bold)
    } else if g == seq!['/'] {
        Some(Type::Italic)
    } else if g == seq!['_'] {
        Some(Type::Underline)
    } else if g == seq!['+'] {
        Some(Type::MultilineComment)
    } else if g == seq!['~'] {
        Some(Type::CodeBlock)
    } else if g == seq!['='] {
        Some(Type::String)
    } else {
        None
    }
}

/// The first cluster at or after `i` that is exactly the character `c`,
/// or the length if there is none.
pub open spec fn cluster_find(t: Seq<Seq<char>>, i: int, c: char) -> int
    decreases t.len() - i when 0 <= i <= t.len()
{
    if i >= t.len() {
        i
    } else if t[i] == seq![c] {
        i
    } else {
        cluster_find(t, i + 1, c)
    }
}

pub proof fn lemma_cluster_find_bounds(t: Seq<Seq<char>>, i: int, c: char)
    requires
        0 <= i <= t.len(),
    ensures
        i <= cluster_find(t, i, c) <= t.len(),
    decreases t.len() - i,
{
    if i < t.len() && t[i] != seq![c] {
        lemma_cluster_find_bounds(t, i + 1, c);
    }
}

/// The end of the run of clusters equal to the character `c` from `i`.
pub open spec fn cluster_run_end(t: Seq<Seq<char>>, i: int, c: char) -> int
    decreases t.len() - i when 0 <= i <= t.len()
{
    if i >= t.len() {
        i
    } else if t[i] == seq![c] {
        cluster_run_end(t, i + 1, c)
    } else {
        i
    }
}

pub proof fn lemma_cluster_run_end_bounds(t: Seq<Seq<char>>, i: int, c: char)
    requires
        0 <= i <= t.len(),
    ensures
        i <= cluster_run_end(t, i, c) <= t.len(),
    decreases t.len() - i,
{
    if i < t.len() && t[i] == seq![c] {
        lemma_cluster_run_end_bounds(t, i + 1, c);
    }
}

/// The end of the run of whitespace clusters from `i`.
pub open spec fn ws_end(t: Seq<Seq<char>>, i: int) -> int
    decreases t.len() - i when 0 <= i <= t.len()
{
    if i >= t.len() {
        i
    } else if is_ws_cluster(t[i]) {
        ws_end(t, i + 1)
    } else {
        i
    }
}

pub proof fn lemma_ws_end_bounds(t: Seq<Seq<char>>, i: int)
    requires
        0 <= i <= t.len(),
    ensures
        i <= ws_end(t, i) <= t.len(),
    decreases t.len() - i,
{
    if i < t.len() && is_ws_cluster(t[i]) {
        lemma_ws_end_bounds(t, i + 1);
    }
}

/// The first position at or after `i` where a closing `]]` starts, or the
/// length if there is none.
pub open spec fn link_close(t: Seq<Seq<char>>, i: int) -> int
    decreases t.len() - i when 0 <= i <= t.len()
{
    if i >= t.len() {
        i
    } else if i + 1 < t.len() && t[i] == seq![']'] && t[i + 1] == seq![']'] {
        i
    } else {
        link_close(t, i + 1)
    }
}

pub proof fn lemma_link_close_bounds(t: Seq<Seq<char>>, i: int)
    requires
        0 <= i <= t.len(),
    ensures
        i <= link_close(t, i) <= t.len(),
    decreases t.len() - i,
{
    if i < t.len() && !(i + 1 < t.len() && t[i] == seq![']'] && t[i + 1] == seq![']']) {
        lemma_link_close_bounds(t, i + 1);
    }
}

/// A found closing `]]` lies fully inside the line.
pub proof fn lemma_link_close_found(t: Seq<Seq<char>>, i: int)
    requires
        0 <= i <= t.len(),
        link_close(t, i) < t.len(),
    ensures
        link_close(t, i) + 1 < t.len(),
        t[link_close(t, i)] == seq![']'],
        t[link_close(t, i) + 1] == seq![']'],
    decreases t.len() - i,
{
    if i < t.len() && !(i + 1 < t.len() && t[i] == seq![']'] && t[i + 1] == seq![']']) {
        lemma_link_close_bounds(t, i + 1);
        lemma_link_close_found(t, i + 1);
    }
}

/// Whether `sig` holds a double colon: two adjacent colon clusters.
pub open spec fn has_double_colon(t: Seq<Seq<char>>) -> bool {
    exists|i: int| 0 <= i && i + 1 < t.len() && #[trigger] t[i] == seq![':'] && t[i + 1] == seq![':']
}

/// The classification of a headline: the whole line is `Headline` except
/// that a `TODO ` or `DONE ` immediately after the stars and intervening
/// whitespace marks its four keyword graphemes with a keyword category.
pub open spec fn headline_classify(t: Seq<Seq<char>>) -> Seq<Type> {
    let stars = cluster_run_end(t, 0, '*');
    let j = ws_end(t, stars);
    if j + 4 < t.len() && t[j] == seq!['T'] && t[j + 1] == seq!['O'] && t[j + 2] == seq!['D'] && t[j
        + 3] == seq!['O'] && t[j + 4] == seq![' '] {
        Seq::new(t.len(), |p: int| if j <= p < j + 4 {
            Type::TodoKeyword
        } else {
            Type::Headline
        })
    } else if j + 4 < t.len() && t[j] == seq!['D'] && t[j + 1] == seq!['O'] && t[j + 2]
        == seq!['N'] && t[j + 3] == seq!['E'] && t[j + 4] == seq![' '] {
        Seq::new(t.len(), |p: int| if j <= p < j + 4 {
            Type::DoneKeyword
        } else {
            Type::Headline
        })
    } else {
        Seq::new(t.len(), |p: int| Type::Headline)
    }
}

/// The inline-marker scan of ordinary text from `i`: a paired delimiter
/// not followed by whitespace opens a span closed by the next occurrence
/// of the same delimiter, all of it in the marker's category; `[[` opens
/// a link closed by the first following `]]`; unterminated openers mark
/// nothing; everything else is unclassified.
pub open spec fn inline_scan(t: Seq<Seq<char>>, i: int) -> Seq<Type>
    decreases t.len() - i when 0 <= i <= t.len() via inline_scan_decreases
{
    if i >= t.len() {
        Seq::empty()
    } else if delim_cat(t[i]) is Some && i + 1 < t.len() && !is_ws_cluster(t[i + 1])
        && cluster_find(t, i + 1, t[i][0]) < t.len() {
        let cat = delim_cat(t[i])->Some_0;
        let close = cluster_find(t, i + 1, t[i][0]);
        Seq::new((close + 1 - i) as nat, |k: int| cat) + inline_scan(t, close + 1)
    } else if t[i] == seq!['['] && i + 1 < t.len() && t[i + 1] == seq!['['] && link_close(t, i + 2)
        < t.len() {
        let close = link_close(t, i + 2);
        Seq::new((close + 2 - i) as nat, |k: int| Type::Link) + inline_scan(t, close + 2)
    } else {
        seq![Type::Plain] + inline_scan(t, i + 1)
    }
}

#[via_fn]
proof fn inline_scan_decreases(t: Seq<Seq<char>>, i: int) {
    if 0 <= i && i < t.len() {
        if delim_cat(t[i]) is Some {
            lemma_cluster_find_bounds(t, i + 1, t[i][0]);
        }
        if i + 2 <= t.len() {
            lemma_link_close_bounds(t, i + 2);
            if link_close(t, i + 2) < t.len() {
                lemma_link_close_found(t, i + 2);
            }
        }
    }
}

/// The classification of one line under the markup ruleset.
pub open spec fn markup_classify(t: Seq<Seq<char>>) -> Seq<Type> {
    if t.len() == 0 {
        Seq::empty()
    } else if t[0] == seq!['*'] {
        headline_classify(t)
    } else if t.len() >= 2 && (t[0] == seq!['-'] || t[0] == seq!['+']) && t[1] == seq![' '] {
        Seq::new(t.len(), |p: int| if p < 2 {
            Type::ListMarker
        } else {
            Type::Plain
        })
    } else if has_double_colon(t) {
        Seq::new(t.len(), |p: int| if t[p] == seq![':'] {
            Type::Tag
        } else {
            Type::Plain
        })
    } else {
        inline_scan(t, 0)
    }
}

/// Every line's markup classification covers exactly its clusters.
pub proof fn lemma_inline_scan_len(t: Seq<Seq<char>>, i: int)
    requires
        0 <= i <= t.len(),
    ensures
        inline_scan(t, i).len() == t.len() - i,
    decreases t.len() - i,
{
    if i < t.len() {
        if delim_cat(t[i]) is Some && i + 1 < t.len() && !is_ws_cluster(t[i + 1]) && cluster_find(
            t,
            i + 1,
            t[i][0],
        ) < t.len() {
            lemma_cluster_find_bounds(t, i + 1, t[i][0]);
            lemma_inline_scan_len(t, cluster_find(t, i + 1, t[i][0]) + 1);
        } else if t[i] == seq!['['] && i + 1 < t.len() && t[i + 1] == seq!['['] && link_close(
            t,
            i + 2,
        ) < t.len() {
            lemma_link_close_bounds(t, i + 2);
            lemma_link_close_found(t, i + 2);
            lemma_inline_scan_len(t, link_close(t, i + 2) + 2);
        } else {
            lemma_inline_scan_len(t, i + 1);
        }
    }
}

pub proof fn lemma_markup_classify_len(t: Seq<Seq<char>>)
    ensures
        markup_classify(t).len() == t.len(),
{
    if t.len() == 0 {
    } else if t[0] == seq!['*'] {
    } else if t.len() >= 2 && (t[0] == seq!['-'] || t[0] == seq!['+']) && t[1] == seq![' '] {
    } else if has_double_colon(t) {
    } else {
        lemma_inline_scan_len(t, 0);
    }
}

/// Whether the cluster is one whitespace character.
fn cluster_is_ws(g: &String) -> (r: bool)
    ensures
        r == is_ws_cluster(g@),
{
    match cluster_single_char(g) {
        Some(c) => {
            let u = c as u32;
            u == 0x20 || u == 0x09 || u == 0x0a || u == 0x0c || u == 0x0d
        },
        None => false,
    }
}

/// The delimiter category of the cluster, if it is an inline marker.
fn delim_of(g: &String) -> (r: Option<Type>)
    ensures
        r == delim_cat(g@),
{
    match cluster_single_char(g) {
        Some(c) => {
            proof {
                assert(seq![c][0] == c);
            }
            if c == '*' {
                Some(Type::Bold)
            } else if c == '/' {
                Some(Type::Italic)
            } else if c == '_' {
                Some(Type::Underline)
            } else if c == '+' {
                Some(Type::MultilineComment)
            } else if c == '~' {
                Some(Type::CodeBlock)
            } else if c == '=' {
                Some(Type::String)
            } else {
                proof {
                    assert(delim_cat(g@) is None);
                }
                None
            }
        },
        None => {
            proof {
                assert(delim_cat(g@) is None);
            }
            None
        },
    }
}

/// Scans for the first cluster equal to `c` at or after `i`.
fn find_cluster(text: &Vec<String>, i: usize, c: char) -> (e: usize)
    requires
        i <= text@.len(),
    ensures
        e == cluster_find(text.deep_view(), i as int, c),
        i <= e <= text@.len(),
{
    let ghost td = text.deep_view();
    let mut j = i;
    loop
        invariant
            i <= j <= text@.len(),
            td == text.deep_view(),
            cluster_find(td, i as int, c) == cluster_find(td, j as int, c),
        decreases text@.len() - j,
    {
        if j == text.len() {
            return j;
        }
        if cluster_is(&text[j], c) {
            return j;
        }
        proof {
            assert(cluster_find(td, j as int, c) == cluster_find(td, j as int + 1, c));
        }
        j = j + 1;
    }
}

/// Scans to the end of the run of clusters equal to `c` from `i`.
fn find_cluster_run_end(text: &Vec<String>, i: usize, c: char) -> (e: usize)
    requires
        i <= text@.len(),
    ensures
        e == cluster_run_end(text.deep_view(), i as int, c),
        i <= e <= text@.len(),
{
    let ghost td = text.deep_view();
    let mut j = i;
    loop
        invariant
            i <= j <= text@.len(),
            td == text.deep_view(),
            cluster_run_end(td, i as int, c) == cluster_run_end(td, j as int, c),
        decreases text@.len() - j,
    {
        if j == text.len() {
            return j;
        }
        if !cluster_is(&text[j], c) {
            return j;
        }
        proof {
            assert(cluster_run_end(td, j as int, c) == cluster_run_end(td, j as int + 1, c));
        }
        j = j + 1;
    }
}

/// Scans to the end of the whitespace run from `i`.
fn find_ws_end(text: &Vec<String>, i: usize) -> (e: usize)
    requires
        i <= text@.len(),
    ensures
        e == ws_end(text.deep_view(), i as int),
        i <= e <= text@.len(),
{
    let ghost td = text.deep_view();
    let mut j = i;
    loop
        invariant
            i <= j <= text@.len(),
            td == text.deep_view(),
            ws_end(td, i as int) == ws_end(td, j as int),
        decreases text@.len() - j,
    {
        if j == text.len() {
            return j;
        }
        if !cluster_is_ws(&text[j]) {
            return j;
        }
        proof {
            assert(ws_end(td, j as int) == ws_end(td, j as int + 1));
        }
        j = j + 1;
    }
}

/// Scans for the start of the first closing `]]` at or after `i`.
fn find_link_close(text: &Vec<String>, i: usize) -> (e: usize)
    requires
        i <= text@.len(),
    ensures
        e == link_close(text.deep_view(), i as int),
        i <= e <= text@.len(),
{
    let ghost td = text.deep_view();
    let n = text.len();
    let mut j = i;
    loop
        invariant
            i <= j <= text@.len(),
            n == text@.len(),
            td == text.deep_view(),
            link_close(td, i as int) == link_close(td, j as int),
        decreases text@.len() - j,
    {
        if j == n {
            return j;
        }
        if j + 1 < n && cluster_is(&text[j], ']') && cluster_is(
            &text[j + 1],
            ']',
        ) {
            return j;
        }
        proof {
            assert(link_close(td, j as int) == link_close(td, j as int + 1));
        }
        j = j + 1;
    }
}

/// Whether the line holds two adjacent colon clusters.
fn find_double_colon(text: &Vec<String>) -> (r: bool)
    ensures
        r == has_double_colon(text.deep_view()),
{
    let ghost td = text.deep_view();
    let n = text.len();
    if n == 0 {
        return false;
    }
    let mut j: usize = 0;
    while j < n - 1
        invariant
            j <= n,
            n == text@.len(),
            n > 0,
            td == text.deep_view(),
            forall|k: int|
                0 <= k && k + 1 < j + 1 ==> !(#[trigger] td[k] == seq![':'] && td[k + 1]
                    == seq![':']),
        decreases n - j,
    {
        if cluster_is(&text[j], ':') && cluster_is(&text[j + 1], ':') {
            proof {
                assert(td[j as int] == seq![':'] && td[j as int + 1] == seq![':']);
            }
            return true;
        }
        j = j + 1;
    }
    proof {
        if has_double_colon(td) {
            let k = choose|k: int|
                0 <= k && k + 1 < td.len() && #[trigger] td[k] == seq![':'] && td[k + 1]
                    == seq![':'];
            assert(!(td[k] == seq![':'] && td[k + 1] == seq![':']));
        }
    }
    false
}

/// Classifies one line's clusters under the markup ruleset: computes
/// `markup_classify`.
#[verifier::rlimit(60)]
pub fn classify_markup(text: &Vec<String>) -> (r: Vec<Type>)
    ensures
        r@ == markup_classify(text.deep_view()),
        r@.len() == text.deep_view().len(),
{
    let ghost td = text.deep_view();
    let n = text.len();
    let mut out: Vec<Type> = Vec::new();
    proof {
        lemma_markup_classify_len(td);
    }
    if n == 0 {
        proof {
            assert(out@ =~= markup_classify(td));
        }
        return out;
    }
    if cluster_is(&text[0], '*') {
        // Headline: stars, optional whitespace, then possibly a special
        // keyword; everything else in the line is Headline.
        let stars = find_cluster_run_end(text, 0, '*');
        let j = find_ws_end(text, stars);
        let todo = n - j > 4 && cluster_is(&text[j], 'T') && cluster_is(
            &text[j + 1],
            'O',
        ) && cluster_is(&text[j + 2], 'D') && cluster_is(
            &text[j + 3],
            'O',
        ) && cluster_is(&text[j + 4], ' ');
        let done = !todo && n - j > 4 && cluster_is(&text[j], 'D')
            && cluster_is(&text[j + 1], 'O') && cluster_is(
            &text[j + 2],
            'N',
        ) && cluster_is(&text[j + 3], 'E') && cluster_is(
            &text[j + 4],
            ' ',
        );
        if todo || done {
            let kw = if todo {
                Type::TodoKeyword
            } else {
                Type::DoneKeyword
            };
            push_repeat(&mut out, Type::Headline, j);
            push_repeat(&mut out, kw, 4);
            push_repeat(&mut out, Type::Headline, n - (j + 4));
            proof {
                assert(out@ =~= markup_classify(td));
            }
        } else {
            push_repeat(&mut out, Type::Headline, n);
            proof {
                assert(out@ =~= markup_classify(td));
            }
        }
        return out;
    }
    if n >= 2 && (cluster_is(&text[0], '-') || cluster_is(
        &text[0],
        '+',
    )) && cluster_is(&text[1], ' ') {
        // List item: a fixed two-column marker prefix.
        push_repeat(&mut out, Type::ListMarker, 2);
        push_repeat(&mut out, Type::Plain, n - 2);
        proof {
            assert(out@ =~= markup_classify(td));
        }
        return out;
    }
    if find_double_colon(text) {
        // Definition or tag line: colon clusters become tags.
        let mut j: usize = 0;
        while j < n
            invariant
                j <= n,
                n == text@.len(),
                td == text.deep_view(),
                out@ =~= Seq::new(j as nat, |p: int| if td[p] == seq![':'] {
                    Type::Tag
                } else {
                    Type::Plain
                }),
            decreases n - j,
        {
            if cluster_is(&text[j], ':') {
                out.push(Type::Tag);
            } else {
                out.push(Type::Plain);
            }
            proof {
                assert(out@ =~= Seq::new((j + 1) as nat, |p: int| if td[p] == seq![':'] {
                    Type::Tag
                } else {
                    Type::Plain
                }));
            }
            j = j + 1;
        }
        proof {
            assert(out@ =~= markup_classify(td));
        }
        return out;
    }
    // Ordinary text: paired inline markers and bracketed links.
    let r = highlight_markup(text);
    proof {
        assert(r@ =~= markup_classify(td));
    }
    r
}

/// Scans ordinary markup text for paired inline markers and bracketed
/// links: computes `inline_scan` from column 0.
pub fn highlight_markup(text: &Vec<String>) -> (r: Vec<Type>)
    ensures
        r@ == inline_scan(text.deep_view(), 0),
        r@.len() == text.deep_view().len(),
{
    let ghost td = text.deep_view();
    let n = text.len();
    let mut out: Vec<Type> = Vec::new();
    proof {
        lemma_inline_scan_len(td, 0);
    }
    let mut i: usize = 0;
    while i < n
        invariant
            i <= n,
            n == td.len(),
            td == text.deep_view(),
            out@.len() == i,
            inline_scan(td, 0) == out@ + inline_scan(td, i as int),
        decreases n - i,
    {
        let ghost pre = out@;
        let d = delim_of(&text[i]);
        let mut consumed = false;
        if let Some(cat) = d {
            if i + 1 < n && !cluster_is_ws(&text[i + 1]) {
                let c = match cluster_single_char(&text[i]) {
                    Some(c) => c,
                    None => ' ',
                };
                proof {
                    assert(td[i as int][0] == c);
                }
                let close = find_cluster(text, i + 1, c);
                if close < n {
                    let ghost rest = inline_scan(td, close as int + 1);
                    push_repeat(&mut out, cat, close + 1 - i);
                    proof {
                        assert(inline_scan(td, 0) =~= out@ + rest);
                    }
                    i = close + 1;
                    consumed = true;
                }
            }
        }
        if !consumed {
            if cluster_is(&text[i], '[') && i + 1 < n && cluster_is(
                &text[i + 1],
                '[',
            ) {
                let close = find_link_close(text, i + 2);
                if close < n {
                    proof {
                        lemma_link_close_found(td, i as int + 2);
                    }
                    let ghost rest = inline_scan(td, close as int + 2);
                    push_repeat(&mut out, Type::Link, close + 2 - i);
                    proof {
                        assert(inline_scan(td, 0) =~= out@ + rest);
                    }
                    i = close + 2;
                    consumed = true;
                }
            }
        }
        if !consumed {
            let ghost rest = inline_scan(td, i as int + 1);
            out.push(Type::Plain);
            proof {
                assert(out@ =~= pre + seq![Type::Plain]);
                assert(inline_scan(td, 0) =~= out@ + rest);
            }
            i = i + 1;
        }
    }
    proof {
        assert(inline_scan(td, n as int) =~= Seq::<Type>::empty());
        assert(out@ =~= inline_scan(td, 0));
    }
    out
}

/// The markup classifier. It is stateless; the surrounding session may
/// hold it as a shared instance.
pub struct OrgHighlighter {}

impl OrgHighlighter {
    pub fn new() -> (h: Self) {
        OrgHighlighter {  }
    }

    /// Classifies one line of markup text, one category per grapheme
    /// cluster.
    pub fn highlight_line(&self, line: &str) -> (r: Vec<Type>)
        ensures
            r@ == markup_classify(graphemes_of(line@)),
            r@.len() == graphemes_of(line@).len(),
    {
        let text = split_graphemes(line);
        classify_markup(&text)
    }
}

} // verus!
