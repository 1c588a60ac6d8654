//! Removal of quoted blocks from a text.
//!
//! A line that holds the quote marker switches between "outside" and
//! "inside" a quoted block. Marker lines and the lines inside a block are
//! dropped; a block that is never closed runs to the end of the text.

use crate::chars::{from_chars, to_chars};
use crate::lines::{lines, split_lines};
use crate::search::{contains, has_occurrence};
use vstd::prelude::*;

verus! {

/// How many of the first `n` lines hold the marker.
pub open spec fn markers_before(ls: Seq<Seq<char>>, marker: Seq<char>, n: int) -> nat
    decreases n,
{
    if n <= 0 {
        0
    } else {
        markers_before(ls, marker, n - 1) + if contains(ls[n - 1], marker) {
            1nat
        } else {
            0nat
        }
    }
}

/// Whether line `i` survives: it holds no marker, and the marker lines
/// before it pair up.
pub open spec fn is_kept(ls: Seq<Seq<char>>, marker: Seq<char>, i: int) -> bool {
    !contains(ls[i], marker) && markers_before(ls, marker, i) % 2 == 0
}

/// The surviving lines among the first `n`, each followed by a line feed.
pub open spec fn kept_text(ls: Seq<Seq<char>>, marker: Seq<char>, n: int) -> Seq<char>
    decreases n,
{
    if n <= 0 {
        Seq::empty()
    } else if is_kept(ls, marker, n - 1) {
        kept_text(ls, marker, n - 1) + ls[n - 1].push('\n')
    } else {
        kept_text(ls, marker, n - 1)
    }
}

/// `text` without its quoted blocks.
pub open spec fn without_quoted(text: Seq<char>, marker: Seq<char>) -> Seq<char> {
    kept_text(lines(text), marker, lines(text).len() as int)
}

/// `text` without its quoted blocks.
pub fn strip_quoted_chars(text: &Vec<char>, marker: &Vec<char>) -> (body: Vec<char>)
    ensures
        body@ == without_quoted(text@, marker@),
{
    let ls = split_lines(text);
    let ghost all = ls.deep_view();
    let mut body: Vec<char> = Vec::new();
    let mut inside_quote = false;
    let mut i: usize = 0;
    while i < ls.len()
        invariant
            i <= ls.len(),
            all == ls.deep_view(),
            inside_quote == (markers_before(all, marker@, i as int) % 2 == 1),
            body@ == kept_text(all, marker@, i as int),
        decreases ls.len() - i,
    {
        let line = &ls[i];
        assert(all[i as int] =~= line@);
        if has_occurrence(line, marker) {
            inside_quote = !inside_quote;
        } else if !inside_quote {
            let ghost before = body@;
            let mut k: usize = 0;
            while k < line.len()
                invariant
                    k <= line.len(),
                    body@ == before + line@.take(k as int),
                decreases line.len() - k,
            {
                body.push(line[k]);
                k += 1;
            }
            body.push('\n');
        }
        i += 1;
    }
    body
}

/// `text` without its quoted blocks.
pub fn strip_quoted(text: &str, marker: &str) -> (body: String)
    ensures
        body@ == without_quoted(text@, marker@),
{
    let text = to_chars(text);
    let marker = to_chars(marker);
    from_chars(&strip_quoted_chars(&text, &marker))
}

/// Whether lines `a` and `b` open and close one quoted block: both hold the
/// marker, the marker lines before `a` pair up, and no line between the two
/// holds the marker.
pub open spec fn is_block(ls: Seq<Seq<char>>, marker: Seq<char>, a: int, b: int) -> bool {
    &&& 0 <= a < b < ls.len()
    &&& contains(ls[a], marker)
    &&& contains(ls[b], marker)
    &&& markers_before(ls, marker, a) % 2 == 0
    &&& forall|j: int| a < j < b ==> !contains(#[trigger] ls[j], marker)
}

/// Whether line `a` opens a quoted block that is never closed.
pub open spec fn is_unclosed(ls: Seq<Seq<char>>, marker: Seq<char>, a: int) -> bool {
    &&& 0 <= a < ls.len()
    &&& contains(ls[a], marker)
    &&& markers_before(ls, marker, a) % 2 == 0
    &&& forall|j: int| a < j < ls.len() ==> !contains(#[trigger] ls[j], marker)
}

/// Counting further never lowers the count.
pub proof fn lemma_markers_monotone(ls: Seq<Seq<char>>, marker: Seq<char>, m: int, n: int)
    requires
        m <= n,
    ensures
        markers_before(ls, marker, m) <= markers_before(ls, marker, n),
    decreases n - m,
{
    if m < n {
        lemma_markers_monotone(ls, marker, m, n - 1);
    }
}

/// A stretch without marker lines leaves the count as it was.
pub proof fn lemma_markers_unchanged(ls: Seq<Seq<char>>, marker: Seq<char>, m: int, n: int)
    requires
        0 <= m <= n,
        forall|j: int| m <= j < n ==> !contains(#[trigger] ls[j], marker),
    ensures
        markers_before(ls, marker, n) == markers_before(ls, marker, m),
    decreases n - m,
{
    if m < n {
        lemma_markers_unchanged(ls, marker, m, n - 1);
    }
}

/// A marker line within a stretch raises the count over that stretch.
pub proof fn lemma_marker_counted(ls: Seq<Seq<char>>, marker: Seq<char>, m: int, j: int, n: int)
    requires
        0 <= m <= j < n,
        contains(ls[j], marker),
    ensures
        markers_before(ls, marker, m) < markers_before(ls, marker, n),
{
    lemma_markers_monotone(ls, marker, m, j);
    lemma_markers_monotone(ls, marker, j + 1, n);
}

/// Where the count is positive there is a last marker line.
pub proof fn lemma_last_marker(ls: Seq<Seq<char>>, marker: Seq<char>, n: int) -> (a: int)
    requires
        markers_before(ls, marker, n) > 0,
    ensures
        0 <= a < n,
        contains(ls[a], marker),
        forall|j: int| a < j < n ==> !contains(#[trigger] ls[j], marker),
        markers_before(ls, marker, a) + 1 == markers_before(ls, marker, n),
    decreases n,
{
    if contains(ls[n - 1], marker) {
        n - 1
    } else {
        lemma_last_marker(ls, marker, n - 1)
    }
}

/// Where the count rises over a stretch there is a first marker line in it.
pub proof fn lemma_next_marker(ls: Seq<Seq<char>>, marker: Seq<char>, m: int, n: int) -> (b: int)
    requires
        0 <= m <= n,
        markers_before(ls, marker, m) < markers_before(ls, marker, n),
    ensures
        m <= b < n,
        contains(ls[b], marker),
        forall|j: int| m <= j < b ==> !contains(#[trigger] ls[j], marker),
    decreases n - m,
{
    if contains(ls[m], marker) {
        m
    } else {
        lemma_next_marker(ls, marker, m + 1, n)
    }
}

/// A line is dropped exactly if it lies within a quoted block, its two
/// marker lines included, or at or after the marker line of a block that is
/// never closed.
pub proof fn law_dropped_lines(ls: Seq<Seq<char>>, marker: Seq<char>, i: int)
    requires
        0 <= i < ls.len(),
    ensures
        !is_kept(ls, marker, i) <==> (exists|a: int, b: int|
            a <= i <= b && #[trigger] is_block(ls, marker, a, b)) || (exists|a: int|
            a <= i && #[trigger] is_unclosed(ls, marker, a)),
{
    let n = ls.len() as int;
    if !is_kept(ls, marker, i) {
        let a = if markers_before(ls, marker, i) % 2 == 1 {
            lemma_last_marker(ls, marker, i)
        } else {
            i
        };
        let from = if contains(ls[i], marker) && a < i {
            i
        } else {
            i + 1
        };
        if markers_before(ls, marker, from) < markers_before(ls, marker, n) {
            let b = lemma_next_marker(ls, marker, from, n);
            assert(is_block(ls, marker, a, b));
        } else {
            assert forall|j: int| a < j < n implies !contains(#[trigger] ls[j], marker) by {
                if from <= j && contains(ls[j], marker) {
                    lemma_marker_counted(ls, marker, from, j, n);
                }
            }
            assert(is_unclosed(ls, marker, a));
        }
    }
    assert forall|a: int, b: int| a <= i <= b && #[trigger] is_block(ls, marker, a, b) implies !is_kept(
        ls,
        marker,
        i,
    ) by {
        if a < i < b {
            lemma_markers_unchanged(ls, marker, a + 1, i);
        }
    }
    assert forall|a: int| a <= i && #[trigger] is_unclosed(ls, marker, a) implies !is_kept(
        ls,
        marker,
        i,
    ) by {
        if a < i {
            lemma_markers_unchanged(ls, marker, a + 1, i);
        }
    }
}

/// With an even number of marker lines every quoted block is closed: the
/// lines dropped are exactly those from a block's opening marker line to
/// its closing one.
pub proof fn law_even_markers(ls: Seq<Seq<char>>, marker: Seq<char>, i: int)
    requires
        0 <= i < ls.len(),
        markers_before(ls, marker, ls.len() as int) % 2 == 0,
    ensures
        !is_kept(ls, marker, i) <==> exists|a: int, b: int|
            a <= i <= b && #[trigger] is_block(ls, marker, a, b),
{
    law_dropped_lines(ls, marker, i);
    assert forall|a: int| #[trigger] is_unclosed(ls, marker, a) implies false by {
        lemma_markers_unchanged(ls, marker, a + 1, ls.len() as int);
    }
}

/// With an odd number of marker lines the last of them opens a block that
/// is never closed: it and every line after it are dropped.
pub proof fn law_odd_markers(ls: Seq<Seq<char>>, marker: Seq<char>, last: int, i: int)
    requires
        markers_before(ls, marker, ls.len() as int) % 2 == 1,
        0 <= last <= i < ls.len(),
        contains(ls[last], marker),
        forall|j: int| last < j < ls.len() ==> !contains(#[trigger] ls[j], marker),
    ensures
        is_unclosed(ls, marker, last),
        !is_kept(ls, marker, i),
{
    lemma_markers_unchanged(ls, marker, last + 1, ls.len() as int);
    law_dropped_lines(ls, marker, i);
}

} // verus!
