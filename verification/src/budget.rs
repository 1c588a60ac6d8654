//! Word budgets: bounding a text to a number of words.
//!
//! A text that is over its budget keeps words from its front and from its
//! end and loses the middle. Two texts that share one budget are cut
//! according to the share that the first one may claim.

use crate::chars::{from_chars, push_char, to_chars};
use crate::quotes::{strip_quoted_chars, without_quoted};
use crate::ratio::SplitRatio;
use crate::words::{
    join, lemma_join_concat, lemma_words_are_words, lemma_words_of_join, push_joined, split_words,
    words,
};
use vstd::prelude::*;

verus! {

/// The first `head` of the words `ws` followed by their last `max - head`.
pub open spec fn head_and_tail(ws: Seq<Seq<char>>, max: nat, head: nat) -> Seq<Seq<char>> {
    ws.take(head as int) + ws.skip(ws.len() - (max - head))
}

/// `body` bounded to `max` words. A body within the bound is left as it
/// is. Otherwise the share of the bound that `split` names is spent on the
/// first words, the remainder on the last words, and what is kept is joined
/// by single spaces.
pub open spec fn fitted(body: Seq<char>, max: nat, split: SplitRatio) -> Seq<char> {
    if words(body).len() <= max {
        body
    } else {
        join(head_and_tail(words(body), max, split.share(max)))
    }
}

/// `text` without its quoted blocks, bounded to `max` words.
pub open spec fn squeezed(text: Seq<char>, marker: Seq<char>, max: nat, split: SplitRatio) -> Seq<
    char,
> {
    fitted(without_quoted(text, marker), max, split)
}

/// `body` bounded to `max` words.
pub fn fit_chars(body: Vec<char>, max: usize, split: SplitRatio) -> (out: String)
    ensures
        out@ == fitted(body@, max as nat, split),
{
    let ws = split_words(&body);
    let n: usize = ws.len();
    if n <= max {
        return from_chars(&body);
    }
    let head: usize = split.share_of(max);
    let tail: usize = max - head;
    let ghost all = ws.deep_view();
    let ghost front = all.subrange(0, head as int);
    let ghost back = all.subrange(n - tail, n as int);
    let mut out = String::new();
    push_joined(&mut out, &ws, 0, head);
    if head > 0 && tail > 0 {
        push_char(&mut out, ' ');
    }
    push_joined(&mut out, &ws, n - tail, n);
    proof {
        lemma_join_concat(front, back);
    }
    out
}

/// `body` bounded to `max` words.
pub fn truncate_words(body: &str, max: usize, split: SplitRatio) -> (out: String)
    ensures
        out@ == fitted(body@, max as nat, split),
{
    fit_chars(to_chars(body), max, split)
}

/// `inp_str` without its quoted blocks, bounded to `max_len` words.
///
/// A line that holds `quote_mark` opens or closes a quoted block. Of a text
/// that is over the bound, the share `split` of `max_len` is taken from the
/// front, the remainder from the end.
pub fn squeeze_fit_comment_texts(
    inp_str: &str,
    quote_mark: &str,
    max_len: u16,
    split: SplitRatio,
) -> (out: String)
    ensures
        out@ == squeezed(inp_str@, quote_mark@, max_len as nat, split),
{
    let text = to_chars(inp_str);
    let marker = to_chars(quote_mark);
    let body = strip_quoted_chars(&text, &marker);
    fit_chars(body, max_len as usize, split)
}

/// What is kept of a text that is over its bound has exactly `max` words:
/// the first `split.share(max)` and the last `max - split.share(max)` of the
/// body, in their order.
pub proof fn law_truncation_keeps_head_and_tail(body: Seq<char>, max: nat, split: SplitRatio)
    requires
        split.wf(),
        words(body).len() > max,
    ensures
        words(fitted(body, max, split)) == head_and_tail(words(body), max, split.share(max)),
        words(fitted(body, max, split)).len() == max,
        words(fitted(body, max, split)).take(split.share(max) as int) == words(body).take(
            split.share(max) as int,
        ),
        words(fitted(body, max, split)).skip(split.share(max) as int) == words(body).skip(
            words(body).len() - (max - split.share(max)),
        ),
{
    let ws = words(body);
    let head = split.share(max);
    let kept = head_and_tail(ws, max, head);
    split.lemma_share_le(max);
    lemma_words_are_words(body);
    lemma_words_of_join(kept);
}

/// A budgeted text is within its bound, and a text that was within the
/// bound is returned as it was.
pub proof fn law_budget_bounds_words(
    text: Seq<char>,
    marker: Seq<char>,
    max: nat,
    split: SplitRatio,
)
    requires
        split.wf(),
    ensures
        words(squeezed(text, marker, max, split)).len() <= max,
        words(without_quoted(text, marker)).len() <= max ==> squeezed(text, marker, max, split)
            == without_quoted(text, marker),
{
    let body = without_quoted(text, marker);
    if words(body).len() > max {
        law_truncation_keeps_head_and_tail(body, max, split);
    }
}

/// Bounding a text twice is bounding it once.
pub proof fn law_fitting_is_idempotent(body: Seq<char>, max: nat, split: SplitRatio)
    requires
        split.wf(),
    ensures
        fitted(fitted(body, max, split), max, split) == fitted(body, max, split),
{
    if words(body).len() > max {
        law_truncation_keeps_head_and_tail(body, max, split);
    }
}

/// The bound, in words, that commit summaries and issue summaries share.
pub const COMBINED_WORD_CAP: usize = 44_000;

/// The first `n` words of `text`, joined by single spaces.
pub open spec fn first_words(text: Seq<char>, n: nat) -> Seq<char> {
    join(words(text).take(n as int))
}

/// Two texts under one bound of `cap` words. Texts that are within the
/// bound together are left as they are. Otherwise, if `a` has more words
/// than its share `split` of the bound, `a` is cut to that share and `b` is
/// left alone; if not, `a` is left alone and `b` is cut to what `a` leaves
/// of the bound.
pub open spec fn allocated(a: Seq<char>, b: Seq<char>, cap: nat, split: SplitRatio) -> (
    Seq<char>,
    Seq<char>,
) {
    if words(a).len() + words(b).len() <= cap {
        (a, b)
    } else if words(a).len() > split.share(cap) {
        (first_words(a, split.share(cap)), b)
    } else {
        (a, first_words(b, (cap - words(a).len()) as nat))
    }
}

/// The first `n` words of `ws`, joined by single spaces.
fn join_first(ws: &Vec<Vec<char>>, n: usize) -> (out: String)
    requires
        n <= ws.len(),
    ensures
        out@ == join(ws.deep_view().take(n as int)),
{
    let mut out = String::new();
    push_joined(&mut out, ws, 0, n);
    out
}

/// `text_a` and `text_b` under one bound of `total_word_cap` words, of which
/// `text_a` may claim the share `split`.
pub fn allocate_budget(text_a: &str, text_b: &str, total_word_cap: usize, split: SplitRatio) -> (out:
    (String, String))
    ensures
        (out.0@, out.1@) == allocated(text_a@, text_b@, total_word_cap as nat, split),
{
    let a = to_chars(text_a);
    let b = to_chars(text_b);
    let words_a = split_words(&a);
    let words_b = split_words(&b);
    let len_a: usize = words_a.len();
    let len_b: usize = words_b.len();
    if len_a <= total_word_cap && len_b <= total_word_cap - len_a {
        return (from_chars(&a), from_chars(&b));
    }
    let take_a: usize = split.share_of(total_word_cap);
    if len_a > take_a {
        (join_first(&words_a, take_a), from_chars(&b))
    } else {
        (from_chars(&a), join_first(&words_b, total_word_cap - len_a))
    }
}

/// Commit summaries and issue summaries under their shared bound of
/// `COMBINED_WORD_CAP` words.
pub fn squeeze_fit_commits_issues(commits: &str, issues: &str, split: SplitRatio) -> (out: (
    String,
    String,
))
    ensures
        (out.0@, out.1@) == allocated(commits@, issues@, COMBINED_WORD_CAP as nat, split),
{
    allocate_budget(commits, issues, COMBINED_WORD_CAP, split)
}

/// What a shared bound does to the word counts. A text that is cut keeps
/// its first words. When the second text is the one that is cut, the two
/// together have exactly `cap` words; when the first is cut, it has exactly
/// its share and the second is as long as it was.
pub proof fn law_allocation(a: Seq<char>, b: Seq<char>, cap: nat, split: SplitRatio)
    requires
        split.wf(),
    ensures
        ({
            let (a2, b2) = allocated(a, b, cap, split);
            let over = words(a).len() + words(b).len() > cap;
            let share = split.share(cap);
            &&& !over ==> a2 == a && b2 == b
            &&& over && words(a).len() > share ==> words(a2) == words(a).take(share as int)
                && words(a2).len() == share && b2 == b
            &&& over && words(a).len() <= share ==> a2 == a && words(b2) == words(b).take(
                cap - words(a).len(),
            ) && words(a2).len() + words(b2).len() == cap
        }),
{
    let share = split.share(cap);
    split.lemma_share_le(cap);
    if words(a).len() + words(b).len() > cap {
        if words(a).len() > share {
            lemma_first_words(a, share);
        } else {
            lemma_first_words(b, (cap - words(a).len()) as nat);
        }
    }
}

/// Cutting a text to its first `n` words leaves those words.
pub proof fn lemma_first_words(text: Seq<char>, n: nat)
    requires
        n <= words(text).len(),
    ensures
        words(first_words(text, n)) == words(text).take(n as int),
{
    let kept = words(text).take(n as int);
    lemma_words_are_words(text);
    lemma_words_of_join(kept);
}

} // verus!
