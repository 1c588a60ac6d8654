//! Whitespace-delimited words.

use crate::chars::{push_char, push_chars};
use vstd::prelude::*;

verus! {

/// Whether `c` has the Unicode property White_Space.
pub open spec fn is_whitespace(c: char) -> bool {
    let n = c as u32;
    ||| 0x09 <= n <= 0x0D
    ||| n == 0x20
    ||| n == 0x85
    ||| n == 0xA0
    ||| n == 0x1680
    ||| 0x2000 <= n <= 0x200A
    ||| n == 0x2028
    ||| n == 0x2029
    ||| n == 0x202F
    ||| n == 0x205F
    ||| n == 0x3000
}

/// Length of the longest prefix of `s` that holds no whitespace.
pub open spec fn word_len(s: Seq<char>) -> nat
    decreases s.len(),
{
    if s.len() == 0 || is_whitespace(s[0]) {
        0
    } else {
        1 + word_len(s.drop_first())
    }
}

/// The words of `s`: its maximal runs of characters that are not whitespace,
/// from left to right.
pub open spec fn words(s: Seq<char>) -> Seq<Seq<char>>
    decreases s.len(),
    via words_decreases
{
    if s.len() == 0 {
        Seq::empty()
    } else if is_whitespace(s[0]) {
        words(s.drop_first())
    } else {
        seq![s.take(word_len(s) as int)] + words(s.skip(word_len(s) as int))
    }
}

#[via_fn]
proof fn words_decreases(s: Seq<char>) {
    lemma_word_len(s);
}

/// `word_len(s)` marks the end of a whitespace-free prefix that cannot be
/// made longer.
pub proof fn lemma_word_len(s: Seq<char>)
    ensures
        word_len(s) <= s.len(),
        s.len() > 0 && !is_whitespace(s[0]) ==> word_len(s) >= 1,
        forall|i: int| 0 <= i < word_len(s) ==> !is_whitespace(#[trigger] s[i]),
        word_len(s) < s.len() ==> is_whitespace(s[word_len(s) as int]),
    decreases s.len(),
{
    if s.len() > 0 && !is_whitespace(s[0]) {
        let t = s.drop_first();
        lemma_word_len(t);
        assert forall|i: int| 0 <= i < word_len(s) implies !is_whitespace(#[trigger] s[i]) by {
            if i > 0 {
                assert(s[i] == t[i - 1]);
            }
        }
    }
}

/// Whether `c` is whitespace.
pub fn char_is_whitespace(c: char) -> (b: bool)
    ensures
        b == is_whitespace(c),
{
    let n: u32 = c as u32;
    (0x09 <= n && n <= 0x0D) || n == 0x20 || n == 0x85 || n == 0xA0 || n == 0x1680 || (0x2000 <= n
        && n <= 0x200A) || n == 0x2028 || n == 0x2029 || n == 0x202F || n == 0x205F || n == 0x3000
}

/// A whitespace-free stretch that ends at the end of `s` or at whitespace is
/// the first word's extent.
pub proof fn lemma_word_len_is(s: Seq<char>, k: int)
    requires
        0 <= k <= s.len(),
        forall|i: int| 0 <= i < k ==> !is_whitespace(#[trigger] s[i]),
        k < s.len() ==> is_whitespace(s[k]),
    ensures
        word_len(s) == k,
    decreases s.len(),
{
    if s.len() > 0 && !is_whitespace(s[0]) {
        lemma_word_len_is(s.drop_first(), k - 1);
    }
}

/// Whether `w` could be a word: it is not empty and holds no whitespace.
pub open spec fn is_word(w: Seq<char>) -> bool {
    w.len() > 0 && forall|i: int| 0 <= i < w.len() ==> !is_whitespace(#[trigger] w[i])
}

/// Every element of `words(s)` is a word.
pub proof fn lemma_words_are_words(s: Seq<char>)
    ensures
        forall|j: int| 0 <= j < words(s).len() ==> is_word(#[trigger] words(s)[j]),
    decreases s.len(),
{
    if s.len() > 0 {
        if is_whitespace(s[0]) {
            lemma_words_are_words(s.drop_first());
            assert(words(s) == words(s.drop_first()));
        } else {
            let k = word_len(s) as int;
            let rest = words(s.skip(k));
            lemma_word_len(s);
            lemma_words_are_words(s.skip(k));
            assert forall|j: int| 0 <= j < words(s).len() implies is_word(#[trigger] words(s)[j]) by {
                if j > 0 {
                    assert(words(s)[j] == rest[j - 1]);
                } else {
                    assert(words(s)[j] == s.take(k));
                }
            }
        }
    }
}

/// Splitting commutes with concatenation wherever the seam does not fall
/// inside a word.
pub proof fn lemma_words_concat(a: Seq<char>, b: Seq<char>)
    requires
        a.len() == 0 || b.len() == 0 || is_whitespace(a.last()) || is_whitespace(b[0]),
    ensures
        words(a + b) == words(a) + words(b),
    decreases a.len(),
{
    let ab = a + b;
    if a.len() > 0 && b.len() > 0 {
        if is_whitespace(a[0]) {
            assert(ab.drop_first() =~= a.drop_first() + b);
            lemma_words_concat(a.drop_first(), b);
        } else {
            let k = word_len(a) as int;
            lemma_word_len(a);
            lemma_word_len_is(ab, k);
            assert(ab.take(k) =~= a.take(k));
            assert(ab.skip(k) =~= a.skip(k) + b);
            lemma_words_concat(a.skip(k), b);
        }
    }
}

/// A word is its own only word.
pub proof fn lemma_words_of_word(w: Seq<char>)
    requires
        is_word(w),
    ensures
        words(w) == seq![w],
{
    lemma_word_len_is(w, w.len() as int);
    assert(w.take(w.len() as int) =~= w);
    assert(w.skip(w.len() as int) =~= Seq::<char>::empty());
    assert(words(Seq::<char>::empty()) =~= Seq::<Seq<char>>::empty());
}

/// The words of `ws` written one after another with a single space between
/// neighbours.
pub open spec fn join(ws: Seq<Seq<char>>) -> Seq<char>
    decreases ws.len(),
{
    if ws.len() == 0 {
        Seq::empty()
    } else if ws.len() == 1 {
        ws[0]
    } else {
        join(ws.drop_last()) + seq![' '] + ws.last()
    }
}

/// Splitting undoes joining.
pub proof fn lemma_words_of_join(ws: Seq<Seq<char>>)
    requires
        forall|j: int| 0 <= j < ws.len() ==> is_word(#[trigger] ws[j]),
    ensures
        words(join(ws)) == ws,
    decreases ws.len(),
{
    if ws.len() == 1 {
        lemma_words_of_word(ws[0]);
    } else if ws.len() > 1 {
        let init = ws.drop_last();
        let last = ws.last();
        let gap = seq![' '];
        lemma_words_of_join(init);
        lemma_words_of_word(last);
        lemma_words_concat(join(init), gap);
        lemma_words_concat(join(init) + gap, last);
        assert(gap.drop_first() =~= Seq::<char>::empty());
        assert(words(Seq::<char>::empty()) =~= Seq::<Seq<char>>::empty());
    }
}

/// The words of `s`, each in a vector of its own.
pub fn split_words(s: &Vec<char>) -> (out: Vec<Vec<char>>)
    ensures
        out.deep_view() == words(s@),
{
    let mut out: Vec<Vec<char>> = Vec::new();
    let mut i: usize = 0;
    assert(s@.skip(0) =~= s@);
    while i < s.len()
        invariant
            i <= s.len(),
            out.deep_view() + words(s@.skip(i as int)) == words(s@),
        decreases s.len() - i,
    {
        let ghost rest = s@.skip(i as int);
        if char_is_whitespace(s[i]) {
            assert(rest.drop_first() =~= s@.skip(i + 1));
            i += 1;
        } else {
            let start: usize = i;
            let mut word: Vec<char> = Vec::new();
            while i < s.len() && !char_is_whitespace(s[i])
                invariant
                    start <= i <= s.len(),
                    word@ == s@.subrange(start as int, i as int),
                    forall|j: int| start <= j < i ==> !is_whitespace(#[trigger] s@[j]),
                decreases s.len() - i,
            {
                word.push(s[i]);
                i += 1;
            }
            proof {
                let k = i - start;
                lemma_word_len_is(rest, k);
                assert(rest.take(k) =~= word@);
                assert(rest.skip(k) =~= s@.skip(i as int));
                assert(word.deep_view() =~= word@);
            }
            out.push(word);
        }
    }
    out
}

/// Joining two lists one after the other puts a single space between
/// them, unless one of them is empty.
pub proof fn lemma_join_concat(x: Seq<Seq<char>>, y: Seq<Seq<char>>)
    ensures
        join(x + y) == if x.len() == 0 {
            join(y)
        } else if y.len() == 0 {
            join(x)
        } else {
            join(x) + seq![' '] + join(y)
        },
    decreases y.len(),
{
    if x.len() > 0 && y.len() > 0 {
        assert((x + y).drop_last() =~= x + y.drop_last());
        lemma_join_concat(x, y.drop_last());
    }
}

/// Appends to `out` the words `ws[from..to]`, joined by single spaces.
pub(crate) fn push_joined(out: &mut String, ws: &Vec<Vec<char>>, from: usize, to: usize)
    requires
        from <= to <= ws.len(),
    ensures
        final(out)@ == old(out)@ + join(ws.deep_view().subrange(from as int, to as int)),
{
    let ghost all = ws.deep_view();
    let mut i: usize = from;
    while i < to
        invariant
            from <= i <= to <= ws.len(),
            all == ws.deep_view(),
            out@ == old(out)@ + join(all.subrange(from as int, i as int)),
        decreases to - i,
    {
        let ghost done = all.subrange(from as int, i as int);
        let ghost next = all.subrange(from as int, i + 1);
        if i > from {
            push_char(out, ' ');
        }
        let word = &ws[i];
        push_chars(out, word, 0, word.len());
        proof {
            assert(next.drop_last() =~= done);
        }
        i += 1;
    }
}

} // verus!
