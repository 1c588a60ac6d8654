use activity_digest::budget::{
    allocate_budget, squeeze_fit_comment_texts, squeeze_fit_commits_issues, truncate_words,
    COMBINED_WORD_CAP,
};
use activity_digest::ratio::SplitRatio;

fn numbered(prefix: &str, n: usize) -> Vec<String> {
    (1..=n).map(|i| format!("{prefix}{i}")).collect()
}

fn three_fifths() -> SplitRatio {
    SplitRatio::new(3, 5).unwrap()
}

#[test]
fn truncation_keeps_first_300_and_last_200_of_1000() {
    let all = numbered("w", 1000);
    let input = all.join(" ");
    let out = squeeze_fit_comment_texts(&input, "```", 500, three_fifths());
    let got: Vec<&str> = out.split_whitespace().collect();
    let mut expected: Vec<&str> = all[..300].iter().map(|s| s.as_str()).collect();
    expected.extend(all[800..].iter().map(|s| s.as_str()));
    assert_eq!(got.len(), 500);
    assert_eq!(got, expected);
    assert_eq!(out, expected.join(" "));
}

#[test]
fn output_is_within_the_bound_when_input_is_over_it() {
    for n in [6usize, 7, 50, 501] {
        for max in [0u16, 1, 2, 5] {
            let input = numbered("w", n).join("\n");
            let out = squeeze_fit_comment_texts(&input, "```", max, three_fifths());
            assert_eq!(out.split_whitespace().count(), max as usize, "n={n} max={max}");
        }
    }
}

#[test]
fn short_input_is_returned_as_stripped() {
    let out = squeeze_fit_comment_texts("one  two\nthree", "```", 500, three_fifths());
    assert_eq!(out, "one  two\nthree\n");
    let exact = squeeze_fit_comment_texts("a b c", "```", 3, three_fifths());
    assert_eq!(exact, "a b c\n");
}

#[test]
fn stripping_comes_before_counting() {
    let text = "a b\n```\nc d e f g h\n```\ni";
    assert_eq!(squeeze_fit_comment_texts(text, "```", 3, three_fifths()), "a b\ni\n");
    assert_eq!(squeeze_fit_comment_texts(text, "```", 2, three_fifths()), "a i");
}

#[test]
fn budgeting_twice_changes_nothing_more() {
    let input = numbered("w", 40).join("  \n");
    let once = truncate_words(&input, 10, three_fifths());
    let twice = truncate_words(&once, 10, three_fifths());
    assert_eq!(once, "w1 w2 w3 w4 w5 w6 w37 w38 w39 w40");
    assert_eq!(twice, once);
}

#[test]
fn truncate_words_drops_the_middle() {
    assert_eq!(truncate_words("a b c d e f g h i j", 5, three_fifths()), "a b c i j");
    assert_eq!(truncate_words("a b c d e f g h i j", 10, three_fifths()), "a b c d e f g h i j");
    assert_eq!(truncate_words(" a  b ", 10, three_fifths()), " a  b ");
}

#[test]
fn head_share_is_rounded_down() {
    let text = "a b c d e f g h i j";
    assert_eq!(truncate_words(text, 4, three_fifths()), "a b i j");
    assert_eq!(truncate_words(text, 1, three_fifths()), "j");
    assert_eq!(truncate_words(text, 0, three_fifths()), "");
    assert_eq!(truncate_words(text, 3, SplitRatio::new(1, 1).unwrap()), "a b c");
    assert_eq!(truncate_words(text, 3, SplitRatio::new(0, 1).unwrap()), "h i j");
    assert_eq!(truncate_words(text, 3, SplitRatio::new(1, 2).unwrap()), "a i j");
    assert_eq!(truncate_words(text, 9, SplitRatio::new(2, 3).unwrap()), "a b c d e f h i j");
}

#[test]
fn ratio_must_lie_between_zero_and_one() {
    assert!(SplitRatio::new(0, 1).is_some());
    assert!(SplitRatio::new(1, 1).is_some());
    assert!(SplitRatio::new(3, 5).is_some());
    assert!(SplitRatio::new(1, 0).is_none());
    assert!(SplitRatio::new(0, 0).is_none());
    assert!(SplitRatio::new(6, 5).is_none());
}

#[test]
fn share_of_is_the_floor_of_the_product() {
    let r = three_fifths();
    assert_eq!(r.share_of(500), 300);
    assert_eq!(r.share_of(120), 72);
    assert_eq!(r.share_of(44_000), 26_400);
    assert_eq!(r.share_of(4), 2);
    assert_eq!(r.share_of(1), 0);
    assert_eq!(r.share_of(0), 0);
    assert_eq!(SplitRatio::three_fifths().share_of(7), 4);
    let full = SplitRatio::new(u32::MAX, u32::MAX).unwrap();
    assert_eq!(full.share_of(usize::MAX), usize::MAX);
}

#[test]
fn shared_budget_cuts_first_text_to_its_share() {
    let a = numbered("w", 100).join(" ");
    let b = numbered("x", 100).join(" ");
    let (a2, b2) = allocate_budget(&a, &b, 120, three_fifths());
    assert_eq!(a2, numbered("w", 72).join(" "));
    assert_eq!(a2.split_whitespace().count(), 72);
    assert_eq!(b2, b);
    assert_eq!(b2.split_whitespace().count(), 100);
}

#[test]
fn shared_budget_cuts_second_text_when_first_is_within_its_share() {
    let a = numbered("w", 50).join("\n");
    let b = numbered("x", 100).join(" ");
    let (a2, b2) = allocate_budget(&a, &b, 120, three_fifths());
    assert_eq!(a2, a);
    assert_eq!(b2, numbered("x", 70).join(" "));
    let (a3, b3) = allocate_budget(&numbered("w", 72).join(" "), &b, 120, three_fifths());
    assert_eq!(a3.split_whitespace().count(), 72);
    assert_eq!(b3.split_whitespace().count(), 48);
}

#[test]
fn shared_budget_leaves_texts_within_it_alone() {
    let a = "one  two\nthree\n";
    let b = "\tfour five ";
    let (a2, b2) = allocate_budget(a, b, 5, three_fifths());
    assert_eq!(a2, a);
    assert_eq!(b2, b);
    let (a3, b3) = allocate_budget(a, b, 4, three_fifths());
    assert_eq!(a3, "one two");
    assert_eq!(b3, b);
    let (a4, b4) = allocate_budget("", "", 0, three_fifths());
    assert_eq!(a4, "");
    assert_eq!(b4, "");
}

#[test]
fn commits_and_issues_share_44000_words() {
    assert_eq!(COMBINED_WORD_CAP, 44_000);
    let commits = numbered("c", 30_000).join(" ");
    let issues = numbered("i", 20_000).join(" ");
    let (c2, i2) = squeeze_fit_commits_issues(&commits, &issues, three_fifths());
    assert_eq!(c2.split_whitespace().count(), 26_400);
    assert!(c2.ends_with(" c26400"));
    assert_eq!(i2, issues);
    let few = numbered("c", 10_000).join(" ");
    let many = numbered("i", 40_000).join(" ");
    let (c3, i3) = squeeze_fit_commits_issues(&few, &many, three_fifths());
    assert_eq!(c3, few);
    assert_eq!(i3.split_whitespace().count(), 34_000);
    let (c4, i4) = squeeze_fit_commits_issues("a\nb", "c\nd", three_fifths());
    assert_eq!(c4, "a\nb");
    assert_eq!(i4, "c\nd");
}
