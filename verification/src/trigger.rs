//! The command that starts a run.
//!
//! A run is asked for by a text that holds the trigger word followed by the
//! owner of a repository, the repository and a user.

use crate::chars::{from_chars, to_chars};
use crate::failure::Failure;
use crate::search::{find, first_occurrence};
use crate::words::{split_words, words};
use vstd::prelude::*;

verus! {

/// Whose activity in which repository a run is about.
#[derive(Debug)]
pub struct Target {
    pub owner: String,
    pub repo: String,
    pub user_name: String,
}

/// A target as a mathematical value.
pub struct TargetView {
    pub owner: Seq<char>,
    pub repo: Seq<char>,
    pub user_name: Seq<char>,
}

impl View for Target {
    type V = TargetView;

    open spec fn view(&self) -> TargetView {
        TargetView { owner: self.owner@, repo: self.repo@, user_name: self.user_name@ }
    }
}

/// The part of `text` that the command is read from: what stands between
/// the first occurrence of `trigger` and the next one after it, or the end
/// of the text. A text without the trigger gives nothing. Under the empty
/// trigger the part is the first character of the text.
pub open spec fn command_text(text: Seq<char>, trigger: Seq<char>) -> Seq<char> {
    if trigger.len() == 0 {
        if text.len() == 0 {
            text
        } else {
            text.take(1)
        }
    } else {
        match first_occurrence(text, trigger, 0) {
            None => Seq::empty(),
            Some(at) => {
                let start = at + trigger.len();
                match first_occurrence(text, trigger, start) {
                    None => text.subrange(start, text.len() as int),
                    Some(end) => text.subrange(start, end),
                }
            },
        }
    }
}

/// What `text` asks for: the first three words after the trigger name
/// owner, repository and user.
pub open spec fn parsed(text: Seq<char>, trigger: Seq<char>) -> Result<TargetView, Failure> {
    let named = words(command_text(text, trigger));
    if named.len() >= 3 {
        Ok(TargetView { owner: named[0], repo: named[1], user_name: named[2] })
    } else {
        Err(Failure::PreconditionViolation)
    }
}

/// The part of `text` that the command is read from.
fn command_chars(text: &Vec<char>, trigger: &Vec<char>) -> (part: Vec<char>)
    ensures
        part@ == command_text(text@, trigger@),
{
    let mut part: Vec<char> = Vec::new();
    if trigger.len() == 0 {
        if text.len() > 0 {
            part.push(text[0]);
        }
        return part;
    }
    let start: usize = match find(text, trigger, 0) {
        None => {
            return part;
        },
        Some(at) => at + trigger.len(),
    };
    let end: usize = match find(text, trigger, start) {
        None => text.len(),
        Some(end) => end,
    };
    let mut i: usize = start;
    while i < end
        invariant
            start <= i <= end <= text.len(),
            part@ == text@.subrange(start as int, i as int),
        decreases end - i,
    {
        part.push(text[i]);
        i += 1;
    }
    part
}

/// Reads the command out of `text`.
///
/// Fails with `PreconditionViolation` unless at least three words stand
/// between the first `trigger_word` and the next.
pub fn parse_trigger(text: &str, trigger_word: &str) -> (out: Result<Target, Failure>)
    ensures
        match out {
            Ok(target) => parsed(text@, trigger_word@) == Ok::<TargetView, Failure>(target@),
            Err(failure) => parsed(text@, trigger_word@) == Err::<TargetView, Failure>(failure),
        },
{
    let text = to_chars(text);
    let trigger = to_chars(trigger_word);
    let part = command_chars(&text, &trigger);
    let named = split_words(&part);
    if named.len() >= 3 {
        proof {
            assert(named.deep_view()[0] =~= named[0]@);
            assert(named.deep_view()[1] =~= named[1]@);
            assert(named.deep_view()[2] =~= named[2]@);
        }
        Ok(
            Target {
                owner: from_chars(&named[0]),
                repo: from_chars(&named[1]),
                user_name: from_chars(&named[2]),
            },
        )
    } else {
        Err(Failure::PreconditionViolation)
    }
}

} // verus!
