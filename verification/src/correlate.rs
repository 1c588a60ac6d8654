//! The report that relates a user's commits to the issues the user was
//! involved in.
//!
//! The two collections of summaries are brought under their shared bound
//! and taken through one conversation. Its result is the report.

use crate::budget::{allocated, squeeze_fit_commits_issues, COMBINED_WORD_CAP};
use crate::chat::{chain_of_chat, ChatChain, ChatChainView};
use crate::ratio::SplitRatio;
use vstd::prelude::*;
use vstd::string::*;

verus! {

/// The conversation id of the report.
pub const CORRELATE_CHAT_ID: &'static str = "correlate-99";

/// What the report's conversation is called in reports of failure.
pub const CORRELATE_ERROR_TAG: &'static str = "correlate_commits_issues";

/// Ceiling on the tokens generated in the turn that picks the
/// contributions.
pub const CORRELATE_FACTS_TOKENS: u16 = 512;

/// Ceiling on the tokens generated in the turn that writes the report.
pub const REPORT_TOKENS: u16 = 256;

/// The system prompt of the turn that picks the most significant
/// contributions.
pub const CORRELATE_SYSTEM: &'static str = "Your task is to identify the 1-3 most impactful contributions by a specific user, based on the given commit logs and issue records. Pay close attention to any sequential relationships between issues and commits, and consider how they reflect the user's growth and evolution within the project. Use this data to evaluate the user's overall influence on the project's development. Provide a concise summary in bullet-point format.";

/// In the prompt for the most significant contributions, what stands before `commits`.
pub const CORRELATE_FACTS_USER_1: &'static str = "Given the commit logs: ";

/// In the prompt for the most significant contributions, what stands before `issues`.
pub const CORRELATE_FACTS_USER_2: &'static str = " and issue records: ";

/// In the prompt for the most significant contributions, what stands after `issues`.
pub const CORRELATE_FACTS_USER_3: &'static str = ", identify the most significant contributions made by the user. Look for patterns and sequences of events that indicate the user's growth and how they approached problem-solving. Consider major code changes, and initiatives that had substantial impact on the project. Additionally, note any instances where the resolution of an issue led to a specific commit.";

/// The prompt that asks for the most significant contributions in the two
/// collections of summaries.
pub open spec fn correlate_facts_user_text(commits: Seq<char>, issues: Seq<char>) -> Seq<char> {
    CORRELATE_FACTS_USER_1@ + commits + CORRELATE_FACTS_USER_2@ + issues + CORRELATE_FACTS_USER_3@
}

/// The prompt that asks for the most significant contributions in the two
/// collections of summaries.
pub fn correlate_facts_user(commits: &str, issues: &str) -> (out: String)
    ensures
        out@ == correlate_facts_user_text(commits@, issues@),
{
    let mut out = String::new();
    out.append(CORRELATE_FACTS_USER_1);
    out.append(commits);
    out.append(CORRELATE_FACTS_USER_2);
    out.append(issues);
    out.append(CORRELATE_FACTS_USER_3);
    out
}

/// The prompt that asks for the report.
pub const REPORT_USER: &'static str = "Based on the contributions identified, create a concise bullet-point summary. Highlight the user's key contributions and their influence on the project. Pay attention to their growth over time, and how their responses to issues evolved. Make sure to reference any interconnected events between issues and commits. Avoid replicating phrases from the source data and focus on providing a unique and insightful narrative. Please ensure your answer stayed below 256 tokens.";

/// The conversation that writes the report from the summaries of the
/// commits and of the issues. Commits may claim three fifths of the bound
/// that the two share.
pub open spec fn correlation_chain_view(commits: Seq<char>, issues: Seq<char>) -> ChatChainView {
    let fitted = allocated(commits, issues, COMBINED_WORD_CAP as nat, SplitRatio::of(3, 5));
    ChatChainView::start(
        CORRELATE_SYSTEM@,
        correlate_facts_user_text(fitted.0, fitted.1),
        CORRELATE_CHAT_ID@,
        CORRELATE_FACTS_TOKENS,
        REPORT_USER@,
        REPORT_TOKENS,
        CORRELATE_ERROR_TAG@,
    )
}

/// The conversation that writes the report, about to make its first
/// request. The report is the conversation's result; a conversation that
/// fails or yields too short a text leaves no report.
pub fn correlate_commits_issues(commits_summary: &str, issues_summary: &str) -> (chain: ChatChain)
    ensures
        chain@ == correlation_chain_view(commits_summary@, issues_summary@),
{
    let (commits, issues) = squeeze_fit_commits_issues(
        commits_summary,
        issues_summary,
        SplitRatio::three_fifths(),
    );
    let facts = correlate_facts_user(commits.as_str(), issues.as_str());
    chain_of_chat(
        CORRELATE_SYSTEM,
        facts.as_str(),
        CORRELATE_CHAT_ID,
        CORRELATE_FACTS_TOKENS,
        REPORT_USER,
        REPORT_TOKENS,
        CORRELATE_ERROR_TAG,
    )
}

} // verus!
