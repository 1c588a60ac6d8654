use activity_digest::correlate::{
    correlate_commits_issues, correlate_facts_user, CORRELATE_FACTS_TOKENS, CORRELATE_SYSTEM,
    REPORT_TOKENS, REPORT_USER,
};
use activity_digest::failure::Failure;
use activity_digest::steps::{Action, ChatRequest, Event};

fn request_of(action: Action) -> ChatRequest {
    match action {
        Action::Chat(request) => request,
        other => panic!("no request: {:?}", other),
    }
}

#[test]
fn report_is_asked_for_in_two_turns() {
    assert_eq!(CORRELATE_FACTS_TOKENS, 512);
    assert_eq!(REPORT_TOKENS, 256);
    let mut chain = correlate_commits_issues("commit one\ncommit two\n", "issue one\n");
    assert_eq!(chain.error_tag(), "correlate_commits_issues");
    let first = request_of(chain.action());
    assert_eq!(first.chat_id, "correlate-99");
    assert_eq!(first.max_tokens, 512);
    assert!(first.restart);
    assert_eq!(first.system_prompt, CORRELATE_SYSTEM);
    assert_eq!(first.user_prompt, correlate_facts_user("commit one\ncommit two\n", "issue one\n"));
    chain.handle(Event::Reply(Ok("- contribution".to_string())));
    let second = request_of(chain.action());
    assert_eq!(second.chat_id, "correlate-99");
    assert_eq!(second.max_tokens, 256);
    assert!(!second.restart);
    assert_eq!(second.user_prompt, REPORT_USER);
    chain.handle(Event::Reply(Ok("- The user fixed the parser.".to_string())));
    assert_eq!(chain.outcome(), Some(Ok("- The user fixed the parser.".to_string())));
}

#[test]
fn summaries_over_the_shared_bound_are_cut_before_they_are_sent() {
    let commits: Vec<String> = (1..=30_000).map(|i| format!("c{i}")).collect();
    let issues: Vec<String> = (1..=20_000).map(|i| format!("i{i}")).collect();
    let chain = correlate_commits_issues(&commits.join("\n"), &issues.join("\n"));
    let first = request_of(chain.action());
    let expected = correlate_facts_user(&commits[..26_400].join(" "), &issues.join("\n"));
    assert_eq!(first.user_prompt, expected);
}

#[test]
fn no_report_when_a_turn_fails_or_the_result_is_too_short() {
    let mut first_fails = correlate_commits_issues("c", "i");
    first_fails.handle(Event::Reply(Err(Failure::UpstreamFailure)));
    assert_eq!(first_fails.outcome(), Some(Err(Failure::UpstreamFailure)));
    let mut second_fails = correlate_commits_issues("c", "i");
    second_fails.handle(Event::Reply(Ok("facts".to_string())));
    second_fails.handle(Event::Reply(Err(Failure::UpstreamFailure)));
    assert_eq!(second_fails.outcome(), Some(Err(Failure::UpstreamFailure)));
    let mut short = correlate_commits_issues("c", "i");
    short.handle(Event::Reply(Ok("facts".to_string())));
    short.handle(Event::Reply(Ok("ok".to_string())));
    assert_eq!(short.outcome(), Some(Err(Failure::DegenerateOutput)));
}

#[test]
fn prompts_of_the_report() {
    let commits = "C";
    let issues = "I";
    assert_eq!(CORRELATE_SYSTEM, "Your task is to identify the 1-3 most impactful contributions by a specific user, based on the given commit logs and issue records. Pay close attention to any sequential relationships between issues and commits, and consider how they reflect the user's growth and evolution within the project. Use this data to evaluate the user's overall influence on the project's development. Provide a concise summary in bullet-point format.");
    assert_eq!(correlate_facts_user(commits, issues), format!("Given the commit logs: {commits} and issue records: {issues}, identify the most significant contributions made by the user. Look for patterns and sequences of events that indicate the user's growth and how they approached problem-solving. Consider major code changes, and initiatives that had substantial impact on the project. Additionally, note any instances where the resolution of an issue led to a specific commit."));
    assert_eq!(REPORT_USER, "Based on the contributions identified, create a concise bullet-point summary. Highlight the user's key contributions and their influence on the project. Pay attention to their growth over time, and how their responses to issues evolved. Make sure to reference any interconnected events between issues and commits. Avoid replicating phrases from the source data and focus on providing a unique and insightful narrative. Please ensure your answer stayed below 256 tokens.");
}
