use activity_digest::commits::{
    analyze_commits, commit_chain, commit_facts_system, commit_facts_user, sha_serial,
    CommitAnalysis, COMMIT_SUMMARY_USER, FACTS_TOKENS, SUMMARY_CEILING, SUMMARY_TOKENS,
};
use activity_digest::failure::Failure;
use activity_digest::steps::{Action, ChatRequest, Event};

const GOOD: &str = "On 2023/05/01, the parser was replaced. It is faster now.";

fn started() -> CommitAnalysis {
    analyze_commits("WasmEdge", "wasmedge", "juntao")
}

fn shas(list: &[&str]) -> Event {
    Event::Commits(Ok(list.iter().map(|s| s.to_string()).collect()))
}

fn reply(text: &str) -> Event {
    Event::Reply(Ok(text.to_string()))
}

fn url_of(action: Action) -> String {
    match action {
        Action::ListCommits { url } => url,
        Action::FetchPatch { url } => url,
        other => panic!("no address: {:?}", other),
    }
}

fn request_of(action: Action) -> ChatRequest {
    match action {
        Action::Chat(request) => request,
        other => panic!("no request: {:?}", other),
    }
}

#[test]
fn analysis_begins_by_listing_the_commits() {
    let analysis = started();
    assert!(!analysis.is_finished());
    assert_eq!(analysis.result(), None);
    assert_eq!(
        url_of(analysis.action()),
        "https://api.github.com/repos/WasmEdge/wasmedge/commits?author=juntao"
    );
}

#[test]
fn unreadable_list_ends_with_nothing_collected() {
    let mut analysis = started();
    analysis.handle(Event::Commits(Err(Failure::TransportFailure)));
    assert!(analysis.is_finished());
    assert!(matches!(analysis.action(), Action::Done));
    assert_eq!(analysis.result(), Some(String::new()));
    let mut parsed_badly = started();
    parsed_badly.handle(Event::Commits(Err(Failure::ParseFailure)));
    assert_eq!(parsed_badly.result(), Some(String::new()));
}

#[test]
fn empty_list_ends_with_nothing_collected() {
    let mut analysis = started();
    analysis.handle(shas(&[]));
    assert_eq!(analysis.result(), Some(String::new()));
    assert!(analysis.entries().is_empty());
}

#[test]
fn one_commit_is_read_asked_about_and_collected() {
    let mut analysis = started();
    analysis.handle(shas(&["0123456789abcdef"]));
    assert_eq!(
        url_of(analysis.action()),
        "https://github.com/WasmEdge/wasmedge/commit/0123456789abcdef.patch"
    );
    analysis.handle(Event::Patch(Ok("PATCH TEXT".to_string())));
    let first = request_of(analysis.action());
    assert_eq!(first.chat_id, "commit-01234");
    assert_eq!(first.max_tokens, 256);
    assert!(first.restart);
    assert_eq!(first.system_prompt, commit_facts_system("juntao", "wasmedge"));
    assert_eq!(first.user_prompt, commit_facts_user("PATCH TEXT"));
    analysis.handle(reply("facts about the commit"));
    let second = request_of(analysis.action());
    assert_eq!(second.chat_id, "commit-01234");
    assert_eq!(second.max_tokens, 128);
    assert!(!second.restart);
    assert_eq!(second.user_prompt, COMMIT_SUMMARY_USER);
    assert!(second.system_prompt.contains("facts about the commit"));
    analysis.handle(reply(GOOD));
    assert!(analysis.is_finished());
    assert_eq!(analysis.result(), Some(format!("{GOOD}\n")));
    assert_eq!(analysis.entries().len(), 1);
    assert_eq!(analysis.entries()[0].source_id, "0123456789abcdef");
    assert_eq!(analysis.entries()[0].text, GOOD);
}

#[test]
fn unreadable_patch_is_passed_over() {
    let mut analysis = started();
    analysis.handle(shas(&["aaaaaaa", "bbbbbbb"]));
    analysis.handle(Event::Patch(Err(Failure::TransportFailure)));
    assert_eq!(url_of(analysis.action()), "https://github.com/WasmEdge/wasmedge/commit/bbbbbbb.patch");
    analysis.handle(Event::Patch(Ok("patch".to_string())));
    analysis.handle(reply("facts"));
    analysis.handle(reply(GOOD));
    assert_eq!(analysis.result(), Some(format!("{GOOD}\n")));
    assert_eq!(analysis.entries()[0].source_id, "bbbbbbb");
}

#[test]
fn failed_or_degenerate_conversation_is_passed_over() {
    let mut analysis = started();
    analysis.handle(shas(&["aaaaaaa", "bbbbbbb", "ccccccc"]));
    analysis.handle(Event::Patch(Ok("first patch".to_string())));
    analysis.handle(Event::Reply(Err(Failure::UpstreamFailure)));
    assert_eq!(url_of(analysis.action()), "https://github.com/WasmEdge/wasmedge/commit/bbbbbbb.patch");
    analysis.handle(Event::Patch(Ok("second patch".to_string())));
    analysis.handle(reply("facts"));
    analysis.handle(reply("ok"));
    assert_eq!(url_of(analysis.action()), "https://github.com/WasmEdge/wasmedge/commit/ccccccc.patch");
    analysis.handle(Event::Patch(Ok("third patch".to_string())));
    analysis.handle(reply("facts"));
    analysis.handle(Event::Reply(Err(Failure::UpstreamFailure)));
    assert_eq!(analysis.result(), Some(String::new()));
}

#[test]
fn summaries_are_collected_in_order_each_on_its_line() {
    let mut analysis = started();
    analysis.handle(shas(&["aaaaaaa", "bbbbbbb"]));
    analysis.handle(Event::Patch(Ok("first patch".to_string())));
    analysis.handle(reply("facts"));
    analysis.handle(reply("first summary text"));
    assert_eq!(analysis.result(), None);
    analysis.handle(Event::Patch(Ok("second patch".to_string())));
    analysis.handle(reply("facts"));
    analysis.handle(reply("second summary text"));
    assert_eq!(analysis.result(), Some("first summary text\nsecond summary text\n".to_string()));
    let (text, entries) = analysis.into_parts();
    assert_eq!(text, "first summary text\nsecond summary text\n");
    assert_eq!(entries.len(), 2);
    assert_eq!(entries[1].source_id, "bbbbbbb");
    assert_eq!(entries[1].text, "second summary text");
}

#[test]
fn collecting_stops_above_the_ceiling() {
    assert_eq!(SUMMARY_CEILING, 45_000);
    let long = "y".repeat(45_000);
    let mut analysis = started();
    analysis.handle(shas(&["aaaaaaa", "bbbbbbb"]));
    analysis.handle(Event::Patch(Ok("first patch".to_string())));
    analysis.handle(reply("facts"));
    analysis.handle(reply(&long));
    assert!(analysis.is_finished());
    assert!(matches!(analysis.action(), Action::Done));
    assert_eq!(analysis.result().map(|s| s.chars().count()), Some(45_001));
}

#[test]
fn collecting_goes_on_at_the_ceiling() {
    let exact = "y".repeat(44_999);
    let mut analysis = started();
    analysis.handle(shas(&["aaaaaaa", "bbbbbbb"]));
    analysis.handle(Event::Patch(Ok("first patch".to_string())));
    analysis.handle(reply("facts"));
    analysis.handle(reply(&exact));
    assert!(!analysis.is_finished());
    assert_eq!(url_of(analysis.action()), "https://github.com/WasmEdge/wasmedge/commit/bbbbbbb.patch");
}

#[test]
fn events_that_answer_nothing_are_ignored() {
    let mut analysis = started();
    analysis.handle(reply("stray"));
    analysis.handle(Event::Patch(Ok("stray".to_string())));
    analysis.handle(Event::Published);
    assert_eq!(
        url_of(analysis.action()),
        "https://api.github.com/repos/WasmEdge/wasmedge/commits?author=juntao"
    );
    analysis.handle(shas(&["aaaaaaa"]));
    analysis.handle(shas(&["zzzzzzz"]));
    analysis.handle(reply("stray"));
    assert_eq!(url_of(analysis.action()), "https://github.com/WasmEdge/wasmedge/commit/aaaaaaa.patch");
}

#[test]
fn serial_is_the_first_five_characters() {
    assert_eq!(sha_serial("0123456789"), "01234");
    assert_eq!(sha_serial("01234"), "01234");
    assert_eq!(sha_serial("012"), "012");
    assert_eq!(sha_serial(""), "");
    assert_eq!(sha_serial("日本語のテキスト"), "日本語のテ");
}

#[test]
fn conversation_of_a_commit() {
    assert_eq!(FACTS_TOKENS, 256);
    assert_eq!(SUMMARY_TOKENS, 128);
    let chain = commit_chain("juntao", "wasmedge", "abcdef0123", "PATCH");
    assert_eq!(chain.error_tag(), "analyze_commits-abcde");
    let request = request_of(chain.action());
    assert_eq!(request.chat_id, "commit-abcde");
}

#[test]
fn prompts_of_a_commit() {
    let user_name = "juntao";
    let repo = "wasmedge";
    let text = "PATCH";
    assert_eq!(commit_facts_system(user_name, repo), format!("You are provided with a commit patch by the user {user_name} on the {repo} project. Your task is to parse this data, focusing on the following sections: the Date Line, Subject Line, Diff Files, Diff Changes, Sign-off Line, and the File Changes Summary. Extract key elements such as the date of the commit (in 'yyyy/mm/dd' format), a summary of changes, and the types of files affected, prioritizing code files, scripts, then documentation. Be particularly careful to distinguish between changes made to core code files and modifications made to documentation files, even if they contain technical content. Compile a list of the extracted key elements."));
    assert_eq!(commit_facts_user(text), format!("Based on the provided commit patch: {text}, extract and present the following key elements: the date of the commit (formatted as 'yyyy/mm/dd'), a high-level summary of the changes made, and the types of files affected. Prioritize data on changes to code files first, then scripts, and lastly documentation. Pay attention to the file types and ensure the distinction between documentation changes and core code changes, even when the documentation contains highly technical language. Please compile your findings into a list, with each key element represented as a separate item."));
    assert_eq!(COMMIT_SUMMARY_USER, "Using the key elements you extracted from the commit patch, provide a summary of the user's contributions to the project. Include the date of the commit, the types of files affected, and the overall changes made. When describing the affected files, make sure to differentiate between changes to core code files, scripts, and documentation files. Present your summary in this format: 'On (date in 'yyyy/mm/dd' format), (summary of changes). (overall impact of changes).' Please ensure your answer stayed below 128 tokens.");
}
