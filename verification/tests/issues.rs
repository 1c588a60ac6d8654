use activity_digest::commits::SUMMARY_CEILING;
use activity_digest::failure::Failure;
use activity_digest::issues::{
    analyze_issue, budget_post, build_thread, comment_line, get_issues, issue_chain,
    issue_facts_system, issue_facts_user, issue_opening, issue_summary_user, join_labels,
    IssueSearch, MAX_PAGES, PAGE_SIZE, POST_WORDS, QUOTE_MARK,
};
use activity_digest::records::{Comment, Issue, IssuePage};
use activity_digest::steps::{Action, ChatRequest, Event};

fn issue(number: u64) -> Issue {
    Issue {
        number,
        title: "Crash on start".to_string(),
        author: "alice".to_string(),
        body: Some("It crashes.\n```\nstack trace\n```\nPlease help.".to_string()),
        html_url: format!("https://github.com/o/r/issues/{number}"),
        labels: vec!["bug".to_string(), "help wanted".to_string()],
    }
}

fn comment(author: &str, body: Option<&str>) -> Comment {
    Comment { author: author.to_string(), body: body.map(|s| s.to_string()) }
}

fn page(numbers: &[u64], total_count: Option<u64>) -> Event {
    Event::Issues(Ok(IssuePage { items: numbers.iter().map(|n| issue(*n)).collect(), total_count }))
}

fn url_of(action: Action) -> String {
    match action {
        Action::SearchIssues { url } => url,
        Action::ListComments { url } => url,
        other => panic!("no address: {:?}", other),
    }
}

fn request_of(action: Action) -> ChatRequest {
    match action {
        Action::Chat(request) => request,
        other => panic!("no request: {:?}", other),
    }
}

fn page_url(n: u64) -> String {
    format!("https://api.github.com/search/issues?q=repo%3Ao%2Fr%20involves%3Au&sort=created&order=desc&page={n}")
}

fn numbers(search: IssueSearch) -> Vec<u64> {
    search.into_issues().iter().map(|i| i.number).collect()
}

#[test]
fn search_reads_three_pages_when_no_page_tells_the_count() {
    assert_eq!(MAX_PAGES, 3);
    assert_eq!(PAGE_SIZE, 30);
    let mut search = get_issues("o", "r", "u");
    assert_eq!(url_of(search.action()), page_url(1));
    search.handle(page(&[1, 2], None));
    assert_eq!(url_of(search.action()), page_url(2));
    search.handle(page(&[3], None));
    assert_eq!(url_of(search.action()), page_url(3));
    assert!(!search.is_finished());
    search.handle(page(&[4], None));
    assert!(search.is_finished());
    assert!(matches!(search.action(), Action::Done));
    assert_eq!(numbers(search), vec![1, 2, 3, 4]);
}

#[test]
fn search_stops_at_the_last_page_of_the_results() {
    let mut few = get_issues("o", "r", "u");
    few.handle(page(&[1, 2], Some(2)));
    assert!(few.is_finished());
    assert_eq!(numbers(few), vec![1, 2]);

    let mut full = get_issues("o", "r", "u");
    full.handle(page(&[1], Some(30)));
    assert_eq!(url_of(full.action()), page_url(2));
    full.handle(page(&[], Some(30)));
    assert!(full.is_finished());
    assert_eq!(numbers(full), vec![1]);

    let mut many = get_issues("o", "r", "u");
    many.handle(page(&[1], Some(1000)));
    many.handle(page(&[2], Some(1000)));
    assert_eq!(url_of(many.action()), page_url(3));
    many.handle(page(&[3], Some(1000)));
    assert!(many.is_finished());
    assert_eq!(numbers(many), vec![1, 2, 3]);

    let mut none = get_issues("o", "r", "u");
    none.handle(page(&[], Some(0)));
    assert!(none.is_finished());
    assert!(numbers(none).is_empty());
}

#[test]
fn first_count_settles_the_number_of_pages() {
    let mut search = get_issues("o", "r", "u");
    search.handle(page(&[1], Some(59)));
    search.handle(page(&[2], Some(5000)));
    assert!(search.is_finished());
    let mut late = get_issues("o", "r", "u");
    late.handle(page(&[1], None));
    late.handle(page(&[2], Some(10)));
    assert!(late.is_finished());
    let mut huge = get_issues("o", "r", "u");
    huge.handle(page(&[1], Some(u64::MAX)));
    assert_eq!(url_of(huge.action()), page_url(2));
}

#[test]
fn unreadable_page_is_passed_over() {
    let mut search = get_issues("o", "r", "u");
    search.handle(Event::Issues(Err(Failure::TransportFailure)));
    assert_eq!(url_of(search.action()), page_url(2));
    search.handle(page(&[7], None));
    search.handle(Event::Issues(Err(Failure::ParseFailure)));
    assert!(search.is_finished());
    assert_eq!(numbers(search), vec![7]);
}

#[test]
fn search_ignores_other_events_and_events_after_its_end() {
    let mut search = get_issues("o", "r", "u");
    search.handle(Event::Published);
    search.handle(Event::Reply(Ok("x".to_string())));
    assert_eq!(url_of(search.action()), page_url(1));
    search.handle(page(&[1], Some(1)));
    search.handle(page(&[2], Some(1)));
    assert_eq!(numbers(search), vec![1]);
}

#[test]
fn labels_are_joined_by_comma_and_space() {
    assert_eq!(join_labels(&vec![]), "");
    assert_eq!(join_labels(&vec!["bug".to_string()]), "bug");
    assert_eq!(join_labels(&vec!["a".to_string(), "b c".to_string(), "d".to_string()]), "a, b c, d");
}

#[test]
fn post_is_stripped_and_bounded() {
    assert_eq!(QUOTE_MARK, "```");
    assert_eq!(POST_WORDS, 500);
    assert_eq!(budget_post(&None), "");
    assert_eq!(budget_post(&Some("a\n```\nb\n```\nc".to_string())), "a\nc\n");
    let long: Vec<String> = (1..=600).map(|i| format!("w{i}")).collect();
    let out = budget_post(&Some(long.join(" ")));
    let got: Vec<&str> = out.split_whitespace().collect();
    assert_eq!(got.len(), 500);
    assert_eq!(got[299], "w300");
    assert_eq!(got[300], "w401");
    assert_eq!(got[499], "w600");
}

#[test]
fn thread_is_opening_and_comments() {
    let comments = vec![
        comment("bob", Some("Try this:\n```\nfix\n```\nDone.")),
        comment("carol", None),
        comment("alice", Some("Thanks")),
    ];
    assert_eq!(
        build_thread(&issue(5), &comments),
        "User 'alice', has submitted an issue titled 'Crash on start', labeled as 'bug, help wanted', with the following post: 'It crashes.\nPlease help.\n'.bob commented: Try this:\nDone.\ncarol commented: alice commented: Thanks\n"
    );
    assert_eq!(
        build_thread(&issue(5), &Vec::new()),
        "User 'alice', has submitted an issue titled 'Crash on start', labeled as 'bug, help wanted', with the following post: 'It crashes.\nPlease help.\n'."
    );
}

#[test]
fn thread_takes_no_comment_once_over_the_ceiling() {
    let big = "z".repeat(SUMMARY_CEILING);
    let comments = vec![comment("bob", Some(&big)), comment("carol", Some("late"))];
    let thread = build_thread(&issue(5), &comments);
    assert!(thread.ends_with("z\n"));
    assert!(!thread.contains("carol"));
    let small = vec![comment("bob", Some("early")), comment("carol", Some("late"))];
    assert!(build_thread(&issue(5), &small).ends_with("carol commented: late\n"));
}

#[test]
fn first_comment_is_taken_even_after_a_long_opening() {
    let mut long = issue(5);
    long.title = "t".repeat(SUMMARY_CEILING + 1);
    let comments = vec![comment("bob", Some("one")), comment("carol", Some("two"))];
    let thread = build_thread(&long, &comments);
    assert!(thread.ends_with("bob commented: one\n"));
}

#[test]
fn analysis_begins_by_listing_the_comments() {
    let analysis = analyze_issue("o", "r", "u", issue(2536));
    assert_eq!(analysis.number(), 2536);
    assert_eq!(analysis.result(), None);
    assert_eq!(
        url_of(analysis.action()),
        "https://api.github.com/repos/o/r/issues/2536/comments?per_page=100"
    );
}

#[test]
fn issue_contributes_address_and_summary() {
    let mut analysis = analyze_issue("o", "r", "bob", issue(12));
    let comments = vec![comment("bob", Some("I fixed it")), comment("alice", Some("Thanks"))];
    analysis.handle(Event::Comments(Ok(comments)));
    let first = request_of(analysis.action());
    assert_eq!(first.chat_id, "issue_12");
    assert_eq!(first.max_tokens, 256);
    assert!(first.restart);
    assert_eq!(first.system_prompt, issue_facts_system("alice", "Crash on start", "bug, help wanted"));
    let thread = build_thread(
        &issue(12),
        &vec![comment("bob", Some("I fixed it")), comment("alice", Some("Thanks"))],
    );
    assert_eq!(first.user_prompt, issue_facts_user(&thread, "bob"));
    analysis.handle(Event::Reply(Ok("facts".to_string())));
    let second = request_of(analysis.action());
    assert_eq!(second.chat_id, "issue_12");
    assert_eq!(second.max_tokens, 128);
    assert!(!second.restart);
    assert_eq!(second.user_prompt, issue_summary_user("bob"));
    analysis.handle(Event::Reply(Ok("Bob fixed the crash on start.".to_string())));
    assert!(matches!(analysis.action(), Action::Done));
    assert_eq!(
        analysis.result(),
        Some(Some("https://github.com/o/r/issues/12 Bob fixed the crash on start.".to_string()))
    );
}

#[test]
fn unreadable_comments_leave_the_opening_post() {
    let mut analysis = analyze_issue("o", "r", "bob", issue(12));
    analysis.handle(Event::Comments(Err(Failure::TransportFailure)));
    let first = request_of(analysis.action());
    assert_eq!(first.user_prompt, issue_facts_user(&build_thread(&issue(12), &Vec::new()), "bob"));
}

#[test]
fn degenerate_or_failed_conversation_contributes_nothing() {
    let mut short = analyze_issue("o", "r", "bob", issue(12));
    short.handle(Event::Comments(Ok(Vec::new())));
    short.handle(Event::Reply(Ok("facts".to_string())));
    short.handle(Event::Reply(Ok("ok".to_string())));
    assert_eq!(short.result(), Some(None));
    assert!(matches!(short.action(), Action::Done));
    let mut failed = analyze_issue("o", "r", "bob", issue(12));
    failed.handle(Event::Comments(Ok(Vec::new())));
    failed.handle(Event::Reply(Err(Failure::UpstreamFailure)));
    assert_eq!(failed.result(), Some(None));
}

#[test]
fn analysis_ignores_events_that_answer_nothing() {
    let mut analysis = analyze_issue("o", "r", "bob", issue(12));
    analysis.handle(Event::Reply(Ok("stray".to_string())));
    analysis.handle(Event::Published);
    assert_eq!(
        url_of(analysis.action()),
        "https://api.github.com/repos/o/r/issues/12/comments?per_page=100"
    );
    analysis.handle(Event::Comments(Ok(Vec::new())));
    analysis.handle(Event::Comments(Ok(vec![comment("x", Some("y"))])));
    let first = request_of(analysis.action());
    assert!(!first.user_prompt.contains("x commented"));
}

#[test]
fn conversation_of_an_issue() {
    let chain = issue_chain(&issue(77), "bob", "THREAD");
    assert_eq!(chain.error_tag(), "Error generatng issue summary #77");
    assert_eq!(request_of(chain.action()).chat_id, "issue_77");
}

#[test]
fn prompts_of_an_issue() {
    let author = "alice";
    let title = "Crash";
    let labels = "bug, ui";
    let body = "It crashes";
    let commenter = "bob";
    let thread = "THREAD";
    let user = "carol";
    assert_eq!(issue_opening(author, title, labels, body), format!("User '{author}', has submitted an issue titled '{title}', labeled as '{labels}', with the following post: '{body}'."));
    assert_eq!(comment_line(commenter, body), format!("{commenter} commented: {body}"));
    assert_eq!(issue_facts_system(author, title, labels), format!("Given the information that user '{author}' opened an issue titled '{title}', labelled as '{labels}', your task is to analyze the content of the issue posts. Extract key details including the main problem or question raised, the environment in which the issue occurred, any steps taken by the user to address the problem, relevant discussions, and any identified solutions or pending tasks."));
    assert_eq!(issue_facts_user(thread, user), format!("Based on the GitHub issue posts: {thread}, please list the following key details: The main problem or question raised in the issue. The environment or conditions in which the issue occurred (e.g., hardware, OS). Any steps or actions taken by the user '{user}' or others to address the issue. Key discussions or points of view shared by participants in the issue thread. Any solutions identified, or pending tasks if the issue hasn't been resolved. The role and contribution of the user '{user}' in the issue."));
    assert_eq!(issue_summary_user(user), format!("Provide a brief summary highlighting the core problem and emphasize the overarching contribution made by '{user}' to the resolution of this issue, ensuring your response stays under 128 tokens."));
}
