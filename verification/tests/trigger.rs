use activity_digest::failure::Failure;
use activity_digest::trigger::parse_trigger;

fn names(text: &str, trigger: &str) -> Result<(String, String, String), Failure> {
    parse_trigger(text, trigger).map(|t| (t.owner, t.repo, t.user_name))
}

fn triple(a: &str, b: &str, c: &str) -> Result<(String, String, String), Failure> {
    Ok((a.to_string(), b.to_string(), c.to_string()))
}

fn std_names(text: &str, trigger: &str) -> Option<(String, String, String)> {
    let parts: Vec<&str> = text.split(trigger).nth(1).unwrap_or("").split_whitespace().collect();
    match parts.as_slice() {
        [owner, repo, user, ..] => Some((owner.to_string(), repo.to_string(), user.to_string())),
        _ => None,
    }
}

#[test]
fn command_names_owner_repository_and_user() {
    assert_eq!(names("bot@get WasmEdge wasmedge juntao", "bot@get"), triple("WasmEdge", "wasmedge", "juntao"));
    assert_eq!(names("hello bot@get  a\tb\nc d e", "bot@get"), triple("a", "b", "c"));
    assert_eq!(names("bot@geta b c", "bot@get"), triple("a", "b", "c"));
}

#[test]
fn text_without_trigger_is_refused() {
    assert_eq!(names("WasmEdge wasmedge juntao", "bot@get"), Err(Failure::PreconditionViolation));
    assert_eq!(names("", "bot@get"), Err(Failure::PreconditionViolation));
    assert_eq!(names("bot@ge a b c", "bot@get"), Err(Failure::PreconditionViolation));
}

#[test]
fn fewer_than_three_names_are_refused() {
    assert_eq!(names("bot@get", "bot@get"), Err(Failure::PreconditionViolation));
    assert_eq!(names("bot@get a", "bot@get"), Err(Failure::PreconditionViolation));
    assert_eq!(names("bot@get a b ", "bot@get"), Err(Failure::PreconditionViolation));
    assert_eq!(names("a b c bot@get", "bot@get"), Err(Failure::PreconditionViolation));
}

#[test]
fn command_ends_at_the_next_trigger() {
    assert_eq!(names("bot@get a b bot@get c d e", "bot@get"), Err(Failure::PreconditionViolation));
    assert_eq!(names("x bot@get a b c bot@get d", "bot@get"), triple("a", "b", "c"));
    assert_eq!(names("bot@getbot@get a b c", "bot@get"), Err(Failure::PreconditionViolation));
}

#[test]
fn empty_trigger_is_refused() {
    assert_eq!(names("a b c", ""), Err(Failure::PreconditionViolation));
    assert_eq!(names("", ""), Err(Failure::PreconditionViolation));
}

#[test]
fn parsing_agrees_with_std_splitting() {
    let texts = [
        "",
        "bot@get a b c",
        "  bot@get   a b c  ",
        "bot@get a b",
        "xbot@getybot@getz a b c",
        "aXbXc d e f",
        "aaa b c d",
        "aa a b c",
        "日本 bot@get 一 二 三 四",
    ];
    let triggers = ["bot@get", "X", "a", "aa", "", " ", "日本"];
    for text in texts {
        for trigger in triggers {
            assert_eq!(names(text, trigger).ok(), std_names(text, trigger), "{:?} {:?}", text, trigger);
        }
    }
}
