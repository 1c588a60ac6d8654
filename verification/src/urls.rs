//! Percent-encoding and the addresses that the pipeline reads.

use crate::decimal::{decimal, push_decimal};
use vstd::prelude::*;
use vstd::string::*;
use vstd::utf8::encode_utf8;

verus! {

/// Whether the byte is an ASCII letter, an ASCII digit, or one of `-`, `.`,
/// `_` and `~`.
pub open spec fn is_unreserved(b: u8) -> bool {
    ||| 0x30 <= b <= 0x39
    ||| 0x41 <= b <= 0x5A
    ||| 0x61 <= b <= 0x7A
    ||| b == 0x2D
    ||| b == 0x2E
    ||| b == 0x5F
    ||| b == 0x7E
}

/// The upper-case hexadecimal digit for `d`, which is below sixteen.
pub open spec fn upper_hex(d: u8) -> char {
    if d < 10 {
        (0x30u8 + d) as char
    } else {
        (0x37u8 + d) as char
    }
}

/// What stands for the byte `b` in percent-encoded text.
pub open spec fn encoded_byte(b: u8) -> Seq<char> {
    if is_unreserved(b) {
        seq![b as char]
    } else {
        seq!['%', upper_hex(b / 16), upper_hex(b % 16)]
    }
}

/// The bytes written out in percent-encoding.
pub open spec fn percent_encoded(bytes: Seq<u8>) -> Seq<char>
    decreases bytes.len(),
{
    if bytes.len() == 0 {
        Seq::empty()
    } else {
        percent_encoded(bytes.drop_last()) + encoded_byte(bytes.last())
    }
}

/// `urlencoding::encode`: the UTF-8 bytes of `s`, each unreserved byte as
/// itself and every other byte as `%` and two upper-case hexadecimal
/// digits.
#[verifier::external_body]
pub(crate) fn percent_encode(s: &str) -> (out: String)
    ensures
        out@ == percent_encoded(encode_utf8(s@)),
{
    urlencoding::encode(s).into_owned()
}

/// In the address of a list of commits, what stands before `owner`.
pub const COMMITS_URL_1: &'static str = "https://api.github.com/repos/";

/// In the address of a list of commits, what stands before `repo`.
pub const COMMITS_URL_2: &'static str = "/";

/// In the address of a list of commits, what stands before `user_name`.
pub const COMMITS_URL_3: &'static str = "/commits?author=";

/// Where the commits of `user_name` in a repository are listed.
pub open spec fn commits_url_text(owner: Seq<char>, repo: Seq<char>, user_name: Seq<char>) -> Seq<char> {
    COMMITS_URL_1@ + owner + COMMITS_URL_2@ + repo + COMMITS_URL_3@ + user_name
}

/// Where the commits of `user_name` in a repository are listed.
pub fn commits_url(owner: &str, repo: &str, user_name: &str) -> (out: String)
    ensures
        out@ == commits_url_text(owner@, repo@, user_name@),
{
    let mut out = String::new();
    out.append(COMMITS_URL_1);
    out.append(owner);
    out.append(COMMITS_URL_2);
    out.append(repo);
    out.append(COMMITS_URL_3);
    out.append(user_name);
    out
}

/// In the address of a patch, what stands before `owner`.
pub const PATCH_URL_1: &'static str = "https://github.com/";

/// In the address of a patch, what stands before `repo`.
pub const PATCH_URL_2: &'static str = "/";

/// In the address of a patch, what stands before `sha`.
pub const PATCH_URL_3: &'static str = "/commit/";

/// In the address of a patch, what stands after `sha`.
pub const PATCH_URL_4: &'static str = ".patch";

/// Where the patch of the commit `sha` is read.
pub open spec fn patch_url_text(owner: Seq<char>, repo: Seq<char>, sha: Seq<char>) -> Seq<char> {
    PATCH_URL_1@ + owner + PATCH_URL_2@ + repo + PATCH_URL_3@ + sha + PATCH_URL_4@
}

/// Where the patch of the commit `sha` is read.
pub fn patch_url(owner: &str, repo: &str, sha: &str) -> (out: String)
    ensures
        out@ == patch_url_text(owner@, repo@, sha@),
{
    let mut out = String::new();
    out.append(PATCH_URL_1);
    out.append(owner);
    out.append(PATCH_URL_2);
    out.append(repo);
    out.append(PATCH_URL_3);
    out.append(sha);
    out.append(PATCH_URL_4);
    out
}

/// In the address of an issue's comments, what stands before `owner`.
pub const COMMENTS_URL_1: &'static str = "https://api.github.com/repos/";

/// In the address of an issue's comments, what stands before `repo`.
pub const COMMENTS_URL_2: &'static str = "/";

/// In the address of an issue's comments, what stands before `number`.
pub const COMMENTS_URL_3: &'static str = "/issues/";

/// In the address of an issue's comments, what stands after `number`.
pub const COMMENTS_URL_4: &'static str = "/comments?per_page=100";

/// Where the comments on issue `number` are listed, a hundred to the page.
pub open spec fn comments_url_text(owner: Seq<char>, repo: Seq<char>, number: nat) -> Seq<char> {
    COMMENTS_URL_1@ + owner + COMMENTS_URL_2@ + repo + COMMENTS_URL_3@ + decimal(number) + COMMENTS_URL_4@
}

/// Where the comments on issue `number` are listed, a hundred to the page.
pub fn comments_url(owner: &str, repo: &str, number: u64) -> (out: String)
    ensures
        out@ == comments_url_text(owner@, repo@, number as nat),
{
    let mut out = String::new();
    out.append(COMMENTS_URL_1);
    out.append(owner);
    out.append(COMMENTS_URL_2);
    out.append(repo);
    out.append(COMMENTS_URL_3);
    push_decimal(&mut out, number);
    out.append(COMMENTS_URL_4);
    out
}

/// In a search for issues, what stands before `owner`.
pub const SEARCH_QUERY_1: &'static str = "repo:";

/// In a search for issues, what stands before `repo`.
pub const SEARCH_QUERY_2: &'static str = "/";

/// In a search for issues, what stands before `user`.
pub const SEARCH_QUERY_3: &'static str = " involves:";

/// The search for the issues of a repository that involve `user`.
pub open spec fn search_query_text(owner: Seq<char>, repo: Seq<char>, user: Seq<char>) -> Seq<char> {
    SEARCH_QUERY_1@ + owner + SEARCH_QUERY_2@ + repo + SEARCH_QUERY_3@ + user
}

/// The search for the issues of a repository that involve `user`.
pub fn search_query(owner: &str, repo: &str, user: &str) -> (out: String)
    ensures
        out@ == search_query_text(owner@, repo@, user@),
{
    let mut out = String::new();
    out.append(SEARCH_QUERY_1);
    out.append(owner);
    out.append(SEARCH_QUERY_2);
    out.append(repo);
    out.append(SEARCH_QUERY_3);
    out.append(user);
    out
}

/// In the address of a page of search results, what stands before `encoded_query`.
pub const SEARCH_URL_1: &'static str = "https://api.github.com/search/issues?q=";

/// In the address of a page of search results, what stands before `page`.
pub const SEARCH_URL_2: &'static str = "&sort=created&order=desc&page=";

/// Where page `page` of the results of a search is read, newest issue first.
/// `encoded_query` is the search in percent-encoding.
pub open spec fn search_url_text(encoded_query: Seq<char>, page: nat) -> Seq<char> {
    SEARCH_URL_1@ + encoded_query + SEARCH_URL_2@ + decimal(page)
}

/// Where page `page` of the results of a search is read, newest issue first.
/// `encoded_query` is the search in percent-encoding.
pub fn search_url(encoded_query: &str, page: u64) -> (out: String)
    ensures
        out@ == search_url_text(encoded_query@, page as nat),
{
    let mut out = String::new();
    out.append(SEARCH_URL_1);
    out.append(encoded_query);
    out.append(SEARCH_URL_2);
    push_decimal(&mut out, page);
    out
}

/// Where page `page` of the issues that involve `user` is read.
pub open spec fn issues_url_text(owner: Seq<char>, repo: Seq<char>, user: Seq<char>, page: nat) -> Seq<
    char,
> {
    search_url_text(percent_encoded(encode_utf8(search_query_text(owner, repo, user))), page)
}

/// Where page `page` of the issues that involve `user` is read.
pub fn issues_url(owner: &str, repo: &str, user: &str, page: u64) -> (out: String)
    ensures
        out@ == issues_url_text(owner@, repo@, user@, page as nat),
{
    let query = search_query(owner, repo, user);
    let encoded = percent_encode(query.as_str());
    search_url(encoded.as_str(), page)
}

} // verus!
