//! Summaries of the issues that involve a user.
//!
//! A search finds the issues, page by page. Each issue is then summarized
//! on its own: its opening post and its comments, stripped of quoted blocks
//! and bounded in words, are written into one thread, and the thread is
//! taken through a conversation.

use crate::budget::{law_budget_bounds_words, squeeze_fit_comment_texts, squeezed};
use crate::chars::push_char;
use crate::chat::{chain_of_chat, law_chain_progress, ChatChain, ChatChainView};
use crate::commits::{FACTS_TOKENS, SUMMARY_CEILING, SUMMARY_TOKENS};
use crate::decimal::{decimal, push_decimal};
use crate::ratio::SplitRatio;
use crate::records::{Comment, CommentView, Issue, IssuePageView, IssueView};
use crate::steps::{answers, Action, ActionView, Event, EventView};
use crate::urls::{comments_url, comments_url_text, issues_url, issues_url_text};
use crate::words::words;
use vstd::prelude::*;
use vstd::string::*;

verus! {

/// The last page of search results that is ever read.
pub const MAX_PAGES: u64 = 3;

/// How many issues a full page of search results holds.
pub const PAGE_SIZE: u64 = 30;

/// What marks the first and the last line of a quoted block in a post.
pub const QUOTE_MARK: &'static str = "```";

/// The bound, in words, on what is taken from one post.
pub const POST_WORDS: u16 = 500;

/// What the conversation id of an issue begins with.
pub const ISSUE_CHAT_ID: &'static str = "issue_";

/// What the conversation about an issue is called in reports of failure.
pub const ISSUE_ERROR_TAG: &'static str = "Error generatng issue summary #";

/// What stands between two labels.
pub const LABEL_SEPARATOR: &'static str = ", ";

/// The search for the issues of one repository that involve one user.
#[derive(Debug)]
pub struct IssueSearch {
    owner: String,
    repo: String,
    user: String,
    /// The page that is read next, counted from one.
    page: u64,
    /// How many pages the results fill, once a page has said how many
    /// issues there are.
    total_pages: Option<u64>,
    found: Vec<Issue>,
    finished: bool,
}

/// A search as a mathematical value.
pub struct IssueSearchView {
    pub owner: Seq<char>,
    pub repo: Seq<char>,
    pub user: Seq<char>,
    pub page: u64,
    pub total_pages: Option<u64>,
    pub found: Seq<IssueView>,
    pub finished: bool,
}

/// How many pages `count` issues fill, counting a last page that may be
/// empty.
pub open spec fn pages_for(count: u64) -> u64 {
    (count / PAGE_SIZE + 1) as u64
}

impl IssueSearchView {
    /// A search that has read nothing yet.
    pub open spec fn start(owner: Seq<char>, repo: Seq<char>, user: Seq<char>) -> Self {
        IssueSearchView {
            owner,
            repo,
            user,
            page: 1,
            total_pages: None,
            found: Seq::empty(),
            finished: false,
        }
    }

    /// What the search asks of its driver.
    pub open spec fn action(self) -> ActionView {
        if self.finished {
            ActionView::Done
        } else {
            ActionView::SearchIssues {
                url: issues_url_text(self.owner, self.repo, self.user, self.page as nat),
            }
        }
    }

    /// The last page that is read: the last page of the results, but never
    /// beyond `MAX_PAGES`.
    pub open spec fn last_page(self) -> u64 {
        match self.total_pages {
            Some(pages) if pages < MAX_PAGES => pages,
            _ => MAX_PAGES,
        }
    }

    /// The search after the page that was asked for came back as `page`.
    /// The page's issues are added to what was found. The first page that
    /// tells how many issues there are settles how many pages are read. A
    /// page that could not be read adds nothing and is not asked for again.
    pub open spec fn after_page(self, page: Option<IssuePageView>) -> Self {
        let taken = match page {
            None => self,
            Some(p) => IssueSearchView {
                total_pages: match (self.total_pages, p.total_count) {
                    (None, Some(count)) => Some(pages_for(count)),
                    _ => self.total_pages,
                },
                found: self.found + p.items,
                ..self
            },
        };
        if taken.page < taken.last_page() {
            IssueSearchView { page: (taken.page + 1) as u64, ..taken }
        } else {
            IssueSearchView { finished: true, ..taken }
        }
    }

    /// The search after `event`. Only a page of results moves it, and only
    /// while it is under way.
    pub open spec fn after(self, event: EventView) -> Self {
        match event {
            EventView::Issues(page) if !self.finished => self.after_page(page),
            _ => self,
        }
    }

    /// What the search found, once it has ended.
    pub open spec fn result(self) -> Option<Seq<IssueView>> {
        if self.finished {
            Some(self.found)
        } else {
            None
        }
    }
}

impl View for IssueSearch {
    type V = IssueSearchView;

    closed spec fn view(&self) -> IssueSearchView {
        IssueSearchView {
            owner: self.owner@,
            repo: self.repo@,
            user: self.user@,
            page: self.page,
            total_pages: self.total_pages,
            found: self.found.deep_view(),
            finished: self.finished,
        }
    }
}

/// The search for the issues of the repository `owner/repo` that involve
/// `user`, about to read its first page.
pub fn get_issues(owner: &str, repo: &str, user: &str) -> (search: IssueSearch)
    ensures
        search@ == IssueSearchView::start(owner@, repo@, user@),
{
    let search = IssueSearch {
        owner: owner.to_owned(),
        repo: repo.to_owned(),
        user: user.to_owned(),
        page: 1,
        total_pages: None,
        found: Vec::new(),
        finished: false,
    };
    assert(search.found.deep_view() =~= Seq::<IssueView>::empty());
    search
}

impl IssueSearch {
    /// What the driver is to do next.
    pub fn action(&self) -> (action: Action)
        ensures
            action@ == self@.action(),
    {
        if self.finished {
            Action::Done
        } else {
            Action::SearchIssues {
                url: issues_url(
                    self.owner.as_str(),
                    self.repo.as_str(),
                    self.user.as_str(),
                    self.page,
                ),
            }
        }
    }

    /// Takes the outcome of the pending action.
    pub fn handle(&mut self, event: Event)
        ensures
            final(self)@ == old(self)@.after(event@),
    {
        if self.finished {
            return;
        }
        let page = match event {
            Event::Issues(page) => page,
            _ => {
                return;
            },
        };
        if let Ok(page) = page {
            if self.total_pages.is_none() {
                if let Some(count) = page.total_count {
                    self.total_pages = Some(count / PAGE_SIZE + 1);
                }
            }
            let ghost before = self.found.deep_view();
            let ghost added = page.items.deep_view();
            let mut items = page.items;
            self.found.append(&mut items);
            assert(self.found.deep_view() =~= before + added);
        }
        let last_page: u64 = match self.total_pages {
            Some(pages) => if pages < MAX_PAGES {
                pages
            } else {
                MAX_PAGES
            },
            None => MAX_PAGES,
        };
        if self.page < last_page {
            self.page = self.page + 1;
        } else {
            self.finished = true;
        }
    }

    /// Whether the search has ended.
    pub fn is_finished(&self) -> (finished: bool)
        ensures
            finished == self@.finished,
    {
        self.finished
    }

    /// The issues found, in the order in which the pages listed them.
    pub fn into_issues(self) -> (found: Vec<Issue>)
        ensures
            found.deep_view() == self@.found,
    {
        self.found
    }
}

/// In the opening of a thread, what stands before `author`.
pub const ISSUE_OPENING_1: &'static str = "User '";

/// In the opening of a thread, what stands before `title`.
pub const ISSUE_OPENING_2: &'static str = "', has submitted an issue titled '";

/// In the opening of a thread, what stands before `labels`.
pub const ISSUE_OPENING_3: &'static str = "', labeled as '";

/// In the opening of a thread, what stands before `body`.
pub const ISSUE_OPENING_4: &'static str = "', with the following post: '";

/// In the opening of a thread, what stands after `body`.
pub const ISSUE_OPENING_5: &'static str = "'.";

/// How the thread of an issue begins: who opened it, under which title and
/// labels, and with what post.
pub open spec fn issue_opening_text(author: Seq<char>, title: Seq<char>, labels: Seq<char>, body: Seq<char>) -> Seq<char> {
    ISSUE_OPENING_1@ + author + ISSUE_OPENING_2@ + title + ISSUE_OPENING_3@ + labels + ISSUE_OPENING_4@ + body + ISSUE_OPENING_5@
}

/// How the thread of an issue begins: who opened it, under which title and
/// labels, and with what post.
pub fn issue_opening(author: &str, title: &str, labels: &str, body: &str) -> (out: String)
    ensures
        out@ == issue_opening_text(author@, title@, labels@, body@),
{
    let mut out = String::new();
    out.append(ISSUE_OPENING_1);
    out.append(author);
    out.append(ISSUE_OPENING_2);
    out.append(title);
    out.append(ISSUE_OPENING_3);
    out.append(labels);
    out.append(ISSUE_OPENING_4);
    out.append(body);
    out.append(ISSUE_OPENING_5);
    out
}

/// In a comment in a thread, what stands before `body`.
pub const COMMENT_LINE: &'static str = " commented: ";

/// How a comment stands in the thread of an issue.
pub open spec fn comment_line_text(commenter: Seq<char>, body: Seq<char>) -> Seq<char> {
    commenter + COMMENT_LINE@ + body
}

/// How a comment stands in the thread of an issue.
pub fn comment_line(commenter: &str, body: &str) -> (out: String)
    ensures
        out@ == comment_line_text(commenter@, body@),
{
    let mut out = String::new();
    out.append(commenter);
    out.append(COMMENT_LINE);
    out.append(body);
    out
}

/// In the system prompt about an issue, what stands before `author`.
pub const ISSUE_FACTS_SYSTEM_1: &'static str = "Given the information that user '";

/// In the system prompt about an issue, what stands before `title`.
pub const ISSUE_FACTS_SYSTEM_2: &'static str = "' opened an issue titled '";

/// In the system prompt about an issue, what stands before `labels`.
pub const ISSUE_FACTS_SYSTEM_3: &'static str = "', labelled as '";

/// In the system prompt about an issue, what stands after `labels`.
pub const ISSUE_FACTS_SYSTEM_4: &'static str = "', your task is to analyze the content of the issue posts. Extract key details including the main problem or question raised, the environment in which the issue occurred, any steps taken by the user to address the problem, relevant discussions, and any identified solutions or pending tasks.";

/// The system prompt of the turn that extracts the facts of an issue.
pub open spec fn issue_facts_system_text(author: Seq<char>, title: Seq<char>, labels: Seq<char>) -> Seq<char> {
    ISSUE_FACTS_SYSTEM_1@ + author + ISSUE_FACTS_SYSTEM_2@ + title + ISSUE_FACTS_SYSTEM_3@ + labels + ISSUE_FACTS_SYSTEM_4@
}

/// The system prompt of the turn that extracts the facts of an issue.
pub fn issue_facts_system(author: &str, title: &str, labels: &str) -> (out: String)
    ensures
        out@ == issue_facts_system_text(author@, title@, labels@),
{
    let mut out = String::new();
    out.append(ISSUE_FACTS_SYSTEM_1);
    out.append(author);
    out.append(ISSUE_FACTS_SYSTEM_2);
    out.append(title);
    out.append(ISSUE_FACTS_SYSTEM_3);
    out.append(labels);
    out.append(ISSUE_FACTS_SYSTEM_4);
    out
}

/// In the prompt for the facts of an issue, what stands before `thread`.
pub const ISSUE_FACTS_USER_1: &'static str = "Based on the GitHub issue posts: ";

/// In the prompt for the facts of an issue, what stands between `thread`
/// and the first mention of `user`.
pub const ISSUE_FACTS_USER_2: &'static str = ", please list the following key details: The main problem or question raised in the issue. The environment or conditions in which the issue occurred (e.g., hardware, OS). Any steps or actions taken by the user '";

/// In the prompt for the facts of an issue, what stands between the two
/// mentions of `user`.
pub const ISSUE_FACTS_USER_3: &'static str = "' or others to address the issue. Key discussions or points of view shared by participants in the issue thread. Any solutions identified, or pending tasks if the issue hasn't been resolved. The role and contribution of the user '";

/// In the prompt for the facts of an issue, what stands after the second
/// mention of `user`.
pub const ISSUE_FACTS_USER_4: &'static str = "' in the issue.";

/// The prompt that asks for the facts of the thread `thread`, with an eye on
/// `user`.
pub open spec fn issue_facts_user_text(thread: Seq<char>, user: Seq<char>) -> Seq<char> {
    ISSUE_FACTS_USER_1@ + thread + ISSUE_FACTS_USER_2@ + user + ISSUE_FACTS_USER_3@ + user + ISSUE_FACTS_USER_4@
}

/// The prompt that asks for the facts of the thread `thread`, with an eye on
/// `user`.
pub fn issue_facts_user(thread: &str, user: &str) -> (out: String)
    ensures
        out@ == issue_facts_user_text(thread@, user@),
{
    let mut out = String::new();
    out.append(ISSUE_FACTS_USER_1);
    out.append(thread);
    out.append(ISSUE_FACTS_USER_2);
    out.append(user);
    out.append(ISSUE_FACTS_USER_3);
    out.append(user);
    out.append(ISSUE_FACTS_USER_4);
    out
}

/// In the prompt for the summary of an issue, what stands before `user`.
pub const ISSUE_SUMMARY_USER_1: &'static str = "Provide a brief summary highlighting the core problem and emphasize the overarching contribution made by '";

/// In the prompt for the summary of an issue, what stands after `user`.
pub const ISSUE_SUMMARY_USER_2: &'static str = "' to the resolution of this issue, ensuring your response stays under 128 tokens.";

/// The prompt that asks for a short summary of an issue and of what `user`
/// did for it.
pub open spec fn issue_summary_user_text(user: Seq<char>) -> Seq<char> {
    ISSUE_SUMMARY_USER_1@ + user + ISSUE_SUMMARY_USER_2@
}

/// The prompt that asks for a short summary of an issue and of what `user`
/// did for it.
pub fn issue_summary_user(user: &str) -> (out: String)
    ensures
        out@ == issue_summary_user_text(user@),
{
    let mut out = String::new();
    out.append(ISSUE_SUMMARY_USER_1);
    out.append(user);
    out.append(ISSUE_SUMMARY_USER_2);
    out
}

/// The labels written one after another, separated by `LABEL_SEPARATOR`.
pub open spec fn labels_text(labels: Seq<Seq<char>>) -> Seq<char>
    decreases labels.len(),
{
    if labels.len() == 0 {
        Seq::empty()
    } else if labels.len() == 1 {
        labels[0]
    } else {
        labels_text(labels.drop_last()) + LABEL_SEPARATOR@ + labels.last()
    }
}

/// The labels written one after another, separated by `LABEL_SEPARATOR`.
pub fn join_labels(labels: &Vec<String>) -> (out: String)
    ensures
        out@ == labels_text(labels.deep_view()),
{
    let ghost all = labels.deep_view();
    let mut out = String::new();
    let mut i: usize = 0;
    while i < labels.len()
        invariant
            i <= labels.len(),
            all == labels.deep_view(),
            out@ == labels_text(all.take(i as int)),
        decreases labels.len() - i,
    {
        if i > 0 {
            out.append(LABEL_SEPARATOR);
        }
        out.append(labels[i].as_str());
        proof {
            let next = all.take(i + 1);
            assert(next.drop_last() =~= all.take(i as int));
        }
        i += 1;
    }
    assert(all.take(labels.len() as int) =~= all);
    out
}

/// What is taken from a post: its text without quoted blocks, bounded to
/// `POST_WORDS` words of which three fifths come from the front. A post
/// without text gives nothing.
pub open spec fn post_text(body: Option<Seq<char>>) -> Seq<char> {
    match body {
        Some(text) => squeezed(text, QUOTE_MARK@, POST_WORDS as nat, SplitRatio::of(3, 5)),
        None => Seq::empty(),
    }
}

/// What is taken from a post.
pub fn budget_post(body: &Option<String>) -> (out: String)
    ensures
        out@ == post_text(body.deep_view()),
{
    match body {
        Some(text) => squeeze_fit_comment_texts(
            text.as_str(),
            QUOTE_MARK,
            POST_WORDS,
            SplitRatio::three_fifths(),
        ),
        None => String::new(),
    }
}

/// The thread `thread` with the comments added in their order. No comment
/// is added to a thread that an earlier comment has brought over
/// `SUMMARY_CEILING` characters.
pub open spec fn absorbed(thread: Seq<char>, comments: Seq<CommentView>) -> Seq<char>
    decreases comments.len(),
{
    if comments.len() == 0 {
        thread
    } else {
        let longer = thread + comment_line_text(comments[0].author, post_text(comments[0].body));
        if longer.len() > SUMMARY_CEILING {
            longer
        } else {
            absorbed(longer, comments.drop_first())
        }
    }
}

/// The thread of an issue: its opening and its comments.
pub open spec fn thread_text(issue: IssueView, comments: Seq<CommentView>) -> Seq<char> {
    absorbed(
        issue_opening_text(
            issue.author,
            issue.title,
            labels_text(issue.labels),
            post_text(issue.body),
        ),
        comments,
    )
}

/// The thread of an issue: its opening and its comments.
pub fn build_thread(issue: &Issue, comments: &Vec<Comment>) -> (thread: String)
    ensures
        thread@ == thread_text(issue@, comments.deep_view()),
{
    let labels = join_labels(&issue.labels);
    let body = budget_post(&issue.body);
    let mut thread = issue_opening(
        issue.author.as_str(),
        issue.title.as_str(),
        labels.as_str(),
        body.as_str(),
    );
    let ghost all = comments.deep_view();
    let mut i: usize = 0;
    assert(all.skip(0) =~= all);
    while i < comments.len()
        invariant
            i <= comments.len(),
            all == comments.deep_view(),
            absorbed(thread@, all.skip(i as int)) == thread_text(issue@, all),
        decreases comments.len() - i,
    {
        let comment = &comments[i];
        let body = budget_post(&comment.body);
        let line = comment_line(comment.author.as_str(), body.as_str());
        proof {
            assert(all.skip(i as int).drop_first() =~= all.skip(i + 1));
        }
        thread.append(line.as_str());
        i += 1;
        if thread.as_str().unicode_len() > SUMMARY_CEILING {
            return thread;
        }
    }
    thread
}

/// The conversation about `issue`, whose thread is `thread`, with an eye on
/// `user`.
pub open spec fn issue_chain_view(issue: IssueView, user: Seq<char>, thread: Seq<char>) -> ChatChainView {
    ChatChainView::start(
        issue_facts_system_text(issue.author, issue.title, labels_text(issue.labels)),
        issue_facts_user_text(thread, user),
        ISSUE_CHAT_ID@ + decimal(issue.number as nat),
        FACTS_TOKENS,
        issue_summary_user_text(user),
        SUMMARY_TOKENS,
        ISSUE_ERROR_TAG@ + decimal(issue.number as nat),
    )
}

/// The conversation about `issue`, whose thread is `thread`.
pub fn issue_chain(issue: &Issue, user: &str, thread: &str) -> (chain: ChatChain)
    ensures
        chain@ == issue_chain_view(issue@, user@, thread@),
{
    let labels = join_labels(&issue.labels);
    let system = issue_facts_system(issue.author.as_str(), issue.title.as_str(), labels.as_str());
    let facts = issue_facts_user(thread, user);
    let summary = issue_summary_user(user);
    let mut chat_id = ISSUE_CHAT_ID.to_owned();
    push_decimal(&mut chat_id, issue.number);
    let mut error_tag = ISSUE_ERROR_TAG.to_owned();
    push_decimal(&mut error_tag, issue.number);
    chain_of_chat(
        system.as_str(),
        facts.as_str(),
        chat_id.as_str(),
        FACTS_TOKENS,
        summary.as_str(),
        SUMMARY_TOKENS,
        error_tag.as_str(),
    )
}

/// What an issue contributes: the address of its page, a space, and its
/// summary.
pub open spec fn issue_line_text(html_url: Seq<char>, summary: Seq<char>) -> Seq<char> {
    html_url.push(' ') + summary
}

/// Where the analysis of an issue stands.
#[derive(Debug)]
pub enum IssueStage {
    /// The comments are to be listed.
    Reading,
    /// The conversation is under way.
    Chatting { chain: ChatChain },
    /// The analysis has ended, with what the issue contributes or with
    /// nothing.
    Finished { line: Option<String> },
}

/// A stage as a mathematical value.
pub enum IssueStageView {
    Reading,
    Chatting { chain: ChatChainView },
    Finished { line: Option<Seq<char>> },
}

impl View for IssueStage {
    type V = IssueStageView;

    open spec fn view(&self) -> IssueStageView {
        match self {
            IssueStage::Reading => IssueStageView::Reading,
            IssueStage::Chatting { chain } => IssueStageView::Chatting { chain: chain@ },
            IssueStage::Finished { line } => IssueStageView::Finished { line: line.deep_view() },
        }
    }
}

/// The analysis of one issue.
#[derive(Debug)]
pub struct IssueAnalysis {
    owner: String,
    repo: String,
    user: String,
    issue: Issue,
    stage: IssueStage,
}

/// An analysis as a mathematical value.
pub struct IssueAnalysisView {
    pub owner: Seq<char>,
    pub repo: Seq<char>,
    pub user: Seq<char>,
    pub issue: IssueView,
    pub stage: IssueStageView,
}

impl IssueAnalysisView {
    /// An analysis that has not read the comments yet.
    pub open spec fn start(owner: Seq<char>, repo: Seq<char>, user: Seq<char>, issue: IssueView) -> Self {
        IssueAnalysisView { owner, repo, user, issue, stage: IssueStageView::Reading }
    }

    /// What the analysis asks of its driver.
    pub open spec fn action(self) -> ActionView {
        match self.stage {
            IssueStageView::Reading => ActionView::ListComments {
                url: comments_url_text(self.owner, self.repo, self.issue.number as nat),
            },
            IssueStageView::Chatting { chain } => chain.action(),
            IssueStageView::Finished { line } => ActionView::Done,
        }
    }

    /// The analysis after `event`. Comments that cannot be read count as
    /// none: the conversation then is about the opening post alone. An
    /// event that does not answer the pending action changes nothing.
    pub open spec fn after(self, event: EventView) -> Self {
        match (self.stage, event) {
            (IssueStageView::Reading, EventView::Comments(comments)) => {
                let comments = match comments {
                    Some(comments) => comments,
                    None => Seq::empty(),
                };
                IssueAnalysisView {
                    stage: IssueStageView::Chatting {
                        chain: issue_chain_view(
                            self.issue,
                            self.user,
                            thread_text(self.issue, comments),
                        ),
                    },
                    ..self
                }
            },
            (IssueStageView::Chatting { chain }, EventView::Reply(reply)) => {
                let chain = chain.after_reply(reply);
                match chain.outcome() {
                    None => IssueAnalysisView { stage: IssueStageView::Chatting { chain }, ..self },
                    Some(Ok(summary)) => IssueAnalysisView {
                        stage: IssueStageView::Finished {
                            line: Some(issue_line_text(self.issue.html_url, summary)),
                        },
                        ..self
                    },
                    Some(Err(_)) => IssueAnalysisView {
                        stage: IssueStageView::Finished { line: None },
                        ..self
                    },
                }
            },
            _ => self,
        }
    }

    /// What the issue contributes, once the analysis has ended: `Some(None)`
    /// says that it has ended and the issue contributes nothing.
    pub open spec fn result(self) -> Option<Option<Seq<char>>> {
        match self.stage {
            IssueStageView::Finished { line } => Some(line),
            _ => None,
        }
    }
}

impl View for IssueAnalysis {
    type V = IssueAnalysisView;

    closed spec fn view(&self) -> IssueAnalysisView {
        IssueAnalysisView {
            owner: self.owner@,
            repo: self.repo@,
            user: self.user@,
            issue: self.issue@,
            stage: self.stage@,
        }
    }
}

/// The analysis of `issue`, which belongs to the repository `owner/repo`,
/// with an eye on `user`; about to list the comments.
pub fn analyze_issue(owner: &str, repo: &str, user: &str, issue: Issue) -> (analysis: IssueAnalysis)
    ensures
        analysis@ == IssueAnalysisView::start(owner@, repo@, user@, issue@),
{
    IssueAnalysis {
        owner: owner.to_owned(),
        repo: repo.to_owned(),
        user: user.to_owned(),
        issue,
        stage: IssueStage::Reading,
    }
}

impl IssueAnalysis {
    /// What the driver is to do next.
    pub fn action(&self) -> (action: Action)
        ensures
            action@ == self@.action(),
    {
        match &self.stage {
            IssueStage::Reading => Action::ListComments {
                url: comments_url(self.owner.as_str(), self.repo.as_str(), self.issue.number),
            },
            IssueStage::Chatting { chain } => chain.action(),
            IssueStage::Finished { line } => Action::Done,
        }
    }

    /// Takes the outcome of the pending action.
    pub fn handle(&mut self, event: Event)
        ensures
            final(self)@ == old(self)@.after(event@),
    {
        let mut stage = IssueStage::Reading;
        core::mem::swap(&mut self.stage, &mut stage);
        match (stage, event) {
            (IssueStage::Reading, Event::Comments(comments)) => {
                let comments = match comments {
                    Ok(comments) => comments,
                    Err(_) => Vec::new(),
                };
                let thread = build_thread(&self.issue, &comments);
                let chain = issue_chain(&self.issue, self.user.as_str(), thread.as_str());
                self.stage = IssueStage::Chatting { chain };
            },
            (IssueStage::Chatting { chain }, Event::Reply(reply)) => {
                let mut chain = chain;
                chain.handle(Event::Reply(reply));
                match chain.outcome() {
                    None => {
                        self.stage = IssueStage::Chatting { chain };
                    },
                    Some(Ok(summary)) => {
                        let mut line = self.issue.html_url.clone();
                        push_char(&mut line, ' ');
                        line.append(summary.as_str());
                        self.stage = IssueStage::Finished { line: Some(line) };
                    },
                    Some(Err(_)) => {
                        self.stage = IssueStage::Finished { line: None };
                    },
                }
            },
            (stage, _) => {
                self.stage = stage;
            },
        }
    }

    /// What the issue contributes, once the analysis has ended.
    pub fn result(&self) -> (out: Option<Option<String>>)
        ensures
            out.deep_view() == self@.result(),
    {
        match &self.stage {
            IssueStage::Finished { line } => Some(line.clone()),
            _ => None,
        }
    }

    /// The number of the issue.
    pub fn number(&self) -> (number: u64)
        ensures
            number == self@.issue.number,
    {
        self.issue.number
    }
}

impl IssueSearchView {
    /// What holds of a search at every moment: the page to read is one of
    /// the first `MAX_PAGES`.
    pub open spec fn wf(self) -> bool {
        1 <= self.page <= MAX_PAGES
    }

    /// How many pages the search may still read.
    pub open spec fn pages_left(self) -> nat {
        if self.finished {
            0
        } else {
            (MAX_PAGES + 1 - self.page) as nat
        }
    }
}

/// A fresh search is well formed and every event leaves a well-formed
/// search well formed. A search asks for nothing exactly when it has
/// ended. Every page, read or not, brings it closer to its end, so that it
/// reads `MAX_PAGES` pages at most and none twice; what was found is never
/// lost; and any other event changes nothing.
pub proof fn law_search_progress(
    owner: Seq<char>,
    repo: Seq<char>,
    user: Seq<char>,
    search: IssueSearchView,
    event: EventView,
)
    ensures
        IssueSearchView::start(owner, repo, user).wf(),
        IssueSearchView::start(owner, repo, user).pages_left() == MAX_PAGES,
        search.wf() ==> search.after(event).wf(),
        search.action() is Done <==> search.result() is Some,
        search.wf() && answers(event, search.action()) ==> search.after(event).pages_left()
            < search.pages_left(),
        !answers(event, search.action()) ==> search.after(event) == search,
        search.found.is_prefix_of(search.after(event).found),
{
}

impl IssueAnalysisView {
    /// What holds of an analysis at every moment: a conversation under way
    /// has not ended.
    pub open spec fn wf(self) -> bool {
        self.stage matches IssueStageView::Chatting { chain } ==> chain.outcome() is None
    }

    /// How many steps the analysis may still take.
    pub open spec fn steps_left(self) -> nat {
        match self.stage {
            IssueStageView::Reading => 3,
            IssueStageView::Chatting { chain } => chain.turns_left(),
            IssueStageView::Finished { line } => 0,
        }
    }
}

/// A fresh analysis is well formed and every event leaves a well-formed
/// analysis well formed. An analysis asks for nothing exactly when it has
/// ended. The event that answers its action brings it closer to its end,
/// whether it brings data or a failure, so that it ends after three steps
/// at most; any other event changes nothing.
pub proof fn law_issue_analysis_progress(
    owner: Seq<char>,
    repo: Seq<char>,
    user: Seq<char>,
    issue: IssueView,
    analysis: IssueAnalysisView,
    event: EventView,
)
    ensures
        IssueAnalysisView::start(owner, repo, user, issue).wf(),
        analysis.wf() ==> analysis.after(event).wf(),
        analysis.wf() ==> (analysis.action() is Done <==> analysis.result() is Some),
        analysis.wf() && answers(event, analysis.action()) ==> analysis.after(event).steps_left()
            < analysis.steps_left(),
        analysis.wf() && !answers(event, analysis.action()) ==> analysis.after(event) == analysis,
{
    if let IssueStageView::Chatting { chain } = analysis.stage {
        law_chain_progress(chain, event);
    }
}

/// A thread begins with what it began with: comments are only ever added
/// at its end.
pub proof fn law_thread_grows(thread: Seq<char>, comments: Seq<CommentView>)
    ensures
        thread.is_prefix_of(absorbed(thread, comments)),
    decreases comments.len(),
{
    if comments.len() > 0 {
        let longer = thread + comment_line_text(comments[0].author, post_text(comments[0].body));
        if longer.len() <= SUMMARY_CEILING {
            law_thread_grows(longer, comments.drop_first());
        }
    }
}

/// What is taken from a post has `POST_WORDS` words at most.
pub proof fn law_post_is_bounded(body: Option<Seq<char>>)
    ensures
        words(post_text(body)).len() <= POST_WORDS,
{
    match body {
        Some(text) => {
            SplitRatio::lemma_of(3, 5);
            law_budget_bounds_words(text, QUOTE_MARK@, POST_WORDS as nat, SplitRatio::of(3, 5));
        },
        None => {},
    }
}

} // verus!
