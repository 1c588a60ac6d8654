//! Summaries of a user's commits, one commit at a time.
//!
//! The commits are listed first. Each commit's patch is then read and taken
//! through a conversation of its own. A commit whose patch cannot be read,
//! or whose conversation yields no summary, is passed over. The analysis
//! ends with the last commit, or as soon as the collected summaries exceed
//! `SUMMARY_CEILING` characters.

use crate::chars::{from_chars, push_char, push_chars, to_chars};
use crate::chat::{
    chain_of_chat, law_chain_progress, ChatChain, ChatChainView, MIN_SUMMARY_CHARS,
};
use crate::records::{rendered, EntitySummary, EntitySummaryView};
use crate::steps::{answers, precedes, Action, ActionView, Event, EventView};
use crate::urls::{commits_url, commits_url_text, patch_url, patch_url_text};
use vstd::prelude::*;
use vstd::string::*;

verus! {

/// Above this many characters no further summary is collected.
pub const SUMMARY_CEILING: usize = 45_000;

/// Ceiling on the tokens generated in a turn that extracts facts.
pub const FACTS_TOKENS: u16 = 256;

/// Ceiling on the tokens generated in a turn that summarizes.
pub const SUMMARY_TOKENS: u16 = 128;

/// How many characters of a revision identifier name its conversation.
pub const SERIAL_CHARS: usize = 5;

/// What a commit's conversation id begins with.
pub const COMMIT_CHAT_ID: &'static str = "commit-";

/// What a commit's conversation is called in reports of failure.
pub const COMMIT_ERROR_TAG: &'static str = "analyze_commits-";

/// In the system prompt about a commit, what stands before `user_name`.
pub const COMMIT_FACTS_SYSTEM_1: &'static str = "You are provided with a commit patch by the user ";

/// In the system prompt about a commit, what stands before `repo`.
pub const COMMIT_FACTS_SYSTEM_2: &'static str = " on the ";

/// In the system prompt about a commit, what stands after `repo`.
pub const COMMIT_FACTS_SYSTEM_3: &'static str = " project. Your task is to parse this data, focusing on the following sections: the Date Line, Subject Line, Diff Files, Diff Changes, Sign-off Line, and the File Changes Summary. Extract key elements such as the date of the commit (in 'yyyy/mm/dd' format), a summary of changes, and the types of files affected, prioritizing code files, scripts, then documentation. Be particularly careful to distinguish between changes made to core code files and modifications made to documentation files, even if they contain technical content. Compile a list of the extracted key elements.";

/// The system prompt of the turn that extracts the facts of a commit.
pub open spec fn commit_facts_system_text(user_name: Seq<char>, repo: Seq<char>) -> Seq<char> {
    COMMIT_FACTS_SYSTEM_1@ + user_name + COMMIT_FACTS_SYSTEM_2@ + repo + COMMIT_FACTS_SYSTEM_3@
}

/// The system prompt of the turn that extracts the facts of a commit.
pub fn commit_facts_system(user_name: &str, repo: &str) -> (out: String)
    ensures
        out@ == commit_facts_system_text(user_name@, repo@),
{
    let mut out = String::new();
    out.append(COMMIT_FACTS_SYSTEM_1);
    out.append(user_name);
    out.append(COMMIT_FACTS_SYSTEM_2);
    out.append(repo);
    out.append(COMMIT_FACTS_SYSTEM_3);
    out
}

/// In the prompt for the facts of a commit, what stands before `text`.
pub const COMMIT_FACTS_USER_1: &'static str = "Based on the provided commit patch: ";

/// In the prompt for the facts of a commit, what stands after `text`.
pub const COMMIT_FACTS_USER_2: &'static str = ", extract and present the following key elements: the date of the commit (formatted as 'yyyy/mm/dd'), a high-level summary of the changes made, and the types of files affected. Prioritize data on changes to code files first, then scripts, and lastly documentation. Pay attention to the file types and ensure the distinction between documentation changes and core code changes, even when the documentation contains highly technical language. Please compile your findings into a list, with each key element represented as a separate item.";

/// The prompt that asks for the facts of the patch `text`.
pub open spec fn commit_facts_user_text(text: Seq<char>) -> Seq<char> {
    COMMIT_FACTS_USER_1@ + text + COMMIT_FACTS_USER_2@
}

/// The prompt that asks for the facts of the patch `text`.
pub fn commit_facts_user(text: &str) -> (out: String)
    ensures
        out@ == commit_facts_user_text(text@),
{
    let mut out = String::new();
    out.append(COMMIT_FACTS_USER_1);
    out.append(text);
    out.append(COMMIT_FACTS_USER_2);
    out
}

/// The prompt that asks for a one-sentence summary of a commit.
pub const COMMIT_SUMMARY_USER: &'static str = "Using the key elements you extracted from the commit patch, provide a summary of the user's contributions to the project. Include the date of the commit, the types of files affected, and the overall changes made. When describing the affected files, make sure to differentiate between changes to core code files, scripts, and documentation files. Present your summary in this format: 'On (date in 'yyyy/mm/dd' format), (summary of changes). (overall impact of changes).' Please ensure your answer stayed below 128 tokens.";

/// The first `SERIAL_CHARS` characters of `sha`, or all of it if it has
/// fewer.
pub open spec fn sha_serial_text(sha: Seq<char>) -> Seq<char> {
    if sha.len() <= SERIAL_CHARS {
        sha
    } else {
        sha.take(SERIAL_CHARS as int)
    }
}

/// The first `SERIAL_CHARS` characters of `sha`.
pub fn sha_serial(sha: &str) -> (out: String)
    ensures
        out@ == sha_serial_text(sha@),
{
    let chars = to_chars(sha);
    if chars.len() <= SERIAL_CHARS {
        from_chars(&chars)
    } else {
        let mut out = String::new();
        push_chars(&mut out, &chars, 0, SERIAL_CHARS);
        out
    }
}

/// The conversation about the commit `sha`, whose patch is `patch`.
pub open spec fn commit_chain_view(
    user_name: Seq<char>,
    repo: Seq<char>,
    sha: Seq<char>,
    patch: Seq<char>,
) -> ChatChainView {
    ChatChainView::start(
        commit_facts_system_text(user_name, repo),
        commit_facts_user_text(patch),
        COMMIT_CHAT_ID@ + sha_serial_text(sha),
        FACTS_TOKENS,
        COMMIT_SUMMARY_USER@,
        SUMMARY_TOKENS,
        COMMIT_ERROR_TAG@ + sha_serial_text(sha),
    )
}

/// The conversation about the commit `sha`, whose patch is `patch`.
pub fn commit_chain(user_name: &str, repo: &str, sha: &str, patch: &str) -> (chain: ChatChain)
    ensures
        chain@ == commit_chain_view(user_name@, repo@, sha@, patch@),
{
    let serial = sha_serial(sha);
    let system = commit_facts_system(user_name, repo);
    let user = commit_facts_user(patch);
    let mut chat_id = COMMIT_CHAT_ID.to_owned();
    chat_id.append(serial.as_str());
    let mut error_tag = COMMIT_ERROR_TAG.to_owned();
    error_tag.append(serial.as_str());
    chain_of_chat(
        system.as_str(),
        user.as_str(),
        chat_id.as_str(),
        FACTS_TOKENS,
        COMMIT_SUMMARY_USER,
        SUMMARY_TOKENS,
        error_tag.as_str(),
    )
}

/// Where an analysis of commits stands.
#[derive(Debug)]
pub enum CommitStage {
    /// The commits are to be listed.
    Listing,
    /// The patch of commit `sha` is to be read.
    Fetching { sha: String },
    /// The conversation about commit `sha` is under way.
    Chatting { sha: String, chain: ChatChain },
    Finished,
}

/// A stage as a mathematical value.
pub enum CommitStageView {
    Listing,
    Fetching { sha: Seq<char> },
    Chatting { sha: Seq<char>, chain: ChatChainView },
    Finished,
}

impl View for CommitStage {
    type V = CommitStageView;

    open spec fn view(&self) -> CommitStageView {
        match self {
            CommitStage::Listing => CommitStageView::Listing,
            CommitStage::Fetching { sha } => CommitStageView::Fetching { sha: sha@ },
            CommitStage::Chatting { sha, chain } => CommitStageView::Chatting {
                sha: sha@,
                chain: chain@,
            },
            CommitStage::Finished => CommitStageView::Finished,
        }
    }
}

/// The analysis of one user's commits in one repository.
#[derive(Debug)]
pub struct CommitAnalysis {
    owner: String,
    repo: String,
    user_name: String,
    /// The revision identifiers that were listed.
    shas: Vec<String>,
    /// How many of them have been taken up.
    next: usize,
    /// The summaries collected, in the order of the commits.
    entries: Vec<EntitySummary>,
    /// Their texts, each followed by a line feed.
    summaries: String,
    stage: CommitStage,
}

/// An analysis as a mathematical value.
pub struct CommitAnalysisView {
    pub owner: Seq<char>,
    pub repo: Seq<char>,
    pub user_name: Seq<char>,
    pub shas: Seq<Seq<char>>,
    pub next: nat,
    pub entries: Seq<EntitySummaryView>,
    pub summaries: Seq<char>,
    pub stage: CommitStageView,
}

impl CommitAnalysisView {
    /// An analysis that has not listed the commits yet.
    pub open spec fn start(owner: Seq<char>, repo: Seq<char>, user_name: Seq<char>) -> Self {
        CommitAnalysisView {
            owner,
            repo,
            user_name,
            shas: Seq::empty(),
            next: 0,
            entries: Seq::empty(),
            summaries: Seq::empty(),
            stage: CommitStageView::Listing,
        }
    }

    /// What the analysis asks of its driver.
    pub open spec fn action(self) -> ActionView {
        match self.stage {
            CommitStageView::Listing => ActionView::ListCommits {
                url: commits_url_text(self.owner, self.repo, self.user_name),
            },
            CommitStageView::Fetching { sha } => ActionView::FetchPatch {
                url: patch_url_text(self.owner, self.repo, sha),
            },
            CommitStageView::Chatting { sha, chain } => chain.action(),
            CommitStageView::Finished => ActionView::Done,
        }
    }

    /// The analysis as it takes up the next commit, or ends for want of
    /// one.
    pub open spec fn advance(self) -> Self {
        if self.next < self.shas.len() {
            CommitAnalysisView {
                stage: CommitStageView::Fetching { sha: self.shas[self.next as int] },
                next: self.next + 1,
                ..self
            }
        } else {
            CommitAnalysisView { stage: CommitStageView::Finished, ..self }
        }
    }

    /// The analysis once commit `sha` has the summary `summary`. The
    /// summary is collected; the analysis then ends if what is collected
    /// exceeds `SUMMARY_CEILING` characters, and goes on if not.
    pub open spec fn record(self, sha: Seq<char>, summary: Seq<char>) -> Self {
        let grown = CommitAnalysisView {
            entries: self.entries.push(EntitySummaryView { source_id: sha, text: summary }),
            summaries: self.summaries + summary + seq!['\n'],
            ..self
        };
        if grown.summaries.len() > SUMMARY_CEILING {
            CommitAnalysisView { stage: CommitStageView::Finished, ..grown }
        } else {
            grown.advance()
        }
    }

    /// The analysis after `event`. An event that does not answer the
    /// pending action changes nothing.
    pub open spec fn after(self, event: EventView) -> Self {
        match (self.stage, event) {
            (CommitStageView::Listing, EventView::Commits(None)) => CommitAnalysisView {
                stage: CommitStageView::Finished,
                ..self
            },
            (CommitStageView::Listing, EventView::Commits(Some(shas))) => CommitAnalysisView {
                shas,
                next: 0,
                ..self
            }.advance(),
            (CommitStageView::Fetching { sha }, EventView::Patch(None)) => self.advance(),
            (CommitStageView::Fetching { sha }, EventView::Patch(Some(patch))) => CommitAnalysisView {
                stage: CommitStageView::Chatting {
                    sha,
                    chain: commit_chain_view(self.user_name, self.repo, sha, patch),
                },
                ..self
            },
            (CommitStageView::Chatting { sha, chain }, EventView::Reply(reply)) => {
                let chain = chain.after_reply(reply);
                match chain.outcome() {
                    None => CommitAnalysisView {
                        stage: CommitStageView::Chatting { sha, chain },
                        ..self
                    },
                    Some(Ok(summary)) => self.record(sha, summary),
                    Some(Err(_)) => self.advance(),
                }
            },
            _ => self,
        }
    }

    /// What the analysis has collected, once it has ended.
    pub open spec fn result(self) -> Option<Seq<char>> {
        match self.stage {
            CommitStageView::Finished => Some(self.summaries),
            _ => None,
        }
    }
}

impl View for CommitAnalysis {
    type V = CommitAnalysisView;

    closed spec fn view(&self) -> CommitAnalysisView {
        CommitAnalysisView {
            owner: self.owner@,
            repo: self.repo@,
            user_name: self.user_name@,
            shas: self.shas.deep_view(),
            next: self.next as nat,
            entries: self.entries.deep_view(),
            summaries: self.summaries@,
            stage: self.stage@,
        }
    }
}

/// The analysis of the commits of `user_name` in the repository
/// `owner/repo`, about to list them.
pub fn analyze_commits(owner: &str, repo: &str, user_name: &str) -> (analysis: CommitAnalysis)
    ensures
        analysis@ == CommitAnalysisView::start(owner@, repo@, user_name@),
{
    let analysis = CommitAnalysis {
        owner: owner.to_owned(),
        repo: repo.to_owned(),
        user_name: user_name.to_owned(),
        shas: Vec::new(),
        next: 0,
        entries: Vec::new(),
        summaries: String::new(),
        stage: CommitStage::Listing,
    };
    assert(analysis.shas.deep_view() =~= Seq::<Seq<char>>::empty());
    assert(analysis.entries.deep_view() =~= Seq::<EntitySummaryView>::empty());
    analysis
}

impl CommitAnalysis {
    /// What the driver is to do next.
    pub fn action(&self) -> (action: Action)
        ensures
            action@ == self@.action(),
    {
        match &self.stage {
            CommitStage::Listing => Action::ListCommits {
                url: commits_url(
                    self.owner.as_str(),
                    self.repo.as_str(),
                    self.user_name.as_str(),
                ),
            },
            CommitStage::Fetching { sha } => Action::FetchPatch {
                url: patch_url(self.owner.as_str(), self.repo.as_str(), sha.as_str()),
            },
            CommitStage::Chatting { sha, chain } => chain.action(),
            CommitStage::Finished => Action::Done,
        }
    }

    /// Takes up the next commit, or ends.
    fn advance(&mut self)
        ensures
            final(self)@ == old(self)@.advance(),
    {
        if self.next < self.shas.len() {
            let sha = self.shas[self.next].clone();
            self.stage = CommitStage::Fetching { sha };
            self.next = self.next + 1;
        } else {
            self.stage = CommitStage::Finished;
        }
    }

    /// Collects the summary of commit `sha`.
    fn record(&mut self, sha: String, summary: String)
        ensures
            final(self)@ == old(self)@.record(sha@, summary@),
    {
        let ghost before = self.entries.deep_view();
        self.summaries.append(summary.as_str());
        push_char(&mut self.summaries, '\n');
        self.entries.push(EntitySummary { source_id: sha, text: summary });
        assert(self.entries.deep_view() =~= before.push(
            EntitySummaryView { source_id: sha@, text: summary@ },
        ));
        assert(self.summaries@ =~= old(self).summaries@ + summary@ + seq!['\n']);
        if self.summaries.as_str().unicode_len() > SUMMARY_CEILING {
            self.stage = CommitStage::Finished;
        } else {
            self.advance();
        }
    }

    /// Takes the outcome of the pending action.
    pub fn handle(&mut self, event: Event)
        ensures
            final(self)@ == old(self)@.after(event@),
    {
        let mut stage = CommitStage::Finished;
        core::mem::swap(&mut self.stage, &mut stage);
        match (stage, event) {
            (CommitStage::Listing, Event::Commits(Err(_))) => {},
            (CommitStage::Listing, Event::Commits(Ok(shas))) => {
                self.shas = shas;
                self.next = 0;
                self.advance();
            },
            (CommitStage::Fetching { sha }, Event::Patch(Err(_))) => {
                self.advance();
            },
            (CommitStage::Fetching { sha }, Event::Patch(Ok(patch))) => {
                let chain = commit_chain(
                    self.user_name.as_str(),
                    self.repo.as_str(),
                    sha.as_str(),
                    patch.as_str(),
                );
                self.stage = CommitStage::Chatting { sha, chain };
            },
            (CommitStage::Chatting { sha, chain }, Event::Reply(reply)) => {
                let mut chain = chain;
                chain.handle(Event::Reply(reply));
                match chain.outcome() {
                    None => {
                        self.stage = CommitStage::Chatting { sha, chain };
                    },
                    Some(Ok(summary)) => {
                        self.record(sha, summary);
                    },
                    Some(Err(_)) => {
                        self.advance();
                    },
                }
            },
            (stage, _) => {
                self.stage = stage;
            },
        }
    }

    /// What was collected: the summaries, each followed by a line feed.
    /// `None` until the analysis has ended.
    pub fn result(&self) -> (out: Option<String>)
        ensures
            out.deep_view() == self@.result(),
    {
        match &self.stage {
            CommitStage::Finished => Some(self.summaries.clone()),
            _ => None,
        }
    }

    /// The summaries collected so far, commit by commit.
    pub fn entries(&self) -> (entries: &Vec<EntitySummary>)
        ensures
            entries.deep_view() == self@.entries,
    {
        &self.entries
    }

    /// Whether the analysis has ended.
    pub fn is_finished(&self) -> (finished: bool)
        ensures
            finished == (self@.result() is Some),
    {
        match &self.stage {
            CommitStage::Finished => true,
            _ => false,
        }
    }

    /// What was collected: the texts of the summaries, each followed by a
    /// line feed, and the summaries themselves.
    pub fn into_parts(self) -> (parts: (String, Vec<EntitySummary>))
        ensures
            parts.0@ == self@.summaries,
            parts.1.deep_view() == self@.entries,
    {
        (self.summaries, self.entries)
    }
}

impl CommitAnalysisView {
    /// What holds of an analysis at every moment: the text collected is
    /// the rendering of the summaries collected; it exceeds
    /// `SUMMARY_CEILING` characters only once the analysis has ended; no
    /// summary collected is shorter than `MIN_SUMMARY_CHARS` characters; and
    /// a conversation under way has not ended.
    pub open spec fn wf(self) -> bool {
        &&& self.next <= self.shas.len()
        &&& self.summaries == rendered(self.entries)
        &&& (self.stage is Finished || self.summaries.len() <= SUMMARY_CEILING)
        &&& forall|i: int|
            0 <= i < self.entries.len() ==> (#[trigger] self.entries[i]).text.len()
                >= MIN_SUMMARY_CHARS
        &&& (self.stage matches CommitStageView::Chatting { sha, chain } ==> chain.outcome() is None)
    }

    /// How far the analysis is from its end: first whether the commits are
    /// still to be listed, then three steps for each commit not yet taken
    /// up and what is left of the steps for the commit in hand.
    pub open spec fn measure(self) -> (nat, nat) {
        let left = (self.shas.len() - self.next) as nat;
        match self.stage {
            CommitStageView::Listing => (1, 0),
            CommitStageView::Fetching { sha } => (0, 3 * left + 3),
            CommitStageView::Chatting { sha, chain } => (0, 3 * left + chain.turns_left()),
            CommitStageView::Finished => (0, 0),
        }
    }
}

/// A fresh analysis is well formed, and every event leaves a well-formed
/// analysis well formed.
pub proof fn law_commit_analysis_invariant(
    owner: Seq<char>,
    repo: Seq<char>,
    user_name: Seq<char>,
    analysis: CommitAnalysisView,
    event: EventView,
)
    ensures
        CommitAnalysisView::start(owner, repo, user_name).wf(),
        analysis.wf() ==> analysis.after(event).wf(),
{
    if analysis.wf() {
        match (analysis.stage, event) {
            (CommitStageView::Chatting { sha, chain }, EventView::Reply(reply)) => {
                match chain.after_reply(reply).outcome() {
                    Some(Ok(summary)) => {
                        let entry = EntitySummaryView { source_id: sha, text: summary };
                        assert(analysis.entries.push(entry).drop_last() =~= analysis.entries);
                    },
                    _ => {},
                }
            },
            _ => {},
        }
    }
}

/// An analysis asks for nothing exactly when it has ended. The event that
/// answers its action brings it closer to its end, whether it brings data
/// or a failure: nothing is asked twice, and a commit that yields nothing
/// is passed over. Any other event changes nothing.
pub proof fn law_commit_analysis_progress(analysis: CommitAnalysisView, event: EventView)
    requires
        analysis.wf(),
    ensures
        analysis.action() is Done <==> analysis.result() is Some,
        answers(event, analysis.action()) ==> precedes(
            analysis.after(event).measure(),
            analysis.measure(),
        ),
        !answers(event, analysis.action()) ==> analysis.after(event) == analysis,
{
    if let CommitStageView::Chatting { sha, chain } = analysis.stage {
        law_chain_progress(chain, event);
    }
}

} // verus!
