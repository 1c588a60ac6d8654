//! One run, from the command that asks for it to the report.
//!
//! The commits are summarized first and their summaries published to a
//! diagnostic channel. The issues are then found and summarized one by one,
//! and their summaries published likewise. Last, the two collections are
//! related in a report, which goes to the channel that asked. A unit that
//! yields nothing is passed over and the run goes on; a report that cannot
//! be written is not published.

use crate::chars::push_char;
use crate::chat::{law_chain_progress, ChatChain, ChatChainView, MIN_SUMMARY_CHARS};
use crate::commits::{
    analyze_commits, law_commit_analysis_invariant, law_commit_analysis_progress, CommitAnalysis,
    CommitAnalysisView,
};
use crate::correlate::{correlate_commits_issues, correlation_chain_view};
use crate::decimal::{decimal, to_decimal};
use crate::failure::Failure;
use crate::issues::{
    analyze_issue, get_issues, law_issue_analysis_progress, law_search_progress, IssueAnalysis,
    IssueAnalysisView, IssueSearch, IssueSearchView,
};
use crate::records::{rendered, EntitySummary, EntitySummaryView, Issue, IssueView};
use crate::steps::{answers, precedes, Action, ActionView, Event, EventView};
use crate::trigger::{parse_trigger, parsed, Target, TargetView};
use vstd::prelude::*;
use vstd::string::*;

verus! {

/// The workspace of the diagnostic channels.
pub const DIAGNOSTIC_WORKSPACE: &'static str = "ik8";

/// The diagnostic channel that receives the summaries of the commits.
pub const COMMITS_CHANNEL: &'static str = "ch_in";

/// The diagnostic channel that receives the summaries of the issues.
pub const ISSUES_CHANNEL: &'static str = "ch_mid";

/// The workspace that is listened to unless another is configured.
pub const DEFAULT_WORKSPACE: &'static str = "secondstate";

/// The channel that is listened to unless another is configured.
pub const DEFAULT_CHANNEL: &'static str = "github-status";

/// The trigger word unless another is configured.
pub const DEFAULT_TRIGGER_WORD: &'static str = "bot@get";

/// Where commands come from and how they are recognized.
#[derive(Debug)]
pub struct Config {
    pub workspace: String,
    pub channel: String,
    pub trigger_word: String,
}

/// A setting as a mathematical value: what was configured, or else the
/// default.
pub open spec fn setting(configured: Option<String>, default: Seq<char>) -> Seq<char> {
    match configured {
        Some(value) => value@,
        None => default,
    }
}

/// What was configured, or else the default.
fn setting_or(configured: Option<String>, default: &str) -> (out: String)
    ensures
        out@ == setting(configured, default@),
{
    match configured {
        Some(value) => value,
        None => default.to_owned(),
    }
}

impl Config {
    /// The configuration with each setting that is not given at its
    /// default.
    pub fn new(
        workspace: Option<String>,
        channel: Option<String>,
        trigger_word: Option<String>,
    ) -> (config: Config)
        ensures
            config.workspace@ == setting(workspace, DEFAULT_WORKSPACE@),
            config.channel@ == setting(channel, DEFAULT_CHANNEL@),
            config.trigger_word@ == setting(trigger_word, DEFAULT_TRIGGER_WORD@),
    {
        Config {
            workspace: setting_or(workspace, DEFAULT_WORKSPACE),
            channel: setting_or(channel, DEFAULT_CHANNEL),
            trigger_word: setting_or(trigger_word, DEFAULT_TRIGGER_WORD),
        }
    }
}

/// Where a run stands.
#[derive(Debug)]
pub enum PipelineStage {
    /// The commits are being summarized.
    Commits { commits: CommitAnalysis },
    /// The summaries of the commits are to be published.
    CommitsOut,
    /// The issues are being searched for.
    Searching { search: IssueSearch },
    /// One issue is being summarized.
    Issue { analysis: IssueAnalysis },
    /// The summaries of the issues are to be published.
    IssuesOut,
    /// The report is being written.
    Correlating { chain: ChatChain },
    /// The report is to be published.
    ReportOut { report: String },
    Finished,
}

/// A stage as a mathematical value.
pub enum PipelineStageView {
    Commits { commits: CommitAnalysisView },
    CommitsOut,
    Searching { search: IssueSearchView },
    Issue { analysis: IssueAnalysisView },
    IssuesOut,
    Correlating { chain: ChatChainView },
    ReportOut { report: Seq<char> },
    Finished,
}

impl View for PipelineStage {
    type V = PipelineStageView;

    open spec fn view(&self) -> PipelineStageView {
        match self {
            PipelineStage::Commits { commits } => PipelineStageView::Commits { commits: commits@ },
            PipelineStage::CommitsOut => PipelineStageView::CommitsOut,
            PipelineStage::Searching { search } => PipelineStageView::Searching { search: search@ },
            PipelineStage::Issue { analysis } => PipelineStageView::Issue { analysis: analysis@ },
            PipelineStage::IssuesOut => PipelineStageView::IssuesOut,
            PipelineStage::Correlating { chain } => PipelineStageView::Correlating { chain: chain@ },
            PipelineStage::ReportOut { report } => PipelineStageView::ReportOut { report: report@ },
            PipelineStage::Finished => PipelineStageView::Finished,
        }
    }
}

/// One run.
#[derive(Debug)]
pub struct Pipeline {
    /// Where the report goes.
    workspace: String,
    channel: String,
    owner: String,
    repo: String,
    user_name: String,
    /// The summaries of the commits, each followed by a line feed.
    commits_summaries: String,
    /// The issues that were found and are not yet taken up.
    issues: Vec<Issue>,
    /// What the issues contributed, each contribution followed by a line
    /// feed.
    issues_summaries: String,
    /// Every summary of the run, commits first.
    summaries: Vec<EntitySummary>,
    report: Option<String>,
    stage: PipelineStage,
}

/// A run as a mathematical value.
pub struct PipelineView {
    pub workspace: Seq<char>,
    pub channel: Seq<char>,
    pub owner: Seq<char>,
    pub repo: Seq<char>,
    pub user_name: Seq<char>,
    pub commits_summaries: Seq<char>,
    pub issues: Seq<IssueView>,
    pub issues_summaries: Seq<char>,
    pub summaries: Seq<EntitySummaryView>,
    pub report: Option<Seq<char>>,
    pub stage: PipelineStageView,
}

impl PipelineView {
    /// A run that is about to list the commits.
    pub open spec fn start(workspace: Seq<char>, channel: Seq<char>, target: TargetView) -> Self {
        PipelineView {
            workspace,
            channel,
            owner: target.owner,
            repo: target.repo,
            user_name: target.user_name,
            commits_summaries: Seq::empty(),
            issues: Seq::empty(),
            issues_summaries: Seq::empty(),
            summaries: Seq::empty(),
            report: None,
            stage: PipelineStageView::Commits {
                commits: CommitAnalysisView::start(target.owner, target.repo, target.user_name),
            },
        }
    }

    /// What the run asks of its driver.
    pub open spec fn action(self) -> ActionView {
        match self.stage {
            PipelineStageView::Commits { commits } => commits.action(),
            PipelineStageView::CommitsOut => ActionView::Publish {
                workspace: DIAGNOSTIC_WORKSPACE@,
                channel: COMMITS_CHANNEL@,
                text: self.commits_summaries,
            },
            PipelineStageView::Searching { search } => search.action(),
            PipelineStageView::Issue { analysis } => analysis.action(),
            PipelineStageView::IssuesOut => ActionView::Publish {
                workspace: DIAGNOSTIC_WORKSPACE@,
                channel: ISSUES_CHANNEL@,
                text: self.issues_summaries,
            },
            PipelineStageView::Correlating { chain } => chain.action(),
            PipelineStageView::ReportOut { report } => ActionView::Publish {
                workspace: self.workspace,
                channel: self.channel,
                text: report,
            },
            PipelineStageView::Finished => ActionView::Done,
        }
    }

    /// The run as it takes up the next issue, or turns to publishing for
    /// want of one.
    pub open spec fn next_issue(self) -> Self {
        if self.issues.len() > 0 {
            PipelineView {
                stage: PipelineStageView::Issue {
                    analysis: IssueAnalysisView::start(
                        self.owner,
                        self.repo,
                        self.user_name,
                        self.issues[0],
                    ),
                },
                issues: self.issues.drop_first(),
                ..self
            }
        } else {
            PipelineView { stage: PipelineStageView::IssuesOut, ..self }
        }
    }

    /// The run once issue `number` has contributed `line`.
    pub open spec fn with_issue_line(self, number: u64, line: Seq<char>) -> Self {
        PipelineView {
            issues_summaries: self.issues_summaries + line + seq!['\n'],
            summaries: self.summaries.push(
                EntitySummaryView { source_id: decimal(number as nat), text: line },
            ),
            ..self
        }
    }

    /// The run after `event`. The stage under way takes the event; when it
    /// has ended, the run moves on. A stage that publishes waits for the
    /// word that the text was sent.
    pub open spec fn after(self, event: EventView) -> Self {
        match self.stage {
            PipelineStageView::Commits { commits } => {
                let commits = commits.after(event);
                match commits.result() {
                    None => PipelineView { stage: PipelineStageView::Commits { commits }, ..self },
                    Some(text) => PipelineView {
                        commits_summaries: text,
                        summaries: self.summaries + commits.entries,
                        stage: PipelineStageView::CommitsOut,
                        ..self
                    },
                }
            },
            PipelineStageView::CommitsOut => match event {
                EventView::Published => PipelineView {
                    stage: PipelineStageView::Searching {
                        search: IssueSearchView::start(self.owner, self.repo, self.user_name),
                    },
                    ..self
                },
                _ => self,
            },
            PipelineStageView::Searching { search } => {
                let search = search.after(event);
                match search.result() {
                    None => PipelineView { stage: PipelineStageView::Searching { search }, ..self },
                    Some(found) => PipelineView { issues: found, ..self }.next_issue(),
                }
            },
            PipelineStageView::Issue { analysis } => {
                let analysis = analysis.after(event);
                match analysis.result() {
                    None => PipelineView { stage: PipelineStageView::Issue { analysis }, ..self },
                    Some(None) => self.next_issue(),
                    Some(Some(line)) => self.with_issue_line(
                        analysis.issue.number,
                        line,
                    ).next_issue(),
                }
            },
            PipelineStageView::IssuesOut => match event {
                EventView::Published => PipelineView {
                    stage: PipelineStageView::Correlating {
                        chain: correlation_chain_view(self.commits_summaries, self.issues_summaries),
                    },
                    ..self
                },
                _ => self,
            },
            PipelineStageView::Correlating { chain } => {
                let chain = chain.after(event);
                match chain.outcome() {
                    None => PipelineView { stage: PipelineStageView::Correlating { chain }, ..self },
                    Some(Ok(report)) => PipelineView {
                        report: Some(report),
                        stage: PipelineStageView::ReportOut { report },
                        ..self
                    },
                    Some(Err(_)) => PipelineView { stage: PipelineStageView::Finished, ..self },
                }
            },
            PipelineStageView::ReportOut { report } => match event {
                EventView::Published => PipelineView { stage: PipelineStageView::Finished, ..self },
                _ => self,
            },
            PipelineStageView::Finished => self,
        }
    }

    /// Whether the run has ended.
    pub open spec fn is_finished(self) -> bool {
        self.stage is Finished
    }
}

impl View for Pipeline {
    type V = PipelineView;

    closed spec fn view(&self) -> PipelineView {
        PipelineView {
            workspace: self.workspace@,
            channel: self.channel@,
            owner: self.owner@,
            repo: self.repo@,
            user_name: self.user_name@,
            commits_summaries: self.commits_summaries@,
            issues: self.issues.deep_view(),
            issues_summaries: self.issues_summaries@,
            summaries: self.summaries.deep_view(),
            report: self.report.deep_view(),
            stage: self.stage@,
        }
    }
}

impl Pipeline {
    /// A run about `target` whose report goes to `channel` in `workspace`.
    pub fn new(workspace: &str, channel: &str, target: &Target) -> (run: Pipeline)
        ensures
            run@ == PipelineView::start(workspace@, channel@, target@),
    {
        let run = Pipeline {
            workspace: workspace.to_owned(),
            channel: channel.to_owned(),
            owner: target.owner.clone(),
            repo: target.repo.clone(),
            user_name: target.user_name.clone(),
            commits_summaries: String::new(),
            issues: Vec::new(),
            issues_summaries: String::new(),
            summaries: Vec::new(),
            report: None,
            stage: PipelineStage::Commits {
                commits: analyze_commits(
                    target.owner.as_str(),
                    target.repo.as_str(),
                    target.user_name.as_str(),
                ),
            },
        };
        assert(run.issues.deep_view() =~= Seq::<IssueView>::empty());
        assert(run.summaries.deep_view() =~= Seq::<EntitySummaryView>::empty());
        run
    }

    /// What the driver is to do next.
    pub fn action(&self) -> (action: Action)
        ensures
            action@ == self@.action(),
    {
        match &self.stage {
            PipelineStage::Commits { commits } => commits.action(),
            PipelineStage::CommitsOut => Action::Publish {
                workspace: DIAGNOSTIC_WORKSPACE.to_owned(),
                channel: COMMITS_CHANNEL.to_owned(),
                text: self.commits_summaries.clone(),
            },
            PipelineStage::Searching { search } => search.action(),
            PipelineStage::Issue { analysis } => analysis.action(),
            PipelineStage::IssuesOut => Action::Publish {
                workspace: DIAGNOSTIC_WORKSPACE.to_owned(),
                channel: ISSUES_CHANNEL.to_owned(),
                text: self.issues_summaries.clone(),
            },
            PipelineStage::Correlating { chain } => chain.action(),
            PipelineStage::ReportOut { report } => Action::Publish {
                workspace: self.workspace.clone(),
                channel: self.channel.clone(),
                text: report.clone(),
            },
            PipelineStage::Finished => Action::Done,
        }
    }

    /// Takes up the next issue, or turns to publishing.
    fn next_issue(&mut self)
        ensures
            final(self)@ == old(self)@.next_issue(),
    {
        if self.issues.len() > 0 {
            let ghost before = self.issues.deep_view();
            let issue = self.issues.remove(0);
            assert(self.issues.deep_view() =~= before.drop_first());
            self.stage = PipelineStage::Issue {
                analysis: analyze_issue(
                    self.owner.as_str(),
                    self.repo.as_str(),
                    self.user_name.as_str(),
                    issue,
                ),
            };
        } else {
            self.stage = PipelineStage::IssuesOut;
        }
    }

    /// Takes the outcome of the pending action.
    pub fn handle(&mut self, event: Event)
        ensures
            final(self)@ == old(self)@.after(event@),
    {
        let mut stage = PipelineStage::Finished;
        core::mem::swap(&mut self.stage, &mut stage);
        match stage {
            PipelineStage::Commits { commits } => {
                let mut commits = commits;
                commits.handle(event);
                if commits.is_finished() {
                    let ghost before = self.summaries.deep_view();
                    let ghost added = commits@.entries;
                    let (text, mut entries) = commits.into_parts();
                    self.commits_summaries = text;
                    self.summaries.append(&mut entries);
                    assert(self.summaries.deep_view() =~= before + added);
                    self.stage = PipelineStage::CommitsOut;
                } else {
                    self.stage = PipelineStage::Commits { commits };
                }
            },
            PipelineStage::CommitsOut => match event {
                Event::Published => {
                    self.stage = PipelineStage::Searching {
                        search: get_issues(
                            self.owner.as_str(),
                            self.repo.as_str(),
                            self.user_name.as_str(),
                        ),
                    };
                },
                _ => {
                    self.stage = PipelineStage::CommitsOut;
                },
            },
            PipelineStage::Searching { search } => {
                let mut search = search;
                search.handle(event);
                if search.is_finished() {
                    self.issues = search.into_issues();
                    self.next_issue();
                } else {
                    self.stage = PipelineStage::Searching { search };
                }
            },
            PipelineStage::Issue { analysis } => {
                let mut analysis = analysis;
                analysis.handle(event);
                match analysis.result() {
                    None => {
                        self.stage = PipelineStage::Issue { analysis };
                    },
                    Some(None) => {
                        self.next_issue();
                    },
                    Some(Some(line)) => {
                        let ghost before = self.summaries.deep_view();
                        self.issues_summaries.append(line.as_str());
                        push_char(&mut self.issues_summaries, '\n');
                        let entry = EntitySummary {
                            source_id: to_decimal(analysis.number()),
                            text: line,
                        };
                        self.summaries.push(entry);
                        assert(self.summaries.deep_view() =~= before.push(entry@));
                        assert(self.issues_summaries@ =~= old(self).issues_summaries@ + line@
                            + seq!['\n']);
                        self.next_issue();
                    },
                }
            },
            PipelineStage::IssuesOut => match event {
                Event::Published => {
                    self.stage = PipelineStage::Correlating {
                        chain: correlate_commits_issues(
                            self.commits_summaries.as_str(),
                            self.issues_summaries.as_str(),
                        ),
                    };
                },
                _ => {
                    self.stage = PipelineStage::IssuesOut;
                },
            },
            PipelineStage::Correlating { chain } => {
                let mut chain = chain;
                chain.handle(event);
                match chain.outcome() {
                    None => {
                        self.stage = PipelineStage::Correlating { chain };
                    },
                    Some(Ok(report)) => {
                        self.report = Some(report.clone());
                        self.stage = PipelineStage::ReportOut { report };
                    },
                    Some(Err(_)) => {},
                }
            },
            PipelineStage::ReportOut { report } => match event {
                Event::Published => {},
                _ => {
                    self.stage = PipelineStage::ReportOut { report };
                },
            },
            PipelineStage::Finished => {},
        }
    }

    /// Whether the run has ended.
    pub fn is_finished(&self) -> (finished: bool)
        ensures
            finished == self@.is_finished(),
    {
        match &self.stage {
            PipelineStage::Finished => true,
            _ => false,
        }
    }

    /// The report, once it is written.
    pub fn report(&self) -> (report: Option<String>)
        ensures
            report.deep_view() == self@.report,
    {
        self.report.clone()
    }

    /// Every summary of the run so far, commits first.
    pub fn summaries(&self) -> (summaries: &Vec<EntitySummary>)
        ensures
            summaries.deep_view() == self@.summaries,
    {
        &self.summaries
    }
}

/// The run that `text` asks for, with its report bound for the channel that
/// `config` names.
///
/// Fails with `PreconditionViolation`, before anything is read, unless
/// `text` holds the trigger word followed by owner, repository and user.
pub fn start_run(config: &Config, text: &str) -> (out: Result<Pipeline, Failure>)
    ensures
        match (out, parsed(text@, config.trigger_word@)) {
            (Ok(run), Ok(target)) => run@ == PipelineView::start(
                config.workspace@,
                config.channel@,
                target,
            ),
            (Err(failure), Err(expected)) => failure == expected,
            _ => false,
        },
{
    match parse_trigger(text, config.trigger_word.as_str()) {
        Ok(target) => Ok(Pipeline::new(config.workspace.as_str(), config.channel.as_str(), &target)),
        Err(failure) => Err(failure),
    }
}

impl PipelineView {
    /// What holds of a run at every moment: the stage under way is well
    /// formed and has not ended; what is to be published as the report is
    /// the report; neither a summary nor the report is shorter than
    /// `MIN_SUMMARY_CHARS` characters; and the texts published to the
    /// diagnostic channels are, one after the other, the rendering of the
    /// summaries.
    pub open spec fn wf(self) -> bool {
        &&& match self.stage {
            PipelineStageView::Commits { commits } => {
                &&& commits.wf()
                &&& commits.result() is None
                &&& self.summaries.len() == 0
                &&& self.commits_summaries.len() == 0
                &&& self.issues_summaries.len() == 0
            },
            PipelineStageView::Searching { search } => search.wf() && !search.finished,
            PipelineStageView::Issue { analysis } => analysis.wf() && analysis.result() is None,
            PipelineStageView::Correlating { chain } => chain.outcome() is None,
            PipelineStageView::ReportOut { report } => self.report == Some(report),
            _ => true,
        }
        &&& forall|i: int|
            0 <= i < self.summaries.len() ==> (#[trigger] self.summaries[i]).text.len()
                >= MIN_SUMMARY_CHARS
        &&& (self.report matches Some(report) ==> report.len() >= MIN_SUMMARY_CHARS)
        &&& rendered(self.summaries) == self.commits_summaries + self.issues_summaries
    }

    /// How far the run is from its end: first the stages that are still to
    /// come, then what is left of the stage under way.
    pub open spec fn measure(self) -> (nat, nat) {
        match self.stage {
            PipelineStageView::Commits { commits } => (7 + commits.measure().0, commits.measure().1),
            PipelineStageView::CommitsOut => (6, 0),
            PipelineStageView::Searching { search } => (5, search.pages_left()),
            PipelineStageView::Issue { analysis } => (
                4,
                4 * self.issues.len() + analysis.steps_left(),
            ),
            PipelineStageView::IssuesOut => (3, 0),
            PipelineStageView::Correlating { chain } => (2, chain.turns_left()),
            PipelineStageView::ReportOut { report } => (1, 0),
            PipelineStageView::Finished => (0, 0),
        }
    }
}

/// A fresh run is well formed, and every event leaves a well-formed run
/// well formed.
pub proof fn law_run_invariant(
    workspace: Seq<char>,
    channel: Seq<char>,
    target: TargetView,
    run: PipelineView,
    event: EventView,
)
    ensures
        PipelineView::start(workspace, channel, target).wf(),
        run.wf() ==> run.after(event).wf(),
{
    if run.wf() {
        let next = run.after(event);
        match run.stage {
            PipelineStageView::Commits { commits } => {
                law_commit_analysis_invariant(run.owner, run.repo, run.user_name, commits, event);
                assert(run.summaries + commits.after(event).entries =~= commits.after(
                    event,
                ).entries);
                assert(next.commits_summaries + next.issues_summaries =~= next.commits_summaries);
            },
            PipelineStageView::Searching { search } => {
                law_search_progress(run.owner, run.repo, run.user_name, search, event);
            },
            PipelineStageView::Issue { analysis } => {
                law_issue_analysis_progress(
                    run.owner,
                    run.repo,
                    run.user_name,
                    analysis.issue,
                    analysis,
                    event,
                );
                if let Some(Some(line)) = analysis.after(event).result() {
                    assert(next.summaries.drop_last() =~= run.summaries);
                    assert(next.commits_summaries + next.issues_summaries =~= run.commits_summaries
                        + run.issues_summaries + line + seq!['\n']);
                }
            },
            _ => {},
        }
    }
}

/// A run asks for nothing exactly when it has ended. The event that
/// answers its action brings it closer to its end, whether it brings data
/// or a failure: the run cannot go on for ever, it asks for nothing twice,
/// and a unit that yields nothing is passed over. Any other event changes
/// nothing.
pub proof fn law_run_progress(run: PipelineView, event: EventView)
    requires
        run.wf(),
    ensures
        run.action() is Done <==> run.is_finished(),
        answers(event, run.action()) ==> precedes(run.after(event).measure(), run.measure()),
        !answers(event, run.action()) ==> run.after(event) == run,
{
    match run.stage {
        PipelineStageView::Commits { commits } => {
            law_commit_analysis_progress(commits, event);
        },
        PipelineStageView::Searching { search } => {
            law_search_progress(run.owner, run.repo, run.user_name, search, event);
        },
        PipelineStageView::Issue { analysis } => {
            law_issue_analysis_progress(
                run.owner,
                run.repo,
                run.user_name,
                analysis.issue,
                analysis,
                event,
            );
        },
        PipelineStageView::Correlating { chain } => {
            law_chain_progress(chain, event);
        },
        _ => {},
    }
}

/// The report is what the last conversation yields. When it yields a text,
/// that text, which has `MIN_SUMMARY_CHARS` characters at least, is the
/// report and is published to the channel that asked. When it fails or
/// yields too short a text, the run ends with no report and publishes
/// nothing more.
pub proof fn law_report_follows_correlation(run: PipelineView, event: EventView)
    requires
        run.wf(),
        run.stage is Correlating,
    ensures
        match run.stage->Correlating_chain.after(event).outcome() {
            None => run.after(event).action() is Chat && run.after(event).report == run.report,
            Some(Ok(report)) => {
                &&& report.len() >= MIN_SUMMARY_CHARS
                &&& run.after(event).report == Some(report)
                &&& run.after(event).action() == (ActionView::Publish {
                    workspace: run.workspace,
                    channel: run.channel,
                    text: report,
                })
            },
            Some(Err(_)) => run.after(event).is_finished() && run.after(event).report == run.report,
        },
{
}

} // verus!
