//! The raw data that the pipeline summarizes.

use vstd::prelude::*;

verus! {

/// A comment on an issue.
#[derive(Debug)]
pub struct Comment {
    /// Login of the commenter.
    pub author: String,
    pub body: Option<String>,
}

/// A comment as a mathematical value.
pub struct CommentView {
    pub author: Seq<char>,
    pub body: Option<Seq<char>>,
}

impl View for Comment {
    type V = CommentView;

    open spec fn view(&self) -> CommentView {
        CommentView { author: self.author@, body: self.body.deep_view() }
    }
}

impl DeepView for Comment {
    type V = CommentView;

    open spec fn deep_view(&self) -> CommentView {
        self@
    }
}

/// An issue as it was opened, without its comments.
#[derive(Debug)]
pub struct Issue {
    pub number: u64,
    pub title: String,
    /// Login of the user who opened the issue.
    pub author: String,
    pub body: Option<String>,
    /// Address of the issue's page.
    pub html_url: String,
    /// Names of the issue's labels.
    pub labels: Vec<String>,
}

/// An issue as a mathematical value.
pub struct IssueView {
    pub number: u64,
    pub title: Seq<char>,
    pub author: Seq<char>,
    pub body: Option<Seq<char>>,
    pub html_url: Seq<char>,
    pub labels: Seq<Seq<char>>,
}

impl View for Issue {
    type V = IssueView;

    open spec fn view(&self) -> IssueView {
        IssueView {
            number: self.number,
            title: self.title@,
            author: self.author@,
            body: self.body.deep_view(),
            html_url: self.html_url@,
            labels: self.labels.deep_view(),
        }
    }
}

impl DeepView for Issue {
    type V = IssueView;

    open spec fn deep_view(&self) -> IssueView {
        self@
    }
}

/// One page of the results of an issue search.
#[derive(Debug)]
pub struct IssuePage {
    pub items: Vec<Issue>,
    /// How many issues the whole search matched, where the page says so.
    pub total_count: Option<u64>,
}

/// A page of search results as a mathematical value.
pub struct IssuePageView {
    pub items: Seq<IssueView>,
    pub total_count: Option<u64>,
}

impl View for IssuePage {
    type V = IssuePageView;

    open spec fn view(&self) -> IssuePageView {
        IssuePageView { items: self.items.deep_view(), total_count: self.total_count }
    }
}

/// The summary of one commit or of one issue.
#[derive(Debug)]
pub struct EntitySummary {
    /// The commit's revision identifier, or the issue's number.
    pub source_id: String,
    pub text: String,
}

/// A summary as a mathematical value.
pub struct EntitySummaryView {
    pub source_id: Seq<char>,
    pub text: Seq<char>,
}

impl View for EntitySummary {
    type V = EntitySummaryView;

    open spec fn view(&self) -> EntitySummaryView {
        EntitySummaryView { source_id: self.source_id@, text: self.text@ }
    }
}

impl DeepView for EntitySummary {
    type V = EntitySummaryView;

    open spec fn deep_view(&self) -> EntitySummaryView {
        self@
    }
}

/// The texts of the summaries, each followed by a line feed.
pub open spec fn rendered(entries: Seq<EntitySummaryView>) -> Seq<char>
    decreases entries.len(),
{
    if entries.len() == 0 {
        Seq::empty()
    } else {
        rendered(entries.drop_last()) + entries.last().text + seq!['\n']
    }
}

} // verus!
