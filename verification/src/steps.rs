//! What a stage of the pipeline asks of its driver, and what the driver
//! hands back.
//!
//! A stage never reads or sends anything itself. It names an `Action`; the
//! driver performs it and reports the outcome as the `Event` of the same
//! kind. An event of another kind is ignored.

use crate::failure::Failure;
use crate::records::{Comment, CommentView, IssuePage, IssuePageView};
use vstd::prelude::*;

verus! {

/// One request to the language model endpoint.
#[derive(Debug)]
pub struct ChatRequest {
    /// The conversation to continue or to start.
    pub chat_id: String,
    pub system_prompt: String,
    pub user_prompt: String,
    /// Ceiling on the number of generated tokens.
    pub max_tokens: u16,
    /// Sampling temperature, in hundredths.
    pub temperature_percent: u8,
    /// Whether what the endpoint remembers under `chat_id` is discarded
    /// first.
    pub restart: bool,
}

/// A request as a mathematical value.
pub struct ChatRequestView {
    pub chat_id: Seq<char>,
    pub system_prompt: Seq<char>,
    pub user_prompt: Seq<char>,
    pub max_tokens: u16,
    pub temperature_percent: u8,
    pub restart: bool,
}

impl View for ChatRequest {
    type V = ChatRequestView;

    open spec fn view(&self) -> ChatRequestView {
        ChatRequestView {
            chat_id: self.chat_id@,
            system_prompt: self.system_prompt@,
            user_prompt: self.user_prompt@,
            max_tokens: self.max_tokens,
            temperature_percent: self.temperature_percent,
            restart: self.restart,
        }
    }
}

/// What the driver is to do next.
#[derive(Debug)]
pub enum Action {
    /// Read the list of commits at `url`; report `Event::Commits`.
    ListCommits { url: String },
    /// Read the patch at `url`; report `Event::Patch`.
    FetchPatch { url: String },
    /// Read the page of search results at `url`; report `Event::Issues`.
    SearchIssues { url: String },
    /// Read the comments at `url`; report `Event::Comments`.
    ListComments { url: String },
    /// Ask the language model; report `Event::Reply`.
    Chat(ChatRequest),
    /// Send `text` to a channel; report `Event::Published`.
    Publish { workspace: String, channel: String, text: String },
    /// Nothing: the stage has finished.
    Done,
}

/// An action as a mathematical value.
pub enum ActionView {
    ListCommits { url: Seq<char> },
    FetchPatch { url: Seq<char> },
    SearchIssues { url: Seq<char> },
    ListComments { url: Seq<char> },
    Chat(ChatRequestView),
    Publish { workspace: Seq<char>, channel: Seq<char>, text: Seq<char> },
    Done,
}

impl View for Action {
    type V = ActionView;

    open spec fn view(&self) -> ActionView {
        match self {
            Action::ListCommits { url } => ActionView::ListCommits { url: url@ },
            Action::FetchPatch { url } => ActionView::FetchPatch { url: url@ },
            Action::SearchIssues { url } => ActionView::SearchIssues { url: url@ },
            Action::ListComments { url } => ActionView::ListComments { url: url@ },
            Action::Chat(request) => ActionView::Chat(request@),
            Action::Publish { workspace, channel, text } => ActionView::Publish {
                workspace: workspace@,
                channel: channel@,
                text: text@,
            },
            Action::Done => ActionView::Done,
        }
    }
}

/// The outcome of an action. `Err` says that the data is absent, whatever
/// the reason.
#[derive(Debug)]
pub enum Event {
    /// The revision identifiers of the commits listed.
    Commits(Result<Vec<String>, Failure>),
    /// The text of a patch.
    Patch(Result<String, Failure>),
    Issues(Result<IssuePage, Failure>),
    Comments(Result<Vec<Comment>, Failure>),
    /// The language model's answer.
    Reply(Result<String, Failure>),
    Published,
}

/// An event as a mathematical value. Absent data is `None`: no stage
/// distinguishes one failure from another.
pub enum EventView {
    Commits(Option<Seq<Seq<char>>>),
    Patch(Option<Seq<char>>),
    Issues(Option<IssuePageView>),
    Comments(Option<Seq<CommentView>>),
    Reply(Option<Seq<char>>),
    Published,
}

impl View for Event {
    type V = EventView;

    open spec fn view(&self) -> EventView {
        match self {
            Event::Commits(Ok(shas)) => EventView::Commits(Some(shas.deep_view())),
            Event::Commits(Err(_)) => EventView::Commits(None),
            Event::Patch(Ok(text)) => EventView::Patch(Some(text@)),
            Event::Patch(Err(_)) => EventView::Patch(None),
            Event::Issues(Ok(page)) => EventView::Issues(Some(page@)),
            Event::Issues(Err(_)) => EventView::Issues(None),
            Event::Comments(Ok(comments)) => EventView::Comments(Some(comments.deep_view())),
            Event::Comments(Err(_)) => EventView::Comments(None),
            Event::Reply(Ok(text)) => EventView::Reply(Some(text@)),
            Event::Reply(Err(_)) => EventView::Reply(None),
            Event::Published => EventView::Published,
        }
    }
}

/// Whether `event` reports the outcome of `action`.
pub open spec fn answers(event: EventView, action: ActionView) -> bool {
    match (action, event) {
        (ActionView::ListCommits { .. }, EventView::Commits(_)) => true,
        (ActionView::FetchPatch { .. }, EventView::Patch(_)) => true,
        (ActionView::SearchIssues { .. }, EventView::Issues(_)) => true,
        (ActionView::ListComments { .. }, EventView::Comments(_)) => true,
        (ActionView::Chat(_), EventView::Reply(_)) => true,
        (ActionView::Publish { .. }, EventView::Published) => true,
        _ => false,
    }
}

/// The order of pairs by their first parts and, where these are equal, by
/// their second parts. No sequence of pairs of natural numbers descends in
/// it for ever.
pub open spec fn precedes(a: (nat, nat), b: (nat, nat)) -> bool {
    a.0 < b.0 || (a.0 == b.0 && a.1 < b.1)
}

} // verus!
