//! The two-turn conversation with the language model.
//!
//! The first turn extracts facts under a system prompt. Its history is then
//! written out as the system prompt of the second turn, which condenses the
//! facts. The chain itself calls nothing: it names the request to make and
//! takes the reply.

use crate::failure::Failure;
use crate::json::{json_quote, json_string};
use crate::steps::{
    answers, Action, ActionView, ChatRequest, ChatRequestView, Event, EventView,
};
use vstd::prelude::*;
use vstd::string::*;

verus! {

/// The least number of characters that a summary has.
pub const MIN_SUMMARY_CHARS: usize = 10;

/// The sampling temperature of every request, in hundredths.
pub const TEMPERATURE_PERCENT: u8 = 70;

/// Who speaks in a message.
#[derive(Clone, Copy, Debug, PartialEq, Eq, Structural)]
pub enum Role {
    System,
    User,
    Assistant,
}

/// One message of a conversation.
#[derive(Debug)]
pub struct Message {
    pub role: Role,
    pub content: String,
}

/// A message as a mathematical value.
pub struct MessageView {
    pub role: Role,
    pub content: Seq<char>,
}

impl View for Message {
    type V = MessageView;

    open spec fn view(&self) -> MessageView {
        MessageView { role: self.role, content: self.content@ }
    }
}

impl DeepView for Message {
    type V = MessageView;

    open spec fn deep_view(&self) -> MessageView {
        self@
    }
}

/// The name of a role in a serialized conversation.
pub open spec fn role_name(role: Role) -> Seq<char> {
    match role {
        Role::System => "system"@,
        Role::User => "user"@,
        Role::Assistant => "assistant"@,
    }
}

/// A message as a JSON object with the members `content` and `role`.
pub open spec fn message_json(m: MessageView) -> Seq<char> {
    "{\"content\":"@ + json_string(m.content) + ",\"role\":"@ + json_string(role_name(m.role))
        + "}"@
}

/// The messages as JSON objects, separated by commas.
pub open spec fn messages_body(ms: Seq<MessageView>) -> Seq<char>
    decreases ms.len(),
{
    if ms.len() == 0 {
        Seq::empty()
    } else if ms.len() == 1 {
        message_json(ms[0])
    } else {
        messages_body(ms.drop_last()) + ","@ + message_json(ms.last())
    }
}

/// The conversation as a compact JSON array.
pub open spec fn messages_json(ms: Seq<MessageView>) -> Seq<char> {
    "["@ + messages_body(ms) + "]"@
}

/// The name of `role`.
fn role_str(role: Role) -> (name: &'static str)
    ensures
        name@ == role_name(role),
{
    match role {
        Role::System => "system",
        Role::User => "user",
        Role::Assistant => "assistant",
    }
}

/// Appends `m` as a JSON object to `out`.
fn push_message_json(out: &mut String, m: &Message)
    ensures
        final(out)@ == old(out)@ + message_json(m@),
{
    let content = json_quote(m.content.as_str());
    let role = json_quote(role_str(m.role));
    out.append("{\"content\":");
    out.append(content.as_str());
    out.append(",\"role\":");
    out.append(role.as_str());
    out.append("}");
}

/// The messages exchanged under one conversation id, in their order.
/// Messages are added at the end; none is ever changed or removed.
#[derive(Debug)]
pub struct ConversationContext {
    chat_id: String,
    messages: Vec<Message>,
}

/// A conversation as a mathematical value.
pub struct ConversationContextView {
    pub chat_id: Seq<char>,
    pub messages: Seq<MessageView>,
}

impl View for ConversationContext {
    type V = ConversationContextView;

    closed spec fn view(&self) -> ConversationContextView {
        ConversationContextView { chat_id: self.chat_id@, messages: self.messages.deep_view() }
    }
}

impl ConversationContext {
    /// The conversation under `chat_id` before anything is said.
    pub fn new(chat_id: &str) -> (context: ConversationContext)
        ensures
            context@ == (ConversationContextView { chat_id: chat_id@, messages: Seq::empty() }),
    {
        let context = ConversationContext { chat_id: chat_id.to_owned(), messages: Vec::new() };
        assert(context.messages.deep_view() =~= Seq::<MessageView>::empty());
        context
    }

    /// Adds a message at the end.
    pub fn push(&mut self, role: Role, content: String)
        ensures
            final(self)@ == (ConversationContextView {
                messages: old(self)@.messages.push(MessageView { role, content: content@ }),
                ..old(self)@
            }),
    {
        let ghost before = self.messages.deep_view();
        self.messages.push(Message { role, content });
        assert(self.messages.deep_view() =~= before.push(MessageView { role, content: content@ }));
    }

    /// The id of the conversation.
    pub fn chat_id(&self) -> (chat_id: &str)
        ensures
            chat_id@ == self@.chat_id,
    {
        self.chat_id.as_str()
    }

    /// The messages so far.
    pub fn messages(&self) -> (messages: &Vec<Message>)
        ensures
            messages.deep_view() == self@.messages,
    {
        &self.messages
    }

    /// The messages as a compact JSON array.
    pub fn to_json(&self) -> (out: String)
        ensures
            out@ == messages_json(self@.messages),
    {
        let ghost all = self.messages.deep_view();
        let mut out = String::new();
        out.append("[");
        let mut i: usize = 0;
        while i < self.messages.len()
            invariant
                i <= self.messages.len(),
                all == self.messages.deep_view(),
                out@ == "["@ + messages_body(all.take(i as int)),
            decreases self.messages.len() - i,
        {
            if i > 0 {
                out.append(",");
            }
            push_message_json(&mut out, &self.messages[i]);
            proof {
                let next = all.take(i + 1);
                assert(next.drop_last() =~= all.take(i as int));
            }
            i += 1;
        }
        assert(all.take(self.messages.len() as int) =~= all);
        out.append("]");
        out
    }
}

/// Where a chain stands.
#[derive(Debug)]
pub enum ChainStage {
    /// The first request is to be made.
    FirstTurn,
    /// The first turn was answered; the second request is to be made.
    SecondTurn,
    /// The chain has ended, with a summary or without.
    Finished(Result<String, Failure>),
}

/// A chain's stage as a mathematical value.
pub enum ChainStageView {
    FirstTurn,
    SecondTurn,
    Finished(Result<Seq<char>, Failure>),
}

impl View for ChainStage {
    type V = ChainStageView;

    open spec fn view(&self) -> ChainStageView {
        match self {
            ChainStage::FirstTurn => ChainStageView::FirstTurn,
            ChainStage::SecondTurn => ChainStageView::SecondTurn,
            ChainStage::Finished(Ok(text)) => ChainStageView::Finished(Ok(text@)),
            ChainStage::Finished(Err(failure)) => ChainStageView::Finished(Err(*failure)),
        }
    }
}

/// One two-turn conversation under one conversation id.
#[derive(Debug)]
pub struct ChatChain {
    sys_prompt_1: String,
    usr_prompt_1: String,
    gen_len_1: u16,
    usr_prompt_2: String,
    gen_len_2: u16,
    error_tag: String,
    /// The conversation so far, under the chain's conversation id.
    context: ConversationContext,
    stage: ChainStage,
}

/// A chain as a mathematical value.
pub struct ChatChainView {
    pub sys_prompt_1: Seq<char>,
    pub usr_prompt_1: Seq<char>,
    pub chat_id: Seq<char>,
    pub gen_len_1: u16,
    pub usr_prompt_2: Seq<char>,
    pub gen_len_2: u16,
    pub error_tag: Seq<char>,
    pub context: Seq<MessageView>,
    pub stage: ChainStageView,
}

impl ChatChainView {
    /// A chain that has not asked anything yet.
    pub open spec fn start(
        sys_prompt_1: Seq<char>,
        usr_prompt_1: Seq<char>,
        chat_id: Seq<char>,
        gen_len_1: u16,
        usr_prompt_2: Seq<char>,
        gen_len_2: u16,
        error_tag: Seq<char>,
    ) -> ChatChainView {
        ChatChainView {
            sys_prompt_1,
            usr_prompt_1,
            chat_id,
            gen_len_1,
            usr_prompt_2,
            gen_len_2,
            error_tag,
            context: Seq::empty(),
            stage: ChainStageView::FirstTurn,
        }
    }

    /// The request of the first turn: a fresh conversation under the
    /// chain's id, with the first system prompt.
    pub open spec fn first_request(self) -> ChatRequestView {
        ChatRequestView {
            chat_id: self.chat_id,
            system_prompt: self.sys_prompt_1,
            user_prompt: self.usr_prompt_1,
            max_tokens: self.gen_len_1,
            temperature_percent: TEMPERATURE_PERCENT,
            restart: true,
        }
    }

    /// The request of the second turn: the same conversation continued,
    /// with the history so far, written as JSON, for system prompt.
    pub open spec fn second_request(self) -> ChatRequestView {
        ChatRequestView {
            chat_id: self.chat_id,
            system_prompt: messages_json(self.context),
            user_prompt: self.usr_prompt_2,
            max_tokens: self.gen_len_2,
            temperature_percent: TEMPERATURE_PERCENT,
            restart: false,
        }
    }

    /// What the chain asks of its driver.
    pub open spec fn action(self) -> ActionView {
        match self.stage {
            ChainStageView::FirstTurn => ActionView::Chat(self.first_request()),
            ChainStageView::SecondTurn => ActionView::Chat(self.second_request()),
            ChainStageView::Finished(_) => ActionView::Done,
        }
    }

    /// The history after the first turn was answered with `answer`.
    pub open spec fn history(self, answer: Seq<char>) -> Seq<MessageView> {
        seq![
            MessageView { role: Role::System, content: self.sys_prompt_1 },
            MessageView { role: Role::User, content: self.usr_prompt_1 },
            MessageView { role: Role::Assistant, content: answer },
        ]
    }

    /// How the second turn's answer ends the chain: a text of fewer than
    /// `MIN_SUMMARY_CHARS` characters is no summary.
    pub open spec fn verdict(answer: Seq<char>) -> Result<Seq<char>, Failure> {
        if answer.len() < MIN_SUMMARY_CHARS {
            Err(Failure::DegenerateOutput)
        } else {
            Ok(answer)
        }
    }

    /// The chain after the endpoint's reply to the pending request. A
    /// failed request ends the chain at once; nothing is asked twice.
    pub open spec fn after_reply(self, reply: Option<Seq<char>>) -> ChatChainView {
        match (self.stage, reply) {
            (ChainStageView::Finished(_), _) => self,
            (_, None) => ChatChainView {
                stage: ChainStageView::Finished(Err(Failure::UpstreamFailure)),
                ..self
            },
            (ChainStageView::FirstTurn, Some(answer)) => ChatChainView {
                context: self.context + self.history(answer),
                stage: ChainStageView::SecondTurn,
                ..self
            },
            (ChainStageView::SecondTurn, Some(answer)) => ChatChainView {
                stage: ChainStageView::Finished(Self::verdict(answer)),
                ..self
            },
        }
    }

    /// The chain after `event`. Only a reply moves it.
    pub open spec fn after(self, event: EventView) -> ChatChainView {
        match event {
            EventView::Reply(reply) => self.after_reply(reply),
            _ => self,
        }
    }

    /// How the chain ended, once it has.
    pub open spec fn outcome(self) -> Option<Result<Seq<char>, Failure>> {
        match self.stage {
            ChainStageView::Finished(result) => Some(result),
            _ => None,
        }
    }
}

impl View for ChatChain {
    type V = ChatChainView;

    closed spec fn view(&self) -> ChatChainView {
        ChatChainView {
            sys_prompt_1: self.sys_prompt_1@,
            usr_prompt_1: self.usr_prompt_1@,
            chat_id: self.context@.chat_id,
            gen_len_1: self.gen_len_1,
            usr_prompt_2: self.usr_prompt_2@,
            gen_len_2: self.gen_len_2,
            error_tag: self.error_tag@,
            context: self.context@.messages,
            stage: self.stage@,
        }
    }
}

/// A chain that is about to make its first request.
///
/// The first turn asks `usr_prompt_1` under `sys_prompt_1`, for at most
/// `gen_len_1` tokens; the second asks `usr_prompt_2`, for at most
/// `gen_len_2` tokens. `error_tag` names the chain in reports of failure.
pub fn chain_of_chat(
    sys_prompt_1: &str,
    usr_prompt_1: &str,
    chat_id: &str,
    gen_len_1: u16,
    usr_prompt_2: &str,
    gen_len_2: u16,
    error_tag: &str,
) -> (chain: ChatChain)
    ensures
        chain@ == ChatChainView::start(
            sys_prompt_1@,
            usr_prompt_1@,
            chat_id@,
            gen_len_1,
            usr_prompt_2@,
            gen_len_2,
            error_tag@,
        ),
{
    ChatChain {
        sys_prompt_1: sys_prompt_1.to_owned(),
        usr_prompt_1: usr_prompt_1.to_owned(),
        gen_len_1,
        usr_prompt_2: usr_prompt_2.to_owned(),
        gen_len_2,
        error_tag: error_tag.to_owned(),
        context: ConversationContext::new(chat_id),
        stage: ChainStage::FirstTurn,
    }
}

impl ChatChain {
    /// What the driver is to do next.
    pub fn action(&self) -> (action: Action)
        ensures
            action@ == self@.action(),
    {
        match &self.stage {
            ChainStage::FirstTurn => Action::Chat(
                ChatRequest {
                    chat_id: self.context.chat_id().to_owned(),
                    system_prompt: self.sys_prompt_1.clone(),
                    user_prompt: self.usr_prompt_1.clone(),
                    max_tokens: self.gen_len_1,
                    temperature_percent: TEMPERATURE_PERCENT,
                    restart: true,
                },
            ),
            ChainStage::SecondTurn => Action::Chat(
                ChatRequest {
                    chat_id: self.context.chat_id().to_owned(),
                    system_prompt: self.context.to_json(),
                    user_prompt: self.usr_prompt_2.clone(),
                    max_tokens: self.gen_len_2,
                    temperature_percent: TEMPERATURE_PERCENT,
                    restart: false,
                },
            ),
            ChainStage::Finished(_) => Action::Done,
        }
    }

    /// Takes the outcome of the pending action.
    pub fn handle(&mut self, event: Event)
        ensures
            final(self)@ == old(self)@.after(event@),
    {
        let reply = match event {
            Event::Reply(reply) => reply,
            _ => {
                return;
            },
        };
        match (&self.stage, reply) {
            (ChainStage::Finished(_), _) => {},
            (_, Err(_)) => {
                self.stage = ChainStage::Finished(Err(Failure::UpstreamFailure));
            },
            (ChainStage::FirstTurn, Ok(answer)) => {
                self.context.push(Role::System, self.sys_prompt_1.clone());
                self.context.push(Role::User, self.usr_prompt_1.clone());
                self.context.push(Role::Assistant, answer);
                self.stage = ChainStage::SecondTurn;
                assert(self.context@.messages =~= old(self).context@.messages + old(self)@.history(
                    answer@,
                ));
            },
            (ChainStage::SecondTurn, Ok(answer)) => {
                if answer.as_str().unicode_len() < MIN_SUMMARY_CHARS {
                    self.stage = ChainStage::Finished(Err(Failure::DegenerateOutput));
                } else {
                    self.stage = ChainStage::Finished(Ok(answer));
                }
            },
        }
    }

    /// How the chain ended, once it has.
    pub fn outcome(&self) -> (outcome: Option<Result<String, Failure>>)
        ensures
            outcome_view(outcome) == self@.outcome(),
    {
        match &self.stage {
            ChainStage::Finished(Ok(text)) => Some(Ok(text.clone())),
            ChainStage::Finished(Err(failure)) => Some(Err(*failure)),
            _ => None,
        }
    }

    /// The name of the chain in reports of failure.
    pub fn error_tag(&self) -> (tag: &str)
        ensures
            tag@ == self@.error_tag,
    {
        self.error_tag.as_str()
    }

    /// The conversation so far.
    pub fn context(&self) -> (context: &ConversationContext)
        ensures
            context@.messages == self@.context,
            context@.chat_id == self@.chat_id,
    {
        &self.context
    }
}

/// An outcome as a mathematical value.
pub open spec fn outcome_view(outcome: Option<Result<String, Failure>>) -> Option<
    Result<Seq<char>, Failure>,
> {
    match outcome {
        Some(Ok(text)) => Some(Ok(text@)),
        Some(Err(failure)) => Some(Err(failure)),
        None => None,
    }
}

/// How a chain ends, whatever the endpoint answers. A failed turn ends it
/// with `UpstreamFailure`, and after a failed first turn the second answer
/// is never looked at. A second answer of fewer than `MIN_SUMMARY_CHARS`
/// characters ends it with `DegenerateOutput`; any other second answer is
/// the result, character for character.
pub proof fn law_chain_outcome(
    chain: ChatChainView,
    first: Option<Seq<char>>,
    second: Option<Seq<char>>,
)
    requires
        chain.stage == ChainStageView::FirstTurn,
    ensures
        chain.after_reply(first).after_reply(second).outcome() == Some(
            match (first, second) {
                (None, _) => Err(Failure::UpstreamFailure),
                (Some(_), None) => Err(Failure::UpstreamFailure),
                (Some(_), Some(answer)) => if answer.len() < 10 {
                    Err(Failure::DegenerateOutput)
                } else {
                    Ok(answer)
                },
            },
        ),
{
}

/// The second turn continues the conversation of the first, under the same
/// id and without a restart, and its system prompt is the first turn's
/// system prompt, user prompt and answer, in this order, written as JSON.
pub proof fn law_second_turn_sees_first(chain: ChatChainView, answer: Seq<char>)
    requires
        chain.stage == ChainStageView::FirstTurn,
        chain.context.len() == 0,
    ensures
        chain.action() == ActionView::Chat(chain.first_request()),
        chain.first_request().restart,
        chain.after_reply(Some(answer)).action() == ActionView::Chat(
            ChatRequestView {
                chat_id: chain.chat_id,
                system_prompt: messages_json(chain.history(answer)),
                user_prompt: chain.usr_prompt_2,
                max_tokens: chain.gen_len_2,
                temperature_percent: TEMPERATURE_PERCENT,
                restart: false,
            },
        ),
{
}

/// The conversation only ever grows, and a chain that has ended stays as it
/// is.
pub proof fn law_chain_is_append_only(chain: ChatChainView, event: EventView)
    ensures
        chain.context.is_prefix_of(chain.after(event).context),
        chain.outcome() is Some ==> chain.after(event) == chain,
{
}

impl ChatChainView {
    /// How many requests the chain may still make.
    pub open spec fn turns_left(self) -> nat {
        match self.stage {
            ChainStageView::FirstTurn => 2,
            ChainStageView::SecondTurn => 1,
            ChainStageView::Finished(_) => 0,
        }
    }
}

/// A chain asks for nothing exactly when it has ended. Every reply brings
/// it closer to its end, so that it ends after two replies at most, and no
/// other event changes it.
pub proof fn law_chain_progress(chain: ChatChainView, event: EventView)
    ensures
        chain.action() is Done <==> chain.outcome() is Some,
        chain.outcome() is Some <==> chain.turns_left() == 0,
        answers(event, chain.action()) ==> chain.after(event).turns_left() < chain.turns_left(),
        !answers(event, chain.action()) ==> chain.after(event) == chain,
{
}

} // verus!
