//! Asking the language model a question, under the user's own instruction
//! or the default one.

use crate::llm::{clean_response, cleaned, GenerationRequest, GenerationRequestView, MODEL};
use crate::reply::{Embed, EmbedView, Reply, ReplyView, FOOTER};
use crate::request::{HandlerEvent, HandlerEventView};
use crate::text::push_text;
use vstd::prelude::*;

verus! {

/// What is added to every instruction, to keep the answer within a field.
pub const KEEP_SHORT: &'static str = "Make your response no longer than 1024 characters";

/// What stands in front of the user's name in the instruction.
pub const USER_NAME_IS: &'static str = "The users name is ";

pub const ASKED: &'static str = " asked";

pub const RESPONSE: &'static str = "Response";

/// Whether the user's own instruction is to be fetched: it is, unless the
/// default one was asked for.
pub open spec fn wants_own_prompt(use_default_prompt: Option<bool>) -> bool {
    match use_default_prompt {
        Some(default) => !default,
        None => true,
    }
}

/// What the model is asked for `query` by the user `name` under the
/// instruction `instruction`.
pub open spec fn ask_request(
    instruction: Seq<char>,
    name: Seq<char>,
    query: Seq<char>,
) -> GenerationRequestView {
    GenerationRequestView {
        model: MODEL@,
        preamble: Some(instruction),
        additions: seq![KEEP_SHORT@, USER_NAME_IS@ + name],
        prompt: query,
    }
}

/// The answer to `query` of the user `name`, made of what the model, or
/// the failure to reach it, said.
pub open spec fn ask_embed(name: Seq<char>, query: Seq<char>, said: Seq<char>) -> EmbedView {
    EmbedView::empty().field(name + ASKED@, query, false).field(RESPONSE@, cleaned(said), false).footer(
        FOOTER@,
    )
}

/// Where a question stands.
#[derive(Debug, PartialEq, Eq)]
pub enum AskState {
    /// The user's own instruction is being fetched.
    AwaitingPrompt { name: String, query: String },
    /// The model is being asked.
    AwaitingResponse { name: String, query: String },
    /// The question was answered.
    Finished,
}

/// An ask state as plain values.
pub enum AskStateView {
    AwaitingPrompt { name: Seq<char>, query: Seq<char> },
    AwaitingResponse { name: Seq<char>, query: Seq<char> },
    Finished,
}

impl View for AskState {
    type V = AskStateView;

    open spec fn view(&self) -> AskStateView {
        match self {
            AskState::AwaitingPrompt { name, query } => AskStateView::AwaitingPrompt {
                name: name@,
                query: query@,
            },
            AskState::AwaitingResponse { name, query } => AskStateView::AwaitingResponse {
                name: name@,
                query: query@,
            },
            AskState::Finished => AskStateView::Finished,
        }
    }
}

/// What happened while a question was being answered. A failure carries
/// its message.
#[derive(Debug, PartialEq, Eq)]
pub enum AskEvent {
    /// The store gave the user's own instruction, or failed to.
    Prompt(Result<String, String>),
    /// The model answered, or could not be reached.
    Response(Result<String, String>),
}

/// The view of a text or a failure message.
pub open spec fn outcome_view(r: Result<String, String>) -> Result<Seq<char>, Seq<char>> {
    match r {
        Ok(text) => Ok(text@),
        Err(why) => Err(why@),
    }
}

/// An ask event as plain values.
pub enum AskEventView {
    Prompt(Result<Seq<char>, Seq<char>>),
    Response(Result<Seq<char>, Seq<char>>),
}

impl View for AskEvent {
    type V = AskEventView;

    open spec fn view(&self) -> AskEventView {
        match self {
            AskEvent::Prompt(r) => AskEventView::Prompt(outcome_view(*r)),
            AskEvent::Response(r) => AskEventView::Response(outcome_view(*r)),
        }
    }
}

/// What is to be done next for a question.
#[derive(Debug, PartialEq, Eq)]
pub enum AskAction {
    /// Fetch the user's own instruction from the store.
    FetchPrompt,
    /// Ask the model.
    Generate(GenerationRequest),
    /// The handler ends with this.
    Finish(HandlerEvent),
    /// Nothing: the event did not belong to the state.
    Nothing,
}

/// An ask action as plain values.
pub enum AskActionView {
    FetchPrompt,
    Generate(GenerationRequestView),
    Finish(HandlerEventView),
    Nothing,
}

impl View for AskAction {
    type V = AskActionView;

    open spec fn view(&self) -> AskActionView {
        match self {
            AskAction::FetchPrompt => AskActionView::FetchPrompt,
            AskAction::Generate(request) => AskActionView::Generate(request@),
            AskAction::Finish(event) => AskActionView::Finish(event@),
            AskAction::Nothing => AskActionView::Nothing,
        }
    }
}

/// How a question begins: with fetching the user's own instruction, or,
/// where the default one was asked for, with asking the model under it.
pub open spec fn ask_start(
    name: Seq<char>,
    query: Seq<char>,
    use_default_prompt: Option<bool>,
    default_prompt: Seq<char>,
) -> (AskStateView, AskActionView) {
    if wants_own_prompt(use_default_prompt) {
        (AskStateView::AwaitingPrompt { name, query }, AskActionView::FetchPrompt)
    } else {
        (
            AskStateView::AwaitingResponse { name, query },
            AskActionView::Generate(ask_request(default_prompt, name, query)),
        )
    }
}

/// What follows `event` in `state`.
pub open spec fn ask_step(state: AskStateView, event: AskEventView) -> (AskStateView, AskActionView) {
    match (state, event) {
        (AskStateView::AwaitingPrompt { name, query }, AskEventView::Prompt(fetched)) => match fetched {
            Ok(instruction) => (
                AskStateView::AwaitingResponse { name, query },
                AskActionView::Generate(ask_request(instruction, name, query)),
            ),
            Err(why) => (AskStateView::Finished, AskActionView::Finish(HandlerEventView::Failed(why))),
        },
        (AskStateView::AwaitingResponse { name, query }, AskEventView::Response(response)) => {
            let said = match response {
                Ok(text) => text,
                Err(why) => why,
            };
            (
                AskStateView::Finished,
                AskActionView::Finish(
                    HandlerEventView::Replied(ReplyView::Embed(ask_embed(name, query, said))),
                ),
            )
        },
        (other, _) => (other, AskActionView::Nothing),
    }
}

/// Makes the request that asks the model for `query` by the user `name`
/// under `instruction`.
pub fn make_ask_request(instruction: &str, name: &str, query: &str) -> (r: GenerationRequest)
    ensures
        r@ == ask_request(instruction@, name@, query@),
{
    let mut user = String::from_str(USER_NAME_IS);
    user.append(name);
    let mut additions: Vec<String> = Vec::new();
    assert(crate::text::strs(additions@) =~= Seq::<Seq<char>>::empty());
    push_text(&mut additions, KEEP_SHORT);
    push_text(&mut additions, user.as_str());
    let r = GenerationRequest {
        model: String::from_str(MODEL),
        preamble: Some(String::from_str(instruction)),
        additions,
        prompt: String::from_str(query),
    };
    assert(r@.additions =~= seq![KEEP_SHORT@, USER_NAME_IS@ + name@]);
    r
}

/// Makes the answer to `query` of the user `name` out of what the model, or
/// the failure to reach it, said.
pub fn ask_reply(name: &str, query: &str, said: &str) -> (r: Reply)
    ensures
        r@ == ReplyView::Embed(ask_embed(name@, query@, said@)),
{
    let mut asked = String::from_str(name);
    asked.append(ASKED);
    let answer = clean_response(said);
    Reply::Embed(
        Embed::new().field(asked.as_str(), query, false).field(RESPONSE, answer.as_str(), false).footer(
            FOOTER,
        ),
    )
}

/// Begins to answer `query` of the user `name`.
pub fn ask(name: &str, query: &str, use_default_prompt: Option<bool>, default_prompt: &str) -> (r: (
    AskState,
    AskAction,
))
    ensures
        (r.0@, r.1@) == ask_start(name@, query@, use_default_prompt, default_prompt@),
{
    let default = match use_default_prompt {
        Some(default) => default,
        None => false,
    };
    if !default {
        (
            AskState::AwaitingPrompt { name: String::from_str(name), query: String::from_str(query) },
            AskAction::FetchPrompt,
        )
    } else {
        (
            AskState::AwaitingResponse {
                name: String::from_str(name),
                query: String::from_str(query),
            },
            AskAction::Generate(make_ask_request(default_prompt, name, query)),
        )
    }
}

impl AskState {
    /// Takes what happened and says what is done next.
    ///
    /// The instruction that was fetched goes into the request to the model;
    /// a failure to fetch it fails the handler. What the model answers is
    /// stripped of its reasoning and shown; where the model could not be
    /// reached, the failure's message is shown in its place. An event that
    /// does not belong to the state changes nothing.
    pub fn step(self, event: AskEvent) -> (r: (AskState, AskAction))
        ensures
            (r.0@, r.1@) == ask_step(self@, event@),
    {
        match (self, event) {
            (AskState::AwaitingPrompt { name, query }, AskEvent::Prompt(fetched)) => {
                match fetched {
                    Ok(instruction) => {
                        let request = make_ask_request(
                            instruction.as_str(),
                            name.as_str(),
                            query.as_str(),
                        );
                        (AskState::AwaitingResponse { name, query }, AskAction::Generate(request))
                    },
                    Err(why) => (AskState::Finished, AskAction::Finish(HandlerEvent::Failed(why))),
                }
            },
            (AskState::AwaitingResponse { name, query }, AskEvent::Response(response)) => {
                let said = match response {
                    Ok(text) => text,
                    Err(why) => why,
                };
                let reply = ask_reply(name.as_str(), query.as_str(), said.as_str());
                (AskState::Finished, AskAction::Finish(HandlerEvent::Replied(reply)))
            },
            (other, _) => (other, AskAction::Nothing),
        }
    }
}

} // verus!
