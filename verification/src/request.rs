//! The life of one request: it is received, resolved to a handler, perhaps
//! deferred, and completed with exactly one answer.
//!
//! Running a handler and sending an answer happen elsewhere. This module
//! decides what is done next: each function takes what happened and gives
//! the new state with the action to perform.

use crate::registry::{
    dispatch_spec, dispatch_view, has_command, raw_option_views, DispatchError, DispatchErrorView,
    Invocation, InvocationView, RawOption, Registry,
};
use crate::reply::{Reply, ReplyView};
use vstd::prelude::*;

verus! {

/// What a caller is told when no command of the requested name exists.
pub const NOT_IMPLEMENTED_MESSAGE: &'static str = "This command is not implemented.";

/// What stands in front of the name of an invalid option.
pub const INVALID_OPTION_MESSAGE: &'static str = "Invalid option: ";

/// What a caller is told when a handler broke off without an answer.
pub const FAULT_MESSAGE: &'static str = "An unexpected internal error has occurred.";

/// Where a request stands.
#[derive(Debug, Clone, Copy, PartialEq, Eq, Structural)]
pub enum RequestState {
    /// It came in and is not resolved yet.
    Received,
    /// Its handler is running.
    Resolved,
    /// Its handler is running and has asked for time; the caller knows.
    Deferred,
    /// It was answered.
    Completed,
}

/// What a running handler reports.
#[derive(Debug, PartialEq, Eq)]
pub enum HandlerEvent {
    /// It needs time before it answers.
    Deferred,
    /// It has an answer.
    Replied(Reply),
    /// It failed; the text says why and is safe to show.
    Failed(String),
    /// It broke off without an answer.
    Faulted,
}

/// A handler event as plain values.
pub enum HandlerEventView {
    Deferred,
    Replied(ReplyView),
    Failed(Seq<char>),
    Faulted,
}

impl View for HandlerEvent {
    type V = HandlerEventView;

    open spec fn view(&self) -> HandlerEventView {
        match self {
            HandlerEvent::Deferred => HandlerEventView::Deferred,
            HandlerEvent::Replied(reply) => HandlerEventView::Replied(reply@),
            HandlerEvent::Failed(why) => HandlerEventView::Failed(why@),
            HandlerEvent::Faulted => HandlerEventView::Faulted,
        }
    }
}

/// What is to be done for a request.
#[derive(Debug, PartialEq, Eq)]
pub enum Action {
    /// Run the handler with these options.
    Invoke(Invocation),
    /// Send this as the answer.
    Reply(Reply),
    /// Tell the caller that the answer will take time.
    Acknowledge,
    /// Send this as the answer that was deferred.
    FollowUp(Reply),
    /// Nothing.
    Nothing,
}

/// An action as plain values.
pub enum ActionView {
    Invoke(InvocationView),
    Reply(ReplyView),
    Acknowledge,
    FollowUp(ReplyView),
    Nothing,
}

impl View for Action {
    type V = ActionView;

    open spec fn view(&self) -> ActionView {
        match self {
            Action::Invoke(invocation) => ActionView::Invoke(invocation@),
            Action::Reply(reply) => ActionView::Reply(reply@),
            Action::Acknowledge => ActionView::Acknowledge,
            Action::FollowUp(reply) => ActionView::FollowUp(reply@),
            Action::Nothing => ActionView::Nothing,
        }
    }
}

/// What a caller is shown for a dispatch error.
pub open spec fn error_text(e: DispatchErrorView) -> Seq<char> {
    match e {
        DispatchErrorView::NotImplemented => NOT_IMPLEMENTED_MESSAGE@,
        DispatchErrorView::InvalidOption(name) => INVALID_OPTION_MESSAGE@ + name,
        DispatchErrorView::HandlerFault => FAULT_MESSAGE@,
    }
}

/// The answer that tells a caller of a dispatch error.
pub fn error_reply(e: &DispatchError) -> (r: Reply)
    ensures
        r@ == ReplyView::Text(error_text(e@)),
{
    match e {
        DispatchError::NotImplemented => Reply::text(NOT_IMPLEMENTED_MESSAGE),
        DispatchError::InvalidOption(name) => {
            let mut text = String::from_str(INVALID_OPTION_MESSAGE);
            text.append(name.as_str());
            Reply::Text(text)
        },
        DispatchError::HandlerFault => Reply::text(FAULT_MESSAGE),
    }
}

/// What becomes of a request that came in: its handler is to be run, or it
/// is answered at once with the error.
pub open spec fn receive_spec(r: Result<InvocationView, DispatchErrorView>) -> (
    RequestState,
    ActionView,
) {
    match r {
        Ok(invocation) => (RequestState::Resolved, ActionView::Invoke(invocation)),
        Err(e) => (RequestState::Completed, ActionView::Reply(ReplyView::Text(error_text(e)))),
    }
}

/// The answer that ends a request when its handler reports `event`, or
/// nothing where the event ends nothing.
pub open spec fn final_answer(event: HandlerEventView) -> Option<ReplyView> {
    match event {
        HandlerEventView::Deferred => None,
        HandlerEventView::Replied(reply) => Some(reply),
        HandlerEventView::Failed(why) => Some(ReplyView::Text(why)),
        HandlerEventView::Faulted => Some(
            ReplyView::Text(error_text(DispatchErrorView::HandlerFault)),
        ),
    }
}

/// What becomes of a request in `state` when its handler reports `event`.
pub open spec fn advance_spec(state: RequestState, event: HandlerEventView) -> (
    RequestState,
    ActionView,
) {
    match state {
        RequestState::Received => (RequestState::Received, ActionView::Nothing),
        RequestState::Completed => (RequestState::Completed, ActionView::Nothing),
        RequestState::Resolved => match final_answer(event) {
            None => (RequestState::Deferred, ActionView::Acknowledge),
            Some(reply) => (RequestState::Completed, ActionView::Reply(reply)),
        },
        RequestState::Deferred => match final_answer(event) {
            None => (RequestState::Deferred, ActionView::Nothing),
            Some(reply) => (RequestState::Completed, ActionView::FollowUp(reply)),
        },
    }
}

/// Takes a request that came in. A known command with valid options is
/// resolved: its handler is to be run. Anything else completes the request
/// at once with an answer that tells of the error; no handler is run.
pub fn receive(registry: &Registry, command_name: &str, raw_options: &Vec<RawOption>) -> (r: (
    RequestState,
    Action,
))
    ensures
        (r.0, r.1@) == receive_spec(
            dispatch_spec(registry@, command_name@, raw_option_views(raw_options@)),
        ),
        !has_command(registry@, command_name@) ==> r.0 == RequestState::Completed && r.1@
            == ActionView::Reply(ReplyView::Text(NOT_IMPLEMENTED_MESSAGE@)),
{
    match registry.dispatch(command_name, raw_options) {
        Ok(invocation) => (RequestState::Resolved, Action::Invoke(invocation)),
        Err(e) => {
            let reply = error_reply(&e);
            (RequestState::Completed, Action::Reply(reply))
        },
    }
}

/// Takes what the running handler of a request reports. A handler that
/// asks for time is acknowledged once. An answer, a failure or a fault
/// completes the request with exactly one answer: the failure's own text,
/// or a general message for a fault. A completed request takes no more.
pub fn advance(state: RequestState, event: HandlerEvent) -> (r: (RequestState, Action))
    ensures
        (r.0, r.1@) == advance_spec(state, event@),
{
    match state {
        RequestState::Received => (RequestState::Received, Action::Nothing),
        RequestState::Completed => (RequestState::Completed, Action::Nothing),
        RequestState::Resolved => match event {
            HandlerEvent::Deferred => (RequestState::Deferred, Action::Acknowledge),
            HandlerEvent::Replied(reply) => (RequestState::Completed, Action::Reply(reply)),
            HandlerEvent::Failed(why) => (RequestState::Completed, Action::Reply(Reply::Text(why))),
            HandlerEvent::Faulted => (
                RequestState::Completed,
                Action::Reply(error_reply(&DispatchError::HandlerFault)),
            ),
        },
        RequestState::Deferred => match event {
            HandlerEvent::Deferred => (RequestState::Deferred, Action::Nothing),
            HandlerEvent::Replied(reply) => (RequestState::Completed, Action::FollowUp(reply)),
            HandlerEvent::Failed(why) => (
                RequestState::Completed,
                Action::FollowUp(Reply::Text(why)),
            ),
            HandlerEvent::Faulted => (
                RequestState::Completed,
                Action::FollowUp(error_reply(&DispatchError::HandlerFault)),
            ),
        },
    }
}

/// The state after a run of handler events.
pub open spec fn state_after(state: RequestState, events: Seq<HandlerEventView>) -> RequestState
    decreases events.len(),
{
    if events.len() == 0 {
        state
    } else {
        state_after(advance_spec(state, events[0]).0, events.drop_first())
    }
}

/// The actions that a run of handler events calls for, in order.
pub open spec fn actions_of(state: RequestState, events: Seq<HandlerEventView>) -> Seq<ActionView>
    decreases events.len(),
{
    if events.len() == 0 {
        Seq::empty()
    } else {
        let (next, action) = advance_spec(state, events[0]);
        seq![action] + actions_of(next, events.drop_first())
    }
}

/// How many of the actions send an answer at once.
pub open spec fn replies(actions: Seq<ActionView>) -> nat
    decreases actions.len(),
{
    if actions.len() == 0 {
        0
    } else {
        replies(actions.drop_first()) + if actions[0] is Reply {
            1nat
        } else {
            0nat
        }
    }
}

/// How many of the actions acknowledge a deferral.
pub open spec fn acknowledgments(actions: Seq<ActionView>) -> nat
    decreases actions.len(),
{
    if actions.len() == 0 {
        0
    } else {
        acknowledgments(actions.drop_first()) + if actions[0] is Acknowledge {
            1nat
        } else {
            0nat
        }
    }
}

/// How many of the actions send a deferred answer.
pub open spec fn follow_ups(actions: Seq<ActionView>) -> nat
    decreases actions.len(),
{
    if actions.len() == 0 {
        0
    } else {
        follow_ups(actions.drop_first()) + if actions[0] is FollowUp {
            1nat
        } else {
            0nat
        }
    }
}

/// How many of the actions run a handler.
pub open spec fn invocations(actions: Seq<ActionView>) -> nat
    decreases actions.len(),
{
    if actions.len() == 0 {
        0
    } else {
        invocations(actions.drop_first()) + if actions[0] is Invoke {
            1nat
        } else {
            0nat
        }
    }
}

/// A completed request stays completed, and nothing more is sent or run
/// for it.
pub proof fn lemma_completed_is_final(events: Seq<HandlerEventView>)
    ensures
        state_after(RequestState::Completed, events) == RequestState::Completed,
        replies(actions_of(RequestState::Completed, events)) == 0,
        acknowledgments(actions_of(RequestState::Completed, events)) == 0,
        follow_ups(actions_of(RequestState::Completed, events)) == 0,
        invocations(actions_of(RequestState::Completed, events)) == 0,
    decreases events.len(),
{
    if events.len() > 0 {
        lemma_completed_is_final(events.drop_first());
        let rest = actions_of(RequestState::Completed, events.drop_first());
        assert((seq![ActionView::Nothing] + rest).drop_first() == rest);
    }
}

/// A deferred request sends nothing but its one deferred answer, and is
/// completed exactly when that was sent.
pub proof fn lemma_deferred_sends_one_follow_up(events: Seq<HandlerEventView>)
    ensures
        replies(actions_of(RequestState::Deferred, events)) == 0,
        acknowledgments(actions_of(RequestState::Deferred, events)) == 0,
        invocations(actions_of(RequestState::Deferred, events)) == 0,
        state_after(RequestState::Deferred, events) == RequestState::Completed ==> follow_ups(
            actions_of(RequestState::Deferred, events),
        ) == 1,
        state_after(RequestState::Deferred, events) != RequestState::Completed ==> state_after(
            RequestState::Deferred,
            events,
        ) == RequestState::Deferred && follow_ups(actions_of(RequestState::Deferred, events)) == 0,
    decreases events.len(),
{
    if events.len() > 0 {
        let (next, action) = advance_spec(RequestState::Deferred, events[0]);
        let rest = actions_of(next, events.drop_first());
        assert((seq![action] + rest).drop_first() == rest);
        if next == RequestState::Deferred {
            lemma_deferred_sends_one_follow_up(events.drop_first());
        } else {
            lemma_completed_is_final(events.drop_first());
        }
    }
}

/// Whatever a handler reports, and in whatever order: a resolved request
/// is answered at most once. Once completed, it was answered either with
/// one reply and nothing else, or with one acknowledgment and one deferred
/// answer. Until then nothing was sent but at most the acknowledgment. No
/// handler is run on account of a handler's report.
pub proof fn lemma_resolved_is_answered_once(events: Seq<HandlerEventView>)
    ensures
        ({
            let end = state_after(RequestState::Resolved, events);
            let actions = actions_of(RequestState::Resolved, events);
            &&& invocations(actions) == 0
            &&& end != RequestState::Received
            &&& end == RequestState::Completed ==> {
                ||| replies(actions) == 1 && acknowledgments(actions) == 0 && follow_ups(actions)
                    == 0
                ||| replies(actions) == 0 && acknowledgments(actions) == 1 && follow_ups(actions)
                    == 1
            }
            &&& end == RequestState::Resolved ==> replies(actions) == 0 && acknowledgments(actions)
                == 0 && follow_ups(actions) == 0
            &&& end == RequestState::Deferred ==> replies(actions) == 0 && acknowledgments(actions)
                == 1 && follow_ups(actions) == 0
        }),
    decreases events.len(),
{
    if events.len() > 0 {
        let (next, action) = advance_spec(RequestState::Resolved, events[0]);
        let rest = actions_of(next, events.drop_first());
        assert((seq![action] + rest).drop_first() == rest);
        if next == RequestState::Deferred {
            lemma_deferred_sends_one_follow_up(events.drop_first());
        } else {
            lemma_completed_is_final(events.drop_first());
        }
    }
}

/// A request that was not resolved is completed at once with one answer,
/// and its handler is not run, whatever is reported afterwards.
pub proof fn lemma_rejected_request_runs_no_handler(
    e: DispatchErrorView,
    events: Seq<HandlerEventView>,
)
    ensures
        ({
            let (state, action) = receive_spec(Err(e));
            &&& state == RequestState::Completed
            &&& action is Reply
            &&& state_after(state, events) == RequestState::Completed
            &&& invocations(seq![action] + actions_of(state, events)) == 0
            &&& replies(seq![action] + actions_of(state, events)) == 1
        }),
{
    lemma_completed_is_final(events);
    let (state, action) = receive_spec(Err(e));
    let rest = actions_of(state, events);
    assert((seq![action] + rest).drop_first() == rest);
}

} // verus!
