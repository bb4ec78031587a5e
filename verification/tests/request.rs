use maxine::registry::{DispatchError, Handler, Invocation, RawOption, RawValue};
use maxine::reply::Reply;
use maxine::request::{advance, error_reply, receive, Action, HandlerEvent, RequestState};
use maxine::surface::standard;

#[test]
fn unknown_command_is_answered_without_a_handler() {
    let (state, action) = receive(&standard(), "nonsense", &vec![]);
    assert_eq!(state, RequestState::Completed);
    assert_eq!(action, Action::Reply(Reply::Text("This command is not implemented.".to_string())));
}

#[test]
fn invalid_option_is_answered_without_a_handler() {
    let (state, action) = receive(&standard(), "time", &vec![]);
    assert_eq!(state, RequestState::Completed);
    assert_eq!(action, Action::Reply(Reply::Text("Invalid option: location".to_string())));
}

#[test]
fn valid_request_runs_its_handler() {
    let raw = vec![RawOption {
        name: "location".to_string(),
        value: RawValue::String("Paris".to_string()),
    }];
    let (state, action) = receive(&standard(), "time", &raw);
    assert_eq!(state, RequestState::Resolved);
    assert_eq!(
        action,
        Action::Invoke(Invocation {
            handler: Handler::Time,
            options: vec![Some(maxine::registry::OptionValue::String("Paris".to_string()))],
        })
    );
}

#[test]
fn error_replies_name_the_problem() {
    assert_eq!(
        error_reply(&DispatchError::NotImplemented),
        Reply::Text("This command is not implemented.".to_string())
    );
    assert_eq!(
        error_reply(&DispatchError::InvalidOption("url".to_string())),
        Reply::Text("Invalid option: url".to_string())
    );
    assert_eq!(
        error_reply(&DispatchError::HandlerFault),
        Reply::Text("An unexpected internal error has occurred.".to_string())
    );
}

#[test]
fn a_direct_answer_completes_the_request() {
    let reply = Reply::Text("done".to_string());
    let (state, action) = advance(RequestState::Resolved, HandlerEvent::Replied(reply));
    assert_eq!(state, RequestState::Completed);
    assert_eq!(action, Action::Reply(Reply::Text("done".to_string())));
}

#[test]
fn a_deferred_answer_follows_one_acknowledgment() {
    let (state, action) = advance(RequestState::Resolved, HandlerEvent::Deferred);
    assert_eq!((state, action), (RequestState::Deferred, Action::Acknowledge));
    let (state, action) = advance(state, HandlerEvent::Deferred);
    assert_eq!((state, action), (RequestState::Deferred, Action::Nothing));
    let (state, action) = advance(state, HandlerEvent::Replied(Reply::Text("late".to_string())));
    assert_eq!(state, RequestState::Completed);
    assert_eq!(action, Action::FollowUp(Reply::Text("late".to_string())));
}

#[test]
fn failures_and_faults_are_answered() {
    let (state, action) =
        advance(RequestState::Resolved, HandlerEvent::Failed("no network".to_string()));
    assert_eq!(state, RequestState::Completed);
    assert_eq!(action, Action::Reply(Reply::Text("no network".to_string())));
    let (state, action) = advance(RequestState::Deferred, HandlerEvent::Faulted);
    assert_eq!(state, RequestState::Completed);
    assert_eq!(
        action,
        Action::FollowUp(Reply::Text("An unexpected internal error has occurred.".to_string()))
    );
}

#[test]
fn a_completed_request_takes_no_more() {
    for event in [
        HandlerEvent::Deferred,
        HandlerEvent::Replied(Reply::Text("again".to_string())),
        HandlerEvent::Failed("x".to_string()),
        HandlerEvent::Faulted,
    ] {
        assert_eq!(
            advance(RequestState::Completed, event),
            (RequestState::Completed, Action::Nothing)
        );
    }
    assert_eq!(
        advance(RequestState::Received, HandlerEvent::Faulted),
        (RequestState::Received, Action::Nothing)
    );
}
