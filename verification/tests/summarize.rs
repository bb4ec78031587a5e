use maxine::llm::{clean_response, GenerationRequest};
use maxine::summarize::{SummarizationError, SummarizationState, SummarizationStep};

/// Feeds the responses to a summarization, one for each call, and tells how
/// many calls were made and how it ended.
fn drive(
    text: &str,
    max_len: u64,
    max_attempts: u64,
    responses: &[&str],
) -> (u64, Option<Result<String, SummarizationError>>) {
    let (mut state, _) = SummarizationState::start(text, max_len, max_attempts);
    let mut calls = 1;
    for response in responses {
        match state.on_response(response) {
            SummarizationStep::Again(next, _) => {
                calls += 1;
                state = next;
            }
            SummarizationStep::Done(summary) => return (calls, Some(Ok(summary))),
            SummarizationStep::Failed(e) => return (calls, Some(Err(e))),
        }
    }
    (calls, None)
}

#[test]
fn a_fitting_first_candidate_takes_one_call() {
    let (calls, outcome) = drive("long input", 10, 5, &["  short  ", "never read"]);
    assert_eq!(calls, 1);
    assert_eq!(outcome, Some(Ok("short".to_string())));
}

#[test]
fn candidates_over_the_budget_fail_after_the_last_attempt() {
    let long = "x".repeat(11);
    let responses = [long.as_str(); 6];
    let (calls, outcome) = drive("input", 10, 3, &responses);
    assert_eq!(calls, 3);
    assert_eq!(outcome, Some(Err(SummarizationError::NotConvergent)));
}

#[test]
fn a_later_candidate_may_fit() {
    let long = "x".repeat(11);
    let (calls, outcome) = drive("input", 10, 3, &[long.as_str(), long.as_str(), "fits"]);
    assert_eq!(calls, 3);
    assert_eq!(outcome, Some(Ok("fits".to_string())));
}

#[test]
fn one_call_is_made_even_without_attempts() {
    let (state, request) = SummarizationState::start("input", 10, 0);
    assert_eq!(state.attempts, 1);
    assert_eq!(request.prompt, "Create a TLDR version of this text: input");
    let (calls, outcome) = drive("input", 10, 0, &["x".repeat(11).as_str()]);
    assert_eq!(calls, 1);
    assert_eq!(outcome, Some(Err(SummarizationError::NotConvergent)));
    let (calls, outcome) = drive("input", 10, 0, &["ok"]);
    assert_eq!(calls, 1);
    assert_eq!(outcome, Some(Ok("ok".to_string())));
}

#[test]
fn an_overlong_candidate_is_summarized_in_turn() {
    let (state, _) = SummarizationState::start("input", 4, 2);
    match state.on_response("<think>hm</think> too long ") {
        SummarizationStep::Again(next, request) => {
            assert_eq!(next.text, "too long");
            assert_eq!(next.attempts, 2);
            assert_eq!(next.max_len, 4);
            assert_eq!(next.max_attempts, 2);
            assert_eq!(
                request,
                GenerationRequest {
                    model: "gemma3:4b".to_string(),
                    preamble: None,
                    additions: vec!["You are excellent at creating concise summaries of text. Your goal is to create a TLDR (Too Long; Didn't Read) version that captures the main points while being significantly shorter. You must keep your response under 1024 characters.".to_string()],
                    prompt: "Create a TLDR version of this text: too long".to_string(),
                }
            );
        }
        other => panic!("{:?}", other),
    }
}

#[test]
fn the_budget_counts_characters() {
    let (calls, outcome) = drive("input", 3, 1, &["\u{e4}\u{f6}\u{fc}"]);
    assert_eq!(calls, 1);
    assert_eq!(outcome, Some(Ok("\u{e4}\u{f6}\u{fc}".to_string())));
    let (_, outcome) = drive("input", 3, 1, &["\u{e4}\u{f6}\u{fc}x"]);
    assert_eq!(outcome, Some(Err(SummarizationError::NotConvergent)));
}

#[test]
fn an_empty_candidate_fits_any_budget() {
    let (calls, outcome) = drive("", 0, 1, &["   "]);
    assert_eq!(calls, 1);
    assert_eq!(outcome, Some(Ok(String::new())));
}

#[test]
fn only_text_after_the_last_reasoning_marker_is_kept() {
    assert_eq!(clean_response("<think>a</think> first </think>\n  answer \n"), "answer");
    assert_eq!(clean_response("  no marker  "), "no marker");
    assert_eq!(clean_response("<think>only reasoning</think>"), "");
}

#[test]
fn a_failed_call_ends_the_summarization() {
    let (state, _) = SummarizationState::start("input", 10, 3);
    assert_eq!(
        state.on_failure("connection refused".to_string()),
        maxine::request::HandlerEvent::Failed("connection refused".to_string())
    );
}
