//! Keeping generated text within a length budget: the text is summarized
//! again and again until it fits, for a bounded number of attempts.
//!
//! The generation itself happens elsewhere. This module decides, after each
//! response, whether the text is done, must be summarized once more, or has
//! failed to converge.

use crate::llm::{
    clean_response, cleaned, make_plain_request, plain_request, GenerationRequest,
    GenerationRequestView,
};
use crate::request::{HandlerEvent, HandlerEventView};
use vstd::prelude::*;

verus! {

/// What the model is told before it is given a text to summarize.
pub const SUMMARY_INSTRUCTION: &'static str =
    "You are excellent at creating concise summaries of text. Your goal is to create a TLDR (Too Long; Didn't Read) version that captures the main points while being significantly shorter. You must keep your response under 1024 characters.";

/// What stands in front of the text in a request for a summary.
pub const SUMMARY_REQUEST: &'static str = "Create a TLDR version of this text: ";

/// The most characters that a field of an embed takes.
pub const FIELD_LIMIT: u64 = 1024;

/// Why no summary came out.
#[derive(Debug, Clone, Copy, PartialEq, Eq, Structural)]
pub enum SummarizationError {
    /// Every candidate was over the budget, and the attempts are used up.
    NotConvergent,
}

/// A summarization that waits for a response.
#[derive(Debug, PartialEq, Eq)]
pub struct SummarizationState {
    /// The text that the pending call was made with.
    pub text: String,
    /// How many generation calls were made, the pending one included.
    pub attempts: u64,
    /// The most characters the result may have.
    pub max_len: u64,
    /// The most generation calls that may be made; one is made in any case.
    pub max_attempts: u64,
}

/// A waiting summarization as plain values.
pub struct SummaryState {
    pub text: Seq<char>,
    pub attempts: nat,
    pub max_len: nat,
    pub max_attempts: nat,
}

impl View for SummarizationState {
    type V = SummaryState;

    open spec fn view(&self) -> SummaryState {
        SummaryState {
            text: self.text@,
            attempts: self.attempts as nat,
            max_len: self.max_len as nat,
            max_attempts: self.max_attempts as nat,
        }
    }
}

/// What follows a response.
#[derive(Debug, PartialEq, Eq)]
pub enum SummarizationStep {
    /// The candidate was over the budget: it is summarized in turn.
    Again(SummarizationState, GenerationRequest),
    /// The candidate fits: it is the summary.
    Done(String),
    /// No summary came out, and no further call is made.
    Failed(SummarizationError),
}

/// A step as plain values.
pub enum SummaryStep {
    Again(SummaryState, GenerationRequestView),
    Done(Seq<char>),
    Failed(SummarizationError),
}

impl View for SummarizationStep {
    type V = SummaryStep;

    open spec fn view(&self) -> SummaryStep {
        match self {
            SummarizationStep::Again(state, request) => SummaryStep::Again(state@, request@),
            SummarizationStep::Done(text) => SummaryStep::Done(text@),
            SummarizationStep::Failed(e) => SummaryStep::Failed(*e),
        }
    }
}

/// The request that asks for a summary of `text`.
pub open spec fn summary_request(text: Seq<char>) -> GenerationRequestView {
    plain_request(SUMMARY_INSTRUCTION@, SUMMARY_REQUEST@, text)
}

/// The state in which a summarization begins: the first call is out.
pub open spec fn initial_state(text: Seq<char>, max_len: nat, max_attempts: nat) -> SummaryState {
    SummaryState { text, attempts: 1, max_len, max_attempts }
}

/// What follows when `response` answers the pending call of `state`.
pub open spec fn next_step(state: SummaryState, response: Seq<char>) -> SummaryStep {
    let candidate = cleaned(response);
    if candidate.len() <= state.max_len {
        SummaryStep::Done(candidate)
    } else if state.attempts >= state.max_attempts {
        SummaryStep::Failed(SummarizationError::NotConvergent)
    } else {
        SummaryStep::Again(
            SummaryState {
                text: candidate,
                attempts: state.attempts + 1,
                max_len: state.max_len,
                max_attempts: state.max_attempts,
            },
            summary_request(candidate),
        )
    }
}

/// The request that asks for a summary of `text`.
pub fn request_for(text: &str) -> (r: GenerationRequest)
    ensures
        r@ == summary_request(text@),
{
    make_plain_request(SUMMARY_INSTRUCTION, SUMMARY_REQUEST, text)
}

impl SummarizationState {
    /// Begins to summarize `text` into at most `max_len` characters with at
    /// most `max_attempts` generation calls. The first call is made in any
    /// case: the request for it comes back with the state that waits for
    /// its response.
    pub fn start(text: &str, max_len: u64, max_attempts: u64) -> (r: (
        SummarizationState,
        GenerationRequest,
    ))
        ensures
            r.0@ == initial_state(text@, max_len as nat, max_attempts as nat),
            r.1@ == summary_request(text@),
    {
        let state = SummarizationState {
            text: String::from_str(text),
            attempts: 1,
            max_len,
            max_attempts,
        };
        (state, request_for(text))
    }

    /// Takes the response to the pending call. The response is stripped of
    /// its reasoning; if what is left fits the budget it is the summary.
    /// Otherwise it is summarized in turn, unless the attempts are used up:
    /// then the summarization has failed.
    pub fn on_response(self, response: &str) -> (step: SummarizationStep)
        ensures
            step@ == next_step(self@, response@),
    {
        let candidate = clean_response(response);
        let len = candidate.as_str().unicode_len();
        if len as u64 <= self.max_len {
            SummarizationStep::Done(candidate)
        } else if self.attempts >= self.max_attempts {
            SummarizationStep::Failed(SummarizationError::NotConvergent)
        } else {
            let request = request_for(candidate.as_str());
            let state = SummarizationState {
                text: candidate,
                attempts: self.attempts + 1,
                max_len: self.max_len,
                max_attempts: self.max_attempts,
            };
            SummarizationStep::Again(state, request)
        }
    }

    /// Takes the failure of the pending call in place of a response. The
    /// summarization ends here: no further call is made, and the handler
    /// fails with the message of the failure.
    pub fn on_failure(self, why: String) -> (e: HandlerEvent)
        ensures
            e@ == HandlerEventView::Failed(why@),
    {
        HandlerEvent::Failed(why)
    }
}

/// Where a summarization stands after a run of responses.
pub struct Run {
    /// How many generation calls were made.
    pub calls: nat,
    /// How it ended, or nothing while it waits for a response.
    pub outcome: Option<Result<Seq<char>, SummarizationError>>,
}

/// A summarization that is fed `responses`, one for each call in turn, as
/// far as they reach.
pub open spec fn run(state: SummaryState, responses: Seq<Seq<char>>) -> Run
    decreases responses.len(),
{
    if responses.len() == 0 {
        Run { calls: state.attempts, outcome: None }
    } else {
        match next_step(state, responses[0]) {
            SummaryStep::Done(text) => Run { calls: state.attempts, outcome: Some(Ok(text)) },
            SummaryStep::Failed(e) => Run { calls: state.attempts, outcome: Some(Err(e)) },
            SummaryStep::Again(next, _) => run(next, responses.drop_first()),
        }
    }
}

/// A whole summarization of `text` that is fed `responses`.
pub open spec fn summarize(
    text: Seq<char>,
    max_len: nat,
    max_attempts: nat,
    responses: Seq<Seq<char>>,
) -> Run {
    run(initial_state(text, max_len, max_attempts), responses)
}

/// Where the first candidate is within the budget, exactly one generation
/// call is made, and that candidate is the result as it is.
pub proof fn lemma_fitting_candidate_takes_one_call(
    text: Seq<char>,
    max_len: nat,
    max_attempts: nat,
    responses: Seq<Seq<char>>,
)
    requires
        responses.len() >= 1,
        cleaned(responses[0]).len() <= max_len,
    ensures
        summarize(text, max_len, max_attempts, responses) == (Run {
            calls: 1,
            outcome: Some(Ok(cleaned(responses[0]))),
        }),
{
}

proof fn lemma_run_not_convergent(state: SummaryState, responses: Seq<Seq<char>>)
    requires
        1 <= state.attempts <= state.max_attempts,
        responses.len() >= state.max_attempts - state.attempts + 1,
        forall|i: int|
            0 <= i <= state.max_attempts - state.attempts ==> cleaned(#[trigger] responses[i]).len()
                > state.max_len,
    ensures
        run(state, responses) == (Run {
            calls: state.max_attempts,
            outcome: Some(Err(SummarizationError::NotConvergent)),
        }),
    decreases state.max_attempts - state.attempts,
{
    assert(cleaned(responses[0]).len() > state.max_len);
    if state.attempts < state.max_attempts {
        let next = next_step(state, responses[0])->Again_0;
        let rest = responses.drop_first();
        assert forall|i: int| 0 <= i <= next.max_attempts - next.attempts implies cleaned(
            #[trigger] rest[i],
        ).len() > next.max_len by {
            assert(rest[i] == responses[i + 1]);
        }
        lemma_run_not_convergent(next, rest);
    }
}

/// Where every candidate is over the budget, the summarization fails as
/// not convergent after exactly `max_attempts` generation calls.
pub proof fn lemma_no_fitting_candidate_is_not_convergent(
    text: Seq<char>,
    max_len: nat,
    max_attempts: nat,
    responses: Seq<Seq<char>>,
)
    requires
        max_attempts >= 1,
        responses.len() >= max_attempts,
        forall|i: int| 0 <= i < max_attempts ==> cleaned(#[trigger] responses[i]).len() > max_len,
    ensures
        summarize(text, max_len, max_attempts, responses) == (Run {
            calls: max_attempts,
            outcome: Some(Err(SummarizationError::NotConvergent)),
        }),
{
    lemma_run_not_convergent(initial_state(text, max_len, max_attempts), responses);
}

proof fn lemma_run_bounds(state: SummaryState, responses: Seq<Seq<char>>)
    requires
        state.attempts >= 1,
    ensures
        run(state, responses).calls >= state.attempts,
        run(state, responses).calls <= state.attempts || run(state, responses).calls
            <= state.max_attempts,
        run(state, responses).outcome matches Some(Ok(text)) ==> text.len() <= state.max_len,
        run(state, responses).calls <= state.attempts + responses.len(),
    decreases responses.len(),
{
    if responses.len() > 0 {
        if let SummaryStep::Again(next, _) = next_step(state, responses[0]) {
            lemma_run_bounds(next, responses.drop_first());
        }
    }
}

/// Whatever the responses are: at least one generation call is made and
/// never more than `max_attempts`, unless that is zero; no call is made
/// without a response to the one before; and a summary that comes out is
/// within the budget.
pub proof fn lemma_summarize_is_bounded(
    text: Seq<char>,
    max_len: nat,
    max_attempts: nat,
    responses: Seq<Seq<char>>,
)
    ensures
        1 <= summarize(text, max_len, max_attempts, responses).calls,
        summarize(text, max_len, max_attempts, responses).calls <= 1 || summarize(
            text,
            max_len,
            max_attempts,
            responses,
        ).calls <= max_attempts,
        summarize(text, max_len, max_attempts, responses).calls <= 1 + responses.len(),
        summarize(text, max_len, max_attempts, responses).outcome matches Some(Ok(summary))
            ==> summary.len() <= max_len,
{
    lemma_run_bounds(initial_state(text, max_len, max_attempts), responses);
}

} // verus!
