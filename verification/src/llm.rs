//! What the language model is asked, and what is kept of its responses.

use crate::text::{after_last, strs, text_after_last, trim, trimmed};
use vstd::prelude::*;

verus! {

/// The marker that ends a model's reasoning inside a response.
pub const REASONING_END: &'static str = "</think>";

/// The model that answers the bot's requests.
pub const MODEL: &'static str = "gemma3:4b";

/// A response without its reasoning: what follows the last reasoning
/// marker, or the whole response where there is none, without the
/// whitespace around it.
pub open spec fn cleaned(response: Seq<char>) -> Seq<char> {
    trimmed(after_last(response, REASONING_END@))
}

/// Strips the reasoning from a response.
pub fn clean_response(response: &str) -> (r: String)
    ensures
        r@ == cleaned(response@),
{
    let answer = text_after_last(response, REASONING_END);
    trim(answer.as_str())
}

/// What the text generation is asked: the model, the instruction it starts
/// from if any, what is added to the instruction line by line, and the
/// prompt.
#[derive(Debug, PartialEq, Eq)]
pub struct GenerationRequest {
    pub model: String,
    pub preamble: Option<String>,
    pub additions: Vec<String>,
    pub prompt: String,
}

/// A generation request as plain values.
pub struct GenerationRequestView {
    pub model: Seq<char>,
    pub preamble: Option<Seq<char>>,
    pub additions: Seq<Seq<char>>,
    pub prompt: Seq<char>,
}

impl View for GenerationRequest {
    type V = GenerationRequestView;

    open spec fn view(&self) -> GenerationRequestView {
        GenerationRequestView {
            model: self.model@,
            preamble: match self.preamble {
                Some(p) => Some(p@),
                None => None,
            },
            additions: strs(self.additions@),
            prompt: self.prompt@,
        }
    }
}

/// A request to `MODEL` without a starting instruction, with one addition
/// and a prompt made of `lead` and `text`.
pub open spec fn plain_request(
    addition: Seq<char>,
    lead: Seq<char>,
    text: Seq<char>,
) -> GenerationRequestView {
    GenerationRequestView {
        model: MODEL@,
        preamble: None,
        additions: seq![addition],
        prompt: lead + text,
    }
}

/// A request to `MODEL` without a starting instruction, with one addition
/// and a prompt made of `lead` and `text`.
pub fn make_plain_request(addition: &str, lead: &str, text: &str) -> (r: GenerationRequest)
    ensures
        r@ == plain_request(addition@, lead@, text@),
{
    let mut prompt = String::from_str(lead);
    prompt.append(text);
    let mut additions: Vec<String> = Vec::new();
    additions.push(String::from_str(addition));
    let r = GenerationRequest { model: String::from_str(MODEL), preamble: None, additions, prompt };
    assert(r@.additions =~= seq![addition@]);
    r
}

} // verus!
