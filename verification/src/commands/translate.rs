//! Translating a message to English.

use crate::llm::{GenerationRequest, GenerationRequestView};
use crate::reply::{Embed, EmbedView, Reply, ReplyView, FOOTER};
use vstd::prelude::*;

verus! {

/// What the model is told before it is given a message to translate.
pub const TRANSLATE_INSTRUCTION: &'static str =
    "You are excellent at detecting languages and translating text to English. The origin language of the text provided for you to translate will never be English. 
      You MUST Respond EXACTLY in the following JSON format, do not forget the curly braces:

      {
        \"input_language\": \"detected input language\",
        \"translation\": \"the english translation\"
      }
      ";

/// What stands in front of the message in the request to the model.
pub const TRANSLATE_REQUEST: &'static str = "Detect what language and translate this into English: ";

/// How the field of the answer begins.
pub const FIELD_START: &'static str = "LLM Translation";

pub const FROM: &'static str = " from ";

pub const TO_ENGLISH: &'static str = " to English";

/// What the model is asked to translate `message`.
pub open spec fn translation_request(model: Seq<char>, message: Seq<char>) -> GenerationRequestView {
    GenerationRequestView {
        model,
        preamble: None,
        additions: seq![TRANSLATE_INSTRUCTION@],
        prompt: TRANSLATE_REQUEST@ + message,
    }
}

/// Makes the request that asks `model` to translate `message`.
pub fn translate_request(model: &str, message: &str) -> (r: GenerationRequest)
    ensures
        r@ == translation_request(model@, message@),
{
    let mut prompt = String::from_str(TRANSLATE_REQUEST);
    prompt.append(message);
    let mut additions: Vec<String> = Vec::new();
    additions.push(String::from_str(TRANSLATE_INSTRUCTION));
    let r = GenerationRequest { model: String::from_str(model), preamble: None, additions, prompt };
    assert(r@.additions =~= seq![TRANSLATE_INSTRUCTION@]);
    r
}

/// What `translate` answers for a message that was in `language`.
pub open spec fn translation_embed(language: Seq<char>, translation: Seq<char>) -> EmbedView {
    EmbedView::empty().field(
        FIELD_START@ + FROM@ + language + TO_ENGLISH@,
        translation,
        false,
    ).footer(
        FOOTER@,
    )
}

/// Answers with the translation that the model gave, under the language it
/// found the message to be in.
pub fn translate(input_language: &str, translation: &str) -> (r: Reply)
    ensures
        r@ == ReplyView::Embed(translation_embed(input_language@, translation@)),
{
    let mut name = String::from_str(FIELD_START);
    name.append(FROM);
    name.append(input_language);
    name.append(TO_ENGLISH);
    Reply::Embed(Embed::new().field(name.as_str(), translation, false).footer(FOOTER))
}

} // verus!
