//! A user's own instruction for the language model: setting it and
//! showing it.

use crate::reply::{Embed, EmbedView, Reply, ReplyView, FOOTER};
use crate::request::{HandlerEvent, HandlerEventView};
use vstd::prelude::*;

verus! {

pub const PROMPT_USAGE: &'static str = "Please use `/prompt set` or `/prompt get`";

pub const PROMPT_UPDATED: &'static str = "Prompt Updated";

pub const PROMPT_UPDATED_TEXT: &'static str =
    "Your custom system prompt has been updated successfully.";

pub const NEW_PROMPT: &'static str = "New Prompt";

pub const YOUR_PROMPT: &'static str = "Your Custom Prompt";

pub const YOUR_PROMPT_TEXT: &'static str = "Here is your current custom system prompt:";

pub const PROMPT_FIELD: &'static str = "Prompt";

pub const NO_PROMPT: &'static str =
    "You don't have a custom prompt set yet. Use `/prompt set` to set one.";

/// The statement that reads a user's instruction; the user id is bound to
/// it.
pub const SELECT_PROMPT: &'static str = "SELECT prompt FROM UserSystemPrompts WHERE userId = ?";

/// The statement that stores a user's instruction, new or in place of the
/// one before; the user id, the instruction and the instruction again are
/// bound to it.
pub const UPSERT_PROMPT: &'static str =
    "INSERT INTO UserSystemPrompts (userId, prompt, createdAt, updatedAt) 
         VALUES (?, ?, CURRENT_TIMESTAMP, CURRENT_TIMESTAMP) 
         ON CONFLICT(userId) DO UPDATE SET prompt = ?, updatedAt = CURRENT_TIMESTAMP";

/// Answers `prompt` called without a subcommand.
pub fn prompt() -> (r: Reply)
    ensures
        r@ == ReplyView::Text(PROMPT_USAGE@),
{
    Reply::text(PROMPT_USAGE)
}

/// What `set` comes to once the store was asked to keep `prompt`.
pub open spec fn set_event(prompt: Seq<char>, failure: Option<Seq<char>>) -> HandlerEventView {
    match failure {
        Some(why) => HandlerEventView::Failed(why),
        None => HandlerEventView::Replied(
            ReplyView::Embed(
                EmbedView::empty().title(PROMPT_UPDATED@).description(PROMPT_UPDATED_TEXT@).field(
                    NEW_PROMPT@,
                    prompt,
                    false,
                ).footer(FOOTER@),
            ),
        ),
    }
}

/// Answers `prompt set` once the store was asked to keep `prompt`: where
/// the store failed, the handler fails with its message; otherwise the
/// answer shows the new instruction.
pub fn set(prompt: &str, failure: Option<String>) -> (e: HandlerEvent)
    ensures
        e@ == set_event(
            prompt@,
            match failure {
                Some(why) => Some(why@),
                None => None,
            },
        ),
{
    match failure {
        Some(why) => HandlerEvent::Failed(why),
        None => HandlerEvent::Replied(
            Reply::Embed(
                Embed::new().title(PROMPT_UPDATED).description(PROMPT_UPDATED_TEXT).field(
                    NEW_PROMPT,
                    prompt,
                    false,
                ).footer(FOOTER),
            ),
        ),
    }
}

/// What `get` answers to the instruction that the store holds, if any.
pub open spec fn get_reply(stored: Option<Seq<char>>) -> ReplyView {
    match stored {
        Some(prompt) => ReplyView::Embed(
            EmbedView::empty().title(YOUR_PROMPT@).description(YOUR_PROMPT_TEXT@).field(
                PROMPT_FIELD@,
                prompt,
                false,
            ).footer(FOOTER@),
        ),
        None => ReplyView::Text(NO_PROMPT@),
    }
}

/// Answers `prompt get`: shows the instruction that the store holds for
/// the user, or says that there is none yet.
pub fn get(stored: Option<&str>) -> (r: Reply)
    ensures
        r@ == get_reply(
            match stored {
                Some(prompt) => Some(prompt@),
                None => None,
            },
        ),
{
    match stored {
        Some(prompt) => Reply::Embed(
            Embed::new().title(YOUR_PROMPT).description(YOUR_PROMPT_TEXT).field(
                PROMPT_FIELD,
                prompt,
                false,
            ).footer(FOOTER),
        ),
        None => Reply::text(NO_PROMPT),
    }
}

} // verus!
