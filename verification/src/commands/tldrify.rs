//! Short summaries of a message or of the page behind a link.

use crate::page::{first_match_text, select_first, selection_view};
use crate::reply::{Embed, EmbedView, Reply, ReplyView, FOOTER};
use crate::request::{HandlerEvent, HandlerEventView};
use crate::summarize::{
    initial_state, summary_request, SummarizationError, SummarizationState, FIELD_LIMIT,
};
use crate::llm::{GenerationRequest, GenerationRequestView};
use crate::text::{join, join_with, occurs_at, starts_with, strs, trim, trimmed};
use vstd::prelude::*;

verus! {

pub const TLDRIFY_USAGE: &'static str = "Please use `/tldrify message` or `/tldrify link`";

pub const BAD_LINK: &'static str = "Please provide a valid link";

/// What every link begins with.
pub const LINK_START: &'static str = "http";

/// Picks the article of a page.
pub const ARTICLE_SELECTOR: &'static str = "article";

/// Picks the body of a page.
pub const BODY_SELECTOR: &'static str = "body";

pub const SUMMARY_TITLE: &'static str = "TLDR Summary";

pub const SUMMARY_FIELD: &'static str = "Summary";

/// What a caller is told when no summary within the limit came out.
pub const NOT_CONVERGENT: &'static str = "The summary could not be brought within the length limit.";

/// How often the model is asked for one summary at the most.
pub const SUMMARY_ATTEMPTS: u64 = 5;

/// Answers `tldrify` called without a subcommand.
pub fn tldrify() -> (r: Reply)
    ensures
        r@ == ReplyView::Text(TLDRIFY_USAGE@),
{
    Reply::text(TLDRIFY_USAGE)
}

/// A link is taken if it begins as links do.
pub open spec fn is_link(link: Seq<char>) -> bool {
    occurs_at(link, LINK_START@, 0)
}

/// Looks at a link before its page is fetched: what is no link is answered
/// at once; for a link nothing comes back, and its page is to be fetched.
pub fn link(address: &str) -> (rejected: Option<Reply>)
    ensures
        is_link(address@) <==> rejected is None,
        rejected matches Some(reply) ==> reply@ == ReplyView::Text(BAD_LINK@),
{
    if starts_with(address, LINK_START) {
        None
    } else {
        Some(Reply::text(BAD_LINK))
    }
}

/// The pieces of text with a space between each two, without the
/// whitespace around the whole.
pub open spec fn flowed(texts: Seq<Seq<char>>) -> Seq<char> {
    trimmed(join_with(texts, seq![' ']))
}

/// The text that is summarized for a page: that of its article if it has
/// one, else that of its body, else the page as it is. Nothing where a
/// selector was malformed.
pub open spec fn page_text(
    page: Seq<char>,
    article: Option<Option<Seq<Seq<char>>>>,
    body: Option<Option<Seq<Seq<char>>>>,
) -> Option<Seq<char>> {
    match article {
        None => None,
        Some(Some(texts)) => Some(flowed(texts)),
        Some(None) => match body {
            None => None,
            Some(Some(texts)) => Some(flowed(texts)),
            Some(None) => Some(page),
        },
    }
}

/// The pieces of text with a space between each two, without the
/// whitespace around the whole.
pub fn flow(texts: &Vec<String>) -> (r: String)
    ensures
        r@ == flowed(strs(texts@)),
{
    proof {
        reveal_strlit(" ");
        assert(" "@ =~= seq![' ']);
    }
    let joined = join(texts, " ");
    trim(joined.as_str())
}

/// Chooses the text that is summarized for a page out of what was picked
/// as its article and as its body.
pub fn choose_text(page: &str, article: Option<Option<Vec<String>>>, body: Option<
    Option<Vec<String>>,
>) -> (r: Option<String>)
    ensures
        match r {
            Some(text) => page_text(page@, selection_view(article), selection_view(body)) == Some(
                text@,
            ),
            None => page_text(page@, selection_view(article), selection_view(body)) is None,
        },
{
    match article {
        None => None,
        Some(Some(texts)) => Some(flow(&texts)),
        Some(None) => match body {
            None => None,
            Some(Some(texts)) => Some(flow(&texts)),
            Some(None) => Some(String::from_str(page)),
        },
    }
}

/// The text that is summarized for the page `page`; nothing where a
/// selector was malformed.
pub fn article_text(page: &str) -> (r: Option<String>)
    ensures
        match r {
            Some(text) => page_text(
                page@,
                first_match_text(page@, ARTICLE_SELECTOR@),
                first_match_text(page@, BODY_SELECTOR@),
            ) == Some(text@),
            None => page_text(
                page@,
                first_match_text(page@, ARTICLE_SELECTOR@),
                first_match_text(page@, BODY_SELECTOR@),
            ) is None,
        },
{
    let article = select_first(page, ARTICLE_SELECTOR);
    let body = select_first(page, BODY_SELECTOR);
    choose_text(page, article, body)
}

/// Begins the summary of `text`: the model is asked a first time, and its
/// answers are taken until one fits a field or the attempts are used up.
pub fn tldr_query(text: &str) -> (r: (SummarizationState, GenerationRequest))
    ensures
        r.0@ == initial_state(text@, FIELD_LIMIT as nat, SUMMARY_ATTEMPTS as nat),
        r.1@ == summary_request(text@),
{
    SummarizationState::start(text, FIELD_LIMIT, SUMMARY_ATTEMPTS)
}

/// Begins the summary of a message.
pub fn message(content: &str) -> (r: (SummarizationState, GenerationRequest))
    ensures
        r.0@ == initial_state(content@, FIELD_LIMIT as nat, SUMMARY_ATTEMPTS as nat),
        r.1@ == summary_request(content@),
{
    tldr_query(content)
}

/// The answer that shows a summary.
pub open spec fn summary_embed(summary: Seq<char>) -> EmbedView {
    EmbedView::empty().title(SUMMARY_TITLE@).field(SUMMARY_FIELD@, summary, false).footer(FOOTER@)
}

/// Makes the answer that shows a summary.
pub fn create_embed(summary: &str) -> (r: Reply)
    ensures
        r@ == ReplyView::Embed(summary_embed(summary@)),
{
    Reply::Embed(Embed::new().title(SUMMARY_TITLE).field(SUMMARY_FIELD, summary, false).footer(FOOTER))
}

/// Ends a summarization: a summary is shown; a summarization that did not
/// converge fails the command, and nothing over the limit is sent.
pub fn summary_outcome(result: Result<&str, SummarizationError>) -> (e: HandlerEvent)
    ensures
        match result {
            Ok(summary) => e@ == HandlerEventView::Replied(ReplyView::Embed(summary_embed(summary@))),
            Err(_) => e@ == HandlerEventView::Failed(NOT_CONVERGENT@),
        },
{
    match result {
        Ok(summary) => HandlerEvent::Replied(create_embed(summary)),
        Err(_) => HandlerEvent::Failed(String::from_str(NOT_CONVERGENT)),
    }
}

} // verus!
