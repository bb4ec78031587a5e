//! The time at a place, read from a search page.

use crate::page::{first_match_text, select_first, selection_view};
use crate::reply::{Embed, EmbedView, Reply, ReplyView, FOOTER};
use crate::request::{HandlerEvent, HandlerEventView};
use crate::text::{concat, concat_all, strs};
use vstd::prelude::*;

verus! {

/// Where the time is searched; the place follows.
pub const TIME_URL: &'static str = "https://www.bing.com/search?q=time+in+";

/// The browser the search is made as.
pub const TIME_USER_AGENT: &'static str =
    "Mozilla/5.0 (Windows NT 10.0; Win64; x64) AppleWebKit/537.36 (KHTML, like Gecko) Chrome/91.0.4472.124 Safari/537.36";

/// Picks the line that names the place.
pub const LABEL_SELECTOR: &'static str = ".baselClock .b_focusLabel";

/// Picks the time.
pub const CLOCK_SELECTOR: &'static str = "#digit_time";

pub const TIME_TITLE: &'static str = "Time";

pub const IS: &'static str = " is ";

/// The address that searches the time at `location`.
pub fn time_url(location: &str) -> (url: String)
    ensures
        url@ == TIME_URL@ + location@,
{
    let mut url = String::from_str(TIME_URL);
    url.append(location);
    url
}

/// The text of what was picked: all its pieces in a row, or nothing where
/// nothing matched.
pub open spec fn picked_text(picked: Option<Seq<Seq<char>>>) -> Seq<char> {
    match picked {
        Some(texts) => concat_all(texts),
        None => Seq::empty(),
    }
}

/// What `time` comes to for what was picked as the label and as the
/// clock.
pub open spec fn time_event(
    label: Option<Option<Seq<Seq<char>>>>,
    clock: Option<Option<Seq<Seq<char>>>>,
) -> HandlerEventView {
    match (label, clock) {
        (Some(place), Some(time)) => HandlerEventView::Replied(
            ReplyView::Embed(
                EmbedView::empty().title(TIME_TITLE@).description(
                    picked_text(place) + IS@ + picked_text(time),
                ).footer(FOOTER@),
            ),
        ),
        _ => HandlerEventView::Faulted,
    }
}

/// The text of what was picked.
pub fn text_of(picked: &Option<Vec<String>>) -> (r: String)
    ensures
        r@ == picked_text(
            match picked {
                Some(texts) => Some(strs(texts@)),
                None => None,
            },
        ),
{
    match picked {
        Some(texts) => concat(texts),
        None => String::new(),
    }
}

/// Makes the answer out of what was picked from the page as the label and
/// as the clock: the answer says that the one is the other. A malformed
/// selector breaks the handler off.
pub fn time_reply(label: Option<Option<Vec<String>>>, clock: Option<Option<Vec<String>>>) -> (e:
    HandlerEvent)
    ensures
        e@ == time_event(selection_view(label), selection_view(clock)),
{
    match (label, clock) {
        (Some(place), Some(time)) => {
            let mut description = text_of(&place);
            description.append(IS);
            description.append(text_of(&time).as_str());
            HandlerEvent::Replied(
                Reply::Embed(
                    Embed::new().title(TIME_TITLE).description(description.as_str()).footer(FOOTER),
                ),
            )
        },
        _ => HandlerEvent::Faulted,
    }
}

/// Answers with the time that the search page `page` shows.
pub fn time(page: &str) -> (e: HandlerEvent)
    ensures
        e@ == time_event(
            first_match_text(page@, LABEL_SELECTOR@),
            first_match_text(page@, CLOCK_SELECTOR@),
        ),
{
    let label = select_first(page, LABEL_SELECTOR);
    let clock = select_first(page, CLOCK_SELECTOR);
    time_reply(label, clock)
}

} // verus!
