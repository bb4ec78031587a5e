//! Reading text out of a web page.

use crate::text::strs;
use vstd::prelude::*;

verus! {

/// What a selector picks from a page: nothing at all where the selector is
/// malformed; else the texts inside the first element it matches, in order,
/// or nothing where it matches none.
pub uninterp spec fn first_match_text(html: Seq<char>, selector: Seq<char>) -> Option<
    Option<Seq<Seq<char>>>,
>;

/// The view of what was picked from a page.
pub open spec fn selection_view(picked: Option<Option<Vec<String>>>) -> Option<
    Option<Seq<Seq<char>>>,
> {
    match picked {
        None => None,
        Some(None) => Some(None),
        Some(Some(texts)) => Some(Some(strs(texts@))),
    }
}

/// Parses the selector with `scraper::Selector::parse` and the page with
/// `scraper::Html::parse_document`, takes the first element that
/// `Html::select` yields, and collects what `ElementRef::text` yields for
/// it. The outcome depends on the page and the selector alone; nothing
/// else is claimed of it.
#[verifier::external_body]
pub(crate) fn select_first(html: &str, selector: &str) -> (picked: Option<Option<Vec<String>>>)
    ensures
        selection_view(picked) == first_match_text(html@, selector@),
{
    let parsed = match scraper::Selector::parse(selector) {
        Ok(parsed) => parsed,
        Err(_) => return None,
    };
    let document = scraper::Html::parse_document(html);
    match document.select(&parsed).next() {
        Some(element) => Some(Some(element.text().map(String::from).collect())),
        None => Some(None),
    }
}

} // verus!
