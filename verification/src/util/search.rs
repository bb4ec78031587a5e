//! The web search behind the bot.

use vstd::prelude::*;

verus! {

/// What the search backend answers.
#[derive(Debug, PartialEq, Eq)]
pub struct SearchResponse {
    pub results: Vec<SearchResult>,
}

/// One hit of a search.
#[derive(Debug, PartialEq, Eq)]
pub struct SearchResult {
    pub title: String,
    pub content: String,
}

/// The address that asks the search backend at `base_url` for `query`, with
/// the answer as JSON.
pub fn search_url(base_url: &str, query: &str) -> (url: String)
    ensures
        url@ == base_url@ + "/search?q="@ + query@ + "&format=json"@,
{
    let mut url = String::from_str(base_url);
    url.append("/search?q=");
    url.append(query);
    url.append("&format=json");
    url
}

} // verus!
