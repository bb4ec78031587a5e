//! Looking a term up in Urban Dictionary.

use crate::reply::{Embed, EmbedView, Reply, ReplyView, FOOTER};
use vstd::prelude::*;

verus! {

/// Where definitions are asked for; the term follows.
pub const URBAN_URL: &'static str = "https://api.urbandictionary.com/v0/define?term=";

pub const URBAN_TITLE: &'static str = "Urban Dictionary: ";

pub const DEFINITION: &'static str = "Definition";

pub const NO_DEFINITION: &'static str = "No definition could be found.";

/// One entry of the dictionary's answer.
#[derive(Debug, PartialEq, Eq)]
pub struct UrbanItem {
    pub word: String,
    pub definition: String,
}

/// A dictionary entry as plain values.
pub struct UrbanItemView {
    pub word: Seq<char>,
    pub definition: Seq<char>,
}

impl View for UrbanItem {
    type V = UrbanItemView;

    open spec fn view(&self) -> UrbanItemView {
        UrbanItemView { word: self.word@, definition: self.definition@ }
    }
}

/// The views of the entries, in order.
pub open spec fn item_views(items: Seq<UrbanItem>) -> Seq<UrbanItemView> {
    Seq::new(items.len(), |i: int| items[i]@)
}

/// The address that asks for the definitions of `query`.
pub fn urban_url(query: &str) -> (url: String)
    ensures
        url@ == URBAN_URL@ + query@,
{
    let mut url = String::from_str(URBAN_URL);
    url.append(query);
    url
}

/// What `urban` answers to the entries that came back, if any did.
pub open spec fn urban_reply(entries: Option<Seq<UrbanItemView>>) -> ReplyView {
    match entries {
        Some(list) if list.len() > 0 => ReplyView::Embed(
            EmbedView::empty().title(URBAN_TITLE@ + list[0].word).field(
                DEFINITION@,
                list[0].definition,
                false,
            ).footer(FOOTER@),
        ),
        _ => ReplyView::Text(NO_DEFINITION@),
    }
}

/// Answers with the first entry that came back. Where the dictionary gave
/// no list, or an empty one, the answer says that no definition could be
/// found; that is no failure.
pub fn urban(entries: Option<&Vec<UrbanItem>>) -> (r: Reply)
    ensures
        r@ == urban_reply(
            match entries {
                Some(list) => Some(item_views(list@)),
                None => None,
            },
        ),
{
    match entries {
        Some(list) => {
            if list.len() > 0 {
                let mut title = String::from_str(URBAN_TITLE);
                title.append(list[0].word.as_str());
                Reply::Embed(
                    Embed::new().title(title.as_str()).field(
                        DEFINITION,
                        list[0].definition.as_str(),
                        false,
                    ).footer(FOOTER),
                )
            } else {
                Reply::text(NO_DEFINITION)
            }
        },
        None => Reply::text(NO_DEFINITION),
    }
}

} // verus!
