//! A random dog picture.

use crate::reply::{Embed, EmbedView, Reply, ReplyView, FOOTER};
use vstd::prelude::*;

verus! {

/// Where dog pictures are asked for.
pub const DOG_URL: &'static str = "https://dog.ceo/api/breeds/image/random";

pub const DOG_TITLE: &'static str = "Here's your dog!";

pub const NO_DOG: &'static str = "Unable to fetch dog photo :(";

/// What `dog` answers to the picture that was found, if one was.
pub open spec fn dog_reply(image: Option<Seq<char>>) -> ReplyView {
    match image {
        Some(url) => ReplyView::Embed(
            EmbedView::empty().title(DOG_TITLE@).image(url).footer(FOOTER@),
        ),
        None => ReplyView::Quote(NO_DOG@),
    }
}

/// Answers with the picture that was found, or says that there is none.
pub fn dog(image: Option<&str>) -> (r: Reply)
    ensures
        r@ == dog_reply(
            match image {
                Some(url) => Some(url@),
                None => None,
            },
        ),
{
    match image {
        Some(url) => Reply::Embed(Embed::new().title(DOG_TITLE).image(url).footer(FOOTER)),
        None => Reply::quote(NO_DOG),
    }
}

} // verus!
