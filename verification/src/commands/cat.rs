//! A random cat picture.

use crate::reply::{Embed, EmbedView, Reply, ReplyView, FOOTER};
use crate::text::strs;
use vstd::prelude::*;

verus! {

/// Where cat pictures are asked for.
pub const CAT_URL: &'static str = "https://api.thecatapi.com/v1/images/search";

pub const CAT_TITLE: &'static str = "Here's your cat!";

pub const NO_CAT: &'static str = "Unable to fetch cat photo :(";

/// What `cat` answers to the pictures that were found.
pub open spec fn cat_reply(images: Seq<Seq<char>>) -> ReplyView {
    if images.len() > 0 {
        ReplyView::Embed(EmbedView::empty().title(CAT_TITLE@).image(images[0]).footer(FOOTER@))
    } else {
        ReplyView::Quote(NO_CAT@)
    }
}

/// Answers with the first of the pictures that were found, or says that
/// there is none.
pub fn cat(images: &Vec<String>) -> (r: Reply)
    ensures
        r@ == cat_reply(strs(images@)),
{
    if images.len() > 0 {
        Reply::Embed(Embed::new().title(CAT_TITLE).image(images[0].as_str()).footer(FOOTER))
    } else {
        Reply::quote(NO_CAT)
    }
}

} // verus!
