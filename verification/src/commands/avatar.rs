//! Showing a user's avatar.

use crate::reply::{Embed, EmbedView, Reply, ReplyView, FOOTER};
use crate::request::{HandlerEvent, HandlerEventView};
use vstd::prelude::*;

verus! {

pub const AVATAR_TITLE: &'static str = "Avatar for ";

/// What the bot knows of a user.
#[derive(Debug, PartialEq, Eq)]
pub struct User {
    pub name: String,
    /// The name the user chose to be shown under, if any.
    pub global_name: Option<String>,
    /// Where the user's avatar is found, if it can be found.
    pub avatar_url: Option<String>,
}

/// A user as plain values.
pub struct UserView {
    pub name: Seq<char>,
    pub global_name: Option<Seq<char>>,
    pub avatar_url: Option<Seq<char>>,
}

impl View for User {
    type V = UserView;

    open spec fn view(&self) -> UserView {
        UserView {
            name: self.name@,
            global_name: match self.global_name {
                Some(n) => Some(n@),
                None => None,
            },
            avatar_url: match self.avatar_url {
                Some(u) => Some(u@),
                None => None,
            },
        }
    }
}

/// The name a user is shown under: the chosen one, else the plain one.
pub open spec fn shown_name(user: UserView) -> Seq<char> {
    match user.global_name {
        Some(name) => name,
        None => user.name,
    }
}

impl User {
    /// The name the user is shown under.
    pub fn display_name(&self) -> (name: &str)
        ensures
            name@ == shown_name(self@),
    {
        match &self.global_name {
            Some(name) => name.as_str(),
            None => self.name.as_str(),
        }
    }
}

/// What `avatar` comes to for the user it is about.
pub open spec fn avatar_event(user: UserView) -> HandlerEventView {
    match user.avatar_url {
        Some(url) => HandlerEventView::Replied(
            ReplyView::Embed(
                EmbedView::empty().title(AVATAR_TITLE@ + shown_name(user)).image(url).footer(
                    FOOTER@,
                ),
            ),
        ),
        None => HandlerEventView::Faulted,
    }
}

/// Shows the avatar of `user`, or of the author where no user is named. A
/// user whose avatar cannot be found breaks the handler off.
pub fn avatar(user: Option<&User>, author: &User) -> (e: HandlerEvent)
    ensures
        e@ == avatar_event(
            match user {
                Some(u) => u@,
                None => author@,
            },
        ),
{
    let shown = match user {
        Some(u) => u,
        None => author,
    };
    match &shown.avatar_url {
        Some(url) => {
            let mut title = String::from_str(AVATAR_TITLE);
            title.append(shown.display_name());
            HandlerEvent::Replied(
                Reply::Embed(Embed::new().title(title.as_str()).image(url.as_str()).footer(FOOTER)),
            )
        },
        None => HandlerEvent::Faulted,
    }
}

} // verus!
