//! What the bot does about events that are no commands: it comes online,
//! joins a guild, sees members move between voice channels, reads
//! messages and sees reactions.

use crate::text::{
    contains, decimal, decimal_text, join, join_with, lowercase_of, occurs_in, replace_all,
    replaced, same_text, strs, to_lowercase,
};
use vstd::prelude::*;

verus! {

/// What stands in a status for the number of guilds.
pub const GUILD_COUNT_MARK: &'static str = "{guildsCount}";

/// The name of the channel that is greeted, in lower case.
pub const GENERAL: &'static str = "general";

pub const GREETING_START: &'static str = "Hi, i'm ";

pub const GREETING_END: &'static str = ", thanks for inviting me!";

/// The name of the channel that makes channels, in lower case.
pub const CHANNEL_MAKER: &'static str = "temp channel creator";

/// What the name of a made channel ends with.
pub const CHANNEL_SUFFIX: &'static str = "'s Channel";

/// What the name of a made channel holds, in lower case.
pub const CHANNEL_MARK: &'static str = "'s channel";

/// The links that are answered with an embeddable one; the group is the
/// path of the link.
pub const TWITTER_LINK: &'static str = "(?i)\\bhttps?://(?:x\\.com|twitter\\.com)(\\S*)";

/// What stands between two links in an answer.
pub const LINK_SEPARATOR: &'static str = "; ";

/// The reaction that asks the bot to delete its message.
pub const BIN: &'static str = "\u{1F5D1}\u{FE0F}";

/// The status with the number of guilds in it.
pub open spec fn status_text(template: Seq<char>, guilds: nat) -> Seq<char> {
    replaced(template, GUILD_COUNT_MARK@, decimal(guilds))
}

/// The status that is shown while the bot is in `guilds` guilds.
pub fn ready(status: &str, guilds: u64) -> (activity: String)
    ensures
        activity@ == status_text(status@, guilds as nat),
{
    let count = decimal_text(guilds);
    replace_all(status, GUILD_COUNT_MARK, count.as_str())
}

/// A channel of a guild.
#[derive(Debug, PartialEq, Eq)]
pub struct Channel {
    pub id: u64,
    pub name: String,
    /// Whether messages can be written to it.
    pub text_based: bool,
    /// The category it stands under, if any.
    pub parent: Option<u64>,
}

/// A channel as plain values.
pub struct ChannelView {
    pub id: u64,
    pub name: Seq<char>,
    pub text_based: bool,
    pub parent: Option<u64>,
}

impl View for Channel {
    type V = ChannelView;

    open spec fn view(&self) -> ChannelView {
        ChannelView {
            id: self.id,
            name: self.name@,
            text_based: self.text_based,
            parent: self.parent,
        }
    }
}

/// The views of the channels, in order.
pub open spec fn channel_views(channels: Seq<Channel>) -> Seq<ChannelView> {
    Seq::new(channels.len(), |i: int| channels[i]@)
}

/// The channel is one to greet in.
pub open spec fn is_general(channel: ChannelView) -> bool {
    channel.text_based && lowercase_of(channel.name) == GENERAL@
}

/// The first channel to greet in.
pub open spec fn general_channel(channels: Seq<ChannelView>) -> Option<u64>
    decreases channels.len(),
{
    if channels.len() == 0 {
        None
    } else if is_general(channels[0]) {
        Some(channels[0].id)
    } else {
        general_channel(channels.drop_first())
    }
}

/// The first channel to greet in.
pub fn find_general(channels: &Vec<Channel>) -> (r: Option<u64>)
    ensures
        r == general_channel(channel_views(channels@)),
{
    let ghost views = channel_views(channels@);
    proof {
        assert(views.skip(0) == views);
    }
    let mut i: usize = 0;
    while i < channels.len()
        invariant
            i <= channels.len(),
            views == channel_views(channels@),
            general_channel(views) == general_channel(views.skip(i as int)),
        decreases channels.len() - i,
    {
        proof {
            assert(views.skip(i as int).drop_first() == views.skip(i + 1));
            assert(views.skip(i as int)[0] == channels@[i as int]@);
        }
        if channels[i].text_based {
            let lowered = to_lowercase(channels[i].name.as_str());
            if same_text(lowered.as_str(), GENERAL) {
                return Some(channels[i].id);
            }
        }
        i += 1;
    }
    None
}

/// A greeting: where it goes, what it says, and the status to show.
#[derive(Debug, PartialEq, Eq)]
pub struct Greeting {
    pub channel: u64,
    pub message: String,
    pub activity: String,
}

/// A greeting as plain values.
pub struct GreetingView {
    pub channel: u64,
    pub message: Seq<char>,
    pub activity: Seq<char>,
}

impl View for Greeting {
    type V = GreetingView;

    open spec fn view(&self) -> GreetingView {
        GreetingView { channel: self.channel, message: self.message@, activity: self.activity@ }
    }
}

/// What is done in a guild that was joined: the bot takes its nickname
/// and, where there is a channel to greet in, greets.
#[derive(Debug, PartialEq, Eq)]
pub struct Welcome {
    pub nickname: String,
    pub greeting: Option<Greeting>,
}

/// A welcome as plain values.
pub struct WelcomeView {
    pub nickname: Seq<char>,
    pub greeting: Option<GreetingView>,
}

impl View for Welcome {
    type V = WelcomeView;

    open spec fn view(&self) -> WelcomeView {
        WelcomeView {
            nickname: self.nickname@,
            greeting: match self.greeting {
                Some(g) => Some(g@),
                None => None,
            },
        }
    }
}

/// What is done about a guild that the bot sees: nothing where it is known
/// not to be new.
pub open spec fn welcome(
    is_new: Option<bool>,
    channels: Seq<ChannelView>,
    nickname: Seq<char>,
    status: Seq<char>,
    guilds: nat,
) -> Option<WelcomeView> {
    if is_new == Some(false) {
        None
    } else {
        Some(
            WelcomeView {
                nickname,
                greeting: match general_channel(channels) {
                    Some(channel) => Some(
                        GreetingView {
                            channel,
                            message: GREETING_START@ + nickname + GREETING_END@,
                            activity: status_text(status, guilds),
                        },
                    ),
                    None => None,
                },
            },
        )
    }
}

/// Decides what is done about a guild that the bot sees. A guild that is
/// known not to be new is left alone. In any other the bot takes its
/// nickname; in the first text channel named `general`, in whatever case,
/// it greets, and shows its status for the guilds it is in now.
pub fn guild_create(
    is_new: Option<bool>,
    channels: &Vec<Channel>,
    nickname: &str,
    status: &str,
    guilds: u64,
) -> (r: Option<Welcome>)
    ensures
        match r {
            Some(w) => welcome(is_new, channel_views(channels@), nickname@, status@, guilds as nat)
                == Some(w@),
            None => welcome(is_new, channel_views(channels@), nickname@, status@, guilds as nat)
                is None,
        },
{
    match is_new {
        Some(false) => {
            return None;
        },
        _ => {},
    }
    let greeting = match find_general(channels) {
        Some(channel) => {
            let mut message = String::from_str(GREETING_START);
            message.append(nickname);
            message.append(GREETING_END);
            Some(Greeting { channel, message, activity: ready(status, guilds) })
        },
        None => None,
    };
    Some(Welcome { nickname: String::from_str(nickname), greeting })
}

/// A voice channel to make.
#[derive(Debug, PartialEq, Eq)]
pub struct NewChannel {
    pub name: String,
    /// The category it is made under, if any.
    pub category: Option<u64>,
}

/// A channel to make as plain values.
pub struct NewChannelView {
    pub name: Seq<char>,
    pub category: Option<u64>,
}

impl View for NewChannel {
    type V = NewChannelView;

    open spec fn view(&self) -> NewChannelView {
        NewChannelView { name: self.name@, category: self.category }
    }
}

/// What is done when a member moved between voice channels: a channel is
/// made for the member, who is moved into it once it exists; and a channel
/// is deleted.
#[derive(Debug, PartialEq, Eq)]
pub struct VoicePlan {
    pub create: Option<NewChannel>,
    pub delete: Option<u64>,
}

/// A voice plan as plain values.
pub struct VoicePlanView {
    pub create: Option<NewChannelView>,
    pub delete: Option<u64>,
}

impl View for VoicePlan {
    type V = VoicePlanView;

    open spec fn view(&self) -> VoicePlanView {
        VoicePlanView {
            create: match self.create {
                Some(c) => Some(c@),
                None => None,
            },
            delete: self.delete,
        }
    }
}

/// The channel that is made for a member who entered `entered`.
pub open spec fn channel_to_make(entered: Option<ChannelView>, member: Seq<char>) -> Option<
    NewChannelView,
> {
    match entered {
        Some(channel) => if lowercase_of(channel.name) == CHANNEL_MAKER@ {
            Some(NewChannelView { name: member + CHANNEL_SUFFIX@, category: channel.parent })
        } else {
            None
        },
        None => None,
    }
}

/// The channel that is deleted when a member left `left`, in which
/// `remaining` members remain.
pub open spec fn channel_to_delete(left: Option<ChannelView>, remaining: nat) -> Option<u64> {
    match left {
        Some(channel) => if occurs_in(lowercase_of(channel.name), CHANNEL_MARK@) && remaining == 0 {
            Some(channel.id)
        } else {
            None
        },
        None => None,
    }
}

/// The view of a channel that may be absent.
pub open spec fn opt_channel_view(channel: Option<&Channel>) -> Option<ChannelView> {
    match channel {
        Some(c) => Some(c@),
        None => None,
    }
}

/// Decides what is done when the member `member` moved between voice
/// channels. Entering the channel that makes channels gets the member a
/// channel of its own, under the same category. Leaving a made channel in
/// which nobody remains deletes it. Names are compared in lower case.
pub fn voice_state_update(
    left: Option<&Channel>,
    remaining: usize,
    entered: Option<&Channel>,
    member: &str,
) -> (plan: VoicePlan)
    ensures
        plan@ == (VoicePlanView {
            create: channel_to_make(opt_channel_view(entered), member@),
            delete: channel_to_delete(opt_channel_view(left), remaining as nat),
        }),
{
    let create = match entered {
        Some(channel) => {
            let lowered = to_lowercase(channel.name.as_str());
            if same_text(lowered.as_str(), CHANNEL_MAKER) {
                let mut name = String::from_str(member);
                name.append(CHANNEL_SUFFIX);
                Some(NewChannel { name, category: channel.parent })
            } else {
                None
            }
        },
        None => None,
    };
    let delete = match left {
        Some(channel) => {
            let lowered = to_lowercase(channel.name.as_str());
            if contains(lowered.as_str(), CHANNEL_MARK) && remaining == 0 {
                Some(channel.id)
            } else {
                None
            }
        },
        None => None,
    };
    VoicePlan { create, delete }
}

/// What the first group of `pattern` holds in each match of the pattern in
/// `haystack`, in order: nothing at all where the pattern is malformed,
/// and nothing for a match in which the group took no part.
pub uninterp spec fn first_groups(pattern: Seq<char>, haystack: Seq<char>) -> Option<
    Seq<Option<Seq<char>>>,
>;

/// The view of a text that may be absent.
pub open spec fn opt_text(text: Option<String>) -> Option<Seq<char>> {
    match text {
        Some(t) => Some(t@),
        None => None,
    }
}

/// The view of the groups that were captured.
pub open spec fn groups_view(groups: Option<Vec<Option<String>>>) -> Option<Seq<Option<Seq<char>>>> {
    match groups {
        Some(all) => Some(Seq::new(all@.len(), |i: int| opt_text(all@[i]))),
        None => None,
    }
}

/// Compiles the pattern with `regex::Regex::new`, walks the matches that
/// `Regex::captures_iter` yields in the haystack, and takes from each what
/// `Captures::get` gives for the first group. The outcome depends on the
/// pattern and the haystack alone; nothing else is claimed of it.
#[verifier::external_body]
pub(crate) fn capture_first_groups(pattern: &str, haystack: &str) -> (groups: Option<Vec<Option<String>>>)
    ensures
        groups_view(groups) == first_groups(pattern@, haystack@),
{
    match regex::Regex::new(pattern) {
        Ok(compiled) => {
            let mut groups = Vec::new();
            for found in compiled.captures_iter(haystack) {
                groups.push(found.get(1).map(|group| String::from(group.as_str())));
            }
            Some(groups)
        },
        Err(_) => None,
    }
}

/// The paths behind `base`, one link for each; a match without a path
/// gives `base` alone.
pub open spec fn linked(base: Seq<char>, paths: Seq<Option<Seq<char>>>) -> Seq<Seq<char>> {
    Seq::new(
        paths.len(),
        |i: int|
            match paths[i] {
                Some(path) => base + path,
                None => base,
            },
    )
}

/// What is answered to a message in which the links `paths` were found.
pub open spec fn links_answer(
    author_is_bot: bool,
    base: Seq<char>,
    paths: Option<Seq<Option<Seq<char>>>>,
) -> Option<Seq<char>> {
    if author_is_bot || base.len() == 0 {
        None
    } else {
        match paths {
            Some(found) if found.len() > 0 => Some(join_with(linked(base, found), LINK_SEPARATOR@)),
            _ => None,
        }
    }
}

/// Makes the answer to a message in which the links `paths` were found:
/// each link again behind `base`, with a separator between them. Messages
/// of bots are not answered, nor any message while `base` is empty or
/// where no link was found.
pub fn links_reply(author_is_bot: bool, base: &str, paths: Option<Vec<Option<String>>>) -> (r:
    Option<String>)
    ensures
        opt_text(r) == links_answer(author_is_bot, base@, groups_view(paths)),
{
    if author_is_bot || base.unicode_len() == 0 {
        return None;
    }
    let found = match paths {
        Some(found) => found,
        None => {
            return None;
        },
    };
    if found.len() == 0 {
        return None;
    }
    let ghost views = groups_view(Some(found))->0;
    let mut links: Vec<String> = Vec::new();
    let mut i: usize = 0;
    while i < found.len()
        invariant
            i <= found.len(),
            links.len() == i,
            views == Seq::new(found@.len(), |k: int| opt_text(found@[k])),
            strs(links@) == linked(base@, views).take(i as int),
        decreases found.len() - i,
    {
        let mut link = String::from_str(base);
        match &found[i] {
            Some(path) => {
                link.append(path.as_str());
            },
            None => {},
        }
        let ghost before = links@;
        links.push(link);
        proof {
            assert(views[i as int] == opt_text(found@[i as int]));
            assert(strs(links@) =~= strs(before).push(link@));
            assert(linked(base@, views).take(i + 1) =~= linked(base@, views).take(i as int).push(
                linked(base@, views)[i as int],
            ));
        }
        i += 1;
    }
    proof {
        assert(linked(base@, views).take(found.len() as int) =~= linked(base@, views));
    }
    Some(join(&links, LINK_SEPARATOR))
}

/// Answers a message that holds links to the short message service with
/// the same links behind `base`, where they can be embedded.
pub fn message(author_is_bot: bool, base: &str, content: &str) -> (r: Option<String>)
    ensures
        opt_text(r) == links_answer(author_is_bot, base@, first_groups(TWITTER_LINK@, content@)),
{
    if author_is_bot || base.unicode_len() == 0 {
        return None;
    }
    let paths = capture_first_groups(TWITTER_LINK, content);
    links_reply(author_is_bot, base, paths)
}

/// Whether the message that was reacted to is deleted: it is where the
/// reaction is the bin and the message is the bot's own.
pub fn reaction_add(emoji: &str, message_author: u64, me: u64) -> (delete: bool)
    ensures
        delete == (emoji@ == BIN@ && message_author == me),
{
    same_text(emoji, BIN) && message_author == me
}

} // verus!
