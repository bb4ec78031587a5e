//! Setting the colour of a member's name: a colour role is found or made,
//! given to the member in place of the colour roles it had, and colour
//! roles that nobody holds are cleared away.

use crate::guild::{
    find_member, find_role, find_role_named, is_held, member_by_user, member_views, role_by_id,
    role_by_name, role_is_held, role_views, Guild, GuildView, MemberView, Role, RoleView,
};
use crate::llm::{
    clean_response, cleaned, make_plain_request, plain_request, GenerationRequest,
    GenerationRequestView,
};
use crate::reply::{Embed, EmbedView, Reply, ReplyView, FOOTER};
use crate::text::{occurs_at, starts_with};
use vstd::prelude::*;

verus! {

/// What the name of every colour role begins with.
pub const COLOUR_PREFIX: &'static str = "CLR-";

/// What the model is told before it is asked for a colour.
pub const COLOUR_INSTRUCTION: &'static str =
    "You are a helpful assistant that converts color names to hex values. Respond with ONLY the hex value, nothing else.";

/// What stands in front of the colour in the request to the model.
pub const COLOUR_REQUEST: &'static str = "Convert this color to a hex value: ";

pub const NOT_IN_GUILD: &'static str = "Command must be used in a guild";

pub const NO_USER: &'static str = "Could not find user";

pub const NO_BOT: &'static str = "Could not find bot";

pub const REFUSED_TITLE: &'static str = "Colour Update Failed";

pub const REFUSED_TEXT: &'static str =
    "You have a role higher than me, so I can't assign your colour role.";

pub const UPDATED_TITLE: &'static str = "Colour Updated";

pub const UPDATED_TEXT: &'static str = "Your name colour has been updated!";

/// The red, green and blue parts that `Rgb::from_hex_str` reads from a
/// text, or nothing where it reads no colour.
pub uninterp spec fn hex_colour(s: Seq<char>) -> Option<(u8, u8, u8)>;

/// Calls `colors_transform::Rgb::from_hex_str` and takes the three parts of
/// the colour as whole numbers. The outcome depends on the text alone;
/// nothing else is claimed of it.
#[verifier::external_body]
fn parse_hex(s: &str) -> (r: Option<(u8, u8, u8)>)
    ensures
        r == hex_colour(s@),
{
    match colors_transform::Rgb::from_hex_str(s) {
        Ok(c) => Some(
            (
                colors_transform::Color::get_red(&c) as u8,
                colors_transform::Color::get_green(&c) as u8,
                colors_transform::Color::get_blue(&c) as u8,
            ),
        ),
        Err(_) => None,
    }
}

/// The colour `0xRRGGBB` of three parts.
pub open spec fn rgb_colour(red: u8, green: u8, blue: u8) -> u32 {
    (red * 65536 + green * 256 + blue) as u32
}

/// The colour `0xRRGGBB` of three parts.
pub fn colour_from_rgb(red: u8, green: u8, blue: u8) -> (c: u32)
    ensures
        c == rgb_colour(red, green, blue),
{
    let r: u32 = red as u32;
    let g: u32 = green as u32;
    let b: u32 = blue as u32;
    r * 65536 + g * 256 + b
}

/// A role counts towards a member's rank; with `coloured_only`, only where
/// it has a colour.
pub open spec fn counts(role: RoleView, coloured_only: bool) -> bool {
    !coloured_only || role.colour > 0
}

/// The highest position among the roles `ids` that the guild knows and
/// that count, or zero where there is none.
pub open spec fn topmost_position(roles: Seq<RoleView>, ids: Seq<u64>, coloured_only: bool) -> u16
    decreases ids.len(),
{
    if ids.len() == 0 {
        0
    } else {
        let before = topmost_position(roles, ids.drop_last(), coloured_only);
        match role_by_id(roles, ids.last()) {
            Some(role) => if counts(role, coloured_only) && role.position > before {
                role.position
            } else {
                before
            },
            None => before,
        }
    }
}

/// The highest position among the roles `ids` that the guild knows and
/// that count, or zero where there is none.
pub fn topmost(roles: &Vec<Role>, ids: &Vec<u64>, coloured_only: bool) -> (top: u16)
    ensures
        top == topmost_position(role_views(roles@), ids@, coloured_only),
{
    let mut top: u16 = 0;
    let mut i: usize = 0;
    while i < ids.len()
        invariant
            i <= ids.len(),
            top == topmost_position(role_views(roles@), ids@.take(i as int), coloured_only),
        decreases ids.len() - i,
    {
        proof {
            assert(ids@.take(i + 1).drop_last() == ids@.take(i as int));
            assert(ids@.take(i + 1).last() == ids@[i as int]);
        }
        match find_role(roles, ids[i]) {
            Some(role) => {
                if (!coloured_only || role.colour > 0) && role.position > top {
                    top = role.position;
                }
            },
            None => {},
        }
        i += 1;
    }
    assert(ids@.take(ids.len() as int) == ids@);
    top
}

/// The name marks a colour role.
pub open spec fn is_colour_name(name: Seq<char>) -> bool {
    occurs_at(name, COLOUR_PREFIX@, 0)
}

/// Those of the roles `ids`, in order, that the guild knows as colour
/// roles.
pub open spec fn colour_roles_among(roles: Seq<RoleView>, ids: Seq<u64>) -> Seq<u64>
    decreases ids.len(),
{
    if ids.len() == 0 {
        Seq::empty()
    } else {
        let before = colour_roles_among(roles, ids.drop_last());
        match role_by_id(roles, ids.last()) {
            Some(role) => if is_colour_name(role.name) {
                before.push(ids.last())
            } else {
                before
            },
            None => before,
        }
    }
}

/// Those of the roles `ids`, in order, that the guild knows as colour
/// roles.
pub fn colour_roles_of(roles: &Vec<Role>, ids: &Vec<u64>) -> (found: Vec<u64>)
    ensures
        found@ == colour_roles_among(role_views(roles@), ids@),
{
    let mut found: Vec<u64> = Vec::new();
    let mut i: usize = 0;
    while i < ids.len()
        invariant
            i <= ids.len(),
            found@ == colour_roles_among(role_views(roles@), ids@.take(i as int)),
        decreases ids.len() - i,
    {
        proof {
            assert(ids@.take(i + 1).drop_last() == ids@.take(i as int));
            assert(ids@.take(i + 1).last() == ids@[i as int]);
        }
        match find_role(roles, ids[i]) {
            Some(role) => {
                if starts_with(role.name.as_str(), COLOUR_PREFIX) {
                    found.push(ids[i]);
                }
            },
            None => {},
        }
        i += 1;
    }
    assert(ids@.take(ids.len() as int) == ids@);
    found
}

/// The ids of the colour roles, in order, that no member holds.
pub open spec fn unheld_colour_roles(roles: Seq<RoleView>, members: Seq<MemberView>) -> Seq<u64>
    decreases roles.len(),
{
    if roles.len() == 0 {
        Seq::empty()
    } else {
        let before = unheld_colour_roles(roles.drop_last(), members);
        if is_colour_name(roles.last().name) && !role_is_held(members, roles.last().id) {
            before.push(roles.last().id)
        } else {
            before
        }
    }
}

/// The ids of the colour roles, in order, that no member holds.
pub fn stale_colour_roles(guild: &Guild) -> (stale: Vec<u64>)
    ensures
        stale@ == unheld_colour_roles(guild@.roles, guild@.members),
{
    let ghost roles = guild@.roles;
    let mut stale: Vec<u64> = Vec::new();
    let mut i: usize = 0;
    while i < guild.roles.len()
        invariant
            i <= guild.roles.len(),
            roles == role_views(guild.roles@),
            stale@ == unheld_colour_roles(roles.take(i as int), member_views(guild.members@)),
        decreases guild.roles.len() - i,
    {
        proof {
            assert(roles.take(i + 1).drop_last() == roles.take(i as int));
            assert(roles.take(i + 1).last() == guild.roles@[i as int]@);
        }
        if starts_with(guild.roles[i].name.as_str(), COLOUR_PREFIX) && !is_held(
            &guild.members,
            guild.roles[i].id,
        ) {
            stale.push(guild.roles[i].id);
        }
        i += 1;
    }
    assert(roles.take(guild.roles.len() as int) == roles);
    stale
}

/// The embed that tells how a colour change went.
pub open spec fn status_embed(title: Seq<char>, description: Seq<char>, colour: u32) -> EmbedView {
    EmbedView::empty().title(title).description(description).footer(FOOTER@).colour(colour)
}

/// The answer that tells how a colour change went, in the colour itself.
pub fn send_embed(title: &str, description: &str, colour: u32) -> (r: Reply)
    ensures
        r@ == ReplyView::Embed(status_embed(title@, description@, colour)),
{
    Reply::Embed(Embed::new().title(title).description(description).footer(FOOTER).colour(colour))
}

/// The role that carries the colour.
#[derive(Debug, PartialEq, Eq)]
pub enum RoleChoice {
    /// The guild has it: this is its id.
    Existing(u64),
    /// It is to be made.
    Create { name: String, colour: u32, position: u16 },
}

/// A role choice as plain values.
pub enum RoleChoiceView {
    Existing(u64),
    Create { name: Seq<char>, colour: u32, position: u16 },
}

impl View for RoleChoice {
    type V = RoleChoiceView;

    open spec fn view(&self) -> RoleChoiceView {
        match self {
            RoleChoice::Existing(id) => RoleChoiceView::Existing(*id),
            RoleChoice::Create { name, colour, position } => RoleChoiceView::Create {
                name: name@,
                colour: *colour,
                position: *position,
            },
        }
    }
}

/// What is done to give a member its colour, in this order: the roles
/// `remove` are taken from the member, unless there are none; the role
/// `role` is made where it does not exist, and given to the member; the
/// roles `delete` are deleted; `reply` is sent.
#[derive(Debug, PartialEq, Eq)]
pub struct ColourPlan {
    pub remove: Vec<u64>,
    pub role: RoleChoice,
    pub delete: Vec<u64>,
    pub reply: Reply,
}

/// A colour plan as plain values.
pub struct ColourPlanView {
    pub remove: Seq<u64>,
    pub role: RoleChoiceView,
    pub delete: Seq<u64>,
    pub reply: ReplyView,
}

impl View for ColourPlan {
    type V = ColourPlanView;

    open spec fn view(&self) -> ColourPlanView {
        ColourPlanView {
            remove: self.remove@,
            role: self.role@,
            delete: self.delete@,
            reply: self.reply@,
        }
    }
}

/// What becomes of a request for a colour.
#[derive(Debug, PartialEq, Eq)]
pub enum ColourDecision {
    /// It fails with this message.
    Failed(String),
    /// The model's answer is no colour: the handler breaks off.
    Faulted,
    /// The member outranks the bot: nothing is changed, this is the answer.
    Refused(Reply),
    /// The colour is given as the plan says.
    Apply(ColourPlan),
}

/// A colour decision as plain values.
pub enum ColourDecisionView {
    Failed(Seq<char>),
    Faulted,
    Refused(ReplyView),
    Apply(ColourPlanView),
}

impl View for ColourDecision {
    type V = ColourDecisionView;

    open spec fn view(&self) -> ColourDecisionView {
        match self {
            ColourDecision::Failed(why) => ColourDecisionView::Failed(why@),
            ColourDecision::Faulted => ColourDecisionView::Faulted,
            ColourDecision::Refused(reply) => ColourDecisionView::Refused(reply@),
            ColourDecision::Apply(plan) => ColourDecisionView::Apply(plan@),
        }
    }
}

/// The name of the role that carries the colour asked for as `code`.
pub open spec fn colour_key(code: Seq<char>) -> Seq<char> {
    COLOUR_PREFIX@ + code
}

/// The role that carries the colour `colour` asked for as `code`, for a
/// member whose highest coloured role stands at `user_top`.
pub open spec fn chosen_role(
    roles: Seq<RoleView>,
    code: Seq<char>,
    colour: u32,
    user_top: u16,
) -> RoleChoiceView {
    match role_by_name(roles, colour_key(code)) {
        Some(role) => RoleChoiceView::Existing(role.id),
        None => RoleChoiceView::Create {
            name: colour_key(code),
            colour,
            position: (user_top + 1) as u16,
        },
    }
}

/// What becomes of the request of `author` for the colour `code`, once the
/// model's answer was read as `rgb`.
pub open spec fn colour_decision(
    guild: GuildView,
    author: u64,
    bot: u64,
    code: Seq<char>,
    rgb: Option<(u8, u8, u8)>,
) -> ColourDecisionView {
    match member_by_user(guild.members, author) {
        None => ColourDecisionView::Failed(NO_USER@),
        Some(user) => match rgb {
            None => ColourDecisionView::Faulted,
            Some(parts) => {
                let colour = rgb_colour(parts.0, parts.1, parts.2);
                match member_by_user(guild.members, bot) {
                    None => ColourDecisionView::Failed(NO_BOT@),
                    Some(me) => {
                        let bot_top = topmost_position(guild.roles, me.roles, false);
                        let user_top = topmost_position(guild.roles, user.roles, true);
                        if user_top >= bot_top {
                            ColourDecisionView::Refused(
                                ReplyView::Embed(status_embed(REFUSED_TITLE@, REFUSED_TEXT@, colour)),
                            )
                        } else {
                            ColourDecisionView::Apply(
                                ColourPlanView {
                                    remove: colour_roles_among(guild.roles, user.roles),
                                    role: chosen_role(guild.roles, code, colour, user_top),
                                    delete: unheld_colour_roles(guild.roles, guild.members),
                                    reply: ReplyView::Embed(
                                        status_embed(UPDATED_TITLE@, UPDATED_TEXT@, colour),
                                    ),
                                },
                            )
                        }
                    },
                }
            },
        },
    }
}

/// What the model is asked for the colour `code`, or why it is not asked.
pub open spec fn colour_request(guild: Option<GuildView>, author: u64, code: Seq<char>) -> Result<
    GenerationRequestView,
    Seq<char>,
> {
    match guild {
        None => Err(NOT_IN_GUILD@),
        Some(g) => match member_by_user(g.members, author) {
            None => Err(NO_USER@),
            Some(_) => Ok(plain_request(COLOUR_INSTRUCTION@, COLOUR_REQUEST@, code)),
        },
    }
}

/// The view of a guild that may be absent.
pub open spec fn opt_guild_view(guild: Option<&Guild>) -> Option<GuildView> {
    match guild {
        Some(g) => Some(g@),
        None => None,
    }
}

/// The view of a request that may have been refused.
pub open spec fn request_view(r: Result<GenerationRequest, String>) -> Result<
    GenerationRequestView,
    Seq<char>,
> {
    match r {
        Ok(request) => Ok(request@),
        Err(why) => Err(why@),
    }
}

/// Begins a request for a colour: outside a guild, or for an author who is
/// no member of it, the request fails with a message. Otherwise the model
/// is to be asked for the hex value of the colour.
pub fn begin_setcolour(guild: Option<&Guild>, author: u64, colour_code: &str) -> (r: Result<
    GenerationRequest,
    String,
>)
    ensures
        request_view(r) == colour_request(opt_guild_view(guild), author, colour_code@),
{
    match guild {
        None => Err(String::from_str(NOT_IN_GUILD)),
        Some(g) => match find_member(&g.members, author) {
            None => Err(String::from_str(NO_USER)),
            Some(_) => Ok(make_plain_request(COLOUR_INSTRUCTION, COLOUR_REQUEST, colour_code)),
        },
    }
}

/// Decides a request for a colour once the model's answer was read as
/// `rgb`.
///
/// An author or a bot that is no member of the guild fails the request; an
/// answer that was no colour breaks it off. A member whose highest coloured
/// role stands at least as high as the bot's highest role is refused.
/// Otherwise the plan comes back: the member's colour roles are taken
/// away, the role named after the colour is found or made one position
/// above the member's highest coloured role, and the colour roles that no
/// member holds are deleted.
pub fn decide_colour(
    guild: &Guild,
    author: u64,
    bot: u64,
    colour_code: &str,
    rgb: Option<(u8, u8, u8)>,
) -> (r: ColourDecision)
    ensures
        r@ == colour_decision(guild@, author, bot, colour_code@, rgb),
{
    let user = match find_member(&guild.members, author) {
        None => {
            return ColourDecision::Failed(String::from_str(NO_USER));
        },
        Some(user) => user,
    };
    let parts = match rgb {
        None => {
            return ColourDecision::Faulted;
        },
        Some(parts) => parts,
    };
    let colour = colour_from_rgb(parts.0, parts.1, parts.2);
    let me = match find_member(&guild.members, bot) {
        None => {
            return ColourDecision::Failed(String::from_str(NO_BOT));
        },
        Some(me) => me,
    };
    let bot_top = topmost(&guild.roles, &me.roles, false);
    let user_top = topmost(&guild.roles, &user.roles, true);
    if user_top >= bot_top {
        return ColourDecision::Refused(send_embed(REFUSED_TITLE, REFUSED_TEXT, colour));
    }
    let mut key = String::from_str(COLOUR_PREFIX);
    key.append(colour_code);
    let remove = colour_roles_of(&guild.roles, &user.roles);
    let role = match find_role_named(&guild.roles, key.as_str()) {
        Some(role) => RoleChoice::Existing(role.id),
        None => RoleChoice::Create { name: key, colour, position: user_top + 1 },
    };
    let delete = stale_colour_roles(guild);
    let reply = send_embed(UPDATED_TITLE, UPDATED_TEXT, colour);
    ColourDecision::Apply(ColourPlan { remove, role, delete, reply })
}

/// Decides a request for a colour from the model's response: the response
/// is stripped of its reasoning and read as a hex colour, and the request
/// is decided on what was read.
pub fn setcolour(guild: &Guild, author: u64, bot: u64, colour_code: &str, response: &str) -> (r:
    ColourDecision)
    ensures
        r@ == colour_decision(guild@, author, bot, colour_code@, hex_colour(cleaned(response@))),
{
    let answer = clean_response(response);
    let rgb = parse_hex(answer.as_str());
    decide_colour(guild, author, bot, colour_code, rgb)
}

} // verus!
