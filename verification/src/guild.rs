//! A guild as the decisions of the bot see it: its roles and its members
//! with the roles each holds.

use vstd::prelude::*;

verus! {

/// A role of a guild.
#[derive(Debug, PartialEq, Eq)]
pub struct Role {
    pub id: u64,
    pub name: String,
    /// Where the role stands among the others; a higher one outranks.
    pub position: u16,
    /// The colour as `0xRRGGBB`; zero means none.
    pub colour: u32,
}

/// A role as plain values.
pub struct RoleView {
    pub id: u64,
    pub name: Seq<char>,
    pub position: u16,
    pub colour: u32,
}

impl View for Role {
    type V = RoleView;

    open spec fn view(&self) -> RoleView {
        RoleView { id: self.id, name: self.name@, position: self.position, colour: self.colour }
    }
}

/// A member of a guild with the ids of the roles it holds.
#[derive(Debug, PartialEq, Eq)]
pub struct Member {
    pub user: u64,
    pub roles: Vec<u64>,
}

/// A member as plain values.
pub struct MemberView {
    pub user: u64,
    pub roles: Seq<u64>,
}

impl View for Member {
    type V = MemberView;

    open spec fn view(&self) -> MemberView {
        MemberView { user: self.user, roles: self.roles@ }
    }
}

/// A guild: its roles and its members.
#[derive(Debug, PartialEq, Eq)]
pub struct Guild {
    pub roles: Vec<Role>,
    pub members: Vec<Member>,
}

/// A guild as plain values.
pub struct GuildView {
    pub roles: Seq<RoleView>,
    pub members: Seq<MemberView>,
}

/// The views of the roles, in order.
pub open spec fn role_views(roles: Seq<Role>) -> Seq<RoleView> {
    Seq::new(roles.len(), |i: int| roles[i]@)
}

/// The views of the members, in order.
pub open spec fn member_views(members: Seq<Member>) -> Seq<MemberView> {
    Seq::new(members.len(), |i: int| members[i]@)
}

impl View for Guild {
    type V = GuildView;

    open spec fn view(&self) -> GuildView {
        GuildView { roles: role_views(self.roles@), members: member_views(self.members@) }
    }
}

/// The first role with the id `id`.
pub open spec fn role_by_id(roles: Seq<RoleView>, id: u64) -> Option<RoleView>
    decreases roles.len(),
{
    if roles.len() == 0 {
        None
    } else if roles[0].id == id {
        Some(roles[0])
    } else {
        role_by_id(roles.drop_first(), id)
    }
}

/// The first role with the name `name`.
pub open spec fn role_by_name(roles: Seq<RoleView>, name: Seq<char>) -> Option<RoleView>
    decreases roles.len(),
{
    if roles.len() == 0 {
        None
    } else if roles[0].name == name {
        Some(roles[0])
    } else {
        role_by_name(roles.drop_first(), name)
    }
}

/// The first member that is the user `user`.
pub open spec fn member_by_user(members: Seq<MemberView>, user: u64) -> Option<MemberView>
    decreases members.len(),
{
    if members.len() == 0 {
        None
    } else if members[0].user == user {
        Some(members[0])
    } else {
        member_by_user(members.drop_first(), user)
    }
}

/// Some member holds the role `role`.
pub open spec fn role_is_held(members: Seq<MemberView>, role: u64) -> bool {
    exists|m: int, k: int|
        0 <= m < members.len() && 0 <= k < members[m].roles.len() && #[trigger] members[m].roles[k]
            == role
}

/// The view of a role that may be absent.
pub open spec fn opt_role_view(r: Option<&Role>) -> Option<RoleView> {
    match r {
        Some(role) => Some(role@),
        None => None,
    }
}

/// The view of a member that may be absent.
pub open spec fn opt_member_view(m: Option<&Member>) -> Option<MemberView> {
    match m {
        Some(member) => Some(member@),
        None => None,
    }
}

/// The first role with the id `id`.
pub fn find_role<'a>(roles: &'a Vec<Role>, id: u64) -> (r: Option<&'a Role>)
    ensures
        opt_role_view(r) == role_by_id(role_views(roles@), id),
{
    let ghost views = role_views(roles@);
    proof {
        assert(views.skip(0) == views);
    }
    let mut i: usize = 0;
    while i < roles.len()
        invariant
            i <= roles.len(),
            views == role_views(roles@),
            role_by_id(views, id) == role_by_id(views.skip(i as int), id),
        decreases roles.len() - i,
    {
        proof {
            assert(views.skip(i as int).drop_first() == views.skip(i + 1));
            assert(views.skip(i as int)[0] == roles@[i as int]@);
        }
        if roles[i].id == id {
            return Some(&roles[i]);
        }
        i += 1;
    }
    None
}

/// The first role with the name `name`.
pub fn find_role_named<'a>(roles: &'a Vec<Role>, name: &str) -> (r: Option<&'a Role>)
    ensures
        opt_role_view(r) == role_by_name(role_views(roles@), name@),
{
    let ghost views = role_views(roles@);
    proof {
        assert(views.skip(0) == views);
    }
    let mut i: usize = 0;
    while i < roles.len()
        invariant
            i <= roles.len(),
            views == role_views(roles@),
            role_by_name(views, name@) == role_by_name(views.skip(i as int), name@),
        decreases roles.len() - i,
    {
        proof {
            assert(views.skip(i as int).drop_first() == views.skip(i + 1));
            assert(views.skip(i as int)[0] == roles@[i as int]@);
        }
        if crate::text::same_text(roles[i].name.as_str(), name) {
            return Some(&roles[i]);
        }
        i += 1;
    }
    None
}

/// The first member that is the user `user`.
pub fn find_member<'a>(members: &'a Vec<Member>, user: u64) -> (r: Option<&'a Member>)
    ensures
        opt_member_view(r) == member_by_user(member_views(members@), user),
{
    let ghost views = member_views(members@);
    proof {
        assert(views.skip(0) == views);
    }
    let mut i: usize = 0;
    while i < members.len()
        invariant
            i <= members.len(),
            views == member_views(members@),
            member_by_user(views, user) == member_by_user(views.skip(i as int), user),
        decreases members.len() - i,
    {
        proof {
            assert(views.skip(i as int).drop_first() == views.skip(i + 1));
            assert(views.skip(i as int)[0] == members@[i as int]@);
        }
        if members[i].user == user {
            return Some(&members[i]);
        }
        i += 1;
    }
    None
}

/// Whether `ids` holds `id`.
pub fn holds(ids: &Vec<u64>, id: u64) -> (r: bool)
    ensures
        r == ids@.contains(id),
{
    let mut i: usize = 0;
    while i < ids.len()
        invariant
            i <= ids.len(),
            forall|k: int| 0 <= k < i ==> ids@[k] != id,
        decreases ids.len() - i,
    {
        if ids[i] == id {
            return true;
        }
        i += 1;
    }
    false
}

/// Whether some member holds the role `role`.
pub fn is_held(members: &Vec<Member>, role: u64) -> (r: bool)
    ensures
        r == role_is_held(member_views(members@), role),
{
    let ghost views = member_views(members@);
    let mut m: usize = 0;
    while m < members.len()
        invariant
            m <= members.len(),
            views == member_views(members@),
            forall|i: int, k: int|
                0 <= i < m && 0 <= k < views[i].roles.len() ==> #[trigger] views[i].roles[k]
                    != role,
        decreases members.len() - m,
    {
        if holds(&members[m].roles, role) {
            proof {
                let k = choose|k: int| 0 <= k < members@[m as int].roles@.len() && members@[m as int].roles@[k] == role;
                assert(views[m as int].roles[k] == role);
            }
            return true;
        }
        proof {
            assert(views[m as int].roles == members@[m as int].roles@);
        }
        m += 1;
    }
    false
}

} // verus!
