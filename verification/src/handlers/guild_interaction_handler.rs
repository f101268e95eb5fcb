use vstd::prelude::*;

verus! {

/// The `ADMINISTRATOR` permission bit.
pub const ADMINISTRATOR: u64 = 1u64 << 3;

/// What is known of the guild of an interaction, once fetched.
pub struct GuildFacts {
    pub owner_id: u64,
    /// The permission bits of the member's roles that the guild knows, in the
    /// member's order (roles it does not know are left out).
    pub member_role_permissions: Vec<u64>,
}

/// Whether one of `roles` is listed in `listed`.
pub open spec fn has_listed_role(roles: Seq<u64>, listed: Seq<u64>) -> bool {
    exists|i: int| 0 <= i < roles.len() && listed.contains(#[trigger] roles[i])
}

/// Whether one of the role permission sets holds `ADMINISTRATOR`.
pub open spec fn has_admin_role(perms: Seq<u64>) -> bool {
    exists|i: int| 0 <= i < perms.len() && is_admin(#[trigger] perms[i])
}

/// Whether a permission set holds `ADMINISTRATOR`.
pub open spec fn is_admin(perms: u64) -> bool {
    perms & ADMINISTRATOR == ADMINISTRATOR
}

/// Whether a user may use commands while maintenance mode is on: a super-admin
/// user; a member with a super-admin role; the guild's owner; a member with an
/// administrator role.  `member_roles` is `None` when the member cannot be
/// fetched, `guild` when the guild cannot.
pub open spec fn maintenance_exempt_spec(
    user_id: u64,
    super_users: Seq<u64>,
    super_roles: Seq<u64>,
    member_roles: Option<Seq<u64>>,
    guild_owner: Option<u64>,
    role_permissions: Seq<u64>,
) -> bool {
    if super_users.contains(user_id) {
        true
    } else {
        match member_roles {
            None => false,
            Some(roles) => if super_roles.len() > 0 && has_listed_role(roles, super_roles) {
                true
            } else {
                match guild_owner {
                    None => false,
                    Some(owner) => owner == user_id || has_admin_role(role_permissions),
                }
            },
        }
    }
}

fn contains_id(ids: &Vec<u64>, id: u64) -> (r: bool)
    ensures
        r == ids@.contains(id),
{
    let mut i: usize = 0;
    while i < ids.len()
        invariant
            i <= ids.len(),
            forall|k: int| 0 <= k < i ==> ids@[k] != id,
        decreases ids.len() - i,
    {
        if ids[i] == id {
            assert(ids@[i as int] == id);
            return true;
        }
        i = i + 1;
    }
    false
}

fn any_in(roles: &Vec<u64>, allowed: &Vec<u64>) -> (r: bool)
    ensures
        r == has_listed_role(roles@, allowed@),
{
    let mut i: usize = 0;
    while i < roles.len()
        invariant
            i <= roles.len(),
            forall|k: int| 0 <= k < i ==> !allowed@.contains(#[trigger] roles@[k]),
        decreases roles.len() - i,
    {
        if contains_id(allowed, roles[i]) {
            assert(allowed@.contains(roles@[i as int]));
            return true;
        }
        i = i + 1;
    }
    false
}

fn any_admin(perms: &Vec<u64>) -> (r: bool)
    ensures
        r == has_admin_role(perms@),
{
    let mut i: usize = 0;
    while i < perms.len()
        invariant
            i <= perms.len(),
            forall|k: int| 0 <= k < i ==> !is_admin(#[trigger] perms@[k]),
        decreases perms.len() - i,
    {
        if perms[i] & ADMINISTRATOR == ADMINISTRATOR {
            assert(is_admin(perms@[i as int]));
            return true;
        }
        i = i + 1;
    }
    false
}

/// Decides whether a user may use commands during maintenance.
pub fn maintenance_exempt(
    user_id: u64,
    super_users: &Vec<u64>,
    super_roles: &Vec<u64>,
    member_roles: Option<&Vec<u64>>,
    guild: Option<&GuildFacts>,
) -> (r: bool)
    ensures
        r == maintenance_exempt_spec(
            user_id,
            super_users@,
            super_roles@,
            match member_roles {
                Some(m) => Some(m@),
                None => None,
            },
            match guild {
                Some(g) => Some(g.owner_id),
                None => None,
            },
            match guild {
                Some(g) => g.member_role_permissions@,
                None => Seq::empty(),
            },
        ),
{
    if contains_id(super_users, user_id) {
        return true;
    }
    let roles = match member_roles {
        Some(m) => m,
        None => return false,
    };
    if super_roles.len() > 0 && any_in(roles, super_roles) {
        return true;
    }
    match guild {
        None => false,
        Some(g) => g.owner_id == user_id || any_admin(&g.member_role_permissions),
    }
}

/// Whether a slash command is refused because of maintenance: only when the
/// mode is on, the command comes from a guild, and the user is not exempt.
pub fn refused_for_maintenance(maintenance_on: bool, in_guild: bool, exempt: bool) -> (r: bool)
    ensures
        r == (maintenance_on && in_guild && !exempt),
{
    maintenance_on && in_guild && !exempt
}

/// Who may still use commands during maintenance: a listed super user always;
/// a member that could be fetched when one of its roles is a listed super role;
/// in a guild that could be fetched, its owner, and every member holding a role
/// whose permissions include the Administrator bit, whatever other bits that
/// role grants. A member that could not be fetched is exempt only as a super
/// user, and a fetched member in a fetched guild that is none of these is not
/// exempt.
pub proof fn lemma_maintenance_exemptions(
    user_id: u64,
    super_users: Seq<u64>,
    super_roles: Seq<u64>,
    member_roles: Option<Seq<u64>>,
    guild_owner: Option<u64>,
    role_permissions: Seq<u64>,
    i: int,
    r: int,
)
    ensures
        super_users.contains(user_id) ==> maintenance_exempt_spec(
            user_id,
            super_users,
            super_roles,
            member_roles,
            guild_owner,
            role_permissions,
        ),
        (member_roles matches Some(roles) && 0 <= r < roles.len() && super_roles.contains(roles[r]))
            ==> maintenance_exempt_spec(
            user_id,
            super_users,
            super_roles,
            member_roles,
            guild_owner,
            role_permissions,
        ),
        member_roles is Some && guild_owner == Some(user_id) ==> maintenance_exempt_spec(
            user_id,
            super_users,
            super_roles,
            member_roles,
            guild_owner,
            role_permissions,
        ),
        member_roles is Some && guild_owner is Some && 0 <= i < role_permissions.len()
            && role_permissions[i] & ADMINISTRATOR == ADMINISTRATOR ==> maintenance_exempt_spec(
            user_id,
            super_users,
            super_roles,
            member_roles,
            guild_owner,
            role_permissions,
        ),
        member_roles is None && !super_users.contains(user_id) ==> !maintenance_exempt_spec(
            user_id,
            super_users,
            super_roles,
            member_roles,
            guild_owner,
            role_permissions,
        ),
        (member_roles matches Some(roles) && guild_owner matches Some(owner)
            && !super_users.contains(user_id)
            && (forall|k: int| 0 <= k < roles.len() ==> !super_roles.contains(#[trigger] roles[k]))
            && owner != user_id
            && (forall|k: int|
            0 <= k < role_permissions.len() ==> #[trigger] role_permissions[k] & ADMINISTRATOR
                != ADMINISTRATOR)) ==> !maintenance_exempt_spec(
            user_id,
            super_users,
            super_roles,
            member_roles,
            guild_owner,
            role_permissions,
        ),
{
    match member_roles {
        Some(roles) => {
            if 0 <= r < roles.len() && super_roles.contains(roles[r]) {
                assert(super_roles.len() > 0);
                assert(has_listed_role(roles, super_roles));
            }
        },
        None => {},
    }
    if member_roles is Some && guild_owner is Some && 0 <= i < role_permissions.len()
        && role_permissions[i] & ADMINISTRATOR == ADMINISTRATOR {
        assert(is_admin(role_permissions[i]));
        assert(has_admin_role(role_permissions));
    }
}

} // verus!
