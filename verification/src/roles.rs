//! Roles, their total order, the permission table, and role-based authorization.

use vstd::prelude::*;
use crate::text::str_equals;

verus! {

/// The role an account acts under.
#[derive(Clone, Copy, Debug, PartialEq, Eq, Structural)]
pub enum UserRole {
    Player,
    VenueOwner,
    Admin,
}

/// Why an identity was refused.
#[derive(Clone, Copy, Debug, PartialEq, Eq, Structural)]
pub enum AccessDenied {
    /// The identity has not selected a role yet.
    NoRoleAssigned,
    /// The identity has a role, but not one that the operation accepts.
    InsufficientPermissions,
}

/// What an operation asks of the caller's role.
#[derive(Debug)]
pub enum RoleRequirement {
    /// The role must be one of those listed.
    AnyOf(Vec<UserRole>),
    /// The role must stand at or above the given one.
    AtLeast(UserRole),
}

/// HTTP status of a refusal for want of a role: 403, whichever the reason. The
/// two reasons stay apart because the remedy differs: a caller without a role
/// has yet to select one.
pub open spec fn denial_status(denied: AccessDenied) -> u16 {
    403
}

/// Position of a role in the hierarchy `Player < VenueOwner < Admin`.
pub open spec fn role_rank(role: UserRole) -> int {
    match role {
        UserRole::Player => 1,
        UserRole::VenueOwner => 2,
        UserRole::Admin => 3,
    }
}

/// Permissions every player holds.
pub open spec fn player_permission(permission: Seq<char>) -> bool {
    ||| permission == "view_profile"@
    ||| permission == "book_venues"@
    ||| permission == "view_bookings"@
    ||| permission == "update_profile"@
}

/// Permissions a venue owner holds: a player's, and venue management.
pub open spec fn venue_owner_permission(permission: Seq<char>) -> bool {
    ||| player_permission(permission)
    ||| permission == "manage_venues"@
    ||| permission == "view_venue_bookings"@
    ||| permission == "manage_venue_details"@
}

/// Permissions an administrator holds: a venue owner's, and user, system and audit ones.
pub open spec fn admin_permission(permission: Seq<char>) -> bool {
    ||| venue_owner_permission(permission)
    ||| permission == "manage_users"@
    ||| permission == "view_reports"@
    ||| permission == "manage_system"@
    ||| permission == "view_audit_logs"@
}

/// The permission table.
pub open spec fn role_grants(role: UserRole, permission: Seq<char>) -> bool {
    match role {
        UserRole::Player => player_permission(permission),
        UserRole::VenueOwner => venue_owner_permission(permission),
        UserRole::Admin => admin_permission(permission),
    }
}

/// Whether a requirement accepts a role.
pub open spec fn requirement_met(role: UserRole, required: RoleRequirement) -> bool {
    match required {
        RoleRequirement::AnyOf(allowed) => allowed@.contains(role),
        RoleRequirement::AtLeast(minimum) => role_rank(role) >= role_rank(minimum),
    }
}

/// Whether an identity with the given role is admitted, and if not, why.
pub open spec fn authorization(role: Option<UserRole>, required: RoleRequirement) -> Result<
    (),
    AccessDenied,
> {
    match role {
        None => Err(AccessDenied::NoRoleAssigned),
        Some(r) => if requirement_met(r, required) {
            Ok(())
        } else {
            Err(AccessDenied::InsufficientPermissions)
        },
    }
}

impl UserRole {
    /// Rank of the role, from 1 (player) to 3 (admin).
    pub fn rank(&self) -> (r: u8)
        ensures
            r as int == role_rank(*self),
    {
        match self {
            UserRole::Player => 1,
            UserRole::VenueOwner => 2,
            UserRole::Admin => 3,
        }
    }
}

/// The status to answer a refusal with.
pub fn status_code(denied: AccessDenied) -> (status: u16)
    ensures
        status == denial_status(denied),
        status == 403,
{
    match denied {
        AccessDenied::NoRoleAssigned => 403,
        AccessDenied::InsufficientPermissions => 403,
    }
}

/// True when `user_role` stands at or above `required_role` in the hierarchy.
pub fn has_role_or_higher(user_role: &UserRole, required_role: &UserRole) -> (allowed: bool)
    ensures
        allowed == (role_rank(*user_role) >= role_rank(*required_role)),
{
    user_role.rank() >= required_role.rank()
}

fn is_player_permission(permission: &str) -> (granted: bool)
    ensures
        granted == player_permission(permission@),
{
    str_equals(permission, "view_profile") || str_equals(permission, "book_venues") || str_equals(
        permission,
        "view_bookings",
    ) || str_equals(permission, "update_profile")
}

fn is_venue_owner_permission(permission: &str) -> (granted: bool)
    ensures
        granted == venue_owner_permission(permission@),
{
    is_player_permission(permission) || str_equals(permission, "manage_venues") || str_equals(
        permission,
        "view_venue_bookings",
    ) || str_equals(permission, "manage_venue_details")
}

fn is_admin_permission(permission: &str) -> (granted: bool)
    ensures
        granted == admin_permission(permission@),
{
    is_venue_owner_permission(permission) || str_equals(permission, "manage_users") || str_equals(
        permission,
        "view_reports",
    ) || str_equals(permission, "manage_system") || str_equals(permission, "view_audit_logs")
}

/// Whether the permission table grants `permission` to `user_role`.
pub fn has_permission(user_role: &UserRole, permission: &str) -> (granted: bool)
    ensures
        granted == role_grants(*user_role, permission@),
{
    match user_role {
        UserRole::Player => is_player_permission(permission),
        UserRole::VenueOwner => is_venue_owner_permission(permission),
        UserRole::Admin => is_admin_permission(permission),
    }
}

fn role_listed(allowed: &Vec<UserRole>, role: UserRole) -> (found: bool)
    ensures
        found == allowed@.contains(role),
{
    let mut i: usize = 0;
    while i < allowed.len()
        invariant
            i <= allowed.len(),
            forall|j: int| 0 <= j < i ==> allowed@[j] != role,
        decreases allowed.len() - i,
    {
        if allowed[i] == role {
            return true;
        }
        i += 1;
    }
    false
}

/// Accepts the identity's role or says why not.
///
/// An identity without a role is refused whatever is required, with
/// `NoRoleAssigned`; a role that the requirement does not accept is refused with
/// `InsufficientPermissions`.
pub fn authorize(role: Option<UserRole>, required: &RoleRequirement) -> (verdict: Result<
    (),
    AccessDenied,
>)
    ensures
        verdict == authorization(role, *required),
{
    match role {
        None => Err(AccessDenied::NoRoleAssigned),
        Some(r) => {
            let met = match required {
                RoleRequirement::AnyOf(allowed) => role_listed(allowed, r),
                RoleRequirement::AtLeast(minimum) => has_role_or_higher(&r, minimum),
            };
            if met {
                Ok(())
            } else {
                Err(AccessDenied::InsufficientPermissions)
            }
        },
    }
}

/// Admits exactly the roles listed in `allowed_roles`.
pub fn require_role(allowed_roles: Vec<UserRole>, role: Option<UserRole>) -> (verdict: Result<
    (),
    AccessDenied,
>)
    ensures
        verdict == authorization(role, RoleRequirement::AnyOf(allowed_roles)),
{
    authorize(role, &RoleRequirement::AnyOf(allowed_roles))
}

/// Admits administrators only.
pub fn require_admin(role: Option<UserRole>) -> (verdict: Result<(), AccessDenied>)
    ensures
        verdict is Ok <==> role == Some(UserRole::Admin),
        role is None <==> verdict == Err::<(), AccessDenied>(AccessDenied::NoRoleAssigned),
{
    let mut allowed: Vec<UserRole> = Vec::new();
    allowed.push(UserRole::Admin);
    assert(allowed@ =~= seq![UserRole::Admin]);
    assert(allowed@[0] == UserRole::Admin);
    require_role(allowed, role)
}

/// Admits players only.
pub fn require_player(role: Option<UserRole>) -> (verdict: Result<(), AccessDenied>)
    ensures
        verdict is Ok <==> role == Some(UserRole::Player),
        role is None <==> verdict == Err::<(), AccessDenied>(AccessDenied::NoRoleAssigned),
{
    let mut allowed: Vec<UserRole> = Vec::new();
    allowed.push(UserRole::Player);
    assert(allowed@ =~= seq![UserRole::Player]);
    assert(allowed@[0] == UserRole::Player);
    require_role(allowed, role)
}

/// Admits venue owners only.
pub fn require_venue_owner(role: Option<UserRole>) -> (verdict: Result<(), AccessDenied>)
    ensures
        verdict is Ok <==> role == Some(UserRole::VenueOwner),
        role is None <==> verdict == Err::<(), AccessDenied>(AccessDenied::NoRoleAssigned),
{
    let mut allowed: Vec<UserRole> = Vec::new();
    allowed.push(UserRole::VenueOwner);
    assert(allowed@ =~= seq![UserRole::VenueOwner]);
    assert(allowed@[0] == UserRole::VenueOwner);
    require_role(allowed, role)
}

/// Admits players and venue owners, not administrators.
pub fn require_player_or_venue_owner(role: Option<UserRole>) -> (verdict: Result<(), AccessDenied>)
    ensures
        verdict is Ok <==> (role == Some(UserRole::Player) || role == Some(UserRole::VenueOwner)),
        role is None <==> verdict == Err::<(), AccessDenied>(AccessDenied::NoRoleAssigned),
{
    let mut allowed: Vec<UserRole> = Vec::new();
    allowed.push(UserRole::Player);
    allowed.push(UserRole::VenueOwner);
    assert(allowed@ =~= seq![UserRole::Player, UserRole::VenueOwner]);
    assert(allowed@[0] == UserRole::Player);
    assert(allowed@[1] == UserRole::VenueOwner);
    require_role(allowed, role)
}

/// The hierarchy is a total order: any two roles compare, and two roles of equal
/// rank are the same role.
pub proof fn role_order_is_total(a: UserRole, b: UserRole)
    ensures
        role_rank(a) >= role_rank(b) || role_rank(b) >= role_rank(a),
        role_rank(a) == role_rank(b) ==> a == b,
        1 <= role_rank(a) <= 3,
{
}

/// Whoever passes a minimum-rank requirement passes every lower one, and an
/// administrator passes them all.
pub proof fn higher_role_passes_lower_requirement(role: UserRole, lower: UserRole, higher: UserRole)
    requires
        role_rank(lower) <= role_rank(higher),
    ensures
        authorization(Some(role), RoleRequirement::AtLeast(higher)) is Ok ==> authorization(
            Some(role),
            RoleRequirement::AtLeast(lower),
        ) is Ok,
        authorization(Some(UserRole::Admin), RoleRequirement::AtLeast(lower)) is Ok,
        role_rank(role) < role_rank(higher) ==> authorization(
            Some(role),
            RoleRequirement::AtLeast(higher),
        ) == Err::<(), AccessDenied>(AccessDenied::InsufficientPermissions),
{
}

/// An identity without a role is refused by every requirement, and always with
/// `NoRoleAssigned`.
pub proof fn no_role_is_always_refused(required: RoleRequirement)
    ensures
        authorization(None, required) == Err::<(), AccessDenied>(AccessDenied::NoRoleAssigned),
{
}

/// The permission table is cumulative: what a role is granted, every higher role
/// is granted too.
pub proof fn permissions_are_cumulative(lower: UserRole, higher: UserRole, permission: Seq<char>)
    requires
        role_rank(lower) <= role_rank(higher),
        role_grants(lower, permission),
    ensures
        role_grants(higher, permission),
{
}

/// The table is strictly cumulative: each step up the hierarchy adds a
/// permission that the role below lacks.
pub proof fn each_role_adds_permissions()
    ensures
        role_grants(UserRole::VenueOwner, "manage_venues"@),
        !role_grants(UserRole::Player, "manage_venues"@),
        role_grants(UserRole::Admin, "manage_users"@),
        !role_grants(UserRole::VenueOwner, "manage_users"@),
{
    reveal_strlit("view_profile");
    reveal_strlit("book_venues");
    reveal_strlit("view_bookings");
    reveal_strlit("update_profile");
    reveal_strlit("manage_venues");
    reveal_strlit("view_venue_bookings");
    reveal_strlit("manage_venue_details");
    reveal_strlit("manage_users");
    assert("manage_venues"@.len() == 13);
    assert("manage_users"@.len() == 12);
    assert("view_profile"@[0] == 'v');
    assert("manage_users"@[0] == 'm');
    assert("book_venues"@.len() == 11);
    assert("view_bookings"@[0] == 'v');
    assert("update_profile"@.len() == 14);
    assert("manage_venue_details"@.len() == 20);
    assert("view_venue_bookings"@.len() == 19);
    assert("manage_venues"@[7] == 'v');
    assert("manage_users"@[7] == 'u');
}

} // verus!
