use mabar_backend::roles::{
    authorize, has_permission, has_role_or_higher, require_admin, require_player,
    require_player_or_venue_owner, require_role, require_venue_owner, status_code, AccessDenied,
    RoleRequirement, UserRole,
};

#[test]
fn admin_passes_player_requirement() {
    assert_eq!(authorize(Some(UserRole::Admin), &RoleRequirement::AtLeast(UserRole::Player)), Ok(()));
    assert!(has_role_or_higher(&UserRole::Admin, &UserRole::Player));
}

#[test]
fn player_fails_admin_requirement() {
    assert_eq!(
        authorize(Some(UserRole::Player), &RoleRequirement::AtLeast(UserRole::Admin)),
        Err(AccessDenied::InsufficientPermissions)
    );
    assert!(!has_role_or_higher(&UserRole::Player, &UserRole::Admin));
}

#[test]
fn missing_role_is_reported_as_such() {
    assert_eq!(
        authorize(None, &RoleRequirement::AtLeast(UserRole::Player)),
        Err(AccessDenied::NoRoleAssigned)
    );
    assert_eq!(
        authorize(None, &RoleRequirement::AnyOf(vec![UserRole::Player, UserRole::Admin])),
        Err(AccessDenied::NoRoleAssigned)
    );
}

#[test]
fn refusals_for_want_of_a_role_are_forbidden() {
    assert_eq!(status_code(AccessDenied::NoRoleAssigned), 403);
    assert_eq!(status_code(AccessDenied::InsufficientPermissions), 403);
    assert_ne!(AccessDenied::NoRoleAssigned, AccessDenied::InsufficientPermissions);
}

#[test]
fn hierarchy_is_a_total_order() {
    let roles = [UserRole::Player, UserRole::VenueOwner, UserRole::Admin];
    for (i, a) in roles.iter().enumerate() {
        for (j, b) in roles.iter().enumerate() {
            assert_eq!(has_role_or_higher(a, b), i >= j);
        }
    }
    assert_eq!(UserRole::Player.rank(), 1);
    assert_eq!(UserRole::VenueOwner.rank(), 2);
    assert_eq!(UserRole::Admin.rank(), 3);
}

#[test]
fn listed_roles_are_exact_not_hierarchical() {
    assert_eq!(require_role(vec![UserRole::Player], Some(UserRole::Player)), Ok(()));
    assert_eq!(
        require_role(vec![UserRole::Player], Some(UserRole::Admin)),
        Err(AccessDenied::InsufficientPermissions)
    );
    assert_eq!(require_role(vec![], Some(UserRole::Admin)), Err(AccessDenied::InsufficientPermissions));
    assert_eq!(require_admin(Some(UserRole::Admin)), Ok(()));
    assert_eq!(require_admin(Some(UserRole::VenueOwner)), Err(AccessDenied::InsufficientPermissions));
    assert_eq!(require_admin(None), Err(AccessDenied::NoRoleAssigned));
    assert_eq!(require_player(Some(UserRole::Player)), Ok(()));
    assert_eq!(require_player(Some(UserRole::Admin)), Err(AccessDenied::InsufficientPermissions));
    assert_eq!(require_venue_owner(Some(UserRole::VenueOwner)), Ok(()));
    assert_eq!(require_venue_owner(Some(UserRole::Player)), Err(AccessDenied::InsufficientPermissions));
    assert_eq!(require_player_or_venue_owner(Some(UserRole::Player)), Ok(()));
    assert_eq!(require_player_or_venue_owner(Some(UserRole::VenueOwner)), Ok(()));
    assert_eq!(
        require_player_or_venue_owner(Some(UserRole::Admin)),
        Err(AccessDenied::InsufficientPermissions)
    );
    assert_eq!(require_player_or_venue_owner(None), Err(AccessDenied::NoRoleAssigned));
}

#[test]
fn permission_table_is_cumulative() {
    let player = ["view_profile", "book_venues", "view_bookings", "update_profile"];
    let owner = ["manage_venues", "view_venue_bookings", "manage_venue_details"];
    let admin = ["manage_users", "view_reports", "manage_system", "view_audit_logs"];
    for p in player {
        assert!(has_permission(&UserRole::Player, p));
        assert!(has_permission(&UserRole::VenueOwner, p));
        assert!(has_permission(&UserRole::Admin, p));
    }
    for p in owner {
        assert!(!has_permission(&UserRole::Player, p));
        assert!(has_permission(&UserRole::VenueOwner, p));
        assert!(has_permission(&UserRole::Admin, p));
    }
    for p in admin {
        assert!(!has_permission(&UserRole::Player, p));
        assert!(!has_permission(&UserRole::VenueOwner, p));
        assert!(has_permission(&UserRole::Admin, p));
    }
    assert!(!has_permission(&UserRole::Admin, "launch_rockets"));
    assert!(!has_permission(&UserRole::Admin, ""));
    assert!(!has_permission(&UserRole::Player, "View_Profile"));
}
