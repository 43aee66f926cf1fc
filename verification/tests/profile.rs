use mabar_backend::identity::User;
use mabar_backend::profile::{
    get_player_profile, get_profile, status_code, update_player_profile, update_profile,
    LocationData, PlayerProfile, ProfileRejection, UpdatePlayerProfileRequest,
    UpdateProfileRequest,
};
use mabar_backend::roles::UserRole;

fn caller(role: Option<UserRole>) -> User {
    User {
        id: "650000000000000000000001".to_string(),
        email: "p@b.com".to_string(),
        password_hash: None,
        first_name: None,
        last_name: None,
        role,
        is_active: true,
        onboarding_completed: true,
        created_at: 0,
        updated_at: 0,
    }
}

fn empty_update() -> UpdateProfileRequest {
    UpdateProfileRequest {
        first_name: None,
        last_name: None,
        profile_picture: None,
        skill_level: None,
        location: None,
    }
}

#[test]
fn update_must_name_something() {
    assert_eq!(update_profile(&empty_update()), Err(ProfileRejection::NoData));
    let picture_only =
        UpdateProfileRequest { profile_picture: Some("p.png".to_string()), ..empty_update() };
    assert_eq!(update_profile(&picture_only), Err(ProfileRejection::NoData));
    let named = UpdateProfileRequest { first_name: Some("A".to_string()), ..empty_update() };
    assert_eq!(update_profile(&named), Ok(()));
    let last = UpdateProfileRequest { last_name: Some("B".to_string()), ..empty_update() };
    assert_eq!(update_profile(&last), Ok(()));
    let skilled = UpdateProfileRequest { skill_level: Some("3.5".to_string()), ..empty_update() };
    assert_eq!(update_profile(&skilled), Ok(()));
    let located =
        UpdateProfileRequest { location: Some(LocationData { city: None }), ..empty_update() };
    assert_eq!(update_profile(&located), Ok(()));
    assert_eq!(status_code(ProfileRejection::NoData), 400);
    assert_eq!(status_code(ProfileRejection::NotAuthenticated), 401);
    assert_eq!(status_code(ProfileRejection::PlayersOnly), 403);
}

#[test]
fn profile_access() {
    assert_eq!(get_profile(None), Err(ProfileRejection::NotAuthenticated));
    assert_eq!(get_profile(Some(&caller(None))), Ok(()));
    assert_eq!(get_player_profile(None, None).err(), Some(ProfileRejection::NotAuthenticated));
    for role in [None, Some(UserRole::VenueOwner), Some(UserRole::Admin)] {
        assert_eq!(
            get_player_profile(Some(&caller(role)), None).err(),
            Some(ProfileRejection::PlayersOnly)
        );
    }
    let fresh = get_player_profile(Some(&caller(Some(UserRole::Player))), None).unwrap();
    assert_eq!(fresh.skill_level, None);
    assert_eq!(fresh.play_style, None);
    assert!(fresh.availability.is_empty());
}

#[test]
fn player_profile_is_merged() {
    let player = caller(Some(UserRole::Player));
    let stored = || PlayerProfile {
        skill_level: Some("3.0".to_string()),
        play_style: Some("baseline".to_string()),
        availability: vec!["mon".to_string(), "tue".to_string()],
    };
    let nothing = UpdatePlayerProfileRequest { skill_level: None, play_style: None, availability: None };
    let same = update_player_profile(Some(&player), Some(stored()), &nothing).unwrap();
    assert_eq!(same.skill_level.as_deref(), Some("3.0"));
    assert_eq!(same.play_style.as_deref(), Some("baseline"));
    assert_eq!(same.availability, vec!["mon", "tue"]);
    let partial = UpdatePlayerProfileRequest {
        skill_level: Some("4.0".to_string()),
        play_style: None,
        availability: Some(vec![]),
    };
    let merged = update_player_profile(Some(&player), Some(stored()), &partial).unwrap();
    assert_eq!(merged.skill_level.as_deref(), Some("4.0"));
    assert_eq!(merged.play_style.as_deref(), Some("baseline"));
    assert!(merged.availability.is_empty());
    let first = update_player_profile(Some(&player), None, &partial).unwrap();
    assert_eq!(first.skill_level.as_deref(), Some("4.0"));
    assert_eq!(first.play_style, None);
    assert_eq!(
        update_player_profile(Some(&caller(Some(UserRole::Admin))), None, &partial).err(),
        Some(ProfileRejection::PlayersOnly)
    );
    assert_eq!(
        update_player_profile(None, None, &partial).err(),
        Some(ProfileRejection::NotAuthenticated)
    );
}
