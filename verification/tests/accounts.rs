use mabar_backend::accounts::{
    accept_registration, admin_login, auth_status, get_me, login, normalized_email,
    parse_selected_role, public_reason, register, register_with, registered, set_user_role, status_code, user_to_info,
    validate_email, validate_password, AccountLookup, AuthRejection, DevelopmentAdmin,
    LoginRequest, PublicReason, RegisterRequest, RoleSelectionRequest,
};
use mabar_backend::config::Environment;
use mabar_backend::identity::User;
use mabar_backend::password::{PasswordConfig, PasswordPolicyError, PasswordSecurity};
use mabar_backend::resolver::AuthFailure;
use mabar_backend::roles::UserRole;
use mabar_backend::token::{TokenLifetime, TokenService};

const NOW: u64 = 1_700_000_000;

fn security() -> PasswordSecurity {
    PasswordSecurity::new(PasswordConfig::development_config())
}

fn service() -> TokenService {
    TokenService::new("accounts-secret".to_string(), TokenLifetime::SevenDays)
}

fn stored(password: &str, role: Option<UserRole>, active: bool) -> User {
    User {
        id: "650000000000000000000001".to_string(),
        email: "a@b.com".to_string(),
        password_hash: Some(security().hash_password(password).unwrap()),
        first_name: Some("Ada".to_string()),
        last_name: Some("Lovelace".to_string()),
        role,
        is_active: active,
        onboarding_completed: false,
        created_at: NOW,
        updated_at: NOW,
    }
}

fn request(email: &str, password: &str) -> LoginRequest {
    LoginRequest { email: email.to_string(), password: password.to_string() }
}

fn registration(email: &str, password: &str) -> RegisterRequest {
    RegisterRequest {
        email: email.to_string(),
        password: password.to_string(),
        first_name: Some("Ada".to_string()),
        last_name: None,
    }
}

#[test]
fn registration_with_short_password_is_a_bad_request() {
    let refused = register(&security(), &registration("a@b.com", "Weak1!")).unwrap_err();
    assert_eq!(refused, AuthRejection::WeakPassword(PasswordPolicyError::TooShort));
    assert_eq!(status_code(refused), 400);
}

#[test]
fn registration_with_strong_password_yields_a_token_for_the_new_account() {
    let account = register(&security(), &registration("A@B.com", "Str0ngP@ss!")).unwrap();
    assert_eq!(account.email, "a@b.com");
    assert_eq!(account.first_name.as_deref(), Some("Ada"));
    assert_eq!(account.last_name, None);
    assert_eq!(security().verify_password("Str0ngP@ss!", &account.password_hash), Ok(true));
    let user = User {
        id: "650000000000000000000abc".to_string(),
        email: account.email,
        password_hash: Some(account.password_hash),
        first_name: account.first_name,
        last_name: account.last_name,
        role: None,
        is_active: true,
        onboarding_completed: false,
        created_at: NOW,
        updated_at: NOW,
    };
    let response = registered(&service(), &user, NOW).unwrap();
    assert_eq!(response.message, "User registered successfully");
    assert_eq!(response.user.id, "650000000000000000000abc");
    assert_eq!(response.user.role, UserRole::Player);
    let claims = service().validate_at(&response.token, NOW + 1).unwrap();
    assert_eq!(claims.id, "650000000000000000000abc");
    assert_eq!(claims.role, None);
}

#[test]
fn registration_with_bad_email_is_a_bad_request() {
    for email in ["", "invalid-email", "a@b", "a@b.c", "@b.com", "a b@c.com", "a@b.com "] {
        let refused = register(&security(), &registration(email, "Str0ngP@ss!"));
        assert_eq!(refused.err(), Some(AuthRejection::InvalidEmail), "{}", email);
    }
    assert_eq!(status_code(AuthRejection::InvalidEmail), 400);
    assert!(validate_email("a@b.com"));
    assert!(validate_email("first.last+tag@sub.example.org"));
    assert!(!validate_email("a@b.c"));
    // the least length is that of the relaxed profile, in characters
    assert!(!validate_password("Weak1!"));
    assert!(!validate_password("1234567"));
    assert!(validate_password("12345678"));
    assert!(!validate_password("éééé"));
    assert!(validate_password("éééééééé"));
    assert!(!validate_password(""));
}

#[test]
fn login_with_correct_password() {
    let user = stored("Str0ngP@ss!", Some(UserRole::VenueOwner), true);
    let response =
        login(&security(), &service(), Some(&user), &request("a@b.com", "Str0ngP@ss!"), NOW)
            .unwrap();
    assert_eq!(response.message, "Login successful");
    assert_eq!(response.user.name, "Ada Lovelace");
    assert_eq!(response.user.role, UserRole::VenueOwner);
    assert_eq!(response.token, service().issue_at(&user, NOW).unwrap());
}

#[test]
fn login_on_deactivated_account_is_unauthorized_whatever_the_password() {
    let user = stored("Str0ngP@ss!", Some(UserRole::Player), false);
    let right = login(&security(), &service(), Some(&user), &request("a@b.com", "Str0ngP@ss!"), NOW)
        .unwrap_err();
    assert_eq!(right, AuthRejection::AccountDeactivated);
    assert_eq!(status_code(right), 401);
    let wrong = login(&security(), &service(), Some(&user), &request("a@b.com", "Wr0ngP@ss!"), NOW)
        .unwrap_err();
    assert_eq!(wrong, AuthRejection::InvalidCredentials);
    assert_eq!(status_code(wrong), 401);
}

#[test]
fn login_failures_look_alike() {
    let user = stored("Str0ngP@ss!", None, true);
    let wrong =
        login(&security(), &service(), Some(&user), &request("a@b.com", "nope"), NOW).unwrap_err();
    let unknown = login(&security(), &service(), None, &request("x@y.com", "nope"), NOW).unwrap_err();
    let mut no_hash = stored("Str0ngP@ss!", None, true);
    no_hash.password_hash = None;
    let oauth_only =
        login(&security(), &service(), Some(&no_hash), &request("a@b.com", "Str0ngP@ss!"), NOW)
            .unwrap_err();
    let mut garbled = stored("Str0ngP@ss!", None, true);
    garbled.password_hash = Some("mock_hash".to_string());
    let malformed =
        login(&security(), &service(), Some(&garbled), &request("a@b.com", "Str0ngP@ss!"), NOW)
            .unwrap_err();
    for refused in [wrong, unknown, oauth_only, malformed] {
        assert_eq!(refused, AuthRejection::InvalidCredentials);
        assert_eq!(status_code(refused), 401);
        assert_eq!(public_reason(refused), PublicReason::InvalidCredentials);
    }
    // a deactivated account and a stranger at the administrators' door are told the same
    assert_eq!(public_reason(AuthRejection::AccountDeactivated), PublicReason::InvalidCredentials);
    assert_eq!(public_reason(AuthRejection::AdminRequired), PublicReason::InvalidCredentials);
    for failure in [
        AuthFailure::Expired,
        AuthFailure::BadSignature,
        AuthFailure::Malformed,
        AuthFailure::UserNotFound,
        AuthFailure::UserDeactivated,
        AuthFailure::MissingCredentials,
    ] {
        assert_eq!(
            public_reason(AuthRejection::Unauthenticated(failure)),
            PublicReason::InvalidAuthentication
        );
    }
    assert_eq!(public_reason(AuthRejection::InvalidEmail), PublicReason::InvalidEmail);
    assert_eq!(public_reason(AuthRejection::EmailTaken), PublicReason::EmailTaken);
    assert_eq!(public_reason(AuthRejection::InvalidPassword), PublicReason::InvalidPassword);
    assert_eq!(public_reason(AuthRejection::InvalidRole), PublicReason::InvalidRole);
    assert_eq!(public_reason(AuthRejection::Internal), PublicReason::InternalError);
    assert_eq!(
        public_reason(AuthRejection::WeakPassword(PasswordPolicyError::TooShort)),
        PublicReason::WeakPassword(PasswordPolicyError::TooShort)
    );
}

#[test]
fn administrator_login_paths() {
    let sec = security();
    let svc = service();
    let admin = AccountLookup::Found(stored("Adm1nP@ssword!", Some(UserRole::Admin), true));
    let ok = admin_login(&sec, &svc, &request("a@b.com", "Adm1nP@ssword!"), &admin, None, NOW)
        .unwrap();
    assert_eq!(ok.user.role, UserRole::Admin);
    assert_eq!(svc.validate_at(&ok.token, NOW).unwrap().role, Some(UserRole::Admin));

    let refused = |req: &LoginRequest, lookup: &AccountLookup, dev: Option<&DevelopmentAdmin>| {
        admin_login(&sec, &svc, req, lookup, dev, NOW).unwrap_err()
    };
    assert_eq!(refused(&request("", "x"), &admin, None), AuthRejection::InvalidEmail);
    assert_eq!(refused(&request("no-at-sign", "x"), &admin, None), AuthRejection::InvalidEmail);
    assert_eq!(refused(&request("a@b.com", ""), &admin, None), AuthRejection::InvalidPassword);
    assert_eq!(
        refused(&request("a@b.com", "x"), &AccountLookup::StoreError, None),
        AuthRejection::Internal
    );
    assert_eq!(status_code(AuthRejection::Internal), 500);
    let player = AccountLookup::Found(stored("Adm1nP@ssword!", Some(UserRole::Player), true));
    assert_eq!(
        refused(&request("a@b.com", "Adm1nP@ssword!"), &player, None),
        AuthRejection::AdminRequired
    );
    let no_role = AccountLookup::Found(stored("Adm1nP@ssword!", None, true));
    assert_eq!(
        refused(&request("a@b.com", "Adm1nP@ssword!"), &no_role, None),
        AuthRejection::AdminRequired
    );
    assert_eq!(status_code(AuthRejection::AdminRequired), 401);
    assert_eq!(
        refused(&request("a@b.com", "wrong"), &admin, None),
        AuthRejection::InvalidCredentials
    );
    assert_eq!(
        refused(&request("a@b.com", "wrong"), &AccountLookup::NotFound, None),
        AuthRejection::InvalidCredentials
    );
    let inactive = AccountLookup::Found(stored("Adm1nP@ssword!", Some(UserRole::Admin), false));
    assert_eq!(
        refused(&request("a@b.com", "Adm1nP@ssword!"), &inactive, None),
        AuthRejection::AccountDeactivated
    );
}

#[test]
fn development_credentials_only_where_handed_in() {
    let sec = security();
    let svc = service();
    let dev = DevelopmentAdmin {
        id: "65ffffffffffffffffffffff".to_string(),
        email: "jessica@mabar.com".to_string(),
        password: "Admin123!".to_string(),
        first_name: Some("Jessica".to_string()),
        last_name: None,
    };
    let req = request("jessica@mabar.com", "Admin123!");
    let ok = admin_login(&sec, &svc, &req, &AccountLookup::NotFound, Some(&dev), NOW).unwrap();
    assert_eq!(ok.user.id, "65ffffffffffffffffffffff");
    assert_eq!(ok.user.role, UserRole::Admin);
    assert_eq!(ok.user.name, "Jessica");
    assert!(ok.user.onboarding_completed);
    assert_eq!(svc.validate_at(&ok.token, NOW).unwrap().id, "65ffffffffffffffffffffff");
    assert_eq!(
        admin_login(&sec, &svc, &req, &AccountLookup::NotFound, None, NOW).err(),
        Some(AuthRejection::InvalidCredentials)
    );
    assert_eq!(
        admin_login(
            &sec,
            &svc,
            &request("jessica@mabar.com", "Admin123?"),
            &AccountLookup::NotFound,
            Some(&dev),
            NOW
        )
        .err(),
        Some(AuthRejection::InvalidCredentials)
    );
    // a stored account that is no administrator's is refused before the stand-in is tried
    let mut player = stored("Str0ngP@ss!", Some(UserRole::Player), true);
    player.email = "jessica@mabar.com".to_string();
    assert_eq!(
        admin_login(&sec, &svc, &req, &AccountLookup::Found(player), Some(&dev), NOW).err(),
        Some(AuthRejection::AdminRequired)
    );
}

#[test]
fn display_names() {
    let mut user = stored("Str0ngP@ss!", None, true);
    assert_eq!(user_to_info(&user).name, "Ada Lovelace");
    user.last_name = None;
    assert_eq!(user_to_info(&user).name, "Ada");
    user.first_name = None;
    user.last_name = Some("Lovelace".to_string());
    assert_eq!(user_to_info(&user).name, "Lovelace");
    user.last_name = None;
    let info = user_to_info(&user);
    assert_eq!(info.name, "User");
    assert_eq!(info.role, UserRole::Player);
    assert_eq!(info.email.as_deref(), Some("a@b.com"));
    assert_eq!(info.id, "650000000000000000000001");
    user.first_name = Some("  ".to_string());
    user.last_name = Some(" ".to_string());
    assert_eq!(user_to_info(&user).name, "User");
    assert_eq!(get_me(Some(&user)).unwrap().name, "User");
    assert_eq!(
        get_me(None).err(),
        Some(AuthRejection::Unauthenticated(AuthFailure::MissingCredentials))
    );
}

#[test]
fn status_never_refuses() {
    let svc = service();
    let user = stored("Str0ngP@ss!", Some(UserRole::VenueOwner), true);
    let header = format!("Bearer {}", svc.issue_at(&user, NOW).unwrap());
    let status = auth_status(&svc, Some(&header), NOW + 5);
    assert!(status.is_authenticated);
    let info = status.user.unwrap();
    assert_eq!(info.id, user.id);
    assert_eq!(info.name, "a@b.com");
    assert_eq!(info.role, UserRole::VenueOwner);
    assert_eq!(info.first_name, None);
    assert!(info.onboarding_completed);
    for header in [None, Some(""), Some("Bearer junk"), Some("Basic abc")] {
        let status = auth_status(&svc, header, NOW);
        assert!(!status.is_authenticated);
        assert!(status.user.is_none());
    }
    let expired = auth_status(&svc, Some(&header), NOW + 8 * 86_400);
    assert!(!expired.is_authenticated);
}

#[test]
fn role_selection() {
    let svc = service();
    let user = stored("Str0ngP@ss!", None, true);
    let header = format!("Bearer {}", svc.issue_at(&user, NOW).unwrap());
    let select = |role: &str, header: Option<&str>| {
        set_user_role(&svc, header, &RoleSelectionRequest { role: role.to_string() }, NOW)
    };
    assert_eq!(select("player", Some(&header)), Ok(UserRole::Player));
    assert_eq!(select("Player", Some(&header)), Ok(UserRole::Player));
    assert_eq!(select("venue_owner", Some(&header)), Ok(UserRole::VenueOwner));
    assert_eq!(select("VenueOwner", Some(&header)), Ok(UserRole::VenueOwner));
    for role in ["admin", "Admin", "", "PLAYER", "venue-owner"] {
        assert_eq!(select(role, Some(&header)), Err(AuthRejection::InvalidRole));
    }
    assert_eq!(status_code(AuthRejection::InvalidRole), 400);
    assert_eq!(
        select("player", None),
        Err(AuthRejection::Unauthenticated(AuthFailure::MissingCredentials))
    );
    assert_eq!(
        select("nonsense", Some("Bearer junk")),
        Err(AuthRejection::Unauthenticated(AuthFailure::Malformed))
    );
    assert_eq!(status_code(AuthRejection::Unauthenticated(AuthFailure::Malformed)), 401);
    assert_eq!(parse_selected_role("player"), Some(UserRole::Player));
    assert_eq!(parse_selected_role("Admin"), None);
}

#[test]
fn email_must_be_free() {
    let user = stored("Str0ngP@ss!", None, true);
    assert_eq!(accept_registration(Some(&user)), Err(AuthRejection::EmailTaken));
    assert_eq!(accept_registration(None), Ok(()));
    assert_eq!(status_code(AuthRejection::EmailTaken), 400);
}

#[test]
fn development_credentials_exist_in_development_only() {
    let env = Environment {
        variables: vec![("ADMIN_EMAIL".to_string(), "root@x.y".to_string())],
    };
    let dev = DevelopmentAdmin::for_environment("development", &env, "id1".to_string()).unwrap();
    assert_eq!(dev.id, "id1");
    assert_eq!(dev.email, "root@x.y");
    assert_eq!(dev.password, "Admin123!");
    assert_eq!(dev.first_name, None);
    assert_eq!(dev.last_name, None);
    let empty = Environment { variables: vec![] };
    let dev = DevelopmentAdmin::for_environment("development", &empty, "id2".to_string()).unwrap();
    assert_eq!(dev.email, "jessica@mabar.com");
    for environment in ["production", "staging", "Development", ""] {
        assert!(DevelopmentAdmin::for_environment(environment, &env, "id".to_string()).is_none());
    }
}

#[test]
fn registration_under_a_given_salt_and_score() {
    let sec = security();
    let salt = "c29tZXNhbHR2YWx1ZQ";
    let account = register_with(&sec, &registration("A@B.com", "Str0ngP@ss!"), Some(2), salt).unwrap();
    assert_eq!(account.email, "a@b.com");
    assert!(account.password_hash.starts_with("$argon2id$v=19$m=4096,t=2,p=2$c29tZXNhbHR2YWx1ZQ$"));
    let again = register_with(&sec, &registration("A@B.com", "Str0ngP@ss!"), Some(4), salt).unwrap();
    assert_eq!(account.password_hash, again.password_hash);
    assert_eq!(
        register_with(&sec, &registration("A@B.com", "Str0ngP@ss!"), Some(0), salt).err(),
        Some(AuthRejection::WeakPassword(PasswordPolicyError::TooWeak { score: 0 }))
    );
    assert_eq!(
        register_with(&sec, &registration("A@B.com", "Str0ngP@ss!"), None, salt).err(),
        Some(AuthRejection::WeakPassword(PasswordPolicyError::StrengthUnknown))
    );
    assert_eq!(
        register_with(&sec, &registration("nope", "Weak1!"), Some(4), salt).err(),
        Some(AuthRejection::InvalidEmail)
    );
    assert_eq!(
        register_with(&sec, &registration("a@b.com", "Weak1!"), Some(4), salt).err(),
        Some(AuthRejection::WeakPassword(PasswordPolicyError::TooShort))
    );
    // a salt that is no salt fails in the hasher, which is an internal error
    assert_eq!(
        register_with(&sec, &registration("a@b.com", "Str0ngP@ss!"), Some(4), "!").err(),
        Some(AuthRejection::Internal)
    );
}

#[test]
fn emails_are_stored_and_looked_up_in_lower_case() {
    assert_eq!(normalized_email("A@B.com"), "a@b.com");
    assert_eq!(normalized_email("a@b.com"), "a@b.com");
    assert_eq!(normalized_email("ÄB@Example.ORG"), "äb@example.org");
    let account = register(&security(), &registration("Ada@Example.com", "Str0ngP@ss!")).unwrap();
    assert_eq!(account.email, normalized_email("ADA@example.COM"));
}
