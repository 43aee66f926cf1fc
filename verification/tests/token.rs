use mabar_backend::identity::User;
use mabar_backend::roles::UserRole;
use mabar_backend::token::{
    check_claims, classify_failure, members_of, name_of_role, read_claims, role_from_name, Claims,
    JwtFailure, TokenError, TokenLifetime, TokenService, MAX_TOKEN_AGE,
};

fn user(role: Option<UserRole>) -> User {
    User {
        id: "64b7f3a2c1d2e3f4a5b6c7d8".to_string(),
        email: "a@b.com".to_string(),
        password_hash: None,
        first_name: Some("Ada".to_string()),
        last_name: None,
        role,
        is_active: true,
        onboarding_completed: false,
        created_at: 1_700_000_000,
        updated_at: 1_700_000_000,
    }
}

fn service() -> TokenService {
    TokenService::new("test-secret".to_string(), TokenLifetime::SevenDays)
}

const NOW: u64 = 1_700_000_000;
const DAY: u64 = 24 * 60 * 60;

#[test]
fn lifetime_presets() {
    assert_eq!(TokenLifetime::from_preset("7d"), TokenLifetime::SevenDays);
    assert_eq!(TokenLifetime::from_preset("1d"), TokenLifetime::OneDay);
    assert_eq!(TokenLifetime::from_preset("1h"), TokenLifetime::OneHour);
    assert_eq!(TokenLifetime::from_preset("15m"), TokenLifetime::FifteenMinutes);
    assert_eq!(TokenLifetime::from_preset("30d"), TokenLifetime::SevenDays);
    assert_eq!(TokenLifetime::from_preset(""), TokenLifetime::SevenDays);
    assert_eq!(TokenLifetime::SevenDays.seconds(), 604_800);
    assert_eq!(TokenLifetime::OneDay.seconds(), 86_400);
    assert_eq!(TokenLifetime::OneHour.seconds(), 3_600);
    assert_eq!(TokenLifetime::FifteenMinutes.seconds(), 900);
    assert_eq!(MAX_TOKEN_AGE, 7 * DAY);
}

#[test]
fn claims_are_built_from_the_account() {
    let s = TokenService::new("k".to_string(), TokenLifetime::OneHour);
    assert_eq!(s.lifetime(), TokenLifetime::OneHour);
    let claims = s.build_claims(&user(Some(UserRole::VenueOwner)), NOW).unwrap();
    assert_eq!(claims.id, "64b7f3a2c1d2e3f4a5b6c7d8");
    assert_eq!(claims.email.as_deref(), Some("a@b.com"));
    assert_eq!(claims.role, Some(UserRole::VenueOwner));
    assert_eq!(claims.iat, Some(NOW));
    assert_eq!(claims.exp, NOW + 3_600);
    assert_eq!(claims.iss.as_deref(), Some("MaBar-Auth-Service"));
}

#[test]
fn issued_token_validates_until_it_expires() {
    let s = service();
    let token = s.issue_at(&user(None), NOW).unwrap();
    assert_eq!(token.split('.').count(), 3);
    for now in [NOW, NOW + 1, NOW + DAY, NOW + 7 * DAY - 1] {
        let claims = s.validate_at(&token, now).unwrap();
        assert_eq!(claims.id, "64b7f3a2c1d2e3f4a5b6c7d8");
        assert_eq!(claims.email.as_deref(), Some("a@b.com"));
        assert_eq!(claims.role, None);
        assert_eq!(claims.exp, NOW + 7 * DAY);
        assert_eq!(claims.iat, Some(NOW));
    }
    for now in [NOW + 7 * DAY, NOW + 7 * DAY + 1, NOW + 30 * DAY, u64::MAX] {
        assert_eq!(s.validate_at(&token, now).err(), Some(TokenError::Expired));
    }
}

#[test]
fn every_role_survives_the_round_trip() {
    let s = TokenService::new("k".to_string(), TokenLifetime::FifteenMinutes);
    for role in [UserRole::Player, UserRole::VenueOwner, UserRole::Admin] {
        let token = s.issue_at(&user(Some(role)), NOW).unwrap();
        assert_eq!(s.validate_at(&token, NOW + 899).unwrap().role, Some(role));
        assert_eq!(s.validate_at(&token, NOW + 900).err(), Some(TokenError::Expired));
        assert_eq!(role_from_name(name_of_role(role)), Some(role));
    }
    assert_eq!(name_of_role(UserRole::VenueOwner), "VenueOwner");
    assert_eq!(role_from_name("admin"), None);
    assert_eq!(role_from_name(""), None);
}

#[test]
fn signing_is_deterministic_for_given_claims() {
    let s = service();
    let first = s.issue_at(&user(None), NOW).unwrap();
    let second = s.issue_at(&user(None), NOW).unwrap();
    assert_eq!(first, second);
    assert_ne!(first, s.issue_at(&user(None), NOW + 1).unwrap());
    let other = TokenService::new("other-secret".to_string(), TokenLifetime::SevenDays);
    assert_ne!(first, other.issue_at(&user(None), NOW).unwrap());
}

#[test]
fn wrong_secret_is_a_bad_signature() {
    let token = service().issue_at(&user(None), NOW).unwrap();
    let other = TokenService::new("other-secret".to_string(), TokenLifetime::SevenDays);
    assert_eq!(other.validate_at(&token, NOW).err(), Some(TokenError::BadSignature));
}

#[test]
fn tampered_and_garbled_tokens() {
    let s = service();
    let token = s.issue_at(&user(Some(UserRole::Player)), NOW).unwrap();
    let mut parts: Vec<String> = token.split('.').map(|p| p.to_string()).collect();
    // swap the payload for that of an administrator, keeping the signature
    let admin = s.issue_at(&user(Some(UserRole::Admin)), NOW).unwrap();
    parts[1] = admin.split('.').nth(1).unwrap().to_string();
    assert_eq!(s.validate_at(&parts.join("."), NOW).err(), Some(TokenError::BadSignature));
    assert_eq!(s.validate_at("", NOW).err(), Some(TokenError::Malformed));
    assert_eq!(s.validate_at("abc", NOW).err(), Some(TokenError::Malformed));
    assert_eq!(s.validate_at("a.b", NOW).err(), Some(TokenError::Malformed));
    assert_eq!(s.validate_at("a.b.c.d", NOW).err(), Some(TokenError::Malformed));
    assert_eq!(s.validate_at("!!!.???.***", NOW).err(), Some(TokenError::Malformed));
}

#[test]
fn token_older_than_the_maximum_age_is_expired() {
    let claims = Claims {
        id: "u1".to_string(),
        email: None,
        role: None,
        exp: NOW + 365 * DAY,
        iat: Some(NOW - 7 * DAY - 1),
        iss: Some("MaBar-Auth-Service".to_string()),
    };
    assert_eq!(check_claims(&claims, NOW), Err(TokenError::Expired));
    let at_the_limit = Claims { iat: Some(NOW - 7 * DAY), ..claims };
    assert_eq!(check_claims(&at_the_limit, NOW), Ok(()));
    let from_the_future = Claims { iat: Some(NOW + 5), ..at_the_limit };
    assert_eq!(check_claims(&from_the_future, NOW), Ok(()));
    // without a time of issue the age cannot be bounded: refused, whatever the expiry
    let undated = Claims { iat: None, ..from_the_future };
    assert_eq!(check_claims(&undated, NOW), Err(TokenError::Malformed));
    let undated_and_far = Claims { exp: NOW + 315_360_000, ..undated };
    assert_eq!(check_claims(&undated_and_far, NOW), Err(TokenError::Malformed));
    let expiring_now = Claims { exp: NOW, iat: Some(NOW - 1), ..undated_and_far };
    assert_eq!(check_claims(&expiring_now, NOW), Err(TokenError::Expired));
    let expiring_next = Claims { exp: NOW + 1, ..expiring_now };
    assert_eq!(check_claims(&expiring_next, NOW), Ok(()));
}

#[test]
fn foreign_issuer_is_refused() {
    let claims = Claims {
        id: "u1".to_string(),
        email: None,
        role: None,
        exp: NOW + 10,
        iat: Some(NOW),
        iss: Some("mabar-backend".to_string()),
    };
    assert_eq!(check_claims(&claims, NOW), Err(TokenError::Malformed));
    let unnamed = Claims { iss: None, ..claims };
    assert_eq!(check_claims(&unnamed, NOW), Ok(()));
    let expired_and_foreign =
        Claims { exp: NOW - 1, iss: Some("someone".to_string()), ..unnamed };
    assert_eq!(check_claims(&expired_and_foreign, NOW), Err(TokenError::Expired));
}

#[test]
fn clock_without_room_for_the_lifetime() {
    let s = service();
    assert_eq!(s.issue_at(&user(None), u64::MAX).err(), Some(TokenError::ClockOutOfRange));
    assert_eq!(
        s.issue_at(&user(None), u64::MAX - 7 * DAY + 1).err(),
        Some(TokenError::ClockOutOfRange)
    );
    assert!(s.issue_at(&user(None), u64::MAX - 7 * DAY).is_ok());
    assert_eq!(s.build_claims(&user(None), u64::MAX).err(), Some(TokenError::ClockOutOfRange));
}

#[test]
fn claims_are_read_by_schema() {
    let full = read_claims(
        r#"{"id":"u1","email":"a@b.com","role":"Admin","exp":10,"iat":5,"iss":"x"}"#,
    )
    .unwrap();
    assert_eq!(full.id, "u1");
    assert_eq!(full.email.as_deref(), Some("a@b.com"));
    assert_eq!(full.role, Some(UserRole::Admin));
    assert_eq!(full.exp, 10);
    assert_eq!(full.iat, Some(5));
    assert_eq!(full.iss.as_deref(), Some("x"));

    let least = read_claims(r#"{"id":"u1","exp":10,"iat":5}"#).unwrap();
    assert_eq!(least.email, None);
    assert_eq!(least.role, None);
    assert_eq!(least.iat, Some(5));
    assert_eq!(least.iss, None);

    let nulls =
        read_claims(r#"{"id":"u1","email":null,"role":null,"exp":10,"iat":0,"iss":null}"#)
            .unwrap();
    assert_eq!(nulls.iat, Some(0));
    assert_eq!(nulls.email, None);
    assert_eq!(nulls.role, None);

    for bad in [
        r#"{"exp":10,"iat":5}"#,
        r#"{"id":"u1","iat":5}"#,
        r#"{"id":"u1","exp":10}"#,
        r#"{"id":"u1","exp":10,"iat":null}"#,
        r#"{"id":7,"exp":10,"iat":5}"#,
        r#"{"id":null,"exp":10,"iat":5}"#,
        r#"{"id":"u1","exp":"10","iat":5}"#,
        r#"{"id":"u1","exp":-1,"iat":5}"#,
        r#"{"id":"u1","exp":1.5,"iat":5}"#,
        r#"{"id":"u1","exp":10,"iat":5,"email":5}"#,
        r#"{"id":"u1","exp":10,"iat":5,"role":"Owner"}"#,
        r#"{"id":"u1","exp":10,"iat":5,"role":3}"#,
        r#"{"id":"u1","exp":10,"iat":"5"}"#,
        r#"{"id":"u1","exp":10,"iat":-5}"#,
        r#"{"id":"u1","exp":10,"iat":5,"iss":["x"]}"#,
        r#"["id","exp"]"#,
        r#"not json"#,
        r#""#,
    ] {
        assert_eq!(read_claims(bad).err(), Some(TokenError::Malformed), "{}", bad);
    }
}

#[test]
fn codec_failures_are_classified() {
    assert_eq!(classify_failure(JwtFailure::InvalidSignature), TokenError::BadSignature);
    for f in [
        JwtFailure::InvalidToken,
        JwtFailure::InvalidAlgorithm,
        JwtFailure::Base64,
        JwtFailure::Json,
        JwtFailure::Other,
    ] {
        assert_eq!(classify_failure(f), TokenError::Malformed);
    }
}

#[test]
fn validation_against_the_present_clock() {
    let s = service();
    let token = s.issue(&user(Some(UserRole::Player))).unwrap();
    let claims = s.validate(&token).unwrap();
    assert_eq!(claims.id, "64b7f3a2c1d2e3f4a5b6c7d8");
    assert_eq!(claims.exp - claims.iat.unwrap(), 7 * DAY);
    let stale = s.issue_at(&user(None), 1_000).unwrap();
    assert_eq!(s.validate(&stale).err(), Some(TokenError::Expired));
    assert_eq!(s.validate("junk").err(), Some(TokenError::Malformed));
}

fn foreign_token(algorithm: jsonwebtoken::Algorithm, members: &[(&str, serde_json::Value)]) -> String {
    let mut claims = serde_json::Map::new();
    for (name, value) in members {
        claims.insert(name.to_string(), value.clone());
    }
    jsonwebtoken::encode(
        &jsonwebtoken::Header::new(algorithm),
        &claims,
        &jsonwebtoken::EncodingKey::from_secret("test-secret".as_bytes()),
    )
    .unwrap()
}

#[test]
fn tokens_made_elsewhere_under_the_same_secret() {
    let s = service();
    let id = serde_json::Value::from("u1");
    let hs256 = jsonwebtoken::Algorithm::HS256;
    // the least a token must claim
    let bare = foreign_token(
        hs256,
        &[("id", id.clone()), ("exp", (NOW + 10).into()), ("iat", (NOW - 5).into())],
    );
    let claims = s.validate_at(&bare, NOW).unwrap();
    assert_eq!(claims.id, "u1");
    assert_eq!(claims.iat, Some(NOW - 5));
    // a token that does not say when it was issued is refused, however far its expiry
    let undated =
        foreign_token(hs256, &[("id", id.clone()), ("exp", (NOW + 315_360_000).into())]);
    assert_eq!(s.validate_at(&undated, NOW).err(), Some(TokenError::Malformed));
    // expiry is judged here, against the clock handed in, without leeway
    assert_eq!(s.validate_at(&bare, NOW + 9).map(|c| c.exp), Ok(NOW + 10));
    assert_eq!(s.validate_at(&bare, NOW + 10).err(), Some(TokenError::Expired));
    // long expired and read at an early clock value: still valid then
    let old = foreign_token(
        hs256,
        &[("id", id.clone()), ("exp", 1_000u64.into()), ("iat", 900u64.into())],
    );
    assert_eq!(s.validate_at(&old, 999).map(|c| c.id), Ok("u1".to_string()));
    assert_eq!(s.validate(&old).err(), Some(TokenError::Expired));
    // an expiry far away does not save a token issued too long ago
    let aged = foreign_token(
        hs256,
        &[("id", id.clone()), ("exp", (NOW + 365 * DAY).into()), ("iat", (NOW - 8 * DAY).into())],
    );
    assert_eq!(s.validate_at(&aged, NOW).err(), Some(TokenError::Expired));
    assert!(s.validate_at(&aged, NOW - DAY).is_ok());
    // claims that do not fit the schema
    let no_id = foreign_token(hs256, &[("exp", (NOW + 10).into()), ("iat", NOW.into())]);
    assert_eq!(s.validate_at(&no_id, NOW).err(), Some(TokenError::Malformed));
    let no_exp = foreign_token(hs256, &[("id", id.clone()), ("iat", NOW.into())]);
    assert_eq!(s.validate_at(&no_exp, NOW).err(), Some(TokenError::Malformed));
    let foreign_issuer = foreign_token(
        hs256,
        &[
            ("id", id.clone()),
            ("exp", (NOW + 10).into()),
            ("iat", NOW.into()),
            ("iss", "mabar-backend".into()),
        ],
    );
    assert_eq!(s.validate_at(&foreign_issuer, NOW).err(), Some(TokenError::Malformed));
    // another algorithm in the header, an audience nobody asked for
    let hs384 = foreign_token(
        jsonwebtoken::Algorithm::HS384,
        &[("id", id.clone()), ("exp", (NOW + 10).into()), ("iat", NOW.into())],
    );
    assert_eq!(s.validate_at(&hs384, NOW).err(), Some(TokenError::Malformed));
    let with_audience = foreign_token(
        hs256,
        &[("id", id), ("exp", (NOW + 10).into()), ("iat", NOW.into()), ("aud", "someone".into())],
    );
    assert_eq!(s.validate_at(&with_audience, NOW).err(), Some(TokenError::Malformed));
}

#[test]
fn claims_are_written_under_the_names_they_are_read_by() {
    let claims = Claims {
        id: "u1".to_string(),
        email: Some("a@b.com".to_string()),
        role: Some(UserRole::VenueOwner),
        exp: 20,
        iat: Some(10),
        iss: None,
    };
    let members = members_of(&claims);
    let names: Vec<&str> = members.iter().map(|(name, _)| name.as_str()).collect();
    assert_eq!(names, vec!["id", "email", "role", "exp", "iat", "iss"]);
    assert_eq!(
        format!("{:?}", members.iter().map(|(_, value)| value).collect::<Vec<_>>()),
        r#"[Text("u1"), Text("a@b.com"), Text("VenueOwner"), Number(20), Number(10), Null]"#
    );
    // the payload of an issued token holds exactly these members
    let s = service();
    let token = s.issue_at(&user(Some(UserRole::Admin)), NOW).unwrap();
    let payload = token.split('.').nth(1).unwrap();
    let opened = foreign_payload(payload);
    assert_eq!(
        opened,
        format!(
            r#"{{"id":"64b7f3a2c1d2e3f4a5b6c7d8","email":"a@b.com","role":"Admin","exp":{},"iat":{},"iss":"MaBar-Auth-Service"}}"#,
            NOW + 7 * DAY,
            NOW
        )
    );
    let read = read_claims(&opened).unwrap();
    assert_eq!(read.id, "64b7f3a2c1d2e3f4a5b6c7d8");
    assert_eq!(read.role, Some(UserRole::Admin));
    assert_eq!(read.iat, Some(NOW));
}

fn foreign_payload(segment: &str) -> String {
    // the claims of a token, as the codec reads them without testing anything
    let token = format!("eyJ0eXAiOiJKV1QiLCJhbGciOiJIUzI1NiJ9.{}.c2ln", segment);
    let mut rules = jsonwebtoken::Validation::new(jsonwebtoken::Algorithm::HS256);
    rules.insecure_disable_signature_validation();
    rules.validate_exp = false;
    rules.required_spec_claims.clear();
    let key = jsonwebtoken::DecodingKey::from_secret(b"");
    jsonwebtoken::decode::<serde_json::Value>(&token, &key, &rules).unwrap().claims.to_string()
}
