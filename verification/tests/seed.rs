use mabar_backend::config::Environment;
use mabar_backend::roles::UserRole;
use mabar_backend::seed::{
    admin_email, generate_test_token, hash_password, hash_password_with, seed_admin_user,
    verify_admin_credentials, verify_password, SeedStep,
};
use mabar_backend::token::{TokenError, TokenLifetime, TokenService};

fn env(pairs: &[(&str, &str)]) -> Environment {
    Environment {
        variables: pairs.iter().map(|(k, v)| (k.to_string(), v.to_string())).collect(),
    }
}

#[test]
fn test_token_generation() {
    let user_id = "65a1b2c3d4e5f60718293a4b".to_string();
    let token = generate_test_token("default_secret", &user_id, "test@example.com", "Player", 1_700_000_000);
    assert!(token.is_ok());
}

#[test]
fn test_token_names_only_the_identifier() {
    let token = generate_test_token("k", "u9", "x@y.z", "Admin", 100).unwrap();
    let claims = TokenService::new("k".to_string(), TokenLifetime::SevenDays)
        .validate_at(&token, 101)
        .unwrap();
    assert_eq!(claims.id, "u9");
    assert_eq!(claims.exp, 100 + 604_800);
    assert_eq!(claims.email, None);
    assert_eq!(claims.role, None);
    assert_eq!(claims.iat, Some(100));
    assert_eq!(claims.iss, None);
    assert_eq!(
        generate_test_token("k", "u9", "x@y.z", "Admin", u64::MAX).err(),
        Some(TokenError::ClockOutOfRange)
    );
}

#[test]
fn seeding_creates_the_administrator_once() {
    assert!(matches!(seed_admin_user(&env(&[]), true, 5), Ok(SeedStep::AlreadyPresent)));
    match seed_admin_user(&env(&[]), false, 5).unwrap() {
        SeedStep::Create(seed) => {
            assert_eq!(seed.email, "jessica@mabar.com");
            assert_eq!(seed.first_name, "Admin");
            assert_eq!(seed.last_name, "User");
            assert_eq!(seed.role, UserRole::Admin);
            assert!(seed.is_active);
            assert!(seed.onboarding_completed);
            assert_eq!(seed.created_at, 5);
            assert_eq!(seed.updated_at, 5);
            assert_eq!(verify_password("Admin123!", &seed.password_hash), Ok(true));
            assert_eq!(verify_password("admin123!", &seed.password_hash), Ok(false));
            assert!(seed.password_hash.starts_with("$argon2id$v=19$m=19456,t=2,p=1$"));
        }
        other => panic!("{:?}", other),
    }
    let vars = env(&[
        ("ADMIN_EMAIL", "root@mabar.example"),
        ("ADMIN_PASSWORD", "pw"),
        ("ADMIN_FIRST_NAME", "Root"),
        ("ADMIN_LAST_NAME", "Admin"),
    ]);
    assert_eq!(admin_email(&vars), "root@mabar.example");
    match seed_admin_user(&vars, false, 7).unwrap() {
        SeedStep::Create(seed) => {
            assert_eq!(seed.email, "root@mabar.example");
            assert_eq!(seed.first_name, "Root");
            assert_eq!(seed.last_name, "Admin");
            assert_eq!(verify_password("pw", &seed.password_hash), Ok(true));
        }
        other => panic!("{:?}", other),
    }
}

#[test]
fn plain_hashing_asks_no_policy() {
    let hash = hash_password("x").unwrap();
    assert_eq!(verify_password("x", &hash), Ok(true));
    assert_eq!(verify_password("y", &hash), Ok(false));
    assert!(verify_password("x", "garbage").is_err());
    assert_ne!(hash, hash_password("x").unwrap());
    assert!(hash.starts_with("$argon2id$v=19$m=19456,t=2,p=1$"));
    let salted = hash_password_with("x", "c29tZXNhbHR2YWx1ZQ").unwrap();
    assert!(salted.starts_with("$argon2id$v=19$m=19456,t=2,p=1$c29tZXNhbHR2YWx1ZQ$"));
    assert_eq!(salted, hash_password_with("x", "c29tZXNhbHR2YWx1ZQ").unwrap());
    assert_ne!(salted, hash_password_with("x", "YW5vdGhlcnNhbHQ").unwrap());
    assert_eq!(verify_password("x", &salted), Ok(true));
    assert!(hash_password_with("x", "").is_err());
}

#[test]
fn administrator_credentials_from_the_environment() {
    assert!(verify_admin_credentials(&env(&[]), "admin@mabar.com", "Admin123!"));
    assert!(!verify_admin_credentials(&env(&[]), "admin@mabar.com", "admin123!"));
    assert!(!verify_admin_credentials(&env(&[]), "Admin@mabar.com", "Admin123!"));
    let vars = env(&[("ADMIN_EMAIL", "root@x.y"), ("ADMIN_PASSWORD", "pw")]);
    assert!(verify_admin_credentials(&vars, "root@x.y", "pw"));
    assert!(!verify_admin_credentials(&vars, "admin@mabar.com", "Admin123!"));
}
