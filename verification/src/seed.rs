//! The first administrator of a deployment, and helpers for development.

use vstd::prelude::*;
use crate::config::{variable_or, Environment};
use crate::password::{
    argon2id_hash, argon2id_string, fresh_salt, hash_costs, hash_salt, hash_view, verification,
    PasswordError, PasswordSecurity,
};
use crate::roles::UserRole;
use crate::token::{bare_members, signed_token, TokenError, TokenLifetime, TokenService};

verus! {

/// The administrator account to create at first start.
#[derive(Debug)]
pub struct AdminSeed {
    pub email: String,
    pub password_hash: String,
    pub first_name: String,
    pub last_name: String,
    pub role: UserRole,
    pub is_active: bool,
    pub onboarding_completed: bool,
    pub created_at: u64,
    pub updated_at: u64,
}

/// What seeding has to do.
#[derive(Debug)]
pub enum SeedStep {
    /// An account with the administrator's email exists: nothing to do.
    AlreadyPresent,
    /// The account is to be stored.
    Create(AdminSeed),
}

/// The email of the first administrator.
pub open spec fn seed_email(variables: Seq<(String, String)>) -> Seq<char> {
    variable_or(variables, "ADMIN_EMAIL"@, "jessica@mabar.com"@)
}

/// The password of the first administrator.
pub open spec fn seed_password(variables: Seq<(String, String)>) -> Seq<char> {
    variable_or(variables, "ADMIN_PASSWORD"@, "Admin123!"@)
}

/// The email under which the store is asked whether the first administrator
/// exists.
pub fn admin_email(env: &Environment) -> (email: String)
    ensures
        email@ == seed_email(env.variables@),
{
    env.get_or("ADMIN_EMAIL", "jessica@mabar.com")
}

/// What hashing under Argon2's default cost returns, given the salt: the
/// hasher's string, or `HashingFailed`.
pub open spec fn default_hashing(password: Seq<char>, salt: Seq<char>) -> Result<
    Seq<char>,
    PasswordError,
> {
    match argon2id_string(password, salt, 19_456, 2, 1) {
        Some(hash) => Ok(hash),
        None => Err(PasswordError::HashingFailed),
    }
}

/// Hashes a password under the given salt and Argon2's default cost (19 MiB,
/// 2 passes, 1 lane), without asking any policy.
pub fn hash_password_with(password: &str, salt: &str) -> (hashed: Result<String, PasswordError>)
    ensures
        hash_view(hashed) == default_hashing(password@, salt@),
        hashed matches Ok(hash) ==> {
            &&& verification(password@, hash@) == Ok::<bool, PasswordError>(true)
            &&& hash_costs(hash@) == Some((19_456u32, 2u32, 1u32))
            &&& hash_salt(hash@) == Some(salt@)
        },
{
    match argon2id_hash(password, salt, 19 * 1024, 2, 1) {
        Ok(hash) => Ok(hash),
        Err(_) => Err(PasswordError::HashingFailed),
    }
}

/// Hashes a password under a fresh random salt and Argon2's default cost,
/// without asking any policy.
pub fn hash_password(password: &str) -> (hashed: Result<String, PasswordError>)
    ensures
        exists|salt: Seq<char>|
            hash_view(hashed) == #[trigger] default_hashing(password@, salt),
        match hashed {
            Ok(hash) => {
                &&& verification(password@, hash@) == Ok::<bool, PasswordError>(true)
                &&& hash_costs(hash@) == Some((19_456u32, 2u32, 1u32))
            },
            Err(e) => e == PasswordError::HashingFailed,
        },
{
    let salt = fresh_salt();
    let hashed = hash_password_with(password, salt.as_str());
    assert(hash_view(hashed) == default_hashing(password@, salt@));
    hashed
}

/// Verifies a password against a hash.
pub fn verify_password(password: &str, hash: &str) -> (checked: Result<bool, PasswordError>)
    ensures
        checked == verification(password@, hash@),
{
    PasswordSecurity::new(crate::password::PasswordConfig::development_config()).verify_password(
        password,
        hash,
    )
}

/// Whether the credentials are those that the environment names for the
/// administrator, `admin@mabar.com` and `Admin123!` where it names none.
pub fn verify_admin_credentials(env: &Environment, email: &str, password: &str) -> (matches: bool)
    ensures
        matches == (email@ == variable_or(env.variables@, "ADMIN_EMAIL"@, "admin@mabar.com"@)
            && password@ == variable_or(env.variables@, "ADMIN_PASSWORD"@, "Admin123!"@)),
{
    let admin_email = env.get_or("ADMIN_EMAIL", "admin@mabar.com");
    let admin_password = env.get_or("ADMIN_PASSWORD", "Admin123!");
    crate::text::str_equals(email, admin_email.as_str()) && crate::text::str_equals(
        password,
        admin_password.as_str(),
    )
}

/// Decides what seeding has to do.
///
/// `exists` says whether the store holds an account under the administrator's
/// email. Where it does, nothing is created. Where it does not, the account is
/// an active, onboarded administrator with the names and the password that
/// the environment gives (`Admin`, `User` and `Admin123!` where it gives none),
/// the password hashed.
pub fn seed_admin_user(env: &Environment, exists: bool, now: u64) -> (step: Result<
    SeedStep,
    PasswordError,
>)
    ensures
        exists ==> step matches Ok(SeedStep::AlreadyPresent),
        !exists ==> exists|salt: Seq<char>|
            match #[trigger] default_hashing(seed_password(env.variables@), salt) {
                Ok(hash) => step matches Ok(SeedStep::Create(seed)) && seed.password_hash@ == hash,
                Err(e) => step is Err && step->Err_0 == e,
            },
        !exists ==> match step {
            Ok(SeedStep::Create(seed)) => {
                &&& seed.email@ == seed_email(env.variables@)
                &&& verification(seed_password(env.variables@), seed.password_hash@) == Ok::<
                    bool,
                    PasswordError,
                >(true)
                &&& hash_costs(seed.password_hash@) == Some((19_456u32, 2u32, 1u32))
                &&& seed.first_name@ == variable_or(env.variables@, "ADMIN_FIRST_NAME"@, "Admin"@)
                &&& seed.last_name@ == variable_or(env.variables@, "ADMIN_LAST_NAME"@, "User"@)
                &&& seed.role == UserRole::Admin
                &&& seed.is_active
                &&& seed.onboarding_completed
                &&& seed.created_at == now
                &&& seed.updated_at == now
            },
            Ok(SeedStep::AlreadyPresent) => false,
            Err(e) => e == PasswordError::HashingFailed,
        },
{
    if exists {
        return Ok(SeedStep::AlreadyPresent);
    }
    let password = env.get_or("ADMIN_PASSWORD", "Admin123!");
    let hashed = hash_password(password.as_str());
    let ghost salt = choose|salt: Seq<char>|
        hash_view(hashed) == #[trigger] default_hashing(password@, salt);
    let password_hash = match hashed {
        Ok(h) => h,
        Err(e) => {
            assert(default_hashing(seed_password(env.variables@), salt) is Err);
            return Err(e);
        },
    };
    assert(default_hashing(seed_password(env.variables@), salt) == Ok::<Seq<char>, PasswordError>(
        password_hash@,
    ));
    Ok(
        SeedStep::Create(
            AdminSeed {
                email: admin_email(env),
                password_hash,
                first_name: env.get_or("ADMIN_FIRST_NAME", "Admin"),
                last_name: env.get_or("ADMIN_LAST_NAME", "User"),
                role: UserRole::Admin,
                is_active: true,
                onboarding_completed: true,
                created_at: now,
                updated_at: now,
            },
        ),
    )
}

/// A token for trying the API by hand: it names the identifier, is issued at
/// `now` and expires seven days later. Email and role are taken for the
/// caller's bookkeeping and are not written into the token.
pub fn generate_test_token(secret: &str, user_id: &str, email: &str, role: &str, now: u64) -> (token:
    Result<String, TokenError>)
    ensures
        now + 604_800 > u64::MAX ==> token is Err && token->Err_0 == TokenError::ClockOutOfRange,
        now + 604_800 <= u64::MAX ==> match signed_token(
            bare_members(user_id@, (now + 604_800) as u64, now),
            secret@,
        ) {
            Some(t) => token is Ok && token->Ok_0@ == t,
            None => token is Err && token->Err_0 == TokenError::SigningFailed,
        },
{
    TokenService::new(secret.to_owned(), TokenLifetime::SevenDays).issue_bare_at(user_id, now)
}

} // verus!
