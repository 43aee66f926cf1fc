//! Registration, login and the other account endpoints, as decisions.
//!
//! Each function takes what the HTTP layer and the document store have
//! delivered and returns what is to be answered. Looking an account up and
//! storing one are the caller's work.

use vstd::prelude::*;
use crate::config::{variable, variable_or, Environment};
use crate::identity::User;
use crate::password::{
    development_profile, hash_costs, hash_view, hashing, policy_costs, policy_verdict,
    production_profile, structure_verdict, verification, PasswordConfig, PasswordError,
    PasswordPolicyError, PasswordSecurity,
};
use crate::resolver::{
    bearer_of, header_view, resolve, AuthFailure, AuthMode, Resolution,
};
use crate::roles::UserRole;
use crate::text::{
    chars_of, join_text, lowercase_of, regex_is_match, regex_search, str_equals, to_lowercase, trim,
    trimmed,
};
use crate::token::{lifetime_seconds, text_view, TokenService};

verus! {

/// What a client sends to log in.
pub struct LoginRequest {
    pub email: String,
    pub password: String,
}

/// What a client sends to register.
pub struct RegisterRequest {
    pub email: String,
    pub password: String,
    pub first_name: Option<String>,
    pub last_name: Option<String>,
}

/// What a client sends to select its role.
pub struct RoleSelectionRequest {
    pub role: String,
}

/// What a client is told about an account.
#[derive(Debug)]
pub struct UserInfo {
    pub id: String,
    pub email: Option<String>,
    pub role: UserRole,
    pub first_name: Option<String>,
    pub last_name: Option<String>,
    pub name: String,
    pub onboarding_completed: bool,
}

/// `UserInfo` over character sequences.
pub struct UserInfoView {
    pub id: Seq<char>,
    pub email: Option<Seq<char>>,
    pub role: UserRole,
    pub first_name: Option<Seq<char>>,
    pub last_name: Option<Seq<char>>,
    pub name: Seq<char>,
    pub onboarding_completed: bool,
}

impl View for UserInfo {
    type V = UserInfoView;

    open spec fn view(&self) -> UserInfoView {
        UserInfoView {
            id: self.id@,
            email: text_view(self.email),
            role: self.role,
            first_name: text_view(self.first_name),
            last_name: text_view(self.last_name),
            name: self.name@,
            onboarding_completed: self.onboarding_completed,
        }
    }
}

/// The answer to a successful registration or login.
#[derive(Debug)]
pub struct LoginResponse {
    pub message: String,
    pub user: UserInfo,
    pub token: String,
}

/// The answer to a status query.
#[derive(Debug)]
pub struct AuthStatusResponse {
    pub is_authenticated: bool,
    pub user: Option<UserInfo>,
}

/// An account that passed registration and waits to be stored.
#[derive(Debug)]
pub struct NewAccount {
    /// The email as given, in lower case.
    pub email: String,
    pub password_hash: String,
    pub first_name: Option<String>,
    pub last_name: Option<String>,
}

/// What the store answered when asked for an account.
pub enum AccountLookup {
    Found(User),
    NotFound,
    /// The store could not be reached or failed.
    StoreError,
}

/// Administrator credentials that a development setup accepts without a
/// stored account. A caller hands them in only where the configuration names
/// the development environment.
pub struct DevelopmentAdmin {
    /// The identifier to give the stand-in account.
    pub id: String,
    pub email: String,
    pub password: String,
    pub first_name: Option<String>,
    pub last_name: Option<String>,
}

/// Why an account endpoint refused.
#[derive(Clone, Copy, Debug, PartialEq, Eq, Structural)]
pub enum AuthRejection {
    InvalidEmail,
    /// An account with the email exists already.
    EmailTaken,
    InvalidPassword,
    WeakPassword(PasswordPolicyError),
    InvalidRole,
    InvalidCredentials,
    AccountDeactivated,
    AdminRequired,
    Unauthenticated(AuthFailure),
    Internal,
}

/// HTTP status of a refusal: 400 for bad input, 401 for failed authentication,
/// 500 for failures of the service itself.
pub open spec fn rejection_status(rejection: AuthRejection) -> u16 {
    match rejection {
        AuthRejection::InvalidEmail => 400,
        AuthRejection::EmailTaken => 400,
        AuthRejection::InvalidPassword => 400,
        AuthRejection::WeakPassword(_) => 400,
        AuthRejection::InvalidRole => 400,
        AuthRejection::InvalidCredentials => 401,
        AuthRejection::AccountDeactivated => 401,
        AuthRejection::AdminRequired => 401,
        AuthRejection::Unauthenticated(_) => 401,
        AuthRejection::Internal => 500,
    }
}

/// What a client is told about a refusal. Failures of authentication are told
/// in general terms only; their cause stays inside.
#[derive(Clone, Copy, Debug, PartialEq, Eq, Structural)]
pub enum PublicReason {
    InvalidEmail,
    EmailTaken,
    InvalidPassword,
    WeakPassword(PasswordPolicyError),
    InvalidRole,
    /// The credentials presented do not open an account.
    InvalidCredentials,
    /// The request carries no valid token.
    InvalidAuthentication,
    InternalError,
}

/// What a client is told about a refusal: bad input is named, every failure of
/// credentials is `InvalidCredentials`, every failure of a token is
/// `InvalidAuthentication`.
pub open spec fn disclosed(rejection: AuthRejection) -> PublicReason {
    match rejection {
        AuthRejection::InvalidEmail => PublicReason::InvalidEmail,
        AuthRejection::EmailTaken => PublicReason::EmailTaken,
        AuthRejection::InvalidPassword => PublicReason::InvalidPassword,
        AuthRejection::WeakPassword(rule) => PublicReason::WeakPassword(rule),
        AuthRejection::InvalidRole => PublicReason::InvalidRole,
        AuthRejection::InvalidCredentials => PublicReason::InvalidCredentials,
        AuthRejection::AccountDeactivated => PublicReason::InvalidCredentials,
        AuthRejection::AdminRequired => PublicReason::InvalidCredentials,
        AuthRejection::Unauthenticated(_) => PublicReason::InvalidAuthentication,
        AuthRejection::Internal => PublicReason::InternalError,
    }
}

/// The pattern an email address has to match at registration.
pub open spec fn email_pattern() -> Seq<char> {
    "^[a-zA-Z0-9._%+-]+@[a-zA-Z0-9.-]+\\.[a-zA-Z]{2,}$"@
}

/// An email address is acceptable when the pattern matches it.
pub open spec fn email_acceptable(email: Seq<char>) -> bool {
    regex_search(email_pattern(), email) == Some(true)
}

/// The characters of an optional name, none meaning the empty string.
pub open spec fn name_part(part: Option<String>) -> Seq<char> {
    match part {
        Some(s) => s@,
        None => Seq::empty(),
    }
}

/// The name shown for an account: first and last name separated by a space and
/// trimmed, or `User` where nothing is left.
pub open spec fn display_name(first: Option<String>, last: Option<String>) -> Seq<char> {
    let joined = trimmed(name_part(first) + " "@ + name_part(last));
    if joined.len() == 0 {
        "User"@
    } else {
        joined
    }
}

/// What a client is told about a stored account. An account without a role is
/// shown as a player.
pub open spec fn user_info_of(user: User) -> UserInfoView {
    UserInfoView {
        id: user.id@,
        email: Some(user.email@),
        role: match user.role {
            Some(r) => r,
            None => UserRole::Player,
        },
        first_name: text_view(user.first_name),
        last_name: text_view(user.last_name),
        name: display_name(user.first_name, user.last_name),
        onboarding_completed: user.onboarding_completed,
    }
}

/// The role that a selection names: players and venue owners may select
/// themselves, administrators may not.
pub open spec fn selectable_role(name: Seq<char>) -> Option<UserRole> {
    if name == "player"@ || name == "Player"@ {
        Some(UserRole::Player)
    } else if name == "venue_owner"@ || name == "VenueOwner"@ {
        Some(UserRole::VenueOwner)
    } else {
        None
    }
}

/// Whether the credentials of a login open the account that was found.
///
/// Without an account, without a stored hash, with a hash that cannot be read
/// and with a password that does not match, the answer is the same:
/// `InvalidCredentials`. A matching password on a deactivated account is
/// `AccountDeactivated`.
pub open spec fn credentials_verdict(account: Option<User>, password: Seq<char>) -> Result<
    (),
    AuthRejection,
> {
    match account {
        None => Err(AuthRejection::InvalidCredentials),
        Some(user) => match user.password_hash {
            None => Err(AuthRejection::InvalidCredentials),
            Some(hash) => if verification(password, hash@) == Ok::<bool, PasswordError>(true) {
                if user.is_active {
                    Ok(())
                } else {
                    Err(AuthRejection::AccountDeactivated)
                }
            } else {
                Err(AuthRejection::InvalidCredentials)
            },
        },
    }
}

/// The status to answer a refusal with.
pub fn status_code(rejection: AuthRejection) -> (status: u16)
    ensures
        status == rejection_status(rejection),
        400 <= status <= 500,
{
    match rejection {
        AuthRejection::InvalidEmail => 400,
        AuthRejection::EmailTaken => 400,
        AuthRejection::InvalidPassword => 400,
        AuthRejection::WeakPassword(_) => 400,
        AuthRejection::InvalidRole => 400,
        AuthRejection::InvalidCredentials => 401,
        AuthRejection::AccountDeactivated => 401,
        AuthRejection::AdminRequired => 401,
        AuthRejection::Unauthenticated(_) => 401,
        AuthRejection::Internal => 500,
    }
}

/// What a client is told about a refusal.
pub fn public_reason(rejection: AuthRejection) -> (reason: PublicReason)
    ensures
        reason == disclosed(rejection),
{
    match rejection {
        AuthRejection::InvalidEmail => PublicReason::InvalidEmail,
        AuthRejection::EmailTaken => PublicReason::EmailTaken,
        AuthRejection::InvalidPassword => PublicReason::InvalidPassword,
        AuthRejection::WeakPassword(rule) => PublicReason::WeakPassword(rule),
        AuthRejection::InvalidRole => PublicReason::InvalidRole,
        AuthRejection::InvalidCredentials => PublicReason::InvalidCredentials,
        AuthRejection::AccountDeactivated => PublicReason::InvalidCredentials,
        AuthRejection::AdminRequired => PublicReason::InvalidCredentials,
        AuthRejection::Unauthenticated(_) => PublicReason::InvalidAuthentication,
        AuthRejection::Internal => PublicReason::InternalError,
    }
}

/// The form in which an email is stored and looked up: in lower case. An
/// account is stored under this form at registration, so a login finds it
/// however the address is capitalized.
pub fn normalized_email(email: &str) -> (normal: String)
    ensures
        normal@ == lowercase_of(email@),
{
    to_lowercase(email)
}

/// Whether an email address has the form asked for at registration.
pub fn validate_email(email: &str) -> (ok: bool)
    ensures
        ok == email_acceptable(email@),
{
    match regex_is_match("^[a-zA-Z0-9._%+-]+@[a-zA-Z0-9.-]+\\.[a-zA-Z]{2,}$", email) {
        Some(true) => true,
        _ => false,
    }
}

/// Whether a password has the least length that any profile accepts: that of
/// the relaxed profile, counted in characters as the policy counts. A password
/// that fails here fails every profile's policy.
pub fn validate_password(password: &str) -> (ok: bool)
    ensures
        ok == (password@.len() >= development_profile().min_length),
{
    password.unicode_len() >= PasswordConfig::development_config().min_length
}

fn clone_text(text: &Option<String>) -> (copy: Option<String>)
    ensures
        text_view(copy) == text_view(*text),
        copy == *text,
{
    match text {
        Some(s) => Some(s.clone()),
        None => None,
    }
}

fn part_of(part: &Option<String>) -> (s: &str)
    ensures
        s@ == name_part(*part),
{
    proof {
        reveal_strlit("");
    }
    match part {
        Some(s) => s.as_str(),
        None => "",
    }
}

/// What a client is told about an account.
pub fn user_to_info(user: &User) -> (info: UserInfo)
    ensures
        info@ == user_info_of(*user),
        info.name@.len() > 0,
{
    proof {
        reveal_strlit("");
        reveal_strlit("User");
    }
    let first_and_space = join_text(part_of(&user.first_name), " ");
    let joined = join_text(first_and_space.as_str(), part_of(&user.last_name));
    let name = trim(joined.as_str());
    let shown = if name.unicode_len() == 0 {
        "User".to_owned()
    } else {
        name.to_owned()
    };
    UserInfo {
        id: user.id.clone(),
        email: Some(user.email.clone()),
        role: match user.role {
            Some(r) => r,
            None => UserRole::Player,
        },
        first_name: clone_text(&user.first_name),
        last_name: clone_text(&user.last_name),
        name: shown,
        onboarding_completed: user.onboarding_completed,
    }
}

/// What a registration comes to, given the estimator's score for the password
/// and the salt to hash under: the hash to store, or the refusal.
///
/// The email must match the pattern, else `InvalidEmail`. The password must
/// meet the policy, else `WeakPassword` with the rule broken. Any other
/// failure of hashing is `Internal`.
pub open spec fn registration(
    config: PasswordConfig,
    request: RegisterRequest,
    score: Option<u8>,
    salt: Seq<char>,
) -> Result<Seq<char>, AuthRejection> {
    if !email_acceptable(request.email@) {
        Err(AuthRejection::InvalidEmail)
    } else {
        match hashing(config, request.password@, score, salt) {
            Ok(hash) => Ok(hash),
            Err(PasswordError::Policy(rule)) => Err(AuthRejection::WeakPassword(rule)),
            Err(_) => Err(AuthRejection::Internal),
        }
    }
}

/// Whether a prepared account is the one that a registration comes to.
pub open spec fn registration_met(
    checked: Result<NewAccount, AuthRejection>,
    expected: Result<Seq<char>, AuthRejection>,
    request: RegisterRequest,
) -> bool {
    match expected {
        Ok(hash) => {
            &&& checked is Ok
            &&& checked->Ok_0.password_hash@ == hash
            &&& checked->Ok_0.email@ == lowercase_of(request.email@)
            &&& checked->Ok_0.first_name == request.first_name
            &&& checked->Ok_0.last_name == request.last_name
        },
        Err(e) => checked is Err && checked->Err_0 == e,
    }
}

fn prepare(request: &RegisterRequest, hashed: Result<String, PasswordError>) -> (checked: Result<
    NewAccount,
    AuthRejection,
>)
    ensures
        registration_met(
            checked,
            match hash_view(hashed) {
                Ok(hash) => Ok(hash),
                Err(PasswordError::Policy(rule)) => Err(AuthRejection::WeakPassword(rule)),
                Err(_) => Err(AuthRejection::Internal),
            },
            *request,
        ),
{
    match hashed {
        Err(PasswordError::Policy(rule)) => Err(AuthRejection::WeakPassword(rule)),
        Err(_) => Err(AuthRejection::Internal),
        Ok(hash) => Ok(
            NewAccount {
                email: normalized_email(request.email.as_str()),
                password_hash: hash,
                first_name: clone_text(&request.first_name),
                last_name: clone_text(&request.last_name),
            },
        ),
    }
}

/// Tests a registration, given the estimator's score and the salt, and where
/// it passes prepares the account to store.
///
/// The result is exactly `registration`. The account carries the email in
/// lower case and a hash that embeds the policy's cost parameters and
/// verifies against the password.
pub fn register_with(
    security: &PasswordSecurity,
    request: &RegisterRequest,
    score: Option<u8>,
    salt: &str,
) -> (checked: Result<NewAccount, AuthRejection>)
    ensures
        registration_met(checked, registration(security.policy(), *request, score, salt@), *request),
        checked matches Ok(account) ==> {
            &&& verification(request.password@, account.password_hash@) == Ok::<
                bool,
                PasswordError,
            >(true)
            &&& hash_costs(account.password_hash@) == Some(policy_costs(security.policy()))
        },
{
    if !validate_email(request.email.as_str()) {
        return Err(AuthRejection::InvalidEmail);
    }
    prepare(request, security.hash_password_with(request.password.as_str(), score, salt))
}

/// Tests a registration and, where it passes, prepares the account to store.
///
/// The estimator is asked and a salt is drawn; the result is that of
/// `register_with` for the two. An email that does not match the pattern is
/// `InvalidEmail`; a password that fails the policy is `WeakPassword` with the
/// rule broken, and it is hashed only where it meets the policy.
pub fn register(security: &PasswordSecurity, request: &RegisterRequest) -> (checked:
    Result<NewAccount, AuthRejection>)
    ensures
        exists|score: Option<u8>, salt: Seq<char>|
            (score matches Some(s) ==> s <= 4) && registration_met(
                checked,
                #[trigger] registration(security.policy(), *request, score, salt),
                *request,
            ),
        !email_acceptable(request.email@) ==> checked is Err && checked->Err_0
            == AuthRejection::InvalidEmail,
        email_acceptable(request.email@) && structure_verdict(
            security.policy(),
            request.password@,
        ) is Err ==> checked is Err && checked->Err_0 == AuthRejection::WeakPassword(
            structure_verdict(security.policy(), request.password@)->Err_0,
        ),
        checked matches Ok(account) ==> {
            &&& email_acceptable(request.email@)
            &&& structure_verdict(security.policy(), request.password@) is Ok
            &&& account.email@ == lowercase_of(request.email@)
            &&& verification(request.password@, account.password_hash@) == Ok::<
                bool,
                PasswordError,
            >(true)
            &&& hash_costs(account.password_hash@) == Some(policy_costs(security.policy()))
            &&& account.first_name == request.first_name
            &&& account.last_name == request.last_name
        },
{
    if !validate_email(request.email.as_str()) {
        assert(registration(security.policy(), *request, None, Seq::empty()) == Err::<
            Seq<char>,
            AuthRejection,
        >(AuthRejection::InvalidEmail));
        return Err(AuthRejection::InvalidEmail);
    }
    let hashed = security.hash_password(request.password.as_str());
    let checked = prepare(request, hashed);
    proof {
        let (score, salt) = choose|score: Option<u8>, salt: Seq<char>|
            (score matches Some(s) ==> s <= 4) && hash_view(hashed) == #[trigger] hashing(
                security.policy(),
                request.password@,
                score,
                salt,
            );
        assert(registration_met(
            checked,
            registration(security.policy(), *request, score, salt),
            *request,
        ));
    }
    checked
}

/// Decides whether a checked registration may be stored: the email must not
/// belong to an account already.
pub fn accept_registration(existing: Option<&User>) -> (verdict: Result<(), AuthRejection>)
    ensures
        verdict == (match existing {
            Some(_) => Err::<(), AuthRejection>(AuthRejection::EmailTaken),
            None => Ok::<(), AuthRejection>(()),
        }),
{
    match existing {
        Some(_) => Err(AuthRejection::EmailTaken),
        None => Ok(()),
    }
}

fn respond(service: &TokenService, user: &User, message: &str, now: u64) -> (response: Result<
    LoginResponse,
    AuthRejection,
>)
    ensures
        match response {
            Ok(r) => {
                &&& now + lifetime_seconds(service.token_lifetime()) <= u64::MAX
                &&& service.token_for(*user, now) == Some(r.token@)
                &&& r.user@ == user_info_of(*user)
                &&& r.message@ == message@
            },
            Err(e) => {
                &&& e == AuthRejection::Internal
                &&& (now + lifetime_seconds(service.token_lifetime()) > u64::MAX
                    || service.token_for(*user, now) is None)
            },
        },
{
    match service.issue_at(user, now) {
        Ok(token) => Ok(LoginResponse { message: message.to_owned(), user: user_to_info(user), token }),
        Err(_) => Err(AuthRejection::Internal),
    }
}

/// The answer to a registration once the account is stored: a token for it,
/// to be sent with status 201.
pub fn registered(service: &TokenService, user: &User, now: u64) -> (response: Result<
    LoginResponse,
    AuthRejection,
>)
    ensures
        match response {
            Ok(r) => {
                &&& service.token_for(*user, now) == Some(r.token@)
                &&& r.user@ == user_info_of(*user)
                &&& r.message@ == "User registered successfully"@
            },
            Err(e) => {
                &&& e == AuthRejection::Internal
                &&& (now + lifetime_seconds(service.token_lifetime()) > u64::MAX
                    || service.token_for(*user, now) is None)
            },
        },
{
    respond(service, user, "User registered successfully", now)
}

/// Decides a login.
///
/// `account` is what the store holds under the email of the request. The
/// credentials are judged as `credentials_verdict` says; where they pass, the
/// answer carries a token issued at `now`.
pub fn login(
    security: &PasswordSecurity,
    service: &TokenService,
    account: Option<&User>,
    request: &LoginRequest,
    now: u64,
) -> (response: Result<LoginResponse, AuthRejection>)
    ensures
        match credentials_verdict(account_view(account), request.password@) {
            Err(e) => response is Err && response->Err_0 == e,
            Ok(_) => match response {
                Ok(r) => {
                    &&& service.token_for(*account->Some_0, now) == Some(r.token@)
                    &&& r.user@ == user_info_of(*account->Some_0)
                    &&& r.message@ == "Login successful"@
                },
                Err(e) => {
                    &&& e == AuthRejection::Internal
                    &&& (now + lifetime_seconds(service.token_lifetime()) > u64::MAX
                        || service.token_for(*account->Some_0, now) is None)
                },
            },
        },
{
    let user = match account {
        Some(user) => user,
        None => {
            return Err(AuthRejection::InvalidCredentials);
        },
    };
    let hash = match &user.password_hash {
        Some(hash) => hash,
        None => {
            return Err(AuthRejection::InvalidCredentials);
        },
    };
    match security.verify_password(request.password.as_str(), hash.as_str()) {
        Ok(true) => {},
        _ => {
            return Err(AuthRejection::InvalidCredentials);
        },
    }
    if !user.is_active {
        return Err(AuthRejection::AccountDeactivated);
    }
    respond(service, user, "Login successful", now)
}

/// The account behind an optional reference.
pub open spec fn account_view(account: Option<&User>) -> Option<User> {
    match account {
        Some(u) => Some(*u),
        None => None,
    }
}

/// The role that a selection names.
pub fn parse_selected_role(name: &str) -> (role: Option<UserRole>)
    ensures
        role == selectable_role(name@),
{
    if str_equals(name, "player") || str_equals(name, "Player") {
        Some(UserRole::Player)
    } else if str_equals(name, "venue_owner") || str_equals(name, "VenueOwner") {
        Some(UserRole::VenueOwner)
    } else {
        None
    }
}

/// What the account endpoint `me` answers: the account of the caller, or a
/// refusal where there is none.
pub fn get_me(caller: Option<&User>) -> (answer: Result<UserInfo, AuthRejection>)
    ensures
        match caller {
            Some(user) => answer is Ok && answer->Ok_0@ == user_info_of(*user),
            None => answer is Err && answer->Err_0 == AuthRejection::Unauthenticated(
                AuthFailure::MissingCredentials,
            ),
        },
{
    match caller {
        Some(user) => Ok(user_to_info(user)),
        None => Err(AuthRejection::Unauthenticated(AuthFailure::MissingCredentials)),
    }
}

/// A password that `validate_password` refuses is too short for both
/// profiles, whatever its score.
pub proof fn short_password_fails_every_profile(password: Seq<char>, score: Option<u8>)
    requires
        password.len() < development_profile().min_length,
    ensures
        policy_verdict(development_profile(), password, score) == Err::<(), PasswordPolicyError>(
            PasswordPolicyError::TooShort,
        ),
        policy_verdict(production_profile(), password, score) == Err::<(), PasswordPolicyError>(
            PasswordPolicyError::TooShort,
        ),
{
}

/// Every way in which the credentials of a login can fail is told to the
/// client in the same words and with the same status: a client cannot tell a
/// wrong password from an unknown or a deactivated account.
pub proof fn login_failures_are_told_alike(account: Option<User>, password: Seq<char>)
    ensures
        credentials_verdict(account, password) matches Err(e) ==> disclosed(e)
            == PublicReason::InvalidCredentials && rejection_status(e) == 401,
{
}

/// No selection makes an administrator: that role is given, never chosen.
pub proof fn selection_never_grants_admin(name: Seq<char>)
    ensures
        selectable_role(name) != Some(UserRole::Admin),
{
}

/// A login is answered with 401 whenever the account is deactivated, whether
/// or not the password is right, and never with a success.
pub proof fn deactivated_login_is_unauthorized(user: User, password: Seq<char>)
    requires
        !user.is_active,
    ensures
        credentials_verdict(Some(user), password) is Err,
        rejection_status(credentials_verdict(Some(user), password)->Err_0) == 401,
{
}

/// Every failure of the credentials, whatever its cause, is answered with 401.
pub proof fn failed_login_is_unauthorized(account: Option<User>, password: Seq<char>)
    ensures
        credentials_verdict(account, password) matches Err(e) ==> rejection_status(e) == 401,
{
}

/// The stages of an administrator login that need neither hasher nor signer.
#[derive(Clone, Copy, Debug, PartialEq, Eq, Structural)]
pub enum AdminLoginPath {
    /// The request is answered with this refusal.
    Refused(AuthRejection),
    /// The stored account is an active administrator's and its password matched.
    StoredAccount,
    /// The stored account did not open; the development credentials decide.
    DevelopmentCredentials,
}

/// Whether an email has the least form asked of a login: not empty, with an `@`.
pub open spec fn login_email_plausible(email: Seq<char>) -> bool {
    email.len() > 0 && email.contains('@')
}

/// Whether the password opens the stored account.
pub open spec fn stored_password_matches(user: User, password: Seq<char>) -> bool {
    user.password_hash matches Some(hash) && verification(password, hash@) == Ok::<
        bool,
        PasswordError,
    >(true)
}

/// Whether a request presents the development credentials.
pub open spec fn development_credentials_match(
    fallback: Option<DevelopmentAdmin>,
    request: LoginRequest,
) -> bool {
    fallback matches Some(admin) && request.email@ == admin.email@ && request.password@
        == admin.password@
}

/// The development credentials of an environment: none but in `development`,
/// where email and password are those of the variables `ADMIN_EMAIL` and
/// `ADMIN_PASSWORD`, with defaults where they are not set.
pub open spec fn development_admin_matches(
    admin: Option<DevelopmentAdmin>,
    environment: Seq<char>,
    variables: Seq<(String, String)>,
    id: Seq<char>,
) -> bool {
    if environment == "development"@ {
        &&& admin is Some
        &&& admin->Some_0.id@ == id
        &&& admin->Some_0.email@ == variable_or(variables, "ADMIN_EMAIL"@, "jessica@mabar.com"@)
        &&& admin->Some_0.password@ == variable_or(variables, "ADMIN_PASSWORD"@, "Admin123!"@)
        &&& text_view(admin->Some_0.first_name) == variable(variables, "ADMIN_FIRST_NAME"@)
        &&& text_view(admin->Some_0.last_name) == variable(variables, "ADMIN_LAST_NAME"@)
    } else {
        admin is None
    }
}

impl DevelopmentAdmin {
    /// The development credentials for the named environment, with `id` as the
    /// identifier of the stand-in account. Only the environment `development`
    /// has any.
    pub fn for_environment(environment: &str, env: &Environment, id: String) -> (admin: Option<
        DevelopmentAdmin,
    >)
        ensures
            development_admin_matches(admin, environment@, env.variables@, id@),
    {
        if !str_equals(environment, "development") {
            return None;
        }
        let first_name = match env.get("ADMIN_FIRST_NAME") {
            Some(v) => Some(v.to_owned()),
            None => None,
        };
        let last_name = match env.get("ADMIN_LAST_NAME") {
            Some(v) => Some(v.to_owned()),
            None => None,
        };
        Some(
            DevelopmentAdmin {
                id,
                email: env.get_or("ADMIN_EMAIL", "jessica@mabar.com"),
                password: env.get_or("ADMIN_PASSWORD", "Admin123!"),
                first_name,
                last_name,
            },
        )
    }
}

/// The way an administrator login takes.
///
/// An implausible email and an empty password are refused as bad input. A
/// failing store is an internal error. A stored account that is no
/// administrator's is refused outright, and so is a deactivated one whose
/// password matched. A stored account whose password matched is the way in.
/// In every other case the development credentials decide, where there are any.
pub open spec fn admin_login_path(
    request: LoginRequest,
    lookup: AccountLookup,
    fallback: Option<DevelopmentAdmin>,
) -> AdminLoginPath {
    if !login_email_plausible(request.email@) {
        AdminLoginPath::Refused(AuthRejection::InvalidEmail)
    } else if request.password@.len() == 0 {
        AdminLoginPath::Refused(AuthRejection::InvalidPassword)
    } else if lookup is StoreError {
        AdminLoginPath::Refused(AuthRejection::Internal)
    } else if lookup matches AccountLookup::Found(user) && user.role != Some(UserRole::Admin) {
        AdminLoginPath::Refused(AuthRejection::AdminRequired)
    } else if lookup matches AccountLookup::Found(user) && stored_password_matches(
        user,
        request.password@,
    ) {
        if lookup->Found_0.is_active {
            AdminLoginPath::StoredAccount
        } else {
            AdminLoginPath::Refused(AuthRejection::AccountDeactivated)
        }
    } else if development_credentials_match(fallback, request) {
        AdminLoginPath::DevelopmentCredentials
    } else {
        AdminLoginPath::Refused(AuthRejection::InvalidCredentials)
    }
}

/// The stand-in account for development credentials: an active, onboarded
/// administrator without a stored password.
pub open spec fn development_account(admin: DevelopmentAdmin, now: u64) -> User {
    User {
        id: admin.id,
        email: admin.email,
        password_hash: None,
        first_name: admin.first_name,
        last_name: admin.last_name,
        role: Some(UserRole::Admin),
        is_active: true,
        onboarding_completed: true,
        created_at: now,
        updated_at: now,
    }
}

fn contains_at_sign(chars: &Vec<char>) -> (found: bool)
    ensures
        found == chars@.contains('@'),
{
    let mut i: usize = 0;
    while i < chars.len()
        invariant
            i <= chars.len(),
            forall|j: int| 0 <= j < i ==> chars@[j] != '@',
        decreases chars.len() - i,
    {
        if chars[i] == '@' {
            return true;
        }
        i += 1;
    }
    false
}

fn matches_development_credentials(fallback: Option<&DevelopmentAdmin>, request: &LoginRequest) -> (yes:
    bool)
    ensures
        yes == development_credentials_match(
            match fallback {
                Some(a) => Some(*a),
                None => None,
            },
            *request,
        ),
{
    match fallback {
        Some(admin) => request.email.eq(&admin.email) && request.password.eq(&admin.password),
        None => false,
    }
}

/// Decides an administrator login.
///
/// The way taken is `admin_login_path`. Through a stored account the answer
/// describes that account; through development credentials it describes the
/// stand-in account. Either way the token is issued at `now`.
pub fn admin_login(
    security: &PasswordSecurity,
    service: &TokenService,
    request: &LoginRequest,
    lookup: &AccountLookup,
    fallback: Option<&DevelopmentAdmin>,
    now: u64,
) -> (response: Result<LoginResponse, AuthRejection>)
    ensures
        match admin_login_path(
            *request,
            *lookup,
            match fallback {
                Some(a) => Some(*a),
                None => None,
            },
        ) {
            AdminLoginPath::Refused(e) => response is Err && response->Err_0 == e,
            AdminLoginPath::StoredAccount => match response {
                Ok(r) => {
                    &&& now + lifetime_seconds(service.token_lifetime()) <= u64::MAX
                    &&& service.token_for(lookup->Found_0, now) == Some(r.token@)
                    &&& r.user@ == user_info_of(lookup->Found_0)
                    &&& r.user.role == UserRole::Admin
                    &&& r.message@ == "Login successful"@
                },
                Err(e) => {
                    &&& e == AuthRejection::Internal
                    &&& (now + lifetime_seconds(service.token_lifetime()) > u64::MAX
                        || service.token_for(lookup->Found_0, now) is None)
                },
            },
            AdminLoginPath::DevelopmentCredentials => match response {
                Ok(r) => {
                    &&& now + lifetime_seconds(service.token_lifetime()) <= u64::MAX
                    &&& service.token_for(development_account(*fallback->Some_0, now), now) == Some(
                        r.token@,
                    )
                    &&& r.user@ == user_info_of(development_account(*fallback->Some_0, now))
                    &&& r.user.role == UserRole::Admin
                    &&& r.message@ == "Login successful"@
                },
                Err(e) => {
                    &&& e == AuthRejection::Internal
                    &&& (now + lifetime_seconds(service.token_lifetime()) > u64::MAX
                        || service.token_for(development_account(*fallback->Some_0, now), now)
                        is None)
                },
            },
        },
{
    let email = chars_of(request.email.as_str());
    if email.len() == 0 || !contains_at_sign(&email) {
        return Err(AuthRejection::InvalidEmail);
    }
    if request.password.as_str().unicode_len() == 0 {
        return Err(AuthRejection::InvalidPassword);
    }
    match lookup {
        AccountLookup::StoreError => {
            return Err(AuthRejection::Internal);
        },
        AccountLookup::NotFound => {},
        AccountLookup::Found(user) => {
            match user.role {
                Some(UserRole::Admin) => {},
                _ => {
                    return Err(AuthRejection::AdminRequired);
                },
            }
            match &user.password_hash {
                Some(hash) => {
                    match security.verify_password(request.password.as_str(), hash.as_str()) {
                        Ok(true) => {
                            if !user.is_active {
                                return Err(AuthRejection::AccountDeactivated);
                            }
                            return respond(service, user, "Login successful", now);
                        },
                        _ => {},
                    }
                },
                None => {},
            }
        },
    }
    if matches_development_credentials(fallback, request) {
        let admin = fallback.unwrap();
        let stand_in = User {
            id: admin.id.clone(),
            email: admin.email.clone(),
            password_hash: None,
            first_name: clone_text(&admin.first_name),
            last_name: clone_text(&admin.last_name),
            role: Some(UserRole::Admin),
            is_active: true,
            onboarding_completed: true,
            created_at: now,
            updated_at: now,
        };
        return respond(service, &stand_in, "Login successful", now);
    }
    Err(AuthRejection::InvalidCredentials)
}

/// What a client is told about a caller known only from a token: no names,
/// the email as display name (or `Unknown User`), player where the token names
/// no role, and onboarding taken as completed.
pub open spec fn caller_info(caller: crate::identity::AuthenticatedUserView) -> UserInfoView {
    UserInfoView {
        id: caller.id,
        email: caller.email,
        role: match caller.role {
            Some(r) => r,
            None => UserRole::Player,
        },
        first_name: None,
        last_name: None,
        name: match caller.email {
            Some(e) => e,
            None => "Unknown User"@,
        },
        onboarding_completed: true,
    }
}

/// Answers a status query. It never refuses: without a valid token the caller
/// is simply not authenticated.
pub fn auth_status(service: &TokenService, header: Option<&str>, now: u64) -> (status:
    AuthStatusResponse)
    ensures
        status.is_authenticated == status.user is Some,
        match bearer_of(header_view(header)) {
            None => !status.is_authenticated,
            Some(token) => match service.validation(token, now) {
                Ok(claims) => status.is_authenticated && status.user->Some_0@ == caller_info(
                    crate::resolver::caller_of(claims),
                ),
                Err(_) => !status.is_authenticated,
            },
        },
{
    match resolve(service, header, AuthMode::Optional, now) {
        Ok(Resolution::Authenticated(caller)) => {
            let name = match &caller.email {
                Some(e) => e.clone(),
                None => "Unknown User".to_owned(),
            };
            let info = UserInfo {
                id: caller.id,
                email: caller.email,
                role: match caller.role {
                    Some(r) => r,
                    None => UserRole::Player,
                },
                first_name: None,
                last_name: None,
                name,
                onboarding_completed: true,
            };
            AuthStatusResponse { is_authenticated: true, user: Some(info) }
        },
        _ => AuthStatusResponse { is_authenticated: false, user: None },
    }
}

/// Decides a role selection.
///
/// The caller must present a valid token, else the request is refused as
/// unauthenticated with the reason. The role must be one a user may select,
/// else `InvalidRole`.
pub fn set_user_role(
    service: &TokenService,
    header: Option<&str>,
    request: &RoleSelectionRequest,
    now: u64,
) -> (selected: Result<UserRole, AuthRejection>)
    ensures
        match bearer_of(header_view(header)) {
            None => selected is Err && selected->Err_0 == AuthRejection::Unauthenticated(
                AuthFailure::MissingCredentials,
            ),
            Some(token) => match service.validation(token, now) {
                Ok(_) => match selectable_role(request.role@) {
                    Some(role) => selected is Ok && selected->Ok_0 == role,
                    None => selected is Err && selected->Err_0 == AuthRejection::InvalidRole,
                },
                Err(e) => selected is Err && selected->Err_0 == AuthRejection::Unauthenticated(
                    crate::resolver::auth_failure_of(e),
                ),
            },
        },
{
    match resolve(service, header, AuthMode::Required, now) {
        Err(failure) => Err(AuthRejection::Unauthenticated(failure)),
        Ok(Resolution::Anonymous) => Err(
            AuthRejection::Unauthenticated(AuthFailure::MissingCredentials),
        ),
        Ok(Resolution::Authenticated(_)) => match parse_selected_role(request.role.as_str()) {
            Some(role) => Ok(role),
            None => Err(AuthRejection::InvalidRole),
        },
    }
}

} // verus!
