//! Session tokens: what they claim, how they are issued, and when they are valid.
//!
//! A token is a JSON Web Token signed with HMAC-SHA256, made and opened by the
//! `jsonwebtoken` crate. Which claims go in, how long they live, and every test
//! on what comes out are decided here, against a clock value that the caller
//! hands in.

use vstd::prelude::*;
use jsonwebtoken::{Algorithm, DecodingKey, EncodingKey, Header, Validation};
use jsonwebtoken::errors::ErrorKind;
use crate::identity::User;
use crate::json::{
    as_item, json_member, json_member_of, member_named, members_view, JsonItem, JsonItemView,
    JsonScalar, JsonScalarView,
};
use crate::roles::UserRole;
use crate::text::str_equals;

verus! {

/// The error type of the `jsonwebtoken` crate.
#[verifier::external_type_specification]
#[verifier::external_body]
pub struct ExJwtError(jsonwebtoken::errors::Error);

/// The token that `jsonwebtoken::encode` makes under HS256 from a JSON object
/// of the given members and the secret, or `None` where it reports an error.
pub uninterp spec fn signed_token(
    members: Seq<(Seq<char>, JsonScalarView)>,
    secret: Seq<char>,
) -> Option<Seq<char>>;

/// What `jsonwebtoken::decode` makes of a token under HS256 and the secret: the
/// claims as JSON text where it accepts framing, header and signature, else
/// the reason for which it refuses.
pub uninterp spec fn opened_payload(token: Seq<char>, secret: Seq<char>) -> Result<
    Seq<char>,
    JwtFailure,
>;

/// The longest time, in seconds, that a token is honoured after it was issued,
/// whatever expiry it carries: 7 days.
pub const MAX_TOKEN_AGE: u64 = 604_800;

/// How long a token lives.
#[derive(Clone, Copy, Debug, PartialEq, Eq, Structural)]
pub enum TokenLifetime {
    SevenDays,
    OneDay,
    OneHour,
    FifteenMinutes,
}

/// Why a token was not issued or not accepted.
#[derive(Clone, Copy, Debug, PartialEq, Eq, Structural)]
pub enum TokenError {
    /// The expiry has passed, or the token was issued more than the maximum age ago.
    Expired,
    /// The signature does not belong to the token under this service's secret.
    BadSignature,
    /// The token cannot be read: bad framing, bad encoding, claims that do not
    /// fit the schema, or an issuer other than this service.
    Malformed,
    /// The signer reported a failure.
    SigningFailed,
    /// The clock value does not leave room for the lifetime.
    ClockOutOfRange,
}

/// Why `jsonwebtoken` refused a token.
#[derive(Clone, Copy, Debug, PartialEq, Eq, Structural)]
pub enum JwtFailure {
    /// The token does not consist of three parts.
    InvalidToken,
    /// The signature is not that of the first two parts under the secret.
    InvalidSignature,
    /// The header names an algorithm other than HS256.
    InvalidAlgorithm,
    /// A part is not base64.
    Base64,
    /// A part is not JSON of the expected shape.
    Json,
    /// Any other refusal.
    Other,
}

/// The payload of a token.
#[derive(Debug)]
pub struct Claims {
    /// The subject: the account's identifier.
    pub id: String,
    pub email: Option<String>,
    pub role: Option<UserRole>,
    /// Expiry, in seconds since the Unix epoch.
    pub exp: u64,
    /// Time of issue, in seconds since the Unix epoch.
    pub iat: Option<u64>,
    /// Issuer.
    pub iss: Option<String>,
}

/// `Claims` over character sequences.
pub struct ClaimsView {
    pub id: Seq<char>,
    pub email: Option<Seq<char>>,
    pub role: Option<UserRole>,
    pub exp: u64,
    pub iat: Option<u64>,
    pub iss: Option<Seq<char>>,
}

impl View for Claims {
    type V = ClaimsView;

    open spec fn view(&self) -> ClaimsView {
        ClaimsView {
            id: self.id@,
            email: text_view(self.email),
            role: self.role,
            exp: self.exp,
            iat: self.iat,
            iss: text_view(self.iss),
        }
    }
}

/// Issues and validates tokens under one secret.
pub struct TokenService {
    secret: String,
    lifetime: TokenLifetime,
}

/// The characters of an optional string.
pub open spec fn text_view(text: Option<String>) -> Option<Seq<char>> {
    match text {
        Some(s) => Some(s@),
        None => None,
    }
}

/// The issuer that this service writes into its tokens.
pub open spec fn service_issuer() -> Seq<char> {
    "MaBar-Auth-Service"@
}

/// Seconds that a lifetime lasts.
pub open spec fn lifetime_seconds(lifetime: TokenLifetime) -> u64 {
    match lifetime {
        TokenLifetime::SevenDays => 604_800,
        TokenLifetime::OneDay => 86_400,
        TokenLifetime::OneHour => 3_600,
        TokenLifetime::FifteenMinutes => 900,
    }
}

/// The lifetime that a preset names; any unknown preset means seven days.
pub open spec fn lifetime_for(preset: Seq<char>) -> TokenLifetime {
    if preset == "1d"@ {
        TokenLifetime::OneDay
    } else if preset == "1h"@ {
        TokenLifetime::OneHour
    } else if preset == "15m"@ {
        TokenLifetime::FifteenMinutes
    } else {
        TokenLifetime::SevenDays
    }
}

/// The name under which a role travels in a token.
pub open spec fn role_name(role: UserRole) -> Seq<char> {
    match role {
        UserRole::Player => "Player"@,
        UserRole::VenueOwner => "VenueOwner"@,
        UserRole::Admin => "Admin"@,
    }
}

/// The role that a name in a token stands for.
pub open spec fn role_named(name: Seq<char>) -> Option<UserRole> {
    if name == "Player"@ {
        Some(UserRole::Player)
    } else if name == "VenueOwner"@ {
        Some(UserRole::VenueOwner)
    } else if name == "Admin"@ {
        Some(UserRole::Admin)
    } else {
        None
    }
}

/// The claims written for an account at time `now`.
pub open spec fn claims_for(
    id: Seq<char>,
    email: Seq<char>,
    role: Option<UserRole>,
    now: u64,
    lifetime: TokenLifetime,
) -> ClaimsView {
    ClaimsView {
        id,
        email: Some(email),
        role,
        exp: (now + lifetime_seconds(lifetime)) as u64,
        iat: Some(now),
        iss: Some(service_issuer()),
    }
}

/// An optional text as a written member: `null` where there is none.
pub open spec fn optional_member(text: Option<Seq<char>>) -> JsonScalarView {
    match text {
        Some(s) => JsonScalarView::Text(s),
        None => JsonScalarView::Null,
    }
}

/// The members that claims are written as: `id`, `email`, `role`, `exp`,
/// `iat`, `iss`, in this order, what is absent written as `null`.
pub open spec fn claim_members(claims: ClaimsView) -> Seq<(Seq<char>, JsonScalarView)> {
    seq![
        ("id"@, JsonScalarView::Text(claims.id)),
        ("email"@, optional_member(claims.email)),
        (
            "role"@,
            match claims.role {
                Some(role) => JsonScalarView::Text(role_name(role)),
                None => JsonScalarView::Null,
            },
        ),
        ("exp"@, JsonScalarView::Number(claims.exp)),
        (
            "iat"@,
            match claims.iat {
                Some(issued) => JsonScalarView::Number(issued),
                None => JsonScalarView::Null,
            },
        ),
        ("iss"@, optional_member(claims.iss)),
    ]
}

/// The members of a token that names an identifier, an expiry and a time of
/// issue and nothing else.
pub open spec fn bare_members(id: Seq<char>, exp: u64, iat: u64) -> Seq<(Seq<char>, JsonScalarView)> {
    seq![
        ("id"@, JsonScalarView::Text(id)),
        ("exp"@, JsonScalarView::Number(exp)),
        ("iat"@, JsonScalarView::Number(iat)),
    ]
}

/// Seconds since a token was issued; zero for one issued after `now`.
pub open spec fn token_age(issued: u64, now: u64) -> int {
    if now >= issued {
        now - issued
    } else {
        0
    }
}

/// The tests on a token's claims at time `now`: they must say when the token
/// was issued, it must not have reached its expiry, must not be older than the
/// maximum age, and must name this service as issuer if it names any.
pub open spec fn claims_verdict(claims: ClaimsView, now: u64) -> Result<(), TokenError> {
    if claims.iat is None {
        Err(TokenError::Malformed)
    } else if claims.exp <= now {
        Err(TokenError::Expired)
    } else if token_age(claims.iat->Some_0, now) > MAX_TOKEN_AGE {
        Err(TokenError::Expired)
    } else if claims.iss is Some && claims.iss != Some(service_issuer()) {
        Err(TokenError::Malformed)
    } else {
        Ok(())
    }
}

/// An optional text member: absent and `null` mean none, a string means itself.
pub open spec fn optional_text(item: JsonItemView) -> Result<Option<Seq<char>>, TokenError> {
    match item {
        JsonItemView::Missing | JsonItemView::Null => Ok(None),
        JsonItemView::Text(s) => Ok(Some(s)),
        _ => Err(TokenError::Malformed),
    }
}

/// The optional role member: a string must name a role.
pub open spec fn optional_role(item: JsonItemView) -> Result<Option<UserRole>, TokenError> {
    match item {
        JsonItemView::Missing | JsonItemView::Null => Ok(None),
        JsonItemView::Text(s) => match role_named(s) {
            Some(role) => Ok(Some(role)),
            None => Err(TokenError::Malformed),
        },
        _ => Err(TokenError::Malformed),
    }
}

/// The claims that six members of a JSON object make up. `id` must be a
/// string, `exp` and `iat` numbers; `email`, `role` and `iss` may be absent or
/// `null`.
pub open spec fn claims_from_members(
    id: JsonItemView,
    email: JsonItemView,
    role: JsonItemView,
    exp: JsonItemView,
    iat: JsonItemView,
    iss: JsonItemView,
) -> Result<ClaimsView, TokenError> {
    if !(id is Text) || !(exp is Number) || !(iat is Number) || optional_text(email) is Err
        || optional_role(role) is Err || optional_text(iss) is Err {
        Err(TokenError::Malformed)
    } else {
        Ok(
            ClaimsView {
                id: id->Text_0,
                email: optional_text(email)->Ok_0,
                role: optional_role(role)->Ok_0,
                exp: exp->Number_0,
                iat: Some(iat->Number_0),
                iss: optional_text(iss)->Ok_0,
            },
        )
    }
}

/// The claims that a JSON text holds.
pub open spec fn claims_in(json: Seq<char>) -> Result<ClaimsView, TokenError> {
    claims_from_members(
        json_member_of(json, "id"@),
        json_member_of(json, "email"@),
        json_member_of(json, "role"@),
        json_member_of(json, "exp"@),
        json_member_of(json, "iat"@),
        json_member_of(json, "iss"@),
    )
}

/// What validation makes of claims that were read from a token.
pub open spec fn judged(read: Result<ClaimsView, TokenError>, now: u64) -> Result<
    ClaimsView,
    TokenError,
> {
    match read {
        Err(e) => Err(e),
        Ok(claims) => match claims_verdict(claims, now) {
            Err(e) => Err(e),
            Ok(_) => Ok(claims),
        },
    }
}

/// How a refusal by `jsonwebtoken` is reported: a wrong signature as such,
/// everything else as a token that cannot be read.
pub open spec fn failure_class(failure: JwtFailure) -> TokenError {
    match failure {
        JwtFailure::InvalidSignature => TokenError::BadSignature,
        _ => TokenError::Malformed,
    }
}

/// The view of what the codec hands back.
pub open spec fn payload_view(payload: Result<String, JwtFailure>) -> Result<Seq<char>, JwtFailure> {
    match payload {
        Ok(json) => Ok(json@),
        Err(failure) => Err(failure),
    }
}

/// The view of a result that holds a token.
pub open spec fn token_result_view(r: Result<String, TokenError>) -> Result<Seq<char>, TokenError> {
    match r {
        Ok(token) => Ok(token@),
        Err(e) => Err(e),
    }
}

/// The view of a result that holds claims.
pub open spec fn claims_result_view(r: Result<Claims, TokenError>) -> Result<ClaimsView, TokenError> {
    match r {
        Ok(claims) => Ok(claims@),
        Err(e) => Err(e),
    }
}

/// `jsonwebtoken::encode` with an HS256 header, over a JSON object that holds
/// the given members under their names, keyed by the bytes of the secret.
#[verifier::external_body]
fn hs256_sign(members: &Vec<(String, JsonScalar)>, secret: &str) -> (token: Result<
    String,
    jsonwebtoken::errors::Error,
>)
    ensures
        token matches Ok(t) ==> signed_token(members_view(members@), secret@) == Some(t@),
        token is Err ==> signed_token(members_view(members@), secret@) is None,
{
    let mut claims = serde_json::Map::new();
    for (name, value) in members {
        let value = match value {
            JsonScalar::Null => serde_json::Value::Null,
            JsonScalar::Text(text) => serde_json::Value::from(text.as_str()),
            JsonScalar::Number(number) => serde_json::Value::from(*number),
        };
        claims.insert(name.clone(), value);
    }
    jsonwebtoken::encode(&Header::new(Algorithm::HS256), &claims, &EncodingKey::from_secret(secret.as_bytes()))
}

/// `jsonwebtoken::decode` under HS256, keyed by the bytes of the secret, with
/// the crate's own tests on expiry and on required claims switched off: it
/// checks framing, header and signature and hands back the claims, here as
/// JSON text, or the kind of its error. A token that carries an `aud` claim is
/// refused, since no audience is configured. Nothing in it reads a clock.
#[verifier::external_body]
fn hs256_open(token: &str, secret: &str) -> (payload: Result<String, JwtFailure>)
    ensures
        payload_view(payload) == opened_payload(token@, secret@),
{
    let mut rules = Validation::new(Algorithm::HS256);
    rules.validate_exp = false;
    rules.required_spec_claims.clear();
    let key = DecodingKey::from_secret(secret.as_bytes());
    match jsonwebtoken::decode::<serde_json::Value>(token, &key, &rules) {
        Ok(data) => Ok(data.claims.to_string()),
        Err(error) => Err(match error.kind() {
            ErrorKind::InvalidToken => JwtFailure::InvalidToken,
            ErrorKind::InvalidSignature => JwtFailure::InvalidSignature,
            ErrorKind::InvalidAlgorithm => JwtFailure::InvalidAlgorithm,
            ErrorKind::Base64(_) => JwtFailure::Base64,
            ErrorKind::Json(_) => JwtFailure::Json,
            _ => JwtFailure::Other,
        }),
    }
}

/// `chrono::Utc::now().timestamp()`: the clock, in seconds since the Unix
/// epoch. `Utc::now` stops the program where the system clock stands before
/// 1970, so every value that comes back is zero or more.
#[verifier::external_body]
fn unix_now() -> (seconds: i64)
    ensures
        seconds >= 0,
{
    chrono::Utc::now().timestamp()
}

impl TokenLifetime {
    /// The lifetime named by a preset: `7d`, `1d`, `1h` or `15m`. Anything else
    /// means seven days.
    pub fn from_preset(preset: &str) -> (lifetime: TokenLifetime)
        ensures
            lifetime == lifetime_for(preset@),
    {
        if str_equals(preset, "1d") {
            TokenLifetime::OneDay
        } else if str_equals(preset, "1h") {
            TokenLifetime::OneHour
        } else if str_equals(preset, "15m") {
            TokenLifetime::FifteenMinutes
        } else {
            TokenLifetime::SevenDays
        }
    }

    /// The lifetime in seconds.
    pub fn seconds(&self) -> (s: u64)
        ensures
            s == lifetime_seconds(*self),
    {
        match self {
            TokenLifetime::SevenDays => 7 * 24 * 60 * 60,
            TokenLifetime::OneDay => 24 * 60 * 60,
            TokenLifetime::OneHour => 60 * 60,
            TokenLifetime::FifteenMinutes => 15 * 60,
        }
    }
}

/// The name under which `role` is written into a token.
pub fn name_of_role(role: UserRole) -> (name: &'static str)
    ensures
        name@ == role_name(role),
{
    match role {
        UserRole::Player => "Player",
        UserRole::VenueOwner => "VenueOwner",
        UserRole::Admin => "Admin",
    }
}

/// The role that `name` stands for in a token, if any.
pub fn role_from_name(name: &str) -> (role: Option<UserRole>)
    ensures
        role == role_named(name@),
{
    if str_equals(name, "Player") {
        Some(UserRole::Player)
    } else if str_equals(name, "VenueOwner") {
        Some(UserRole::VenueOwner)
    } else if str_equals(name, "Admin") {
        Some(UserRole::Admin)
    } else {
        None
    }
}

fn written_text(text: &Option<String>) -> (written: JsonScalar)
    ensures
        written@ == optional_member(text_view(*text)),
{
    match text {
        Some(s) => JsonScalar::Text(s.clone()),
        None => JsonScalar::Null,
    }
}

/// The members that claims are written as.
pub fn members_of(claims: &Claims) -> (members: Vec<(String, JsonScalar)>)
    ensures
        members_view(members@) == claim_members(claims@),
{
    let role = match claims.role {
        Some(r) => JsonScalar::Text(name_of_role(r).to_owned()),
        None => JsonScalar::Null,
    };
    let iat = match claims.iat {
        Some(issued) => JsonScalar::Number(issued),
        None => JsonScalar::Null,
    };
    let mut members: Vec<(String, JsonScalar)> = Vec::new();
    members.push(("id".to_owned(), JsonScalar::Text(claims.id.clone())));
    members.push(("email".to_owned(), written_text(&claims.email)));
    members.push(("role".to_owned(), role));
    members.push(("exp".to_owned(), JsonScalar::Number(claims.exp)));
    members.push(("iat".to_owned(), iat));
    members.push(("iss".to_owned(), written_text(&claims.iss)));
    assert(members_view(members@) =~= claim_members(claims@));
    members
}

/// How a refusal by the token codec is reported.
pub fn classify_failure(failure: JwtFailure) -> (error: TokenError)
    ensures
        error == failure_class(failure),
{
    match failure {
        JwtFailure::InvalidSignature => TokenError::BadSignature,
        _ => TokenError::Malformed,
    }
}

fn read_optional_text(item: JsonItem) -> (text: Result<Option<String>, TokenError>)
    ensures
        match text {
            Ok(t) => optional_text(item@) == Ok::<Option<Seq<char>>, TokenError>(text_view(t)),
            Err(e) => optional_text(item@) == Err::<Option<Seq<char>>, TokenError>(e),
        },
{
    match item {
        JsonItem::Missing => Ok(None),
        JsonItem::Null => Ok(None),
        JsonItem::Text(s) => Ok(Some(s)),
        _ => Err(TokenError::Malformed),
    }
}

fn read_optional_role(item: JsonItem) -> (role: Result<Option<UserRole>, TokenError>)
    ensures
        role == optional_role(item@),
{
    match item {
        JsonItem::Missing => Ok(None),
        JsonItem::Null => Ok(None),
        JsonItem::Text(s) => match role_from_name(s.as_str()) {
            Some(role) => Ok(Some(role)),
            None => Err(TokenError::Malformed),
        },
        _ => Err(TokenError::Malformed),
    }
}

/// Reads claims from JSON text.
///
/// `id` must be a string, `exp` and `iat` non-negative integers. `email` and
/// `iss` may be strings, `role` one of `Player`, `VenueOwner`, `Admin`; each of
/// these three may also be absent or `null`. Any other shape is `Malformed`.
pub fn read_claims(json: &str) -> (read: Result<Claims, TokenError>)
    ensures
        claims_result_view(read) == claims_in(json@),
{
    let id = match json_member(json, "id") {
        JsonItem::Text(s) => s,
        _ => {
            return Err(TokenError::Malformed);
        },
    };
    let email = match read_optional_text(json_member(json, "email")) {
        Ok(v) => v,
        Err(e) => {
            return Err(e);
        },
    };
    let role = match read_optional_role(json_member(json, "role")) {
        Ok(v) => v,
        Err(e) => {
            return Err(e);
        },
    };
    let exp = match json_member(json, "exp") {
        JsonItem::Number(n) => n,
        _ => {
            return Err(TokenError::Malformed);
        },
    };
    let iat = match json_member(json, "iat") {
        JsonItem::Number(n) => n,
        _ => {
            return Err(TokenError::Malformed);
        },
    };
    let iss = match read_optional_text(json_member(json, "iss")) {
        Ok(v) => v,
        Err(e) => {
            return Err(e);
        },
    };
    Ok(Claims { id, email, role, exp, iat: Some(iat), iss })
}

/// Tests claims against the clock.
///
/// Claims that do not say when the token was issued are `Malformed`: without
/// it the age of the token cannot be bounded. Claims whose expiry is not after
/// `now` are `Expired`; so are claims issued more than the maximum age before
/// `now`, whatever their expiry. Claims that name an issuer other than this
/// service are `Malformed`.
pub fn check_claims(claims: &Claims, now: u64) -> (verdict: Result<(), TokenError>)
    ensures
        verdict == claims_verdict(claims@, now),
{
    let issued = match claims.iat {
        Some(issued) => issued,
        None => {
            return Err(TokenError::Malformed);
        },
    };
    if claims.exp <= now {
        return Err(TokenError::Expired);
    }
    if now >= issued && now - issued > MAX_TOKEN_AGE {
        return Err(TokenError::Expired);
    }
    match &claims.iss {
        Some(issuer) => {
            if !str_equals(issuer.as_str(), "MaBar-Auth-Service") {
                return Err(TokenError::Malformed);
            }
        },
        None => {},
    }
    Ok(())
}

impl TokenService {
    /// The secret that tokens are signed with.
    pub closed spec fn signing_secret(&self) -> Seq<char> {
        self.secret@
    }

    /// The lifetime given to new tokens.
    pub closed spec fn token_lifetime(&self) -> TokenLifetime {
        self.lifetime
    }

    /// The token that this service issues for an account at `now`, where the
    /// signer makes one.
    pub open spec fn token_for(&self, user: User, now: u64) -> Option<Seq<char>> {
        signed_token(
            claim_members(claims_for(user.id@, user.email@, user.role, now, self.token_lifetime())),
            self.signing_secret(),
        )
    }

    /// What issuing a token for an account at `now` gives: the signer's token,
    /// `SigningFailed` where it makes none, and `ClockOutOfRange` where `now`
    /// leaves no room for the lifetime.
    pub open spec fn issuing(&self, user: User, now: u64) -> Result<Seq<char>, TokenError> {
        if now + lifetime_seconds(self.token_lifetime()) > u64::MAX {
            Err(TokenError::ClockOutOfRange)
        } else {
            match self.token_for(user, now) {
                Some(token) => Ok(token),
                None => Err(TokenError::SigningFailed),
            }
        }
    }

    /// What validating a token at `now` gives: where the codec accepts the
    /// token, its claims as read and judged; where it refuses, the class of
    /// its refusal.
    pub open spec fn validation(&self, token: Seq<char>, now: u64) -> Result<ClaimsView, TokenError> {
        match opened_payload(token, self.signing_secret()) {
            Ok(json) => judged(claims_in(json), now),
            Err(failure) => Err(failure_class(failure)),
        }
    }

    /// A service that signs with `secret` and gives tokens the lifetime `lifetime`.
    pub fn new(secret: String, lifetime: TokenLifetime) -> (service: Self)
        ensures
            service.signing_secret() == secret@,
            service.token_lifetime() == lifetime,
    {
        TokenService { secret, lifetime }
    }

    /// The lifetime given to new tokens.
    pub fn lifetime(&self) -> (lifetime: TokenLifetime)
        ensures
            lifetime == self.token_lifetime(),
    {
        self.lifetime
    }

    /// The claims for an account at `now`: its identifier, email and role, issued
    /// now, expiring one lifetime later, in this service's name.
    pub fn build_claims(&self, user: &User, now: u64) -> (claims: Result<Claims, TokenError>)
        ensures
            now + lifetime_seconds(self.token_lifetime()) > u64::MAX ==> claims is Err
                && claims->Err_0 == TokenError::ClockOutOfRange,
            now + lifetime_seconds(self.token_lifetime()) <= u64::MAX ==> claims is Ok
                && claims->Ok_0@ == claims_for(
                user.id@,
                user.email@,
                user.role,
                now,
                self.token_lifetime(),
            ),
    {
        let span = self.lifetime.seconds();
        if now > u64::MAX - span {
            return Err(TokenError::ClockOutOfRange);
        }
        Ok(
            Claims {
                id: user.id.clone(),
                email: Some(user.email.clone()),
                role: user.role,
                exp: now + span,
                iat: Some(now),
                iss: Some("MaBar-Auth-Service".to_owned()),
            },
        )
    }

    /// Issues a token for an account at the clock value `now`.
    ///
    /// The token is the one the signer makes from the account's claims; where
    /// the signer fails the error is `SigningFailed`, and where `now` leaves no
    /// room for the lifetime it is `ClockOutOfRange`.
    pub fn issue_at(&self, user: &User, now: u64) -> (token: Result<String, TokenError>)
        ensures
            token_result_view(token) == self.issuing(*user, now),
    {
        let claims = match self.build_claims(user, now) {
            Ok(c) => c,
            Err(e) => {
                return Err(e);
            },
        };
        let members = members_of(&claims);
        match hs256_sign(&members, self.secret.as_str()) {
            Ok(token) => Ok(token),
            Err(_) => Err(TokenError::SigningFailed),
        }
    }

    /// Issues a token that names an identifier, the time of issue and the
    /// expiry and nothing else.
    pub fn issue_bare_at(&self, id: &str, now: u64) -> (token: Result<String, TokenError>)
        ensures
            now + lifetime_seconds(self.token_lifetime()) > u64::MAX ==> token is Err
                && token->Err_0 == TokenError::ClockOutOfRange,
            now + lifetime_seconds(self.token_lifetime()) <= u64::MAX ==> match signed_token(
                bare_members(id@, (now + lifetime_seconds(self.token_lifetime())) as u64, now),
                self.signing_secret(),
            ) {
                Some(t) => token is Ok && token->Ok_0@ == t,
                None => token is Err && token->Err_0 == TokenError::SigningFailed,
            },
    {
        let span = self.lifetime.seconds();
        if now > u64::MAX - span {
            return Err(TokenError::ClockOutOfRange);
        }
        let mut members: Vec<(String, JsonScalar)> = Vec::new();
        members.push(("id".to_owned(), JsonScalar::Text(id.to_owned())));
        members.push(("exp".to_owned(), JsonScalar::Number(now + span)));
        members.push(("iat".to_owned(), JsonScalar::Number(now)));
        assert(members_view(members@) =~= bare_members(id@, (now + span) as u64, now));
        match hs256_sign(&members, self.secret.as_str()) {
            Ok(token) => Ok(token),
            Err(_) => Err(TokenError::SigningFailed),
        }
    }

    /// Issues a token for an account at the present time.
    ///
    /// The clock is read once, and the result is that of `issue_at` for the
    /// second read. Reading the clock stops the program where the system clock
    /// stands before 1970.
    pub fn issue(&self, user: &User) -> (token: Result<String, TokenError>)
        ensures
            exists|now: u64| token_result_view(token) == #[trigger] self.issuing(*user, now),
    {
        let now = unix_now();
        let token = self.issue_at(user, now as u64);
        assert(token_result_view(token) == self.issuing(*user, now as u64));
        token
    }

    /// Validates a token at the clock value `now`.
    ///
    /// The codec checks framing, header and signature; a token it refuses is
    /// `BadSignature` for a wrong signature and `Malformed` otherwise. The
    /// claims of a token it accepts are read and tested against `now`.
    pub fn validate_at(&self, token: &str, now: u64) -> (claims: Result<Claims, TokenError>)
        ensures
            claims_result_view(claims) == self.validation(token@, now),
    {
        match hs256_open(token, self.secret.as_str()) {
            Err(failure) => Err(classify_failure(failure)),
            Ok(json) => {
                let claims = match read_claims(json.as_str()) {
                    Ok(c) => c,
                    Err(e) => {
                        return Err(e);
                    },
                };
                match check_claims(&claims, now) {
                    Ok(()) => Ok(claims),
                    Err(e) => Err(e),
                }
            },
        }
    }

    /// Validates a token at the present time.
    ///
    /// The clock is read once, and the result is that of `validate_at` for the
    /// second read. Reading the clock stops the program where the system clock
    /// stands before 1970.
    pub fn validate(&self, token: &str) -> (claims: Result<Claims, TokenError>)
        ensures
            exists|now: u64| #[trigger] self.validation(token@, now) == claims_result_view(claims),
            opened_payload(token@, self.signing_secret()) is Err ==> claims is Err,
    {
        let now = unix_now();
        let claims = self.validate_at(token, now as u64);
        assert(self.validation(token@, now as u64) == claims_result_view(claims));
        claims
    }
}

/// A token's claims carry the identity they were built for, and stay valid from
/// issue until the lifetime has elapsed, when they become `Expired`.
pub proof fn issued_claims_are_valid_until_expiry(
    id: Seq<char>,
    email: Seq<char>,
    role: Option<UserRole>,
    issued_at: u64,
    lifetime: TokenLifetime,
    now: u64,
)
    requires
        issued_at + lifetime_seconds(lifetime) <= u64::MAX,
    ensures
        claims_for(id, email, role, issued_at, lifetime).id == id,
        claims_for(id, email, role, issued_at, lifetime).email == Some(email),
        claims_for(id, email, role, issued_at, lifetime).role == role,
        now < issued_at + lifetime_seconds(lifetime) ==> claims_verdict(
            claims_for(id, email, role, issued_at, lifetime),
            now,
        ) is Ok,
        now >= issued_at + lifetime_seconds(lifetime) ==> claims_verdict(
            claims_for(id, email, role, issued_at, lifetime),
            now,
        ) == Err::<(), TokenError>(TokenError::Expired),
{
}

/// Whether a JSON text holds, under each of the six names of claims, what a
/// list of written members holds under it.
pub open spec fn members_kept(json: Seq<char>, members: Seq<(Seq<char>, JsonScalarView)>) -> bool {
    &&& json_member_of(json, "id"@) == member_named(members, "id"@)
    &&& json_member_of(json, "email"@) == member_named(members, "email"@)
    &&& json_member_of(json, "role"@) == member_named(members, "role"@)
    &&& json_member_of(json, "exp"@) == member_named(members, "exp"@)
    &&& json_member_of(json, "iat"@) == member_named(members, "iat"@)
    &&& json_member_of(json, "iss"@) == member_named(members, "iss"@)
}

/// Claims that say when they were issued read back as themselves from the
/// members they are written as: reading looks under exactly the names that
/// writing uses, and every role is found again under its name.
pub proof fn written_claims_read_back(claims: ClaimsView)
    requires
        claims.iat is Some,
    ensures
        claims_from_members(
            member_named(claim_members(claims), "id"@),
            member_named(claim_members(claims), "email"@),
            member_named(claim_members(claims), "role"@),
            member_named(claim_members(claims), "exp"@),
            member_named(claim_members(claims), "iat"@),
            member_named(claim_members(claims), "iss"@),
        ) == Ok::<ClaimsView, TokenError>(claims),
{
    reveal_strlit("id");
    reveal_strlit("email");
    reveal_strlit("role");
    reveal_strlit("exp");
    reveal_strlit("iat");
    reveal_strlit("iss");
    reveal_strlit("Player");
    reveal_strlit("VenueOwner");
    reveal_strlit("Admin");
    let members = claim_members(claims);
    let m1 = members.drop_first();
    let m2 = m1.drop_first();
    let m3 = m2.drop_first();
    let m4 = m3.drop_first();
    let m5 = m4.drop_first();
    assert("id"@.len() == 2 && "email"@.len() == 5 && "role"@.len() == 4);
    assert("exp"@.len() == 3 && "iat"@.len() == 3 && "iss"@.len() == 3);
    assert("exp"@[0] == 'e' && "iat"@[0] == 'i' && "iss"@[0] == 'i');
    assert("iat"@[1] == 'a' && "iss"@[1] == 's');
    assert("Player"@.len() == 6 && "VenueOwner"@.len() == 10 && "Admin"@.len() == 5);
    assert(members[0].0 == "id"@ && m1[0].0 == "email"@ && m2[0].0 == "role"@);
    assert(m3[0].0 == "exp"@ && m4[0].0 == "iat"@ && m5[0].0 == "iss"@);
    reveal_with_fuel(member_named, 7);
    assert(member_named(members, "id"@) == JsonItemView::Text(claims.id));
    assert(member_named(members, "email"@) == as_item(optional_member(claims.email)));
    assert(member_named(members, "role"@) == as_item(members[2].1));
    assert(member_named(members, "exp"@) == JsonItemView::Number(claims.exp));
    assert(member_named(members, "iat"@) == JsonItemView::Number(claims.iat->Some_0));
    assert(member_named(members, "iss"@) == as_item(optional_member(claims.iss)));
    match claims.role {
        Some(role) => {
            assert(role_named(role_name(role)) == Some(role));
        },
        None => {},
    }
}

/// Where the codec keeps the members that a token was signed over, the token
/// validates to the claims it was issued with from issue until its lifetime
/// has elapsed, and is `Expired` from then on.
pub proof fn issued_token_is_valid_until_expiry(
    service: TokenService,
    user: User,
    issued_at: u64,
    token: Seq<char>,
    json: Seq<char>,
    now: u64,
)
    requires
        issued_at + lifetime_seconds(service.token_lifetime()) <= u64::MAX,
        service.token_for(user, issued_at) == Some(token),
        opened_payload(token, service.signing_secret()) == Ok::<Seq<char>, JwtFailure>(json),
        members_kept(
            json,
            claim_members(
                claims_for(user.id@, user.email@, user.role, issued_at, service.token_lifetime()),
            ),
        ),
    ensures
        now < issued_at + lifetime_seconds(service.token_lifetime()) ==> service.validation(
            token,
            now,
        ) == Ok::<ClaimsView, TokenError>(
            claims_for(user.id@, user.email@, user.role, issued_at, service.token_lifetime()),
        ),
        now >= issued_at + lifetime_seconds(service.token_lifetime()) ==> service.validation(
            token,
            now,
        ) == Err::<ClaimsView, TokenError>(TokenError::Expired),
{
    let claims = claims_for(user.id@, user.email@, user.role, issued_at, service.token_lifetime());
    written_claims_read_back(claims);
    assert(claims_in(json) == Ok::<ClaimsView, TokenError>(claims));
    issued_claims_are_valid_until_expiry(
        user.id@,
        user.email@,
        user.role,
        issued_at,
        service.token_lifetime(),
        now,
    );
}

/// No lifetime that the service offers outlasts the maximum age, so a token
/// never expires by age before it expires by date.
pub proof fn lifetimes_fit_the_maximum_age(lifetime: TokenLifetime)
    ensures
        lifetime_seconds(lifetime) <= MAX_TOKEN_AGE,
{
}

/// Claims that do not say when the token was issued are refused, however far
/// in the future their expiry lies.
pub proof fn undated_claims_are_refused(claims: ClaimsView, now: u64)
    requires
        claims.iat is None,
    ensures
        claims_verdict(claims, now) == Err::<(), TokenError>(TokenError::Malformed),
{
}

/// Claims issued more than the maximum age ago are `Expired`, however far in
/// the future their expiry lies.
pub proof fn overaged_claims_are_expired(claims: ClaimsView, now: u64)
    requires
        claims.iat matches Some(issued) && now - issued > MAX_TOKEN_AGE,
    ensures
        claims_verdict(claims, now) == Err::<(), TokenError>(TokenError::Expired),
{
}

/// Once claims are refused as expired they stay refused: no later clock value
/// makes them valid again.
pub proof fn expiry_is_final(claims: ClaimsView, now: u64, later: u64)
    requires
        now <= later,
        claims_verdict(claims, now) == Err::<(), TokenError>(TokenError::Expired),
    ensures
        claims_verdict(claims, later) == Err::<(), TokenError>(TokenError::Expired),
{
}

} // verus!
