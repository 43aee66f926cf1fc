//! From an `Authorization` header to an authenticated caller.
//!
//! Resolution comes in two depths. The shallow one trusts the token's claims.
//! The deep one also looks the account up, so that a deactivated account is
//! refused although its token is still valid; the lookup itself is the
//! caller's to make, between `begin` and `finish`.

use vstd::prelude::*;
use crate::identity::{AuthenticatedUser, AuthenticatedUserView, User};
use crate::text::{chars_of, is_prefix, starts_with_chars, string_of, suffix_from};
use crate::token::{Claims, ClaimsView, TokenError, TokenService};

verus! {

/// Whether an endpoint works without a caller or insists on one.
#[derive(Clone, Copy, Debug, PartialEq, Eq, Structural)]
pub enum AuthMode {
    /// The endpoint serves anonymous callers too.
    Optional,
    /// The endpoint fails closed.
    Required,
}

/// Why a request could not be authenticated.
#[derive(Clone, Copy, Debug, PartialEq, Eq, Structural)]
pub enum AuthFailure {
    Expired,
    BadSignature,
    Malformed,
    UserNotFound,
    UserDeactivated,
    MissingCredentials,
}

/// Who is calling.
#[derive(Debug)]
pub enum Resolution {
    Authenticated(AuthenticatedUser),
    Anonymous,
}

/// `Resolution` over character sequences.
pub enum ResolutionView {
    Authenticated(AuthenticatedUserView),
    Anonymous,
}

impl View for Resolution {
    type V = ResolutionView;

    open spec fn view(&self) -> ResolutionView {
        match self {
            Resolution::Authenticated(user) => ResolutionView::Authenticated(user@),
            Resolution::Anonymous => ResolutionView::Anonymous,
        }
    }
}

/// Where resolution stands once the header and the token have been dealt with.
#[derive(Debug)]
pub enum Pending {
    /// No credentials were presented and none are needed.
    Anonymous,
    /// The token is valid; the account named by its `id` is to be looked up.
    Lookup(Claims),
}

/// `Pending` over character sequences.
pub enum PendingView {
    Anonymous,
    Lookup(ClaimsView),
}

impl View for Pending {
    type V = PendingView;

    open spec fn view(&self) -> PendingView {
        match self {
            Pending::Anonymous => PendingView::Anonymous,
            Pending::Lookup(claims) => PendingView::Lookup(claims@),
        }
    }
}

/// The token in a header of the form `Bearer <token>` with a non-empty token.
pub open spec fn bearer_of(header: Option<Seq<char>>) -> Option<Seq<char>> {
    match header {
        Some(h) => if is_prefix("Bearer "@, h) && h.len() > "Bearer "@.len() {
            Some(h.subrange("Bearer "@.len() as int, h.len() as int))
        } else {
            None
        },
        None => None,
    }
}

/// How a token error is reported by the resolver.
pub open spec fn auth_failure_of(error: TokenError) -> AuthFailure {
    match error {
        TokenError::Expired => AuthFailure::Expired,
        TokenError::BadSignature => AuthFailure::BadSignature,
        _ => AuthFailure::Malformed,
    }
}

/// The caller that valid claims describe.
pub open spec fn caller_of(claims: ClaimsView) -> AuthenticatedUserView {
    AuthenticatedUserView { id: claims.id, email: claims.email, role: claims.role }
}

/// The caller that a live account describes.
pub open spec fn caller_of_account(user: User) -> AuthenticatedUserView {
    AuthenticatedUserView { id: user.id@, email: Some(user.email@), role: user.role }
}

/// What is done about a request without usable credentials.
pub open spec fn without_credentials(mode: AuthMode) -> Result<PendingView, AuthFailure> {
    match mode {
        AuthMode::Optional => Ok(PendingView::Anonymous),
        AuthMode::Required => Err(AuthFailure::MissingCredentials),
    }
}

/// The first half of resolution for a request that presents a token, for
/// each outcome of validating it.
pub open spec fn begun(validated: Result<ClaimsView, TokenError>) -> Result<PendingView, AuthFailure> {
    match validated {
        Ok(claims) => Ok(PendingView::Lookup(claims)),
        Err(e) => Err(auth_failure_of(e)),
    }
}

/// The second half of resolution: the account must exist and be active, and
/// the caller is then described by the account, not by the token.
pub open spec fn finished(account: Option<User>) -> Result<AuthenticatedUserView, AuthFailure> {
    match account {
        None => Err(AuthFailure::UserNotFound),
        Some(user) => if user.is_active {
            Ok(caller_of_account(user))
        } else {
            Err(AuthFailure::UserDeactivated)
        },
    }
}

/// Resolution that trusts the claims, for each outcome of the first half.
pub open spec fn trusting(begun: Result<PendingView, AuthFailure>) -> Result<
    ResolutionView,
    AuthFailure,
> {
    match begun {
        Ok(PendingView::Anonymous) => Ok(ResolutionView::Anonymous),
        Ok(PendingView::Lookup(claims)) => Ok(ResolutionView::Authenticated(caller_of(claims))),
        Err(e) => Err(e),
    }
}

/// The view of a result of the first half.
pub open spec fn pending_result_view(r: Result<Pending, AuthFailure>) -> Result<
    PendingView,
    AuthFailure,
> {
    match r {
        Ok(p) => Ok(p@),
        Err(e) => Err(e),
    }
}

/// The view of a result of resolution.
pub open spec fn resolution_result_view(r: Result<Resolution, AuthFailure>) -> Result<
    ResolutionView,
    AuthFailure,
> {
    match r {
        Ok(p) => Ok(p@),
        Err(e) => Err(e),
    }
}

/// The view of a result of the second half.
pub open spec fn caller_result_view(r: Result<AuthenticatedUser, AuthFailure>) -> Result<
    AuthenticatedUserView,
    AuthFailure,
> {
    match r {
        Ok(p) => Ok(p@),
        Err(e) => Err(e),
    }
}

/// Extracts the bearer token from the value of an `Authorization` header.
///
/// A missing header, a scheme other than `Bearer`, and an empty token all give
/// `None`.
pub fn bearer_token(header: Option<&str>) -> (token: Option<String>)
    ensures
        match token {
            Some(t) => bearer_of(header_view(header)) == Some(t@),
            None => bearer_of(header_view(header)) is None,
        },
{
    match header {
        None => None,
        Some(value) => {
            proof {
                reveal_strlit("Bearer ");
            }
            let chars = chars_of(value);
            let scheme = chars_of("Bearer ");
            if starts_with_chars(&chars, &scheme) && chars.len() > scheme.len() {
                let rest = suffix_from(&chars, scheme.len());
                Some(string_of(&rest))
            } else {
                None
            }
        },
    }
}

/// The characters of an optional header value.
pub open spec fn header_view(header: Option<&str>) -> Option<Seq<char>> {
    match header {
        Some(h) => Some(h@),
        None => None,
    }
}

/// How a token error is reported by the resolver.
pub fn auth_failure(error: TokenError) -> (failure: AuthFailure)
    ensures
        failure == auth_failure_of(error),
{
    match error {
        TokenError::Expired => AuthFailure::Expired,
        TokenError::BadSignature => AuthFailure::BadSignature,
        _ => AuthFailure::Malformed,
    }
}

/// The first half of resolution: header, token, claims.
///
/// Without a bearer token the request is anonymous where that is allowed and
/// lacks credentials where it is not. With one, the token is validated at
/// `now`: valid claims ask for the account to be looked up, anything else is
/// the failure that validation reports.
pub fn begin(service: &TokenService, header: Option<&str>, mode: AuthMode, now: u64) -> (pending:
    Result<Pending, AuthFailure>)
    ensures
        pending_result_view(pending) == (match bearer_of(header_view(header)) {
            None => without_credentials(mode),
            Some(token) => begun(service.validation(token, now)),
        }),
{
    match bearer_token(header) {
        None => match mode {
            AuthMode::Optional => Ok(Pending::Anonymous),
            AuthMode::Required => Err(AuthFailure::MissingCredentials),
        },
        Some(token) => match service.validate_at(token.as_str(), now) {
            Ok(claims) => Ok(Pending::Lookup(claims)),
            Err(e) => Err(auth_failure(e)),
        },
    }
}

/// The second half of resolution, once the account has been looked up.
///
/// An account that does not exist is `UserNotFound`, one that is not active is
/// `UserDeactivated`; otherwise the caller is authenticated with the identity,
/// email and role that the account holds now.
pub fn finish(account: Option<&User>) -> (caller: Result<AuthenticatedUser, AuthFailure>)
    ensures
        caller_result_view(caller) == finished(
            match account {
                Some(u) => Some(*u),
                None => None,
            },
        ),
{
    match account {
        None => Err(AuthFailure::UserNotFound),
        Some(user) => {
            if user.is_active {
                Ok(
                    AuthenticatedUser {
                        id: user.id.clone(),
                        email: Some(user.email.clone()),
                        role: user.role,
                    },
                )
            } else {
                Err(AuthFailure::UserDeactivated)
            }
        },
    }
}

/// The caller that valid claims describe.
pub fn caller_from_claims(claims: Claims) -> (caller: AuthenticatedUser)
    ensures
        caller@ == caller_of(claims@),
{
    AuthenticatedUser { id: claims.id, email: claims.email, role: claims.role }
}

/// Resolution that trusts the token's claims and looks nothing up.
pub fn resolve(service: &TokenService, header: Option<&str>, mode: AuthMode, now: u64) -> (resolved:
    Result<Resolution, AuthFailure>)
    ensures
        resolution_result_view(resolved) == trusting(
            match bearer_of(header_view(header)) {
                None => without_credentials(mode),
                Some(token) => begun(service.validation(token, now)),
            },
        ),
{
    match begin(service, header, mode, now) {
        Ok(Pending::Anonymous) => Ok(Resolution::Anonymous),
        Ok(Pending::Lookup(claims)) => Ok(Resolution::Authenticated(caller_from_claims(claims))),
        Err(e) => Err(e),
    }
}

/// A request without credentials is never authenticated: it is anonymous where
/// that is allowed and refused where it is not.
pub proof fn no_credentials_no_identity(mode: AuthMode)
    ensures
        trusting(without_credentials(mode)) is Ok ==> trusting(without_credentials(mode))
            == Ok::<ResolutionView, AuthFailure>(ResolutionView::Anonymous),
        mode == AuthMode::Required ==> trusting(without_credentials(mode)) == Err::<
            ResolutionView,
            AuthFailure,
        >(AuthFailure::MissingCredentials),
{
}

/// A deactivated account is refused whatever its token says.
pub proof fn deactivated_account_is_refused(user: User)
    requires
        !user.is_active,
    ensures
        finished(Some(user)) == Err::<AuthenticatedUserView, AuthFailure>(
            AuthFailure::UserDeactivated,
        ),
{
}

} // verus!
