//! What stands in front of the endpoints: role enforcement, rate limiting,
//! lenient authentication and the security headers.

use vstd::prelude::*;
use crate::identity::{AuthenticatedUser, AuthenticatedUserView, User};
use crate::rate_limit::{admits, RateLimiter};
use crate::resolver::{begin, bearer_of, finish, finished, header_view, AuthMode, Pending};
use crate::roles::{has_role_or_higher, role_rank, UserRole};
use crate::token::{Claims, TokenService};

verus! {

/// Why a request did not get past the role enforcement.
#[derive(Clone, Copy, Debug, PartialEq, Eq, Structural)]
pub enum RoleRejection {
    /// Nobody is authenticated.
    AuthenticationRequired,
    /// The caller has not selected a role yet.
    NoRoleAssigned,
    /// The caller's role stands below the one required.
    InsufficientPermissions,
}

/// The answer to a client that exceeded its rate.
#[derive(Clone, Copy, Debug, PartialEq, Eq, Structural)]
pub struct RateLimitExceeded;

/// HTTP status for a client that exceeded its rate.
pub const TOO_MANY_REQUESTS: u16 = 429;

/// The role enforcement: someone must be authenticated, must have a role, and
/// the role must stand at or above the one required.
pub open spec fn role_enforcement(
    caller: Option<AuthenticatedUserView>,
    required_role: UserRole,
) -> Result<(), RoleRejection> {
    match caller {
        None => Err(RoleRejection::AuthenticationRequired),
        Some(user) => match user.role {
            None => Err(RoleRejection::NoRoleAssigned),
            Some(role) => if role_rank(role) >= role_rank(required_role) {
                Ok(())
            } else {
                Err(RoleRejection::InsufficientPermissions)
            },
        },
    }
}

/// HTTP status of a refusal: 401 where nobody is authenticated, 403 where the
/// caller is known and not allowed.
pub open spec fn rejection_status(rejection: RoleRejection) -> u16 {
    match rejection {
        RoleRejection::AuthenticationRequired => 401,
        RoleRejection::NoRoleAssigned => 403,
        RoleRejection::InsufficientPermissions => 403,
    }
}

/// The key under which a client is counted: its address, or `unknown`.
pub open spec fn client_key(address: Option<&str>) -> Seq<char> {
    match address {
        Some(a) => a@,
        None => "unknown"@,
    }
}

/// The security headers, as pairs of name and value.
pub open spec fn security_header_pairs() -> Seq<(Seq<char>, Seq<char>)> {
    seq![
        ("x-content-type-options"@, "nosniff"@),
        ("x-frame-options"@, "DENY"@),
        ("x-xss-protection"@, "1; mode=block"@),
        ("strict-transport-security"@, "max-age=31536000; includeSubDomains"@),
        ("referrer-policy"@, "strict-origin-when-cross-origin"@),
    ]
}

/// The status to answer a refusal with.
pub fn status_code(rejection: RoleRejection) -> (status: u16)
    ensures
        status == rejection_status(rejection),
{
    match rejection {
        RoleRejection::AuthenticationRequired => 401,
        RoleRejection::NoRoleAssigned => 403,
        RoleRejection::InsufficientPermissions => 403,
    }
}

/// Enforces a minimum role on an authenticated caller.
pub fn require_role_middleware(caller: Option<&AuthenticatedUser>, required_role: UserRole) -> (verdict:
    Result<(), RoleRejection>)
    ensures
        verdict == role_enforcement(
            match caller {
                Some(c) => Some(c@),
                None => None,
            },
            required_role,
        ),
{
    match caller {
        None => Err(RoleRejection::AuthenticationRequired),
        Some(user) => match user.role {
            None => Err(RoleRejection::NoRoleAssigned),
            Some(role) => if has_role_or_higher(&role, &required_role) {
                Ok(())
            } else {
                Err(RoleRejection::InsufficientPermissions)
            },
        },
    }
}

/// Counts a request against the client's rate and refuses it above the
/// ceiling. A client without a known address is counted as `unknown`.
pub fn rate_limit_middleware(limiter: &mut RateLimiter, address: Option<&str>, now: u64) -> (verdict:
    Result<(), RateLimitExceeded>)
    ensures
        verdict is Ok == admits(
            old(limiter).recorded(client_key(address)),
            now,
            old(limiter).window(),
            old(limiter).ceiling(),
        ),
        final(limiter).recorded(client_key(address)) == crate::rate_limit::after_check(
            old(limiter).recorded(client_key(address)),
            now,
            old(limiter).window(),
            old(limiter).ceiling(),
        ),
        forall|other: Seq<char>|
            other != client_key(address) ==> #[trigger] final(limiter).recorded(other) == old(
                limiter,
            ).recorded(other),
        final(limiter).ceiling() == old(limiter).ceiling(),
        final(limiter).window() == old(limiter).window(),
{
    let key = match address {
        Some(a) => a,
        None => "unknown",
    };
    if limiter.check_rate_limit(key, now) {
        Ok(())
    } else {
        Err(RateLimitExceeded)
    }
}

/// The first half of lenient authentication: the claims of a valid token, or
/// nothing. No failure is reported; the request simply goes on without a caller.
pub fn simple_auth_middleware(service: &TokenService, header: Option<&str>, now: u64) -> (claims:
    Option<Claims>)
    ensures
        match bearer_of(header_view(header)) {
            None => claims is None,
            Some(token) => match service.validation(token, now) {
                Ok(valid) => claims is Some && claims->Some_0@ == valid,
                Err(_) => claims is None,
            },
        },
{
    match begin(service, header, AuthMode::Optional, now) {
        Ok(Pending::Lookup(claims)) => Some(claims),
        _ => None,
    }
}

/// The second half of lenient authentication: the caller, where the account of
/// the claims exists and is active.
pub fn attach_caller(account: Option<&User>) -> (caller: Option<AuthenticatedUser>)
    ensures
        match finished(
            match account {
                Some(u) => Some(*u),
                None => None,
            },
        ) {
            Ok(known) => caller is Some && caller->Some_0@ == known,
            Err(_) => caller is None,
        },
{
    match finish(account) {
        Ok(caller) => Some(caller),
        Err(_) => None,
    }
}

fn pair(name: &str, value: &str) -> (header: (String, String))
    ensures
        header.0@ == name@,
        header.1@ == value@,
{
    (name.to_owned(), value.to_owned())
}

/// The views of a list of headers.
pub open spec fn header_views(headers: Seq<(String, String)>) -> Seq<(Seq<char>, Seq<char>)> {
    headers.map_values(|h: (String, String)| (h.0@, h.1@))
}

/// Adds the security headers to every response.
#[derive(Clone, Copy, Debug)]
pub struct SecurityHeaders;

impl SecurityHeaders {
    /// The headers to add.
    pub fn headers(&self) -> (headers: Vec<(String, String)>)
        ensures
            header_views(headers@) == security_header_pairs(),
    {
        security_headers()
    }
}

/// The headers added to every response.
pub fn security_headers() -> (headers: Vec<(String, String)>)
    ensures
        header_views(headers@) == security_header_pairs(),
{
    let mut headers: Vec<(String, String)> = Vec::new();
    headers.push(pair("x-content-type-options", "nosniff"));
    headers.push(pair("x-frame-options", "DENY"));
    headers.push(pair("x-xss-protection", "1; mode=block"));
    headers.push(pair("strict-transport-security", "max-age=31536000; includeSubDomains"));
    headers.push(pair("referrer-policy", "strict-origin-when-cross-origin"));
    assert(header_views(headers@) =~= security_header_pairs());
    headers
}

/// Whoever passes the enforcement of a role passes that of every lower role.
pub proof fn enforcement_is_monotone(
    caller: Option<AuthenticatedUserView>,
    lower: UserRole,
    higher: UserRole,
)
    requires
        role_rank(lower) <= role_rank(higher),
        role_enforcement(caller, higher) is Ok,
    ensures
        role_enforcement(caller, lower) is Ok,
{
}

} // verus!
