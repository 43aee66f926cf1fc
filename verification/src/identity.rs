//! The account entity and what is known of a caller once authenticated.

use vstd::prelude::*;
use crate::roles::UserRole;

verus! {

/// An account, as the document store holds it.
#[derive(Debug)]
pub struct User {
    /// Opaque unique identifier, assigned at creation.
    pub id: String,
    /// Unique, kept in lower case.
    pub email: String,
    /// Absent for accounts that only sign in through an outside provider.
    pub password_hash: Option<String>,
    pub first_name: Option<String>,
    pub last_name: Option<String>,
    /// Absent until the user has selected one.
    pub role: Option<UserRole>,
    /// `false` blocks authentication.
    pub is_active: bool,
    pub onboarding_completed: bool,
    /// Seconds since the Unix epoch.
    pub created_at: u64,
    /// Seconds since the Unix epoch.
    pub updated_at: u64,
}

/// The caller of a request, as established from a valid token.
#[derive(Debug)]
pub struct AuthenticatedUser {
    pub id: String,
    pub email: Option<String>,
    pub role: Option<UserRole>,
}

/// `AuthenticatedUser` over character sequences.
pub struct AuthenticatedUserView {
    pub id: Seq<char>,
    pub email: Option<Seq<char>>,
    pub role: Option<UserRole>,
}

impl View for AuthenticatedUser {
    type V = AuthenticatedUserView;

    open spec fn view(&self) -> AuthenticatedUserView {
        AuthenticatedUserView {
            id: self.id@,
            email: match self.email {
                Some(e) => Some(e@),
                None => None,
            },
            role: self.role,
        }
    }
}

impl User {
    /// The invariant of a stored account: an administrator has a password, and
    /// the account was not updated before it was created.
    pub open spec fn well_formed(&self) -> bool {
        &&& self.role == Some(UserRole::Admin) ==> self.password_hash is Some
        &&& self.created_at <= self.updated_at
    }

    /// Whether the account meets the invariant of stored accounts.
    pub fn is_well_formed(&self) -> (ok: bool)
        ensures
            ok == self.well_formed(),
    {
        let admin_without_password = match self.role {
            Some(UserRole::Admin) => self.password_hash.is_none(),
            _ => false,
        };
        !admin_without_password && self.created_at <= self.updated_at
    }
}

} // verus!
