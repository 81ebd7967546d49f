//! Read-side response shapes: the records handed back by the login and
//! current-user endpoints, built from the persisted rows.
use vstd::prelude::*;

use crate::model::{User, UserAuth};

verus! {

/// Response of a successful login.
#[derive(Debug, Clone, PartialEq, Eq)]
pub struct LoginResponse {
    pub token: String,
    pub pid: String,
    pub name: String,
    pub is_verified: bool,
}

impl LoginResponse {
    /// Builds the login response: the session token as given, the public
    /// identifier and verification state taken from the credential row, the
    /// display name from the user row.
    #[must_use]
    pub fn new(user: &User, user_auth: &UserAuth, token: &String) -> (r: Self)
        ensures
            r.token@ == token@,
            r.pid@ == user_auth.id@,
            r.name@ == user.name@,
            r.is_verified == user_auth.email_verified_at is Some,
    {
        Self {
            token: token.clone(),
            pid: user_auth.id.clone(),
            name: user.name.clone(),
            is_verified: user_auth.email_verified_at.is_some(),
        }
    }
}

/// Response of the current-user endpoint.
#[derive(Debug, Clone, PartialEq, Eq)]
pub struct CurrentResponse {
    pub pid: String,
    pub name: String,
    pub email: String,
}

impl CurrentResponse {
    /// Builds the current-user response from the user row and the public
    /// identifier in its textual form.
    #[must_use]
    pub fn new(user: &User, pid: String) -> (r: Self)
        ensures
            r.pid@ == pid@,
            r.name@ == user.name@,
            r.email@ == user.email@,
    {
        Self { pid, name: user.name.clone(), email: user.email.clone() }
    }
}

} // verus!
