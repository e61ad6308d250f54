//! The credential payloads a caller presents to the protocol: registration,
//! login and update requests, built from already-validated value types.

use crate::user::{trim_empty, Email, Name, Password};
use vstd::prelude::*;

verus! {

/// A login / fetch request: the identity to look up, and the password to
/// verify; an absent password always fails verification.
pub struct GetUser {
    pub email: Email,
    pub password: Option<Password>,
}

impl GetUser {
    /// Builds a login request from raw text. The caller vouches for the
    /// parts being valid, exactly as `Email::new` and `Password::new` check
    /// them.
    pub fn from_raw(email: &str, password: &str) -> (r: Self)
        requires
            !trim_empty(email@),
            password@.len() >= 5,
        ensures
            r.email@ == email@,
            r.password matches Some(p) && p@ == password@,
    {
        let e = match Email::new(email) {
            Ok(e) => e,
            Err(_) => vstd::pervasive::unreached(),
        };
        let p = match Password::new(password) {
            Ok(p) => p,
            Err(_) => vstd::pervasive::unreached(),
        };
        GetUser { email: e, password: Some(p) }
    }
}

/// A registration request: every field is required.
pub struct NewUser {
    pub email: Email,
    pub name: Name,
    pub password: Password,
}

/// An update request: the email names the record; a field left `None` keeps
/// its stored value.
pub struct UpdateUser {
    pub email: Email,
    pub name: Option<Name>,
    pub password: Option<Password>,
}

} // verus!
