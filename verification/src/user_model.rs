//! User records and the schemas that create and authenticate them.

use vstd::prelude::*;

verus! {

/// A stored user record.
///
/// The id is assigned by the directory and is unique, as is the email.
/// The credential is stored and compared verbatim; replacing it with a
/// salted one-way hash would change the stored representation and is left
/// as an open question rather than silently fixed here.
pub struct User {
    pub id: u64,
    pub name: String,
    pub email: String,
    pub password: String,
    pub created_at: u64,
}

impl Clone for User {
    fn clone(&self) -> (r: Self)
        ensures
            r == *self,
    {
        User {
            id: self.id,
            name: self.name.clone(),
            email: self.email.clone(),
            password: self.password.clone(),
            created_at: self.created_at,
        }
    }
}

/// The fields a caller supplies to register a new user.
pub struct RegisterUserSchema {
    pub name: String,
    pub email: String,
    pub password: String,
}

/// The fields a caller supplies to log in.
pub struct LoginUserSchema {
    pub email: String,
    pub password: String,
}

/// The claims carried by a session token: subject (user id), issued-at and
/// expiry, both as seconds since the epoch.
#[derive(Clone, Copy, Debug, PartialEq, Eq, Structural)]
pub struct TokenClaims {
    pub sub: u64,
    pub iat: u64,
    pub exp: u64,
}

} // verus!
