//! The outcomes that the authentication core reports to its callers.

use vstd::prelude::*;

verus! {

/// Every way a request can be turned away by the authentication core.
#[derive(Clone, Copy, Debug, PartialEq, Eq, Structural)]
pub enum AuthError {
    /// Malformed or empty input.
    BadRequest,
    /// No token, or a garbled or forged one.
    Unauthenticated,
    /// A correctly signed token whose lifetime is over.
    Expired,
    /// A valid identity without the role the route asks for.
    Forbidden,
    /// Login failed; the same for an unknown identifier and a wrong secret.
    InvalidCredentials,
    /// The identifier is already registered.
    Conflict,
    /// The store or another piece of infrastructure failed.
    Internal,
}

pub open spec fn status_of(e: AuthError) -> u16 {
    match e {
        AuthError::BadRequest => 400,
        AuthError::Unauthenticated => 401,
        AuthError::Expired => 401,
        AuthError::Forbidden => 403,
        AuthError::InvalidCredentials => 400,
        AuthError::Conflict => 400,
        AuthError::Internal => 500,
    }
}

impl AuthError {
    /// The HTTP status code that answers this error.
    pub fn status_code(&self) -> (r: u16)
        ensures
            r == status_of(*self),
    {
        match self {
            AuthError::BadRequest => 400,
            AuthError::Unauthenticated => 401,
            AuthError::Expired => 401,
            AuthError::Forbidden => 403,
            AuthError::InvalidCredentials => 400,
            AuthError::Conflict => 400,
            AuthError::Internal => 500,
        }
    }

    /// The message shown to the client; it never carries internal detail.
    pub fn message(&self) -> (r: &'static str)
        ensures
            *self == AuthError::InvalidCredentials ==> r@ == "Invalid email or password"@,
            *self == AuthError::BadRequest ==> r@ == "Email or password cannot be empty"@,
            *self == AuthError::Unauthenticated ==> r@ == "You are not logged in"@,
            *self == AuthError::Expired ==> r@ == "Your session has expired"@,
            *self == AuthError::Forbidden ==> r@ == "You are not allowed to do this"@,
            *self == AuthError::Conflict ==> r@ == "User already exists"@,
            *self == AuthError::Internal ==> r@ == "Something went wrong"@,
    {
        match self {
            AuthError::BadRequest => "Email or password cannot be empty",
            AuthError::Unauthenticated => "You are not logged in",
            AuthError::Expired => "Your session has expired",
            AuthError::Forbidden => "You are not allowed to do this",
            AuthError::InvalidCredentials => "Invalid email or password",
            AuthError::Conflict => "User already exists",
            AuthError::Internal => "Something went wrong",
        }
    }
}

} // verus!
