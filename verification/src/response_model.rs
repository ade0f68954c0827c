//! Typed failures and the response shells handed to the request layer.

use vstd::prelude::*;

verus! {

/// The failure taxonomy of the library.
///
/// `Unauthorized` covers a missing or malformed `Authorization` header, a
/// token whose signature or expiry does not check out, and a token whose
/// subject no longer resolves to a user.  `NotFound` covers both a truly
/// absent cart item and one owned by a different user, indistinguishably.
#[derive(Clone, Copy, Debug, PartialEq, Eq, Structural)]
pub enum ApiError {
    EmailTaken,
    InvalidCredentials,
    Unauthorized,
    NotFound,
}

/// Error response structure.
pub struct ErrorResponse {
    pub message: String,
    pub status: bool,
}

/// Success response structure.
pub struct SuccessResponse {
    pub message: String,
    pub status: bool,
}

/// Builds the stable error response for a failure kind; `status` is always
/// `false` and the message text identifies the kind.
pub fn error_response(e: ApiError) -> (r: ErrorResponse)
    ensures
        !r.status,
        e == ApiError::EmailTaken ==> r.message@ == "Email already exists"@,
        e == ApiError::InvalidCredentials ==> r.message@ == "Invalid username or password"@,
        e == ApiError::Unauthorized ==> r.message@ == "Invalid token"@,
        e == ApiError::NotFound ==> r.message@ == "Cart item not found"@,
{
    let message = match e {
        ApiError::EmailTaken => "Email already exists",
        ApiError::InvalidCredentials => "Invalid username or password",
        ApiError::Unauthorized => "Invalid token",
        ApiError::NotFound => "Cart item not found",
    };
    ErrorResponse { message: message.to_owned(), status: false }
}

/// Builds a success response carrying the given message; `status` is
/// always `true`.
pub fn success_response(message: String) -> (r: SuccessResponse)
    ensures
        r.status,
        r.message == message,
{
    SuccessResponse { message, status: true }
}

} // verus!
