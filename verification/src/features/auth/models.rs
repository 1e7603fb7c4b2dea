use vstd::prelude::*;
use crate::features::users::models::User;

verus! {

/// The one-time code that an unverified account is waiting for.
#[derive(Debug)]
pub struct PendingEmailVerification {
    pub user_id: i32,
    pub code: String,
}

#[derive(Debug, Clone)]
pub struct LoginRequest {
    pub email: String,
    pub password: String,
}

#[derive(Debug)]
pub struct LoginResponse {
    pub token: String,
}

#[derive(Debug, Clone)]
pub struct RegisterRequest {
    pub email: String,
    pub password: String,
    pub name: String,
}

#[derive(Debug, Clone)]
pub struct VerifyEmailRequest {
    pub email: String,
    pub code: String,
}

/// What a token carries: the account and the second, counted from the Unix
/// epoch, after which the token is no longer accepted.
#[derive(Debug)]
pub struct TokenClaims {
    pub id: i32,
    pub exp: u64,
}

/// Why a request was turned down.
#[derive(Debug, Clone, Copy, PartialEq, Eq, Structural)]
pub enum AuthError {
    /// The email belongs to a confirmed account.
    Conflict,
    /// Wrong credentials, a wrong or missing code, or a token that is not
    /// accepted.
    Unauthorized,
    /// A fault of the store, of the hash function, of signing or of mail.
    InternalError,
}

impl AuthError {
    /// The HTTP status that answers a request so turned down.
    pub fn status_code(&self) -> (code: u16)
        ensures
            code == match *self {
                AuthError::Conflict => 409u16,
                AuthError::Unauthorized => 401u16,
                AuthError::InternalError => 500u16,
            },
    {
        match self {
            AuthError::Conflict => 409,
            AuthError::Unauthorized => 401,
            AuthError::InternalError => 500,
        }
    }
}

/// A code that waits to be sent: registration has stored it for the
/// account, and the mail to `email` is still to go out.
#[derive(Debug)]
pub struct CodeNotice {
    pub user_id: i32,
    pub email: String,
    pub code: String,
}

/// A mail, ready for a transport.
#[derive(Debug)]
pub struct Mail {
    pub to: String,
    pub subject: String,
    pub html_body: String,
}

/// The transport did not take the mail.
#[derive(Debug, Clone, Copy, PartialEq, Eq, Structural)]
pub struct NotifyError;

/// An account that has just been confirmed.
pub struct AuthUser(pub User);

/// What a login is checked against.
#[derive(Debug)]
pub struct UserIdPassword {
    pub id: i32,
    pub password_hash: String,
}

} // verus!
