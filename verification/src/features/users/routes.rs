//! The profile endpoints.

use vstd::prelude::*;
use crate::db::{confirmed_id, is_confirmed, is_profile, StoreError};
use crate::features::users::models::User;
use crate::features::users::repositories::UserRepoImpl;

verus! {

/// Why no profile was returned.
#[derive(Debug, Clone, Copy, PartialEq, Eq, Structural)]
pub enum UserError {
    /// No confirmed account is meant.
    NotFound,
    /// The store failed.
    InternalError,
}

impl UserError {
    /// The HTTP status that answers the request.
    pub fn status_code(&self) -> (code: u16)
        ensures
            code == match *self {
                UserError::NotFound => 404u16,
                UserError::InternalError => 500u16,
            },
    {
        match self {
            UserError::NotFound => 404,
            UserError::InternalError => 500,
        }
    }
}

/// Decides on the store's answer to a lookup: no confirmed account is not
/// found, a fault an internal error.
pub fn profile_response(found: Result<Option<User>, StoreError>) -> (r: Result<User, UserError>)
    ensures
        r == (match found {
            Ok(Some(user)) => Ok::<User, UserError>(user),
            Ok(None) => Err::<User, UserError>(UserError::NotFound),
            Err(_) => Err::<User, UserError>(UserError::InternalError),
        }),
{
    match found {
        Ok(Some(user)) => Ok(user),
        Ok(None) => Err(UserError::NotFound),
        Err(_) => Err(UserError::InternalError),
    }
}

/// The profile of the confirmed account with this id.
pub fn user_by_id<R: UserRepoImpl>(id: i32, repo: &R) -> (r: Result<User, UserError>)
    requires
        repo.wf(),
    ensures
        match r {
            Ok(u) => u.id == id && is_profile(repo.accounts(), u),
            Err(UserError::NotFound) => !confirmed_id(repo.accounts(), id as int),
            Err(UserError::InternalError) => !repo.dependable(),
        },
{
    profile_response(repo.find_by_id(id))
}

/// The profile of the confirmed account with this email.
pub fn user_by_email<R: UserRepoImpl>(email: &str, repo: &R) -> (r: Result<User, UserError>)
    requires
        repo.wf(),
    ensures
        match r {
            Ok(u) => u.email@ == email@ && is_profile(repo.accounts(), u),
            Err(UserError::NotFound) => !is_confirmed(repo.accounts(), email@),
            Err(UserError::InternalError) => !repo.dependable(),
        },
{
    profile_response(repo.find_by_email(email))
}

} // verus!
