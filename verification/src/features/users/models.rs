use vstd::prelude::*;

verus! {

/// An account as it is stored.
#[derive(Debug, Clone)]
pub struct User {
    pub id: i32,
    pub username: String,
    pub email: String,
    pub password_hash: String,
    pub is_verified: bool,
}

} // verus!
