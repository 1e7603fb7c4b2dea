//! Lookup of profiles. Only confirmed accounts have one.

use vstd::prelude::*;
use crate::db::{confirmed_id, is_confirmed, is_profile, Accounts, Db, StoreError};
use crate::features::users::models::User;

verus! {

/// A store of profiles. A call may fail with a [`StoreError`]; a store that
/// is `dependable` answers every call.
pub trait UserRepoImpl {
    /// The accounts held, by email.
    spec fn accounts(&self) -> Accounts;

    /// Whether the store answers every call.
    spec fn dependable(&self) -> bool;

    /// The store's own invariant.
    spec fn wf(&self) -> bool;

    /// The verified account with this id.
    fn find_by_id(&self, id: i32) -> (r: Result<Option<User>, StoreError>)
        requires
            self.wf(),
        ensures
            self.dependable() ==> r is Ok,
            r matches Ok(found) ==> match found {
                Some(u) => u.id == id && is_profile(self.accounts(), u),
                None => !confirmed_id(self.accounts(), id as int),
            },
    ;

    /// The verified account with this email.
    fn find_by_email(&self, email: &str) -> (r: Result<Option<User>, StoreError>)
        requires
            self.wf(),
        ensures
            self.dependable() ==> r is Ok,
            r matches Ok(found) ==> match found {
                Some(u) => u.email@ == email@ && is_profile(self.accounts(), u),
                None => !is_confirmed(self.accounts(), email@),
            },
    ;
}

/// The profiles of the account table in memory.
pub struct UserRepo {
    pub db: Db,
}

impl UserRepoImpl for UserRepo {
    open spec fn accounts(&self) -> Accounts {
        self.db.accounts()
    }

    open spec fn dependable(&self) -> bool {
        true
    }

    open spec fn wf(&self) -> bool {
        self.db.wf()
    }

    fn find_by_id(&self, id: i32) -> (r: Result<Option<User>, StoreError>) {
        Ok(self.db.find_by_id(id))
    }

    fn find_by_email(&self, email: &str) -> (r: Result<Option<User>, StoreError>) {
        Ok(self.db.find_by_email(email))
    }
}

} // verus!
