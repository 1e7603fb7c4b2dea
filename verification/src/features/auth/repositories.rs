//! What the authentication flow asks of an account store, and the store in
//! memory that keeps it.

use vstd::prelude::*;
use crate::db::{
    confirmed, credentials_of, is_confirmed, is_unverified, pending_for, upsert_id, upserted,
    user_is, valid_store, Accounts, Db, StoreError,
};
use crate::features::auth::models::{AuthUser, PendingEmailVerification, UserIdPassword};

verus! {

/// What a lookup of credentials found, as the model has it.
pub open spec fn credentials_view(found: Option<UserIdPassword>) -> Option<(int, Seq<char>)> {
    match found {
        Some(c) => Some((c.id as int, c.password_hash@)),
        None => None,
    }
}

/// What a lookup of a pending verification found, as the model has it.
pub open spec fn pending_view(found: Option<PendingEmailVerification>) -> Option<
    (int, Seq<char>),
> {
    match found {
        Some(p) => Some((p.user_id as int, p.code@)),
        None => None,
    }
}

/// An account store. Each operation is one atomic step on the accounts.
///
/// A call may fail with a [`StoreError`], and then changes nothing. A store
/// that is `dependable` answers every call that needs no new id, and every
/// call that needs one while `spare_id` holds one.
pub trait AuthRepoImpl {
    /// The accounts held, by email.
    spec fn accounts(&self) -> Accounts;

    /// The id that the next new account gets, if one is left.
    spec fn spare_id(&self) -> Option<int>;

    /// Whether the store answers every call.
    spec fn dependable(&self) -> bool;

    /// The store's own invariant.
    spec fn wf(&self) -> bool;

    /// A well-formed store holds valid accounts.
    proof fn lemma_valid(&self)
        requires
            self.wf(),
        ensures
            valid_store(self.accounts(), self.spare_id()),
    ;

    /// Id and password hash of the email's account, verified or not.
    fn find_user_id_password_by_email(&self, email: &str) -> (r: Result<
        Option<UserIdPassword>,
        StoreError,
    >)
        requires
            self.wf(),
        ensures
            self.dependable() ==> r is Ok,
            r matches Ok(found) ==> credentials_view(found) == credentials_of(
                self.accounts(),
                email@,
            ),
    ;

    /// Registers the email. Without an account for it, a new unverified one
    /// is made under the spare id; an unverified one has its password hash,
    /// name and code overwritten and keeps its id; a verified one is left
    /// alone and `None` is returned.
    fn create_user(&mut self, email: &str, password_hash: &str, name: &str, code: &str) -> (r:
        Result<Option<i32>, StoreError>)
        requires
            old(self).wf(),
        ensures
            final(self).wf(),
            final(self).dependable() == old(self).dependable(),
            old(self).dependable() && (is_confirmed(old(self).accounts(), email@) || upsert_id(
                old(self).accounts(),
                old(self).spare_id(),
                email@,
            ) is Some) ==> r is Ok,
            match r {
                Ok(Some(id)) => upsert_id(old(self).accounts(), old(self).spare_id(), email@)
                    == Some(id as int) && final(self).accounts() == upserted(
                    old(self).accounts(),
                    email@,
                    password_hash@,
                    name@,
                    code@,
                    id as int,
                ),
                Ok(None) => is_confirmed(old(self).accounts(), email@) && final(self).accounts()
                    == old(self).accounts(),
                Err(_) => final(self).accounts() == old(self).accounts(),
            },
    ;

    /// Whether a verified account holds the email.
    fn is_email_taken(&self, email: &str) -> (r: Result<bool, StoreError>)
        requires
            self.wf(),
        ensures
            self.dependable() ==> r is Ok,
            r matches Ok(taken) ==> taken == is_confirmed(self.accounts(), email@),
    ;

    /// The code that the email's unverified account waits for.
    fn get_pending_verification(&self, email: &str) -> (r: Result<
        Option<PendingEmailVerification>,
        StoreError,
    >)
        requires
            self.wf(),
        ensures
            self.dependable() ==> r is Ok,
            r matches Ok(found) ==> pending_view(found) == pending_for(self.accounts(), email@),
    ;

    /// Confirms the email's unverified account: marks it verified and drops
    /// its code in one step, and returns it. Without such an account nothing
    /// changes and `None` is returned.
    fn verify_email(&mut self, email: &str) -> (r: Result<Option<AuthUser>, StoreError>)
        requires
            old(self).wf(),
        ensures
            final(self).wf(),
            final(self).dependable() == old(self).dependable(),
            old(self).dependable() ==> r is Ok,
            match r {
                Ok(Some(u)) => is_unverified(old(self).accounts(), email@) && final(self).accounts() == confirmed(old(self).accounts(), email@) && user_is(
                    u.0,
                    email@,
                    final(self).accounts()[email@],
                ),
                Ok(None) => !is_unverified(old(self).accounts(), email@) && final(self).accounts() == old(self).accounts(),
                Err(_) => final(self).accounts() == old(self).accounts(),
            },
    ;
}

/// The account store in memory.
pub struct AuthRepo {
    pub db: Db,
}

impl AuthRepoImpl for AuthRepo {
    open spec fn accounts(&self) -> Accounts {
        self.db.accounts()
    }

    open spec fn spare_id(&self) -> Option<int> {
        self.db.spare_id()
    }

    open spec fn dependable(&self) -> bool {
        true
    }

    open spec fn wf(&self) -> bool {
        self.db.wf()
    }

    proof fn lemma_valid(&self) {
        self.db.lemma_valid();
    }

    fn find_user_id_password_by_email(&self, email: &str) -> (r: Result<
        Option<UserIdPassword>,
        StoreError,
    >) {
        match self.db.find_credentials(email) {
            Some((id, password_hash)) => Ok(Some(UserIdPassword { id, password_hash })),
            None => Ok(None),
        }
    }

    fn create_user(&mut self, email: &str, password_hash: &str, name: &str, code: &str) -> (r:
        Result<Option<i32>, StoreError>) {
        self.db.upsert_unverified(email, password_hash, name, code)
    }

    fn is_email_taken(&self, email: &str) -> (r: Result<bool, StoreError>) {
        Ok(self.db.is_confirmed(email))
    }

    fn get_pending_verification(&self, email: &str) -> (r: Result<
        Option<PendingEmailVerification>,
        StoreError,
    >) {
        match self.db.pending_for(email) {
            Some((user_id, code)) => Ok(Some(PendingEmailVerification { user_id, code })),
            None => Ok(None),
        }
    }

    fn verify_email(&mut self, email: &str) -> (r: Result<Option<AuthUser>, StoreError>) {
        match self.db.confirm(email) {
            Some(user) => Ok(Some(AuthUser(user))),
            None => Ok(None),
        }
    }
}

} // verus!
