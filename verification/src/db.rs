//! The account table, and the model of it that the contracts speak of.
//!
//! The model is a map from email to [`AccountRecord`]: being a map, it has one
//! account per email, and the record holds the one code, if any, that the
//! account is waiting for.

use vstd::prelude::*;
use crate::features::users::models::User;

verus! {

/// One account as the contracts see it. `code` is the pending verification.
pub struct AccountRecord {
    pub id: int,
    pub username: Seq<char>,
    pub password_hash: Seq<char>,
    pub is_verified: bool,
    pub code: Option<Seq<char>>,
}

/// The accounts of a store, by email.
pub type Accounts = Map<Seq<char>, AccountRecord>;

/// Some account has this id.
pub open spec fn id_in_use(s: Accounts, id: int) -> bool {
    exists|e: Seq<char>| #[trigger] s.contains_key(e) && s[e].id == id
}

/// What every store keeps true: an account waits for a code exactly while it
/// is unverified, no two accounts share an id, ids are 32-bit, and the id
/// kept for the next new account is not taken.
pub open spec fn valid_store(s: Accounts, spare_id: Option<int>) -> bool {
    &&& forall|e: Seq<char>| #[trigger] s.contains_key(e) ==> (s[e].is_verified <==> s[e].code is None)
    &&& forall|e: Seq<char>| #[trigger]
        s.contains_key(e) ==> i32::MIN <= s[e].id <= i32::MAX
    &&& forall|e1: Seq<char>, e2: Seq<char>|
        #![trigger s.contains_key(e1), s.contains_key(e2)]
        s.contains_key(e1) && s.contains_key(e2) && s[e1].id == s[e2].id ==> e1 == e2
    &&& spare_id matches Some(id) ==> i32::MIN <= id <= i32::MAX && !id_in_use(s, id)
}

/// A verified account exists for the email.
pub open spec fn is_confirmed(s: Accounts, email: Seq<char>) -> bool {
    s.contains_key(email) && s[email].is_verified
}

/// The pending verification of the email's account: its id and current code.
/// There is none once the account is verified, or where no account exists.
pub open spec fn pending_for(s: Accounts, email: Seq<char>) -> Option<(int, Seq<char>)> {
    if s.contains_key(email) && !s[email].is_verified && s[email].code is Some {
        Some((s[email].id, s[email].code->0))
    } else {
        None
    }
}

/// Id and password hash of the email's account, verified or not.
pub open spec fn credentials_of(s: Accounts, email: Seq<char>) -> Option<(int, Seq<char>)> {
    if s.contains_key(email) {
        Some((s[email].id, s[email].password_hash))
    } else {
        None
    }
}

/// The id that registering the email yields: that of its unverified account,
/// else the spare id for a new account; none where the email is confirmed or
/// a new account is needed and no id is left.
pub open spec fn upsert_id(s: Accounts, spare_id: Option<int>, email: Seq<char>) -> Option<int> {
    if is_confirmed(s, email) {
        None
    } else if s.contains_key(email) {
        Some(s[email].id)
    } else {
        spare_id
    }
}

/// The account that a registration writes.
pub open spec fn unverified_record(
    id: int,
    password_hash: Seq<char>,
    username: Seq<char>,
    code: Seq<char>,
) -> AccountRecord {
    AccountRecord { id, username, password_hash, is_verified: false, code: Some(code) }
}

/// The accounts after a registration that stored its data under `id`.
pub open spec fn upserted(
    s: Accounts,
    email: Seq<char>,
    password_hash: Seq<char>,
    username: Seq<char>,
    code: Seq<char>,
    id: int,
) -> Accounts {
    s.insert(email, unverified_record(id, password_hash, username, code))
}

/// The email has an account that is not yet verified.
pub open spec fn is_unverified(s: Accounts, email: Seq<char>) -> bool {
    s.contains_key(email) && !s[email].is_verified
}

/// The email's account once confirmed: verified, and waiting for no code.
pub open spec fn confirmed_record(r: AccountRecord) -> AccountRecord {
    AccountRecord { is_verified: true, code: None, ..r }
}

/// The accounts after the email was confirmed; unchanged unless the email has
/// an unverified account.
pub open spec fn confirmed(s: Accounts, email: Seq<char>) -> Accounts {
    if is_unverified(s, email) {
        s.insert(email, confirmed_record(s[email]))
    } else {
        s
    }
}

/// `u` is the account that `r` records under `email`.
pub open spec fn user_is(u: User, email: Seq<char>, r: AccountRecord) -> bool {
    &&& u.id == r.id
    &&& u.email@ == email
    &&& u.username@ == r.username
    &&& u.password_hash@ == r.password_hash
    &&& u.is_verified == r.is_verified
}

/// `u` is a profile of the store: a verified account, copied whole.
pub open spec fn is_profile(s: Accounts, u: User) -> bool {
    is_confirmed(s, u.email@) && user_is(u, u.email@, s[u.email@])
}

/// Some verified account has this id.
pub open spec fn confirmed_id(s: Accounts, id: int) -> bool {
    exists|e: Seq<char>| #[trigger] s.contains_key(e) && s[e].id == id && s[e].is_verified
}

/// A fault of the storage layer.
#[derive(Debug, Clone, Copy, PartialEq, Eq, Structural)]
pub enum StoreError {
    /// The backend did not answer, or refused the statement.
    Backend,
    /// A new account was needed and every id has been given out.
    IdsExhausted,
}

/// One row of the account table: the account, and the code it waits for.
#[derive(Debug)]
pub struct AccountRow {
    pub user: User,
    pub code: Option<String>,
}

impl AccountRow {
    pub open spec fn record(&self) -> AccountRecord {
        AccountRecord {
            id: self.user.id as int,
            username: self.user.username@,
            password_hash: self.user.password_hash@,
            is_verified: self.user.is_verified,
            code: match self.code {
                Some(c) => Some(c@),
                None => None,
            },
        }
    }
}

/// The account table, held in memory. Ids are given out in order, from 1 up
/// to `limit`.
#[derive(Debug)]
pub struct Db {
    pub rows: Vec<AccountRow>,
    pub limit: i32,
}

impl Db {
    /// Row `i` holds id `i + 1`, no email occurs twice, and an account waits
    /// for a code exactly while it is unverified.
    pub open spec fn wf(&self) -> bool {
        &&& self.rows@.len() <= self.limit
        &&& forall|i: int| 0 <= i < self.rows@.len() ==> (#[trigger] self.rows@[i]).user.id == i + 1
        &&& forall|i: int, j: int|
            0 <= i < self.rows@.len() && 0 <= j < self.rows@.len() && i != j ==> (
            #[trigger] self.rows@[i]).user.email@ != (#[trigger] self.rows@[j]).user.email@
        &&& forall|i: int|
            0 <= i < self.rows@.len() ==> ((#[trigger] self.rows@[i]).user.is_verified
                <==> self.rows@[i].code is None)
    }

    /// Some row holds the email.
    pub open spec fn holds(&self, email: Seq<char>) -> bool {
        exists|i: int| 0 <= i < self.rows@.len() && (#[trigger] self.rows@[i]).user.email@ == email
    }

    /// The row that holds the email.
    pub open spec fn row_of(&self, email: Seq<char>) -> int {
        choose|i: int| 0 <= i < self.rows@.len() && (#[trigger] self.rows@[i]).user.email@ == email
    }

    /// The table as the contracts see it.
    pub open spec fn accounts(&self) -> Accounts {
        Map::new(|e: Seq<char>| self.holds(e), |e: Seq<char>| self.rows@[self.row_of(e)].record())
    }

    /// The id that the next new account gets, while one is left.
    pub open spec fn spare_id(&self) -> Option<int> {
        if self.rows@.len() < self.limit {
            Some(self.rows@.len() as int + 1)
        } else {
            None
        }
    }

    /// In a well-formed table, row `i` is the row of its email.
    pub proof fn lemma_row(&self, i: int)
        requires
            self.wf(),
            0 <= i < self.rows@.len(),
        ensures
            self.holds(self.rows@[i].user.email@),
            self.row_of(self.rows@[i].user.email@) == i,
            self.accounts().contains_key(self.rows@[i].user.email@),
            self.accounts()[self.rows@[i].user.email@] == self.rows@[i].record(),
    {
    }

    /// A well-formed table is a valid store.
    pub proof fn lemma_valid(&self)
        requires
            self.wf(),
        ensures
            valid_store(self.accounts(), self.spare_id()),
    {
        let s = self.accounts();
        assert forall|e: Seq<char>| #[trigger] s.contains_key(e) implies (s[e].is_verified
            <==> s[e].code is None) && i32::MIN <= s[e].id <= i32::MAX by {
            self.lemma_row(self.row_of(e));
        }
        assert forall|e1: Seq<char>, e2: Seq<char>|
            #![trigger s.contains_key(e1), s.contains_key(e2)]
            s.contains_key(e1) && s.contains_key(e2) && s[e1].id == s[e2].id implies e1 == e2 by {
            self.lemma_row(self.row_of(e1));
            self.lemma_row(self.row_of(e2));
        }
        if self.spare_id() is Some {
            let id = self.spare_id()->0;
            assert forall|e: Seq<char>| #[trigger] s.contains_key(e) implies s[e].id != id by {
                self.lemma_row(self.row_of(e));
            }
        }
    }

    /// An empty table with room for as many accounts as there are ids.
    pub fn new() -> (db: Db)
        ensures
            db.wf(),
            db.rows@.len() == 0,
            db.limit == i32::MAX,
            db.accounts() == Map::<Seq<char>, AccountRecord>::empty(),
    {
        Db::with_limit(i32::MAX)
    }

    /// An empty table with room for `limit` accounts; for none where `limit`
    /// is negative.
    pub fn with_limit(limit: i32) -> (db: Db)
        ensures
            db.wf(),
            db.rows@.len() == 0,
            db.limit == (if limit < 0 {
                0
            } else {
                limit
            }),
            db.accounts() == Map::<Seq<char>, AccountRecord>::empty(),
    {
        let db = Db { rows: Vec::new(), limit: if limit < 0 {
            0
        } else {
            limit
        } };
        assert(db.accounts() =~= Map::<Seq<char>, AccountRecord>::empty());
        db
    }

    /// The index of the row that holds the email.
    pub fn position(&self, email: &String) -> (r: Option<usize>)
        requires
            self.wf(),
        ensures
            match r {
                Some(i) => i < self.rows@.len() && self.rows@[i as int].user.email@ == email@,
                None => !self.holds(email@),
            },
    {
        let mut i: usize = 0;
        while i < self.rows.len()
            invariant
                i <= self.rows@.len(),
                forall|j: int| 0 <= j < i ==> (#[trigger] self.rows@[j]).user.email@ != email@,
            decreases self.rows@.len() - i,
        {
            if self.rows[i].user.email == *email {
                return Some(i);
            }
            i += 1;
        }
        None
    }
}


impl Db {
    /// A copy of the account in row `i`.
    fn user_at(&self, i: usize) -> (u: User)
        requires
            i < self.rows@.len(),
        ensures
            u == self.rows@[i as int].user,
    {
        let row = &self.rows[i];
        User {
            id: row.user.id,
            username: row.user.username.clone(),
            email: row.user.email.clone(),
            password_hash: row.user.password_hash.clone(),
            is_verified: row.user.is_verified,
        }
    }

    /// Replacing row `i` by a row with the same id and email, valid in
    /// itself, rewrites the record of that email and nothing else.
    proof fn lemma_rewritten(&self, after: &Db, i: int)
        requires
            self.wf(),
            0 <= i < self.rows@.len(),
            after.rows@ == self.rows@.update(i, after.rows@[i]),
            after.limit == self.limit,
            after.rows@[i].user.id == self.rows@[i].user.id,
            after.rows@[i].user.email@ == self.rows@[i].user.email@,
            after.rows@[i].user.is_verified <==> after.rows@[i].code is None,
        ensures
            after.wf(),
            after.accounts() == self.accounts().insert(
                self.rows@[i].user.email@,
                after.rows@[i].record(),
            ),
    {
        let email = self.rows@[i].user.email@;
        assert(after.wf());
        assert forall|e: Seq<char>| after.holds(e) == (e == email || self.holds(e)) by {
            if after.holds(e) {
                let j = after.row_of(e);
                if j != i {
                    assert(self.rows@[j].user.email@ == e);
                }
            }
            if self.holds(e) {
                let j = self.row_of(e);
                assert(after.rows@[j].user.email@ == e);
            }
            if e == email {
                assert(after.rows@[i].user.email@ == e);
            }
        }
        let target = self.accounts().insert(email, after.rows@[i].record());
        assert forall|e: Seq<char>| after.accounts().contains_key(e) implies after.accounts()[e]
            == target[e] by {
            let j = after.row_of(e);
            after.lemma_row(j);
            if j != i {
                assert(self.rows@[j].user.email@ == e);
                self.lemma_row(j);
            }
        }
        assert(after.accounts() =~= target);
    }

    /// Appending a row with the next id and an email not yet held adds its
    /// record and changes nothing else.
    proof fn lemma_appended(&self, after: &Db, row: AccountRow)
        requires
            self.wf(),
            self.rows@.len() < self.limit,
            after.rows@ == self.rows@.push(row),
            after.limit == self.limit,
            row.user.id == self.rows@.len() + 1,
            !self.holds(row.user.email@),
            row.user.is_verified <==> row.code is None,
        ensures
            after.wf(),
            after.accounts() == self.accounts().insert(row.user.email@, row.record()),
    {
        let email = row.user.email@;
        let n = self.rows@.len() as int;
        assert(after.rows@[n] == row);
        assert forall|j: int| 0 <= j < n implies after.rows@[j] == self.rows@[j] by {}
        assert(after.wf());
        assert forall|e: Seq<char>| after.holds(e) == (e == email || self.holds(e)) by {
            if after.holds(e) {
                let j = after.row_of(e);
                if j != n {
                    assert(self.rows@[j].user.email@ == e);
                }
            }
            if self.holds(e) {
                let j = self.row_of(e);
                assert(after.rows@[j].user.email@ == e);
            }
            if e == email {
                assert(after.rows@[n].user.email@ == e);
            }
        }
        let target = self.accounts().insert(email, row.record());
        assert forall|e: Seq<char>| after.accounts().contains_key(e) implies after.accounts()[e]
            == target[e] by {
            let j = after.row_of(e);
            after.lemma_row(j);
            if j != n {
                assert(self.rows@[j].user.email@ == e);
                self.lemma_row(j);
            }
        }
        assert(after.accounts() =~= target);
    }

    /// Whether a verified account exists for the email.
    pub fn is_confirmed(&self, email: &str) -> (yes: bool)
        requires
            self.wf(),
        ensures
            yes == is_confirmed(self.accounts(), email@),
    {
        let key = email.to_owned();
        match self.position(&key) {
            Some(i) => {
                proof {
                    self.lemma_row(i as int);
                }
                self.rows[i].user.is_verified
            },
            None => false,
        }
    }
}


impl Db {
    /// The id and current code that the email's unverified account waits for.
    pub fn pending_for(&self, email: &str) -> (r: Option<(i32, String)>)
        requires
            self.wf(),
        ensures
            match r {
                Some((id, code)) => pending_for(self.accounts(), email@) == Some(
                    (id as int, code@),
                ),
                None => pending_for(self.accounts(), email@) is None,
            },
    {
        let key = email.to_owned();
        match self.position(&key) {
            Some(i) => {
                proof {
                    self.lemma_row(i as int);
                }
                let row = &self.rows[i];
                if row.user.is_verified {
                    return None;
                }
                match &row.code {
                    Some(code) => Some((row.user.id, code.clone())),
                    None => None,
                }
            },
            None => None,
        }
    }

    /// Id and password hash of the email's account, verified or not.
    pub fn find_credentials(&self, email: &str) -> (r: Option<(i32, String)>)
        requires
            self.wf(),
        ensures
            match r {
                Some((id, hash)) => credentials_of(self.accounts(), email@) == Some(
                    (id as int, hash@),
                ),
                None => credentials_of(self.accounts(), email@) is None,
            },
    {
        let key = email.to_owned();
        match self.position(&key) {
            Some(i) => {
                proof {
                    self.lemma_row(i as int);
                }
                let row = &self.rows[i];
                Some((row.user.id, row.user.password_hash.clone()))
            },
            None => None,
        }
    }

    /// Registers the email: a new unverified account where it has none, a
    /// rewrite of password, name and code where its account is unverified,
    /// and nothing where its account is verified.
    pub fn upsert_unverified(
        &mut self,
        email: &str,
        password_hash: &str,
        username: &str,
        code: &str,
    ) -> (r: Result<Option<i32>, StoreError>)
        requires
            old(self).wf(),
        ensures
            final(self).wf(),
            final(self).limit == old(self).limit,
            final(self).rows@.len() == old(self).rows@.len() + (if old(self).accounts().contains_key(
                email@,
            ) || old(self).spare_id() is None {
                0int
            } else {
                1int
            }),
            match upsert_id(old(self).accounts(), old(self).spare_id(), email@) {
                Some(id) => r == Ok::<Option<i32>, StoreError>(Some(id as i32))
                    && final(self).accounts() == upserted(
                    old(self).accounts(),
                    email@,
                    password_hash@,
                    username@,
                    code@,
                    id,
                ),
                None => final(self).accounts() == old(self).accounts() && r == (if is_confirmed(
                    old(self).accounts(),
                    email@,
                ) {
                    Ok::<Option<i32>, StoreError>(None)
                } else {
                    Err::<Option<i32>, StoreError>(StoreError::IdsExhausted)
                }),
            },
    {
        let key = email.to_owned();
        let ghost before = *self;
        match self.position(&key) {
            Some(i) => {
                proof {
                    before.lemma_row(i as int);
                }
                if self.rows[i].user.is_verified {
                    return Ok(None);
                }
                let id = self.rows[i].user.id;
                let row = AccountRow {
                    user: User {
                        id,
                        username: username.to_owned(),
                        email: key,
                        password_hash: password_hash.to_owned(),
                        is_verified: false,
                    },
                    code: Some(code.to_owned()),
                };
                self.rows.set(i, row);
                proof {
                    before.lemma_rewritten(&*self, i as int);
                }
                Ok(Some(id))
            },
            None => {
                let n = self.rows.len();
                if n >= self.limit as usize {
                    return Err(StoreError::IdsExhausted);
                }
                let id = (n + 1) as i32;
                let row = AccountRow {
                    user: User {
                        id,
                        username: username.to_owned(),
                        email: key,
                        password_hash: password_hash.to_owned(),
                        is_verified: false,
                    },
                    code: Some(code.to_owned()),
                };
                self.rows.push(row);
                proof {
                    before.lemma_appended(&*self, row);
                }
                Ok(Some(id))
            },
        }
    }

    /// Marks the email's unverified account verified and drops its code, in
    /// one step, and returns the account as it then stands. Without an
    /// unverified account nothing changes.
    pub fn confirm(&mut self, email: &str) -> (r: Option<User>)
        requires
            old(self).wf(),
        ensures
            final(self).wf(),
            final(self).limit == old(self).limit,
            final(self).rows@.len() == old(self).rows@.len(),
            final(self).accounts() == confirmed(old(self).accounts(), email@),
            match r {
                Some(u) => is_unverified(old(self).accounts(), email@) && user_is(
                    u,
                    email@,
                    confirmed_record(old(self).accounts()[email@]),
                ),
                None => !is_unverified(old(self).accounts(), email@),
            },
    {
        let key = email.to_owned();
        let ghost before = *self;
        match self.position(&key) {
            Some(i) => {
                proof {
                    before.lemma_row(i as int);
                }
                if self.rows[i].user.is_verified {
                    return None;
                }
                let mut user = self.user_at(i);
                user.is_verified = true;
                let kept = self.user_at(i);
                let row = AccountRow {
                    user: User {
                        id: kept.id,
                        username: kept.username,
                        email: kept.email,
                        password_hash: kept.password_hash,
                        is_verified: true,
                    },
                    code: None,
                };
                self.rows.set(i, row);
                proof {
                    before.lemma_rewritten(&*self, i as int);
                }
                Some(user)
            },
            None => None,
        }
    }

    /// The verified account with this id.
    pub fn find_by_id(&self, id: i32) -> (r: Option<User>)
        requires
            self.wf(),
        ensures
            match r {
                Some(u) => u.id == id && is_profile(self.accounts(), u),
                None => !confirmed_id(self.accounts(), id as int),
            },
    {
        if id < 1 || id as usize > self.rows.len() {
            proof {
                assert forall|e: Seq<char>| #[trigger]
                    self.accounts().contains_key(e) implies self.accounts()[e].id != id by {
                    self.lemma_row(self.row_of(e));
                }
            }
            return None;
        }
        let i = (id - 1) as usize;
        proof {
            self.lemma_row(i as int);
            assert forall|e: Seq<char>| #[trigger]
                self.accounts().contains_key(e) && self.accounts()[e].id == id implies e
                == self.rows@[i as int].user.email@ by {
                self.lemma_row(self.row_of(e));
            }
        }
        if self.rows[i].user.is_verified {
            Some(self.user_at(i))
        } else {
            None
        }
    }

    /// The verified account with this email.
    pub fn find_by_email(&self, email: &str) -> (r: Option<User>)
        requires
            self.wf(),
        ensures
            match r {
                Some(u) => u.email@ == email@ && is_profile(self.accounts(), u),
                None => !is_confirmed(self.accounts(), email@),
            },
    {
        let key = email.to_owned();
        match self.position(&key) {
            Some(i) => {
                proof {
                    self.lemma_row(i as int);
                }
                if self.rows[i].user.is_verified {
                    Some(self.user_at(i))
                } else {
                    None
                }
            },
            None => None,
        }
    }
}

} // verus!
