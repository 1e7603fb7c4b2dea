//! What follows from the contracts of the store and of the three entry
//! points, stated over the model of the accounts and proved.

use vstd::prelude::*;
use crate::db::{
    confirmed, credentials_of, is_confirmed, is_unverified, pending_for, unverified_record,
    upsert_id, upserted, valid_store, Accounts,
};
use crate::features::auth::password::argon2_accepts;
use crate::features::auth::routes::{
    code_matches, login_outcome, token_reply, verify_effect, verify_outcome,
};
use crate::features::auth::models::AuthError;
use crate::jwt::{accepted, good_until, issued, TokenError};

verus! {

/// What one registration brings: a password hash, a name and a code.
pub struct Attempt {
    pub password_hash: Seq<char>,
    pub username: Seq<char>,
    pub code: Seq<char>,
}

/// The accounts after the attempts were stored for the email one after the
/// other, each under `id`.
pub open spec fn registered_all(s: Accounts, email: Seq<char>, id: int, attempts: Seq<Attempt>)
    -> Accounts
    decreases attempts.len(),
{
    if attempts.len() == 0 {
        s
    } else {
        let a = attempts.last();
        upserted(
            registered_all(s, email, id, attempts.drop_last()),
            email,
            a.password_hash,
            a.username,
            a.code,
            id,
        )
    }
}

/// Registering keeps a store valid: the email still has one account, ids
/// stay apart, and every other account is as it was.
pub proof fn lemma_upsert_valid(
    s: Accounts,
    spare_id: Option<int>,
    email: Seq<char>,
    password_hash: Seq<char>,
    username: Seq<char>,
    code: Seq<char>,
)
    requires
        valid_store(s, spare_id),
        upsert_id(s, spare_id, email) is Some,
    ensures
        valid_store(
            upserted(s, email, password_hash, username, code, upsert_id(s, spare_id, email)->0),
            None,
        ),
        forall|other: Seq<char>|
            other != email ==> (#[trigger] upserted(
                s,
                email,
                password_hash,
                username,
                code,
                upsert_id(s, spare_id, email)->0,
            ).contains_key(other) == s.contains_key(other)) && upserted(
                s,
                email,
                password_hash,
                username,
                code,
                upsert_id(s, spare_id, email)->0,
            )[other] == s[other],
{
    let id = upsert_id(s, spare_id, email)->0;
    let after = upserted(s, email, password_hash, username, code, id);
    assert forall|e1: Seq<char>, e2: Seq<char>|
        #![trigger after.contains_key(e1), after.contains_key(e2)]
        after.contains_key(e1) && after.contains_key(e2) && after[e1].id == after[e2].id implies e1
        == e2 by {
        if e1 != email {
            assert(s.contains_key(e1));
        }
        if e2 != email {
            assert(s.contains_key(e2));
        }
    }
}

/// Confirming keeps a store valid, and touches no account but the email's.
pub proof fn lemma_confirm_valid(s: Accounts, spare_id: Option<int>, email: Seq<char>)
    requires
        valid_store(s, spare_id),
    ensures
        valid_store(confirmed(s, email), spare_id),
        confirmed(s, email).dom() == s.dom(),
        forall|other: Seq<char>| other != email ==> #[trigger] confirmed(s, email)[other] == s[other],
        s.contains_key(email) ==> confirmed(s, email)[email].id == s[email].id,
{
    let after = confirmed(s, email);
    assert(after.dom() =~= s.dom());
    assert forall|e1: Seq<char>, e2: Seq<char>|
        #![trigger after.contains_key(e1), after.contains_key(e2)]
        after.contains_key(e1) && after.contains_key(e2) && after[e1].id == after[e2].id implies e1
        == e2 by {
        assert(s.contains_key(e1) && s.contains_key(e2));
    }
    if spare_id is Some {
        assert forall|e: Seq<char>| #[trigger] after.contains_key(e) implies after[e].id
            != spare_id->0 by {
            assert(s.contains_key(e));
        }
    }
}

/// Registering an email twice while it is unverified gives the same id both
/// times, and leaves the store as if only the second registration had been
/// made: its hash, name and code are in effect, the second code verifies and
/// the first, if it differs, does not.
pub proof fn lemma_reregistration(
    s: Accounts,
    spare_id: Option<int>,
    later_spare_id: Option<int>,
    email: Seq<char>,
    first: Attempt,
    second: Attempt,
)
    requires
        upsert_id(s, spare_id, email) is Some,
    ensures
        ({
            let id = upsert_id(s, spare_id, email)->0;
            let once = upserted(s, email, first.password_hash, first.username, first.code, id);
            let twice = upserted(
                once,
                email,
                second.password_hash,
                second.username,
                second.code,
                id,
            );
            &&& upsert_id(once, later_spare_id, email) == Some(id)
            &&& twice == upserted(
                s,
                email,
                second.password_hash,
                second.username,
                second.code,
                id,
            )
            &&& twice[email] == unverified_record(
                id,
                second.password_hash,
                second.username,
                second.code,
            )
            &&& credentials_of(twice, email) == Some((id, second.password_hash))
            &&& code_matches(twice, email, second.code)
            &&& first.code != second.code ==> !code_matches(twice, email, first.code)
        }),
{
    let id = upsert_id(s, spare_id, email)->0;
    let once = upserted(s, email, first.password_hash, first.username, first.code, id);
    let twice = upserted(once, email, second.password_hash, second.username, second.code, id);
    assert(twice =~= upserted(
        s,
        email,
        second.password_hash,
        second.username,
        second.code,
        id,
    ));
}

/// However many registrations are made for an email that had no account,
/// one after the other, the store ends with exactly one account more: that
/// of the email, under the one id, holding what the last of them brought.
/// Every one of them was given that id.
pub proof fn lemma_registrations_converge(
    s: Accounts,
    email: Seq<char>,
    id: int,
    attempts: Seq<Attempt>,
)
    requires
        !s.contains_key(email),
        attempts.len() > 0,
    ensures
        registered_all(s, email, id, attempts) == s.insert(
            email,
            unverified_record(
                id,
                attempts.last().password_hash,
                attempts.last().username,
                attempts.last().code,
            ),
        ),
        registered_all(s, email, id, attempts).dom() == s.dom().insert(email),
        forall|k: int, spare_id: Option<int>|
            0 < k <= attempts.len() ==> #[trigger] upsert_id(
                registered_all(s, email, id, attempts.take(k)),
                spare_id,
                email,
            ) == Some(id),
    decreases attempts.len(),
{
    let a = attempts.last();
    let before = registered_all(s, email, id, attempts.drop_last());
    let target = s.insert(email, unverified_record(id, a.password_hash, a.username, a.code));
    if attempts.len() > 1 {
        lemma_registrations_converge(s, email, id, attempts.drop_last());
    }
    assert(registered_all(s, email, id, attempts) =~= target);
    assert(target.dom() =~= s.dom().insert(email));
    assert forall|k: int, spare_id: Option<int>| 0 < k <= attempts.len() implies #[trigger] upsert_id(
        registered_all(s, email, id, attempts.take(k)),
        spare_id,
        email,
    ) == Some(id) by {
        if k == attempts.len() {
            assert(attempts.take(k) =~= attempts);
        } else {
            assert(attempts.take(k) =~= attempts.drop_last().take(k));
        }
    }
}

/// In a valid store an account is in one of two states: unverified, with a
/// code pending under its id, or verified, with none.
pub proof fn lemma_two_states(s: Accounts, spare_id: Option<int>, email: Seq<char>)
    requires
        valid_store(s, spare_id),
        s.contains_key(email),
    ensures
        is_unverified(s, email) <==> pending_for(s, email) is Some,
        is_confirmed(s, email) <==> pending_for(s, email) is None,
        pending_for(s, email) matches Some((id, _)) ==> id == s[email].id,
{
}

/// A code is good for one verification: once it has confirmed the account,
/// nothing is pending for the email, and verifying again, with the same code
/// or any other, is unauthorized and changes nothing.
pub proof fn lemma_code_spent(
    s: Accounts,
    email: Seq<char>,
    code: Seq<char>,
    again: Seq<char>,
    secret: Seq<u8>,
    now: int,
)
    requires
        code_matches(s, email, code),
    ensures
        is_confirmed(verify_effect(s, email, code), email),
        pending_for(verify_effect(s, email, code), email) is None,
        verify_outcome(verify_effect(s, email, code), email, again, secret, now) == Err::<
            Seq<char>,
            AuthError,
        >(AuthError::Unauthorized),
        verify_effect(verify_effect(s, email, code), email, again) == verify_effect(
            s,
            email,
            code,
        ),
{
}

/// A wrong code is unauthorized and changes nothing, whatever the state of
/// the email's account.
pub proof fn lemma_wrong_code(
    s: Accounts,
    email: Seq<char>,
    code: Seq<char>,
    secret: Seq<u8>,
    now: int,
)
    requires
        !code_matches(s, email, code),
    ensures
        verify_outcome(s, email, code, secret, now) == Err::<Seq<char>, AuthError>(
            AuthError::Unauthorized,
        ),
        verify_effect(s, email, code) == s,
{
}

/// A confirmed email cannot be registered again, and is not pending: the
/// store gives no id for it.
pub proof fn lemma_confirmed_is_final(s: Accounts, spare_id: Option<int>, email: Seq<char>)
    requires
        is_confirmed(s, email),
    ensures
        upsert_id(s, spare_id, email) is None,
        confirmed(s, email) == s,
        !is_unverified(s, email),
        forall|code: Seq<char>| !code_matches(s, email, code),
{
}

/// After a registration, a login with a password that the stored hash
/// accepts is answered with a token for the account, and one with a password
/// that it does not accept is unauthorized.
pub proof fn lemma_login_after_registration(
    s: Accounts,
    email: Seq<char>,
    id: int,
    attempt: Attempt,
    password: Seq<char>,
    secret: Seq<u8>,
    now: int,
)
    ensures
        login_outcome(
            upserted(s, email, attempt.password_hash, attempt.username, attempt.code, id),
            email,
            password,
            secret,
            now,
        ) == (if argon2_accepts(password, attempt.password_hash) {
            token_reply(issued(id, secret, now))
        } else {
            Err::<Seq<char>, AuthError>(AuthError::Unauthorized)
        }),
{
}

/// Claims that are good until `exp` are accepted at `exp` itself and at the
/// second of issue, and are expired one second later and ever after.
pub proof fn lemma_token_window(claims: Option<(Option<int>, Option<int>)>, id: int, exp: int)
    requires
        good_until(claims, id, exp),
    ensures
        accepted(claims, exp) == Ok::<(int, int), TokenError>((id, exp)),
        forall|at: int| at <= exp ==> #[trigger] accepted(claims, at) == Ok::<(int, int), TokenError>((id, exp)),
        forall|at: int| at > exp ==> #[trigger] accepted(claims, at) == Err::<(int, int), TokenError>(TokenError::Expired),
{
}

} // verus!
