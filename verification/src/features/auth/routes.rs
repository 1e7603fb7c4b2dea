//! The three entry points of authentication: register, verify the email,
//! log in. Each takes the store it works on and says in its contract what it
//! answers and what it leaves in the store.

use vstd::prelude::*;
use vstd::string::StringExecFns;
use crate::config::Config;
use crate::db::{
    confirmed, credentials_of, is_confirmed, pending_for, upsert_id, upserted, Accounts,
    StoreError,
};
use crate::features::auth::code::{decimal, decimal_text, generate_code, is_code, lemma_code_text};
use crate::features::auth::models::{
    AuthError, AuthUser, CodeNotice, LoginRequest, LoginResponse, Mail, NotifyError,
    PendingEmailVerification, RegisterRequest, UserIdPassword, VerifyEmailRequest,
};
use crate::features::auth::password::{argon2_accepts, hash_password, verify_password};
use crate::features::auth::repositories::AuthRepoImpl;
use crate::jwt::{current_timestamp, encode_at, issued, token_view, TokenError};

verus! {

/// The bytes of the configured secret, which sign and check tokens.
pub open spec fn secret_of(config: &Config) -> Seq<u8> {
    vstd::utf8::encode_utf8(config.jwt_secret@)
}

/// The email has an unverified account that waits for exactly this code.
pub open spec fn code_matches(s: Accounts, email: Seq<char>, code: Seq<char>) -> bool {
    pending_for(s, email) matches Some((_, current)) && current == code
}

/// The answer that carries a token, or says that none could be issued.
pub open spec fn token_reply(token: Result<Seq<char>, TokenError>) -> Result<
    Seq<char>,
    AuthError,
> {
    match token {
        Ok(t) => Ok(t),
        Err(_) => Err(AuthError::InternalError),
    }
}

/// An answer as the token it carries, or the refusal.
pub open spec fn response_view(r: Result<LoginResponse, AuthError>) -> Result<
    Seq<char>,
    AuthError,
> {
    match r {
        Ok(response) => Ok(response.token@),
        Err(e) => Err(e),
    }
}

/// What verifying `email` with `code` answers at second `now`, on a store
/// that answers: without a matching pending code the request is
/// unauthorized, with one a token for the account is issued.
pub open spec fn verify_outcome(
    s: Accounts,
    email: Seq<char>,
    code: Seq<char>,
    secret: Seq<u8>,
    now: int,
) -> Result<Seq<char>, AuthError> {
    if code_matches(s, email, code) {
        token_reply(issued(s[email].id, secret, now))
    } else {
        Err(AuthError::Unauthorized)
    }
}

/// The accounts after verifying `email` with `code`, on a store that
/// answers: the account is confirmed where the code matches, and nothing
/// changes where it does not.
pub open spec fn verify_effect(s: Accounts, email: Seq<char>, code: Seq<char>) -> Accounts {
    if code_matches(s, email, code) {
        confirmed(s, email)
    } else {
        s
    }
}

/// What a login answers at second `now`, on a store that answers: a token
/// where the email has an account whose hash accepts the password, else
/// unauthorized, whichever of the two was wrong.
pub open spec fn login_outcome(
    s: Accounts,
    email: Seq<char>,
    password: Seq<char>,
    secret: Seq<u8>,
    now: int,
) -> Result<Seq<char>, AuthError> {
    match credentials_of(s, email) {
        Some((id, hash)) => if argon2_accepts(password, hash) {
            token_reply(issued(id, secret, now))
        } else {
            Err(AuthError::Unauthorized)
        },
        None => Err(AuthError::Unauthorized),
    }
}

/// Decides on the store's answer to "is this email confirmed": a confirmed
/// email is a conflict, a fault an internal error.
pub fn check_available(taken: Result<bool, StoreError>) -> (r: Result<(), AuthError>)
    ensures
        r == (match taken {
            Ok(false) => Ok::<(), AuthError>(()),
            Ok(true) => Err::<(), AuthError>(AuthError::Conflict),
            Err(_) => Err::<(), AuthError>(AuthError::InternalError),
        }),
{
    match taken {
        Ok(false) => Ok(()),
        Ok(true) => Err(AuthError::Conflict),
        Err(_) => Err(AuthError::InternalError),
    }
}

/// Decides on the store's answer to a registration: with an id, the code is
/// to be sent to the email; without one, because the email was confirmed in
/// the meantime or the store failed, the request has failed.
pub fn stored(created: Result<Option<i32>, StoreError>, email: &str, code: String) -> (r: Result<
    CodeNotice,
    AuthError,
>)
    ensures
        match created {
            Ok(Some(id)) => r matches Ok(notice) && notice.user_id == id && notice.email@ == email@
                && notice.code@ == code@,
            _ => r matches Err(e) && e == AuthError::InternalError,
        },
{
    match created {
        Ok(Some(user_id)) => Ok(CodeNotice { user_id, email: email.to_owned(), code }),
        Ok(None) => Err(AuthError::InternalError),
        Err(_) => Err(AuthError::InternalError),
    }
}

/// Decides on a code against the store's answer to "what is pending for the
/// email": the code must equal the pending one, character for character.
/// Nothing pending and a wrong code are answered alike. The account's id is
/// returned.
pub fn check_code(pending: Result<Option<PendingEmailVerification>, StoreError>, code: &str) -> (r:
    Result<i32, AuthError>)
    ensures
        r == (match pending {
            Ok(Some(p)) => if p.code@ == code@ {
                Ok::<i32, AuthError>(p.user_id)
            } else {
                Err::<i32, AuthError>(AuthError::Unauthorized)
            },
            Ok(None) => Err::<i32, AuthError>(AuthError::Unauthorized),
            Err(_) => Err::<i32, AuthError>(AuthError::InternalError),
        }),
{
    match pending {
        Ok(Some(p)) => {
            let given = code.to_owned();
            if p.code == given {
                Ok(p.user_id)
            } else {
                Err(AuthError::Unauthorized)
            }
        },
        Ok(None) => Err(AuthError::Unauthorized),
        Err(_) => Err(AuthError::InternalError),
    }
}

/// Decides on the store's answer to a confirmation: anything but the
/// confirmed account is an internal error, be it a fault or an account that
/// was no longer unverified.
pub fn confirmation(answer: Result<Option<AuthUser>, StoreError>) -> (r: Result<(), AuthError>)
    ensures
        r == (match answer {
            Ok(Some(_)) => Ok::<(), AuthError>(()),
            _ => Err::<(), AuthError>(AuthError::InternalError),
        }),
{
    match answer {
        Ok(Some(_)) => Ok(()),
        Ok(None) => Err(AuthError::InternalError),
        Err(_) => Err(AuthError::InternalError),
    }
}

/// Decides a login once the password has been held against the hash: the
/// account's id where it matched, unauthorized where it did not.
pub fn password_verdict(user_id: i32, matched: bool) -> (r: Result<i32, AuthError>)
    ensures
        r == (if matched {
            Ok::<i32, AuthError>(user_id)
        } else {
            Err::<i32, AuthError>(AuthError::Unauthorized)
        }),
{
    if matched {
        Ok(user_id)
    } else {
        Err(AuthError::Unauthorized)
    }
}

/// Decides on a password against the store's answer to "whose credentials
/// are these": an unknown email, a wrong password and a stored hash that is
/// none are answered alike. The account's id is returned.
pub fn check_password(found: Result<Option<UserIdPassword>, StoreError>, password: &str) -> (r:
    Result<i32, AuthError>)
    ensures
        r == (match found {
            Ok(Some(user)) => if argon2_accepts(password@, user.password_hash@) {
                Ok::<i32, AuthError>(user.id)
            } else {
                Err::<i32, AuthError>(AuthError::Unauthorized)
            },
            Ok(None) => Err::<i32, AuthError>(AuthError::Unauthorized),
            Err(_) => Err::<i32, AuthError>(AuthError::InternalError),
        }),
{
    match found {
        Ok(Some(user)) => password_verdict(
            user.id,
            verify_password(password, user.password_hash.as_str()),
        ),
        Ok(None) => Err(AuthError::Unauthorized),
        Err(_) => Err(AuthError::InternalError),
    }
}

/// The answer that carries an issued token; a token that could not be
/// issued is an internal error.
pub fn token_response(token: Result<String, TokenError>) -> (r: Result<LoginResponse, AuthError>)
    ensures
        response_view(r) == token_reply(token_view(token)),
{
    match token {
        Ok(token) => Ok(LoginResponse { token }),
        Err(_) => Err(AuthError::InternalError),
    }
}

/// Stores a registration whose password is already hashed and whose code is
/// drawn, and hands back the code to be sent.
///
/// The account is written under the id that [`upsert_id`] gives; where it
/// gives none, or the store fails, nothing is written and the answer is an
/// internal error.
pub fn enroll<R: AuthRepoImpl>(
    repo: &mut R,
    body: &RegisterRequest,
    password_hash: &str,
    code: u32,
) -> (r: Result<CodeNotice, AuthError>)
    requires
        old(repo).wf(),
    ensures
        final(repo).wf(),
        final(repo).dependable() == old(repo).dependable(),
        match r {
            Ok(notice) => {
                &&& upsert_id(old(repo).accounts(), old(repo).spare_id(), body.email@) == Some(
                    notice.user_id as int,
                )
                &&& notice.email@ == body.email@
                &&& notice.code@ == decimal(code as nat)
                &&& final(repo).accounts() == upserted(
                    old(repo).accounts(),
                    body.email@,
                    password_hash@,
                    body.name@,
                    decimal(code as nat),
                    notice.user_id as int,
                )
            },
            Err(e) => e == AuthError::InternalError && final(repo).accounts() == old(repo).accounts(),
        },
        old(repo).dependable() && upsert_id(
            old(repo).accounts(),
            old(repo).spare_id(),
            body.email@,
        ) is Some ==> r is Ok,
{
    let text = decimal_text(code);
    let created = repo.create_user(
        body.email.as_str(),
        password_hash,
        body.name.as_str(),
        text.as_str(),
    );
    stored(created, body.email.as_str(), text)
}

/// Registers an account: refuses an email that is confirmed, else hashes the
/// password, draws a code and stores both, on a new account or over the
/// email's unverified one. The code is handed back to be sent; the request
/// has succeeded once [`conclude_registration`] has seen it go out.
///
/// A refusal leaves the store as it was.
pub fn register<R: AuthRepoImpl>(repo: &mut R, body: &RegisterRequest) -> (r: Result<
    CodeNotice,
    AuthError,
>)
    requires
        old(repo).wf(),
    ensures
        final(repo).wf(),
        final(repo).dependable() == old(repo).dependable(),
        match r {
            Ok(notice) => {
                &&& !is_confirmed(old(repo).accounts(), body.email@)
                &&& upsert_id(old(repo).accounts(), old(repo).spare_id(), body.email@) == Some(
                    notice.user_id as int,
                )
                &&& notice.email@ == body.email@
                &&& is_code(notice.code@)
                &&& argon2_accepts(
                    body.password@,
                    final(repo).accounts()[body.email@].password_hash,
                )
                &&& final(repo).accounts() == upserted(
                    old(repo).accounts(),
                    body.email@,
                    final(repo).accounts()[body.email@].password_hash,
                    body.name@,
                    notice.code@,
                    notice.user_id as int,
                )
            },
            Err(e) => {
                &&& final(repo).accounts() == old(repo).accounts()
                &&& e != AuthError::Unauthorized
                &&& e == AuthError::Conflict ==> is_confirmed(old(repo).accounts(), body.email@)
            },
        },
        is_confirmed(old(repo).accounts(), body.email@) && old(repo).dependable() ==> r == Err::<
            CodeNotice,
            AuthError,
        >(AuthError::Conflict),
{
    match check_available(repo.is_email_taken(body.email.as_str())) {
        Ok(_) => {},
        Err(e) => {
            return Err(e);
        },
    }
    let password_hash = match hash_password(body.password.as_str()) {
        Ok(hash) => hash,
        Err(_) => {
            return Err(AuthError::InternalError);
        },
    };
    let code = generate_code();
    proof {
        lemma_code_text(code as nat);
    }
    enroll(repo, body, password_hash.as_str(), code)
}

/// The mail that carries a verification code.
pub fn verification_mail(notice: &CodeNotice) -> (mail: Mail)
    ensures
        mail.to@ == notice.email@,
        mail.subject@ == "Your Gossip verification code"@,
        mail.html_body@ == "Your verification code is: "@ + notice.code@
            + "\n\n            <br><br>\n\n            If you didn't request this code, please ignore this email. \n            "@,
{
    let mut html_body = String::from_str("Your verification code is: ");
    html_body.append(notice.code.as_str());
    html_body.append(
        "\n\n            <br><br>\n\n            If you didn't request this code, please ignore this email. \n            ",
    );
    Mail {
        to: notice.email.clone(),
        subject: String::from_str("Your Gossip verification code"),
        html_body,
    }
}

/// Ends a registration once the mail was handed to the transport: the
/// account counts as created only if the code went out.
pub fn conclude_registration(sent: Result<(), NotifyError>) -> (r: Result<(), AuthError>)
    ensures
        r == (match sent {
            Ok(_) => Ok::<(), AuthError>(()),
            Err(_) => Err::<(), AuthError>(AuthError::InternalError),
        }),
{
    match sent {
        Ok(_) => Ok(()),
        Err(_) => Err(AuthError::InternalError),
    }
}

/// Verifies an email at second `now`: where the code is the one the account
/// waits for, the account is confirmed and a token issued.
///
/// A wrong code, an unknown email and a confirmed account are all answered
/// alike, and leave the store as it was.
pub fn verify_email_at<R: AuthRepoImpl>(
    repo: &mut R,
    config: &Config,
    body: &VerifyEmailRequest,
    now: u64,
) -> (r: Result<LoginResponse, AuthError>)
    requires
        old(repo).wf(),
    ensures
        final(repo).wf(),
        final(repo).dependable() == old(repo).dependable(),
        old(repo).dependable() ==> {
            &&& response_view(r) == verify_outcome(
                old(repo).accounts(),
                body.email@,
                body.code@,
                secret_of(config),
                now as int,
            )
            &&& final(repo).accounts() == verify_effect(
                old(repo).accounts(),
                body.email@,
                body.code@,
            )
        },
        !code_matches(old(repo).accounts(), body.email@, body.code@) ==> r is Err && final(repo).accounts() == old(repo).accounts(),
        r is Ok ==> {
            &&& response_view(r) == verify_outcome(
                old(repo).accounts(),
                body.email@,
                body.code@,
                secret_of(config),
                now as int,
            )
            &&& final(repo).accounts() == confirmed(old(repo).accounts(), body.email@)
        },
        r matches Err(e) ==> {
            &&& e != AuthError::Conflict
            &&& e == AuthError::Unauthorized ==> !code_matches(
                old(repo).accounts(),
                body.email@,
                body.code@,
            )
            &&& final(repo).accounts() == old(repo).accounts() || final(repo).accounts()
                == confirmed(old(repo).accounts(), body.email@)
        },
{
    let pending = repo.get_pending_verification(body.email.as_str());
    let user_id = match check_code(pending, body.code.as_str()) {
        Ok(user_id) => user_id,
        Err(e) => {
            return Err(e);
        },
    };
    match confirmation(repo.verify_email(body.email.as_str())) {
        Ok(_) => {},
        Err(e) => {
            return Err(e);
        },
    }
    token_response(encode_at(user_id, config.jwt_secret.as_str().as_bytes(), now))
}

/// Verifies an email against the clock.
pub fn verify_email<R: AuthRepoImpl>(repo: &mut R, config: &Config, body: &VerifyEmailRequest) -> (r:
    Result<LoginResponse, AuthError>)
    requires
        old(repo).wf(),
    ensures
        final(repo).wf(),
        final(repo).dependable() == old(repo).dependable(),
        old(repo).dependable() ==> {
            &&& exists|now: u64|
                response_view(r) == #[trigger] verify_outcome(
                    old(repo).accounts(),
                    body.email@,
                    body.code@,
                    secret_of(config),
                    now as int,
                )
            &&& final(repo).accounts() == verify_effect(
                old(repo).accounts(),
                body.email@,
                body.code@,
            )
        },
        !code_matches(old(repo).accounts(), body.email@, body.code@) ==> r is Err && final(repo).accounts() == old(repo).accounts(),
        r is Ok ==> final(repo).accounts() == confirmed(old(repo).accounts(), body.email@),
        r matches Err(e) ==> {
            &&& e != AuthError::Conflict
            &&& e == AuthError::Unauthorized ==> !code_matches(
                old(repo).accounts(),
                body.email@,
                body.code@,
            )
            &&& final(repo).accounts() == old(repo).accounts() || final(repo).accounts()
                == confirmed(old(repo).accounts(), body.email@)
        },
{
    let now = current_timestamp();
    let ghost before = repo.accounts();
    let r = verify_email_at(repo, config, body, now);
    proof {
        if repo.dependable() {
            assert(response_view(r) == verify_outcome(
                before,
                body.email@,
                body.code@,
                secret_of(config),
                now as int,
            ));
        }
    }
    r
}

/// Logs in at second `now`: a token for the email's account where its hash
/// accepts the password. The store is only read.
pub fn login_at<R: AuthRepoImpl>(config: &Config, repo: &R, body: &LoginRequest, now: u64) -> (r:
    Result<LoginResponse, AuthError>)
    requires
        repo.wf(),
    ensures
        repo.dependable() ==> response_view(r) == login_outcome(
            repo.accounts(),
            body.email@,
            body.password@,
            secret_of(config),
            now as int,
        ),
        r is Ok ==> response_view(r) == login_outcome(
            repo.accounts(),
            body.email@,
            body.password@,
            secret_of(config),
            now as int,
        ),
        r matches Err(e) ==> {
            &&& e != AuthError::Conflict
            &&& e == AuthError::Unauthorized ==> login_outcome(
                repo.accounts(),
                body.email@,
                body.password@,
                secret_of(config),
                now as int,
            ) == Err::<Seq<char>, AuthError>(AuthError::Unauthorized)
        },
{
    let found = repo.find_user_id_password_by_email(body.email.as_str());
    match check_password(found, body.password.as_str()) {
        Ok(user_id) => token_response(
            encode_at(user_id, config.jwt_secret.as_str().as_bytes(), now),
        ),
        Err(e) => Err(e),
    }
}

/// Logs in against the clock.
pub fn login<R: AuthRepoImpl>(config: &Config, repo: &R, body: &LoginRequest) -> (r: Result<
    LoginResponse,
    AuthError,
>)
    requires
        repo.wf(),
    ensures
        repo.dependable() ==> exists|now: u64|
            response_view(r) == #[trigger] login_outcome(
                repo.accounts(),
                body.email@,
                body.password@,
                secret_of(config),
                now as int,
            ),
        r is Ok ==> (credentials_of(repo.accounts(), body.email@) matches Some((_, hash))
            && argon2_accepts(body.password@, hash)),
        r matches Err(e) ==> e != AuthError::Conflict,
{
    let now = current_timestamp();
    let r = login_at(config, repo, body, now);
    proof {
        if repo.dependable() {
            assert(response_view(r) == login_outcome(
                repo.accounts(),
                body.email@,
                body.password@,
                secret_of(config),
                now as int,
            ));
        }
    }
    r
}

} // verus!
