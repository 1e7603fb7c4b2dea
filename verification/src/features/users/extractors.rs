//! Who is asking: the bearer token of a request, read from its
//! `Authorization` header, validated, and resolved to a profile.

use vstd::prelude::*;
use vstd::string::StrSliceExecFns;
use crate::config::Config;
use crate::db::{confirmed_id, is_profile, StoreError};
use crate::features::auth::routes::secret_of;
use crate::features::users::models::User;
use crate::features::users::repositories::UserRepoImpl;
use crate::jwt::{accepted, current_timestamp, decode_at, token_claims, TokenError};

verus! {

/// Why a request was not let in.
#[derive(Debug, Clone, Copy, PartialEq, Eq, Structural)]
pub enum Rejection {
    /// The request has no `Authorization` header.
    MissingToken,
    /// The token is not accepted, or is that of no confirmed account.
    InvalidToken,
    /// The store failed.
    InternalError,
}

impl Rejection {
    /// The HTTP status that answers the request.
    pub fn status_code(&self) -> (code: u16)
        ensures
            code == match *self {
                Rejection::MissingToken => 401u16,
                Rejection::InvalidToken => 401u16,
                Rejection::InternalError => 500u16,
            },
    {
        match self {
            Rejection::MissingToken => 401,
            Rejection::InvalidToken => 401,
            Rejection::InternalError => 500,
        }
    }

    /// The text that answers the request.
    pub fn message(&self) -> (text: &'static str)
        ensures
            text@ == match *self {
                Rejection::MissingToken => "No authorization token provided"@,
                Rejection::InvalidToken => "Invalid token"@,
                Rejection::InternalError => "Internal server error"@,
            },
    {
        match self {
            Rejection::MissingToken => "No authorization token provided",
            Rejection::InvalidToken => "Invalid token",
            Rejection::InternalError => "Internal server error",
        }
    }
}

/// White space, as Unicode's property `White_Space` has it.
pub open spec fn is_space(c: char) -> bool {
    let n = c as u32;
    ||| 0x09 <= n <= 0x0d
    ||| n == 0x20
    ||| n == 0x85
    ||| n == 0xa0
    ||| n == 0x1680
    ||| 0x2000 <= n <= 0x200a
    ||| n == 0x2028
    ||| n == 0x2029
    ||| n == 0x202f
    ||| n == 0x205f
    ||| n == 0x3000
}

/// The text without the white space it begins with.
pub open spec fn trim_start(s: Seq<char>) -> Seq<char>
    decreases s.len(),
{
    if s.len() > 0 && is_space(s[0]) {
        trim_start(s.drop_first())
    } else {
        s
    }
}

/// The text without the white space it ends with.
pub open spec fn trim_end(s: Seq<char>) -> Seq<char>
    decreases s.len(),
{
    if s.len() > 0 && is_space(s.last()) {
        trim_end(s.drop_last())
    } else {
        s
    }
}

/// The text without white space at either end.
pub open spec fn trimmed(s: Seq<char>) -> Seq<char> {
    trim_end(trim_start(s))
}

/// The word that announces a bearer token.
pub open spec fn bearer_word() -> Seq<char> {
    seq!['B', 'e', 'a', 'r', 'e', 'r']
}

/// The text begins with the word `Bearer`.
pub open spec fn starts_with_bearer(s: Seq<char>) -> bool {
    s.len() >= 6 && s.take(6) == bearer_word()
}

/// The text without the word `Bearer` at its start, however often it is
/// repeated there.
pub open spec fn strip_bearer(s: Seq<char>) -> Seq<char>
    decreases s.len(),
{
    if starts_with_bearer(s) {
        strip_bearer(s.skip(6))
    } else {
        s
    }
}

/// The token that an `Authorization` header names: the header trimmed, then
/// without its leading `Bearer`, then trimmed again.
pub open spec fn bearer_token(header: Seq<char>) -> Seq<char> {
    trimmed(strip_bearer(trimmed(header)))
}

/// Whether the character is white space.
pub fn is_space_char(c: char) -> (yes: bool)
    ensures
        yes == is_space(c),
{
    let n = c as u32;
    (0x09 <= n && n <= 0x0d) || n == 0x20 || n == 0x85 || n == 0xa0 || n == 0x1680 || (0x2000
        <= n && n <= 0x200a) || n == 0x2028 || n == 0x2029 || n == 0x202f || n == 0x205f || n
        == 0x3000
}

/// The text without white space at either end.
pub fn trim(s: &str) -> (t: &str)
    ensures
        t@ == trimmed(s@),
{
    let n = s.unicode_len();
    let mut a: usize = 0;
    assert(s@.skip(0) =~= s@);
    while a < n && is_space_char(s.get_char(a))
        invariant
            a <= n,
            n == s@.len(),
            trim_start(s@) == trim_start(s@.skip(a as int)),
        decreases n - a,
    {
        assert(s@.skip(a as int).drop_first() =~= s@.skip(a + 1));
        a += 1;
    }
    assert(trim_start(s@) == s@.skip(a as int));
    let mut b: usize = n;
    assert(s@.subrange(a as int, n as int) =~= s@.skip(a as int));
    while b > a && is_space_char(s.get_char(b - 1))
        invariant
            a <= b <= n,
            n == s@.len(),
            trimmed(s@) == trim_end(s@.subrange(a as int, b as int)),
        decreases b,
    {
        assert(s@.subrange(a as int, b as int).drop_last() =~= s@.subrange(a as int, b - 1));
        b -= 1;
    }
    s.substring_char(a, b)
}

/// Whether the word `Bearer` stands at character `i` of the text.
fn has_bearer_at(s: &str, n: usize, i: usize) -> (yes: bool)
    requires
        n == s@.len(),
        i <= n,
    ensures
        yes == starts_with_bearer(s@.skip(i as int)),
{
    if n - i < 6 {
        return false;
    }
    let yes = s.get_char(i) == 'B' && s.get_char(i + 1) == 'e' && s.get_char(i + 2) == 'a'
        && s.get_char(i + 3) == 'r' && s.get_char(i + 4) == 'e' && s.get_char(i + 5) == 'r';
    proof {
        let rest = s@.skip(i as int);
        if yes {
            assert(rest.take(6) =~= bearer_word());
        } else {
            assert(rest.take(6)[0] == rest[0]);
            assert(rest.take(6)[1] == rest[1]);
            assert(rest.take(6)[2] == rest[2]);
            assert(rest.take(6)[3] == rest[3]);
            assert(rest.take(6)[4] == rest[4]);
            assert(rest.take(6)[5] == rest[5]);
        }
    }
    yes
}

/// The text without the word `Bearer` at its start, however often it is
/// repeated there.
pub fn without_bearer(s: &str) -> (t: &str)
    ensures
        t@ == strip_bearer(s@),
{
    let n = s.unicode_len();
    let mut i: usize = 0;
    assert(s@.skip(0) =~= s@);
    while has_bearer_at(s, n, i)
        invariant
            i <= n,
            n == s@.len(),
            strip_bearer(s@) == strip_bearer(s@.skip(i as int)),
        decreases n - i,
    {
        assert(s@.skip(i as int).skip(6) =~= s@.skip(i + 6));
        i += 6;
    }
    assert(s@.subrange(i as int, n as int) =~= s@.skip(i as int));
    s.substring_char(i, n)
}

/// Reads the token out of the value of an `Authorization` header.
pub fn token_of_header(value: &str) -> (token: &str)
    ensures
        token@ == bearer_token(value@),
{
    trim(without_bearer(trim(value)))
}

/// The token was accepted, as that of the account `id`.
pub open spec fn token_is_of(verdict: Result<(int, int), TokenError>, id: int) -> bool {
    verdict matches Ok((of, _)) && of == id
}

/// Whose request this is, at second `now`: the account id of the token in
/// the header. An expired token is turned down like any other bad one.
pub fn identify_at(authorization: Option<&str>, secret: &[u8], now: u64) -> (r: Result<
    i32,
    Rejection,
>)
    ensures
        r == (match authorization {
            None => Err::<i32, Rejection>(Rejection::MissingToken),
            Some(value) => match accepted(
                token_claims(bearer_token(value@), secret@),
                now as int,
            ) {
                Ok((id, _)) => Ok::<i32, Rejection>(id as i32),
                Err(_) => Err::<i32, Rejection>(Rejection::InvalidToken),
            },
        }),
{
    match authorization {
        None => Err(Rejection::MissingToken),
        Some(value) => match decode_at(token_of_header(value), secret, now) {
            Ok(claims) => Ok(claims.id),
            Err(_) => Err(Rejection::InvalidToken),
        },
    }
}

/// Whose request this is, by the clock.
pub fn identify(authorization: Option<&str>, secret: &[u8]) -> (r: Result<i32, Rejection>)
    ensures
        authorization is None ==> r == Err::<i32, Rejection>(Rejection::MissingToken),
        authorization matches Some(value) ==> {
            &&& r != Err::<i32, Rejection>(Rejection::MissingToken)
            &&& r != Err::<i32, Rejection>(Rejection::InternalError)
            &&& token_claims(bearer_token(value@), secret@) is None ==> r is Err
            &&& r matches Ok(id) ==> exists|now: u64|
                token_is_of(
                    #[trigger] accepted(token_claims(bearer_token(value@), secret@), now as int),
                    id as int,
                )
        },
{
    let now = current_timestamp();
    let r = identify_at(authorization, secret, now);
    proof {
        if r is Ok {
            let value = authorization->0;
            assert(token_is_of(
                accepted(token_claims(bearer_token(value@), secret@), now as int),
                r->Ok_0 as int,
            ));
        }
    }
    r
}

/// Decides on the store's answer to "whose profile has this id": the token
/// of an account that is unknown or unverified is no good.
pub fn profile_of(found: Result<Option<User>, StoreError>) -> (r: Result<User, Rejection>)
    ensures
        r == (match found {
            Ok(Some(user)) => Ok::<User, Rejection>(user),
            Ok(None) => Err::<User, Rejection>(Rejection::InvalidToken),
            Err(_) => Err::<User, Rejection>(Rejection::InternalError),
        }),
{
    match found {
        Ok(Some(user)) => Ok(user),
        Ok(None) => Err(Rejection::InvalidToken),
        Err(_) => Err(Rejection::InternalError),
    }
}

/// The profile of the account whose token the request carries, at second
/// `now`.
pub fn authenticate_at<R: UserRepoImpl>(
    authorization: Option<&str>,
    config: &Config,
    repo: &R,
    now: u64,
) -> (r: Result<User, Rejection>)
    requires
        repo.wf(),
    ensures
        match authorization {
            None => r matches Err(e) && e == Rejection::MissingToken,
            Some(value) => match accepted(
                token_claims(bearer_token(value@), secret_of(config)),
                now as int,
            ) {
                Ok((id, _)) => match r {
                    Ok(user) => user.id == id && is_profile(repo.accounts(), user),
                    Err(Rejection::InvalidToken) => !confirmed_id(repo.accounts(), id),
                    Err(Rejection::InternalError) => !repo.dependable(),
                    Err(Rejection::MissingToken) => false,
                },
                Err(_) => r matches Err(e) && e == Rejection::InvalidToken,
            },
        },
{
    match identify_at(authorization, config.jwt_secret.as_str().as_bytes(), now) {
        Ok(id) => profile_of(repo.find_by_id(id)),
        Err(e) => Err(e),
    }
}

/// The profile of the account whose token the request carries, by the
/// clock.
pub fn authenticate<R: UserRepoImpl>(authorization: Option<&str>, config: &Config, repo: &R) -> (r:
    Result<User, Rejection>)
    requires
        repo.wf(),
    ensures
        authorization is None ==> (r matches Err(e) && e == Rejection::MissingToken),
        authorization matches Some(value) ==> match r {
            Ok(user) => is_profile(repo.accounts(), user) && exists|now: u64|
                token_is_of(
                    #[trigger] accepted(
                        token_claims(bearer_token(value@), secret_of(config)),
                        now as int,
                    ),
                    user.id as int,
                ),
            Err(Rejection::InvalidToken) => true,
            Err(Rejection::InternalError) => !repo.dependable(),
            Err(Rejection::MissingToken) => false,
        },
{
    let now = current_timestamp();
    let r = authenticate_at(authorization, config, repo, now);
    proof {
        if r is Ok {
            let value = authorization->0;
            assert(token_is_of(
                accepted(token_claims(bearer_token(value@), secret_of(config)), now as int),
                r->Ok_0.id as int,
            ));
        }
    }
    r
}

} // verus!
