//! Identity tokens: JSON Web Tokens signed with HMAC-SHA256 under a shared
//! secret, carrying an account id and an expiry in seconds since the Unix
//! epoch.
//!
//! Signing and signature checking are done by `jsonwebtoken`; when a token
//! expires and which claims are acceptable is decided here.

use vstd::prelude::*;
use crate::features::auth::models::TokenClaims;

verus! {

/// Seconds for which a token is accepted after it was issued: 180 days.
pub const TOKEN_LIFETIME: u64 = 15552000;

/// Why a token was not issued or not accepted.
#[derive(Debug, Clone, Copy, PartialEq, Eq, Structural)]
pub enum TokenError {
    /// The signature does not match, or the token is not one of ours in form.
    InvalidToken,
    /// The token's expiry has passed.
    Expired,
    /// No token could be made: the expiry is out of range, or signing failed.
    Unissuable,
}

/// `jsonwebtoken::errors::Error`: why signing or decoding failed. It is
/// passed on unread.
#[verifier::external_type_specification]
#[verifier::external_body]
pub struct ExJwtError(jsonwebtoken::errors::Error);

/// The token that `jsonwebtoken::encode` makes of the claims `id` and `exp`
/// under the default header and the secret; `None` where it fails.
pub uninterp spec fn signed_token(id: int, exp: int, secret: Seq<u8>) -> Option<Seq<char>>;

/// The claims `id` and `exp` that `jsonwebtoken::decode` reads from a token
/// whose signature matches the secret, each where it is present as an integer
/// of its range; `None` where the token is refused.
pub uninterp spec fn token_claims(token: Seq<char>, secret: Seq<u8>) -> Option<
    (Option<int>, Option<int>),
>;

/// `jsonwebtoken::encode` with the default header (HS256), the claims
/// `{"id": id, "exp": exp}` and the secret as HMAC key.
///
/// Trusted: the result is a function of the three arguments, and a token so
/// made is read back by `jsonwebtoken::decode` under the same secret with
/// the same two claims, since the check of an HMAC signature signs again and
/// compares.
#[verifier::external_body]
fn sign_claims(id: i32, exp: u64, secret: &[u8]) -> (r: Result<String, jsonwebtoken::errors::Error>)
    ensures
        match r {
            Ok(token) => signed_token(id as int, exp as int, secret@) == Some(token@)
                && token_claims(token@, secret@) == Some((Some(id as int), Some(exp as int))),
            Err(_) => signed_token(id as int, exp as int, secret@) is None,
        },
{
    let mut claims = serde_json::Map::new();
    claims.insert(String::from("id"), serde_json::Value::from(id));
    claims.insert(String::from("exp"), serde_json::Value::from(exp));
    jsonwebtoken::encode(
        &jsonwebtoken::Header::default(),
        &claims,
        &jsonwebtoken::EncodingKey::from_secret(secret),
    )
}

/// `jsonwebtoken::decode` under the secret with the default validation
/// (HS256, `exp` required) but for the comparison of `exp` with the clock,
/// which is switched off; then the claims `id` and `exp` as integers.
///
/// Trusted: the result is a function of token and secret.
#[verifier::external_body]
fn read_claims(token: &str, secret: &[u8]) -> (r: Result<
    (Option<i64>, Option<u64>),
    jsonwebtoken::errors::Error,
>)
    ensures
        match r {
            Ok((id, exp)) => token_claims(token@, secret@) == Some(
                (
                    match id {
                        Some(i) => Some(i as int),
                        None => None,
                    },
                    match exp {
                        Some(e) => Some(e as int),
                        None => None,
                    },
                ),
            ),
            Err(_) => token_claims(token@, secret@) is None,
        },
{
    let mut validation = jsonwebtoken::Validation::default();
    validation.validate_exp = false;
    let key = jsonwebtoken::DecodingKey::from_secret(secret);
    let data = jsonwebtoken::decode::<serde_json::Value>(token, &key, &validation)?;
    let id = match data.claims.get("id") {
        Some(value) => value.as_i64(),
        None => None,
    };
    let exp = match data.claims.get("exp") {
        Some(value) => value.as_u64(),
        None => None,
    };
    Ok((id, exp))
}

/// `jsonwebtoken::get_current_timestamp`: the clock, in seconds since the
/// Unix epoch. Nothing is claimed of the value. The call panics where the
/// clock stands before the epoch.
#[verifier::external_body]
pub(crate) fn current_timestamp() -> u64 {
    jsonwebtoken::get_current_timestamp()
}

/// What issuing a token for `id` at second `now` gives.
pub open spec fn issued(id: int, secret: Seq<u8>, now: int) -> Result<Seq<char>, TokenError> {
    if now + TOKEN_LIFETIME > u64::MAX {
        Err(TokenError::Unissuable)
    } else {
        match signed_token(id, now + TOKEN_LIFETIME, secret) {
            Some(token) => Ok(token),
            None => Err(TokenError::Unissuable),
        }
    }
}

/// What the claims read from a token are worth at second `now`: both must be
/// there and the id 32-bit, and the token is good up to and including the
/// second of its expiry.
pub open spec fn accepted(claims: Option<(Option<int>, Option<int>)>, now: int) -> Result<
    (int, int),
    TokenError,
> {
    match claims {
        Some((Some(id), Some(exp))) => if id < i32::MIN || id > i32::MAX {
            Err(TokenError::InvalidToken)
        } else if now > exp {
            Err(TokenError::Expired)
        } else {
            Ok((id, exp))
        },
        _ => Err(TokenError::InvalidToken),
    }
}

/// The claims are accepted as those of `id` at every second up to `exp`, and
/// refused as expired at every second after it.
pub open spec fn good_until(claims: Option<(Option<int>, Option<int>)>, id: int, exp: int) -> bool {
    forall|at: int|
        #[trigger] accepted(claims, at) == (if at <= exp {
            Ok::<(int, int), TokenError>((id, exp))
        } else {
            Err::<(int, int), TokenError>(TokenError::Expired)
        })
}

/// A token, or the refusal to make one, as strings of characters.
pub open spec fn token_view(r: Result<String, TokenError>) -> Result<Seq<char>, TokenError> {
    match r {
        Ok(t) => Ok(t@),
        Err(e) => Err(e),
    }
}

/// Claims, or the refusal of a token, as integers.
pub open spec fn claims_view(r: Result<TokenClaims, TokenError>) -> Result<(int, int), TokenError> {
    match r {
        Ok(c) => Ok((c.id as int, c.exp as int)),
        Err(e) => Err(e),
    }
}

/// Issues a token for the account at second `now`; it expires 180 days
/// later. The token so issued is accepted, with the same id, at every second
/// up to its expiry and at none after it.
pub fn encode_at(user_id: i32, secret: &[u8], now: u64) -> (r: Result<String, TokenError>)
    ensures
        token_view(r) == issued(user_id as int, secret@, now as int),
        r matches Ok(token) ==> good_until(
            token_claims(token@, secret@),
            user_id as int,
            now + TOKEN_LIFETIME,
        ),
{
    match now.checked_add(TOKEN_LIFETIME) {
        Some(exp) => match sign_claims(user_id, exp, secret) {
            Ok(token) => Ok(token),
            Err(_) => Err(TokenError::Unissuable),
        },
        None => Err(TokenError::Unissuable),
    }
}

/// Decides on the claims read from a token at second `now`.
pub fn check_claims(id: Option<i64>, exp: Option<u64>, now: u64) -> (r: Result<
    TokenClaims,
    TokenError,
>)
    ensures
        claims_view(r) == accepted(
            Some(
                (
                    match id {
                        Some(i) => Some(i as int),
                        None => None,
                    },
                    match exp {
                        Some(e) => Some(e as int),
                        None => None,
                    },
                ),
            ),
            now as int,
        ),
{
    match (id, exp) {
        (Some(id), Some(exp)) => {
            if id < -2147483648 || id > 2147483647 {
                Err(TokenError::InvalidToken)
            } else if now > exp {
                Err(TokenError::Expired)
            } else {
                Ok(TokenClaims { id: id as i32, exp })
            }
        },
        _ => Err(TokenError::InvalidToken),
    }
}

/// Validates a token at second `now`: its signature under the secret, its
/// claims, and its expiry.
pub fn decode_at(token: &str, secret: &[u8], now: u64) -> (r: Result<TokenClaims, TokenError>)
    ensures
        claims_view(r) == accepted(token_claims(token@, secret@), now as int),
{
    match read_claims(token, secret) {
        Ok((id, exp)) => check_claims(id, exp, now),
        Err(_) => Err(TokenError::InvalidToken),
    }
}

/// Validates a token against the clock.
pub fn decode(token: &str, secret: &[u8]) -> (r: Result<TokenClaims, TokenError>)
    ensures
        exists|now: u64| claims_view(r) == #[trigger] accepted(
            token_claims(token@, secret@),
            now as int,
        ),
{
    let now = current_timestamp();
    decode_at(token, secret, now)
}

/// Issues a token for the account, expiring 180 days from now by the clock.
pub fn encode(user_id: i32, secret: &[u8]) -> (r: Result<String, TokenError>)
    ensures
        exists|now: u64| token_view(r) == #[trigger] issued(user_id as int, secret@, now as int),
        r matches Ok(token) ==> exists|exp: int| #[trigger]
            good_until(token_claims(token@, secret@), user_id as int, exp),
{
    let now = current_timestamp();
    let r = encode_at(user_id, secret, now);
    proof {
        assert(token_view(r) == issued(user_id as int, secret@, now as int));
        if r is Ok {
            assert(good_until(
                token_claims(r->Ok_0@, secret@),
                user_id as int,
                now + TOKEN_LIFETIME,
            ));
        }
    }
    r
}

} // verus!
