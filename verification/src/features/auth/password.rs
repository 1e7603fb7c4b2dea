//! Password hashing with Argon2id. A hash is a PHC string that carries its
//! own salt and parameters, so checking a password needs nothing but the hash.

use vstd::prelude::*;

verus! {

/// The hash function failed.
#[derive(Debug, Clone, Copy, PartialEq, Eq, Structural)]
pub struct HashError;

/// `argon2::password_hash::Error`: why a salt or a password was not hashed.
/// It is passed on unread.
#[verifier::external_type_specification]
#[verifier::external_body]
pub struct ExPasswordHashError(argon2::password_hash::Error);

/// The PHC string that Argon2 with its default parameters makes of the
/// password under the salt; `None` where it fails or the salt is not one.
pub uninterp spec fn argon2_hash(password: Seq<char>, salt: Seq<char>) -> Option<Seq<char>>;

/// Whether Argon2 finds the password to match the hash. A string that is no
/// PHC string matches no password.
pub uninterp spec fn argon2_accepts(password: Seq<char>, hash: Seq<char>) -> bool;

/// `SaltString::generate` on the operating system's random source, as text.
/// Nothing is claimed of the value. The call panics where the system has no
/// random bytes to give.
#[verifier::external_body]
fn fresh_salt() -> String {
    argon2::password_hash::SaltString::generate(&mut argon2::password_hash::rand_core::OsRng)
        .as_str()
        .to_owned()
}

/// `Argon2::default().hash_password` under a salt parsed by
/// `SaltString::from_b64`, rendered as a PHC string.
///
/// Trusted: the result is a function of password and salt, and the hash it
/// gives is one that `verify_password` accepts for the same password, since
/// verifying hashes again with the salt and parameters read from the string
/// and compares the outputs.
#[verifier::external_body]
fn hash_with_salt(password: &str, salt: &str) -> (r: Result<String, argon2::password_hash::Error>)
    ensures
        match r {
            Ok(hash) => argon2_hash(password@, salt@) == Some(hash@) && argon2_accepts(
                password@,
                hash@,
            ),
            Err(_) => argon2_hash(password@, salt@) is None,
        },
{
    let salt = argon2::password_hash::SaltString::from_b64(salt)?;
    let hash = argon2::PasswordHasher::hash_password(
        &argon2::Argon2::default(),
        password.as_bytes(),
        &salt,
    )?;
    Ok(hash.to_string())
}

/// `PasswordHash::new` on the hash, then `Argon2::default().verify_password`.
/// A hash that does not parse is a mismatch.
///
/// Trusted: the result is a function of password and hash.
#[verifier::external_body]
fn matches_hash(password: &str, hash: &str) -> (ok: bool)
    ensures
        ok == argon2_accepts(password@, hash@),
{
    match argon2::PasswordHash::new(hash) {
        Ok(parsed) => argon2::PasswordVerifier::verify_password(
            &argon2::Argon2::default(),
            password.as_bytes(),
            &parsed,
        ).is_ok(),
        Err(_) => false,
    }
}

/// Hashes the password under a fresh random salt. The hash returned is one
/// that [`verify_password`] accepts for this password; there is none only
/// where Argon2 makes none of the password under the salt that was drawn.
pub fn hash_password(password: &str) -> (r: Result<String, HashError>)
    ensures
        match r {
            Ok(hash) => argon2_accepts(password@, hash@) && exists|salt: Seq<char>|
                #[trigger] argon2_hash(password@, salt) == Some(hash@),
            Err(_) => exists|salt: Seq<char>| #[trigger] argon2_hash(password@, salt) is None,
        },
{
    let salt = fresh_salt();
    match hash_with_salt(password, salt.as_str()) {
        Ok(hash) => Ok(hash),
        Err(_) => Err(HashError),
    }
}

/// Whether the password matches the hash. A malformed hash matches nothing.
pub fn verify_password(password: &str, hash: &str) -> (ok: bool)
    ensures
        ok == argon2_accepts(password@, hash@),
{
    matches_hash(password, hash)
}

} // verus!
