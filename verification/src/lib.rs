//! Account registration, email verification and login, with the rules of each
//! step stated as contracts and proved.
//!
//! An account is created unverified together with a one-time code, becomes
//! usable once the code has been presented, and can be registered again while
//! it is unverified without a second account coming into being. Passwords are
//! hashed with Argon2 and identity tokens are signed JSON Web Tokens.

pub mod config;
pub mod db;
pub mod features;
pub mod jwt;
