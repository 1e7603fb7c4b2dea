//! The two features of the service: authentication and user profiles.

pub mod auth;
pub mod users;
