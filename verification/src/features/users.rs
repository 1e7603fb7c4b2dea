//! Profiles of confirmed users.

pub mod extractors;
pub mod models;
pub mod repositories;
pub mod routes;
