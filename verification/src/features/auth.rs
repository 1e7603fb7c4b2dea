//! Registration, email verification and login.

pub mod code;
pub mod models;
pub mod password;
pub mod repositories;
pub mod routes;
pub mod theorems;
