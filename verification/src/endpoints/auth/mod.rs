//! The authentication endpoints.

pub mod check_login;
