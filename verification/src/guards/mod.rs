//! Request guards: authentication, CORS headers and the GitHub address check.

pub mod auth;
pub mod cors;
pub mod githubip;
