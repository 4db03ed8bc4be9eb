//! Users, passwords, login sessions and the cookie that carries them.

pub mod auth;
pub mod cookie;
pub mod session;
pub mod user;
pub mod users;
