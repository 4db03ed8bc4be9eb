//! Authentication of a request by its session cookie.

use vstd::prelude::*;
use super::cookie::{get_session, session_parse};
use super::user::User;
use super::users::{UserManager, session_user};

verus! {

/// The authenticated user of a request.
pub struct Auth {
    pub user: Option<User>,
}

/// Why a request is not authenticated.
#[derive(Clone, Copy, Debug, PartialEq, Eq, Structural)]
pub enum AuthError {
    NotAuthenticated,
}

impl AuthError {
    /// The displayed text of the error.
    pub fn to_string(&self) -> (s: String)
        ensures
            s@ == "NotAuthenticated"@,
    {
        String::from_str("NotAuthenticated")
    }
}

/// The user that a request with the given cookie value is authenticated as:
/// the cookie must hold a session, and the session must be the one on record.
pub open spec fn cookie_user(sessions: Map<usize, (Seq<char>, usize)>, cookie: Option<Seq<char>>) -> Option<usize> {
    match cookie {
        None => None,
        Some(c) => match session_parse(c) {
            None => None,
            Some((id, key)) => session_user(sessions, id, key),
        },
    }
}

impl Auth {
    /// Decides whether a request is authenticated, from the value of its
    /// `viloz-auth` cookie: gives the id of the user whose record the caller
    /// then loads.
    pub fn check(users: &UserManager, cookie: Option<&str>) -> (r: Result<usize, AuthError>)
        ensures
            match cookie_user(users.sessions(), match cookie { Some(c) => Some(c@), None => None }) {
                Some(id) => r == Ok::<usize, AuthError>(id),
                None => r == Err::<usize, AuthError>(AuthError::NotAuthenticated),
            },
    {
        let auth_cookie = match cookie {
            Some(c) => c,
            None => return Err(AuthError::NotAuthenticated),
        };
        let session = match get_session(auth_cookie) {
            Ok(s) => s,
            Err(_) => return Err(AuthError::NotAuthenticated),
        };
        match users.is_auth(&session) {
            Some(id) => Ok(id),
            None => Err(AuthError::NotAuthenticated),
        }
    }
}

} // verus!
