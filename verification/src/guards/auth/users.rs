//! The users' login sessions: logging in and out, and checking a session.

use vstd::prelude::*;
use rand::distributions::{Alphanumeric, Uniform};
use rand::Rng;
use super::cookie::LoginSession;
use super::session::SessionManager;
use super::user::{User, password_check};
use crate::text::{push_char};

verus! {

/// How long a new session key is recorded to hold: fifteen minutes' worth of seconds.
pub const SESSION_EXPIRES: usize = 900;

/// A printable ASCII character as the random session keys use them: code
/// points 32 to 125.
pub open spec fn is_key_char(c: char) -> bool {
    32 <= (c as int) < 126
}

pub open spec fn is_ascii_alphanumeric(c: char) -> bool {
    ('a' <= c && c <= 'z') || ('A' <= c && c <= 'Z') || ('0' <= c && c <= '9')
}

/// rand: `size` characters from `thread_rng()` through `Uniform::new(' ', '~')`,
/// i.e. uniform over the code points 32 to 125 (the upper bound 126 is
/// excluded). Claimed: the count and the range; which characters come out
/// is chance.
#[verifier::external_body]
fn random_key_chars(size: usize) -> (v: Vec<char>)
    ensures
        v@.len() == size,
        forall|i: int| 0 <= i < v@.len() ==> is_key_char(#[trigger] v@[i]),
{
    rand::thread_rng().sample_iter(Uniform::new(char::from(32u8), char::from(126u8))).take(size).collect()
}

/// rand: one character of the `Alphanumeric` distribution (A–Z, a–z, 0–9)
/// from `thread_rng()`. Claimed: the character class; which one is chance.
#[verifier::external_body]
fn random_alphanumeric() -> (c: char)
    ensures
        is_ascii_alphanumeric(c),
{
    char::from(rand::thread_rng().sample(&Alphanumeric))
}

/// `raw` with every `;` replaced by `repl`.
pub open spec fn replace_semicolons(raw: Seq<char>, repl: char) -> Seq<char> {
    raw.map_values(|c: char| if c == ';' { repl } else { c })
}

/// The text of `raw` with every `;` replaced by `repl` (a cookie value may
/// not hold `;`).
pub fn compose_key(raw: &Vec<char>, repl: char) -> (s: String)
    ensures
        s@ == replace_semicolons(raw@, repl),
{
    let mut s = String::new();
    let mut i: usize = 0;
    while i < raw.len()
        invariant
            i <= raw.len(),
            s@ == replace_semicolons(raw@.take(i as int), repl),
        decreases raw.len() - i,
    {
        let c = raw[i];
        if c == ';' {
            push_char(&mut s, repl);
        } else {
            push_char(&mut s, c);
        }
        i = i + 1;
        assert(s@ =~= replace_semicolons(raw@.take(i as int), repl));
    }
    assert(raw@.take(raw.len() as int) =~= raw@);
    s
}

/// A random session key of `size` characters: printable ASCII from code
/// point 32 to 125, with every `;` replaced by one random alphanumeric
/// character.
pub fn rand_string(size: usize) -> (s: String)
    ensures
        s@.len() == size,
        forall|i: int| 0 <= i < size ==> is_key_char(#[trigger] s@[i]) && s@[i] != ';',
{
    let raw = random_key_chars(size);
    let repl = random_alphanumeric();
    let s = compose_key(&raw, repl);
    assert forall|i: int| 0 <= i < size implies is_key_char(#[trigger] s@[i]) && s@[i] != ';' by {
        assert(is_key_char(raw@[i]));
    }
    s
}

/// Why a login failed.
#[derive(Clone, Copy, Debug, PartialEq, Eq, Structural)]
pub enum LoginError {
    NoUser,
    InternalError,
}

/// The user that a session with this id and key belongs to: the id, when
/// the recorded key of that id is the same key.
pub open spec fn session_user(sessions: Map<usize, (Seq<char>, usize)>, id: usize, key: Seq<char>) -> Option<usize> {
    if sessions.contains_key(id) && sessions[id].0 == key { Some(id) } else { None }
}

/// The login sessions of the users.
pub struct UserManager {
    session: SessionManager,
}

impl UserManager {
    /// The recorded sessions: for each user id, its key and expiry.
    pub closed spec fn sessions(&self) -> Map<usize, (Seq<char>, usize)> {
        self.session@
    }

    /// A manager without sessions.
    pub fn new() -> (m: UserManager)
        ensures
            m.sessions() == Map::<usize, (Seq<char>, usize)>::empty(),
    {
        UserManager { session: SessionManager::new() }
    }

    /// Changes to a user's record: none are made.
    pub fn modify_user(&self, user: User) {
    }

    /// Starts a session for `user_id` with a new random key of 128 characters.
    fn set_auth_key(&mut self, user_id: usize) -> (s: LoginSession)
        ensures
            s.id == user_id,
            s.auth_key@.len() == 128,
            forall|i: int| 0 <= i < 128 ==> is_key_char(#[trigger] s.auth_key@[i]) && s.auth_key@[i] != ';',
            final(self).sessions() == old(self).sessions().insert(user_id, (s.auth_key@, SESSION_EXPIRES)),
    {
        let secret = rand_string(128);
        self.session.insert(user_id, secret.clone(), 60 * 15);
        LoginSession { id: user_id, auth_key: secret }
    }

    /// The user id that a session authenticates: its own id, when the key is
    /// the one on record for it.
    pub fn is_auth(&self, session: &LoginSession) -> (r: Option<usize>)
        ensures
            r == session_user(self.sessions(), session.id, session.auth_key@),
    {
        match self.session.get(session.id) {
            Some(secret) => {
                if secret == session.auth_key {
                    Some(session.id)
                } else {
                    None
                }
            },
            None => None,
        }
    }

    /// Logs in the user found under the given name (`None` when there is
    /// none) with `password`: on success a new session for that user.
    pub fn login(&mut self, user: Option<User>, password: String) -> (r: Result<LoginSession, LoginError>)
        ensures
            match user {
                None => r == Err::<LoginSession, LoginError>(LoginError::NoUser)
                    && final(self).sessions() == old(self).sessions(),
                Some(u) => match password_check(u.password_hash_of(), password@) {
                    Some(true) => r matches Ok(s) && s.id == u.id_of()
                        && s.auth_key@.len() == 128
                        && (forall|i: int| 0 <= i < 128 ==> is_key_char(#[trigger] s.auth_key@[i]) && s.auth_key@[i] != ';')
                        && final(self).sessions() == old(self).sessions().insert(u.id_of(), (s.auth_key@, SESSION_EXPIRES)),
                    Some(false) => r == Err::<LoginSession, LoginError>(LoginError::NoUser)
                        && final(self).sessions() == old(self).sessions(),
                    None => r == Err::<LoginSession, LoginError>(LoginError::InternalError)
                        && final(self).sessions() == old(self).sessions(),
                },
            },
    {
        match user {
            Some(mut user) => {
                match user.check_password(password) {
                    Ok(true) => Ok(self.set_auth_key(user.user_id())),
                    Ok(false) => Err(LoginError::NoUser),
                    Err(_) => Err(LoginError::InternalError),
                }
            },
            None => Err(LoginError::NoUser),
        }
    }

    /// Ends the session of user `id`.
    pub fn logout(&mut self, id: usize)
        ensures
            final(self).sessions() == old(self).sessions().remove(id),
    {
        self.session.remove(id);
    }

    /// Forgets the sessions whose key no longer holds at `now`.
    pub fn clear_expired(&mut self, now: usize)
        ensures
            final(self).sessions() == super::session::unexpired(old(self).sessions(), now),
    {
        self.session.clear_expired(now);
    }
}

/// After a successful login, the new session authenticates the user.
pub proof fn lemma_login_then_authenticated(sessions: Map<usize, (Seq<char>, usize)>, id: usize, key: Seq<char>, expires: usize)
    ensures
        session_user(sessions.insert(id, (key, expires)), id, key) == Some(id),
{
}

/// After a logout, no session of that user authenticates.
pub proof fn lemma_logout_then_rejected(sessions: Map<usize, (Seq<char>, usize)>, id: usize, key: Seq<char>)
    ensures
        session_user(sessions.remove(id), id, key) is None,
{
}

/// A new login of a user replaces the user's earlier session: the earlier
/// key no longer authenticates unless it is the same key.
pub proof fn lemma_login_replaces_session(sessions: Map<usize, (Seq<char>, usize)>, id: usize, old_key: Seq<char>, key: Seq<char>, expires: usize)
    requires
        old_key != key,
    ensures
        session_user(sessions.insert(id, (key, expires)), id, old_key) is None,
{
}

} // verus!
