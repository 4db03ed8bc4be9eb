//! The table of login sessions: for each user id, the secret key and its
//! expiry, kept in a concurrent map.

use vstd::prelude::*;
use dashmap::DashMap;

verus! {

/// The secret of a session and the time (in seconds) until which it holds.
#[derive(Clone, Debug)]
pub struct AuthKey {
    secret: String,
    expires: usize,
}

impl AuthKey {
    pub closed spec fn secret_of(&self) -> Seq<char> {
        self.secret@
    }

    pub closed spec fn expires_of(&self) -> usize {
        self.expires
    }

    /// Whether the key still holds at time `now`.
    pub fn is_alive(&self, now: usize) -> (b: bool)
        ensures
            b == (self.expires_of() > now),
    {
        self.expires > now
    }
}

#[verifier::external_type_specification]
#[verifier::external_body]
#[verifier::reject_recursive_types(K)]
#[verifier::reject_recursive_types(V)]
#[verifier::reject_recursive_types(S)]
pub struct ExDashMap<K, V, S>(dashmap::DashMap<K, V, S>);

/// A session table: for each user id, the secret and the expiry of its key.
pub type SessionTable = Map<usize, (Seq<char>, usize)>;

/// The concurrent map that holds the session keys.
pub type SessionMap = DashMap<usize, AuthKey>;

/// What a session map holds: for each user id, the secret and the expiry of its key.
pub uninterp spec fn session_entries(m: SessionMap) -> SessionTable;

/// dashmap's `DashMap::new`: an empty map.
#[verifier::external_body]
fn new_session_map() -> (m: SessionMap)
    ensures
        session_entries(m) == SessionTable::empty(),
{
    DashMap::new()
}

/// dashmap's `DashMap::insert`: maps `id` to `key`, replacing any earlier key.
#[verifier::external_body]
fn session_map_insert(m: &mut SessionMap, id: usize, key: AuthKey)
    ensures
        session_entries(*final(m)) == session_entries(*old(m)).insert(id, (key.secret_of(), key.expires_of())),
{
    m.insert(id, key);
}

/// dashmap's `DashMap::remove`: removes the entry of `id`, if any.
#[verifier::external_body]
fn session_map_remove(m: &mut SessionMap, id: usize)
    ensures
        session_entries(*final(m)) == session_entries(*old(m)).remove(id),
{
    m.remove(&id);
}

/// dashmap's `DashMap::get`, mapped to a copy of the entry's secret.
#[verifier::external_body]
fn session_map_secret(m: &SessionMap, id: usize) -> (r: Option<String>)
    ensures
        match r {
            Some(s) => session_entries(*m).contains_key(id) && s@ == session_entries(*m)[id].0,
            None => !session_entries(*m).contains_key(id),
        },
{
    m.get(&id).map(|entry| entry.secret.clone())
}

/// dashmap's `DashMap::clear`: removes every entry.
#[verifier::external_body]
fn session_map_clear(m: &mut SessionMap)
    ensures
        session_entries(*final(m)) == SessionTable::empty(),
{
    m.clear();
}

/// dashmap's `DashMap::retain`, with `AuthKey::is_alive` as the predicate:
/// keeps exactly the entries whose key holds at `now`.
#[verifier::external_body]
fn session_map_retain_alive(m: &mut SessionMap, now: usize)
    ensures
        session_entries(*final(m)) == unexpired(session_entries(*old(m)), now),
{
    m.retain(|_, auth_key| auth_key.is_alive(now));
}

/// The entries of a session table whose key holds at `now`.
pub open spec fn unexpired(m: SessionTable, now: usize) -> SessionTable {
    m.restrict(m.dom().filter(|k: usize| m[k].1 > now))
}

/// The login sessions, by user id.
pub struct SessionManager {
    sessions: SessionMap,
}

impl View for SessionManager {
    type V = SessionTable;

    closed spec fn view(&self) -> SessionTable {
        session_entries(self.sessions)
    }
}

impl SessionManager {
    pub fn new() -> (m: SessionManager)
        ensures
            m@ == SessionTable::empty(),
    {
        SessionManager { sessions: new_session_map() }
    }

    /// Records the session key of user `id`, replacing any earlier one.
    pub fn insert(&mut self, id: usize, key: String, expires: usize)
        ensures
            final(self)@ == old(self)@.insert(id, (key@, expires)),
    {
        let auth = AuthKey { secret: key, expires };
        session_map_insert(&mut self.sessions, id, auth);
    }

    /// Forgets the session of user `id`.
    pub fn remove(&mut self, id: usize)
        ensures
            final(self)@ == old(self)@.remove(id),
    {
        session_map_remove(&mut self.sessions, id);
    }

    /// The session secret of user `id`, if there is one.
    pub fn get(&self, id: usize) -> (r: Option<String>)
        ensures
            match r {
                Some(s) => self@.contains_key(id) && s@ == self@[id].0,
                None => !self@.contains_key(id),
            },
    {
        session_map_secret(&self.sessions, id)
    }

    /// Forgets every session.
    pub fn clear_all(&mut self)
        ensures
            final(self)@ == SessionTable::empty(),
    {
        session_map_clear(&mut self.sessions);
    }

    /// Forgets the sessions whose key no longer holds at time `now` (seconds
    /// since the Unix epoch).
    pub fn clear_expired(&mut self, now: usize)
        ensures
            final(self)@ == unexpired(old(self)@, now),
    {
        session_map_retain_alive(&mut self.sessions, now);
    }
}

} // verus!
