//! The login session carried by the authentication cookie, as `id-key`.

use vstd::prelude::*;
use crate::text::{
    chars_of, decimal, is_digit, lemma_decimal_digits, lemma_parse_decimal, parse_unsigned,
    parse_unsigned_chars, push_all, push_char, push_decimal,
};

verus! {

/// A login session: the user's id and the secret key handed to the client.
#[derive(Clone, Debug)]
pub struct LoginSession {
    pub id: usize,
    pub auth_key: String,
}

/// Why a cookie value does not hold a session.
#[derive(Clone, Copy, Debug, PartialEq, Eq, Structural)]
pub enum LoginSessionError {
    InvalidSession,
}

/// The position of the first `c` in `s`, if any.
pub open spec fn first_index(s: Seq<char>, c: char) -> Option<int>
    decreases s.len(),
{
    if s.len() == 0 {
        None
    } else if s[0] == c {
        Some(0)
    } else {
        match first_index(s.drop_first(), c) {
            Some(i) => Some(i + 1),
            None => None,
        }
    }
}

/// The text of a session: the id in decimal, `-`, the key.
pub open spec fn session_text(id: usize, key: Seq<char>) -> Seq<char> {
    decimal(id as nat) + seq!['-'] + key
}

/// What a cookie value holds: the part before the first `-` read as an id,
/// and everything after it as the key.
pub open spec fn session_parse(s: Seq<char>) -> Option<(usize, Seq<char>)> {
    match first_index(s, '-') {
        Some(i) => match parse_unsigned(s.take(i), usize::MAX as nat) {
            Some(v) => Some((v as usize, s.skip(i + 1))),
            None => None,
        },
        None => None,
    }
}

proof fn lemma_first_index_bounds(s: Seq<char>, c: char)
    ensures
        match first_index(s, c) {
            Some(i) => 0 <= i < s.len() && s[i] == c && forall|j: int| 0 <= j < i ==> s[j] != c,
            None => forall|j: int| 0 <= j < s.len() ==> s[j] != c,
        },
    decreases s.len(),
{
    if s.len() > 0 && s[0] != c {
        lemma_first_index_bounds(s.drop_first(), c);
        match first_index(s.drop_first(), c) {
            Some(i) => {
                assert forall|j: int| 0 <= j < i + 1 implies s[j] != c by {
                    if j > 0 {
                        assert(s[j] == s.drop_first()[j - 1]);
                    }
                }
            },
            None => {
                assert forall|j: int| 0 <= j < s.len() implies s[j] != c by {
                    if j > 0 {
                        assert(s[j] == s.drop_first()[j - 1]);
                    }
                }
            },
        }
    }
}

proof fn lemma_first_index_of(s: Seq<char>, c: char, i: int)
    requires
        0 <= i < s.len(),
        s[i] == c,
        forall|j: int| 0 <= j < i ==> s[j] != c,
    ensures
        first_index(s, c) == Some(i),
    decreases s.len(),
{
    if i > 0 {
        assert forall|j: int| 0 <= j < i - 1 implies s.drop_first()[j] != c by {
            assert(s.drop_first()[j] == s[j + 1]);
        }
        lemma_first_index_of(s.drop_first(), c, i - 1);
    }
}

impl LoginSession {
    /// The cookie text of the session: `id-key`.
    pub fn to_string(&self) -> (s: String)
        ensures
            s@ == session_text(self.id, self.auth_key@),
    {
        let mut s = String::new();
        push_decimal(&mut s, self.id);
        push_char(&mut s, '-');
        push_all(&mut s, &chars_of(self.auth_key.as_str()));
        assert(s@ =~= session_text(self.id, self.auth_key@));
        s
    }

    /// Reads a session from a cookie value: the id before the first `-`, the
    /// key after it.
    pub fn from_str(s: &str) -> (r: Result<LoginSession, LoginSessionError>)
        ensures
            match session_parse(s@) {
                Some((id, key)) => r matches Ok(sess) && sess.id == id && sess.auth_key@ == key,
                None => r == Err::<LoginSession, LoginSessionError>(LoginSessionError::InvalidSession),
            },
    {
        let chars = chars_of(s);
        proof {
            lemma_first_index_bounds(s@, '-');
        }
        let mut index: usize = 0;
        while index < chars.len() && chars[index] != '-'
            invariant
                chars@ == s@,
                index <= chars.len(),
                forall|j: int| 0 <= j < index ==> s@[j] != '-',
            decreases chars.len() - index,
        {
            index = index + 1;
        }
        if index == chars.len() {
            assert(first_index(s@, '-') is None) by {
                match first_index(s@, '-') {
                    Some(i) => { assert(s@[i] != '-'); },
                    None => {},
                }
            }
            return Err(LoginSessionError::InvalidSession);
        }
        proof {
            lemma_first_index_of(s@, '-', index as int);
        }
        let mut id_chars: Vec<char> = Vec::new();
        let mut i: usize = 0;
        while i < index
            invariant
                chars@ == s@,
                index < chars.len(),
                i <= index,
                id_chars@ == s@.take(i as int),
            decreases index - i,
        {
            id_chars.push(chars[i]);
            i = i + 1;
            assert(id_chars@ =~= s@.take(i as int));
        }
        let mut key = String::new();
        let mut k: usize = index + 1;
        while k < chars.len()
            invariant
                chars@ == s@,
                index < chars.len(),
                index + 1 <= k <= chars.len(),
                key@ == s@.subrange(index + 1, k as int),
            decreases chars.len() - k,
        {
            push_char(&mut key, chars[k]);
            k = k + 1;
            assert(key@ =~= s@.subrange(index + 1, k as int));
        }
        assert(key@ =~= s@.skip(index + 1));
        match parse_unsigned_chars(&id_chars, usize::MAX as u64) {
            Some(id) => Ok(LoginSession { id: id as usize, auth_key: key }),
            None => Err(LoginSessionError::InvalidSession),
        }
    }
}

/// The session held by the value of the authentication cookie.
pub fn get_session(cookie_value: &str) -> (r: Result<LoginSession, LoginSessionError>)
    ensures
        match session_parse(cookie_value@) {
            Some((id, key)) => r matches Ok(sess) && sess.id == id && sess.auth_key@ == key,
            None => r == Err::<LoginSession, LoginSessionError>(LoginSessionError::InvalidSession),
        },
{
    LoginSession::from_str(cookie_value)
}

/// Reading a session's cookie text gives the session back, whatever its key.
pub proof fn lemma_session_roundtrip(id: usize, key: Seq<char>)
    ensures
        session_parse(session_text(id, key)) == Some((id, key)),
{
    let d = decimal(id as nat);
    let t = session_text(id, key);
    lemma_decimal_digits(id as nat);
    assert(t[d.len() as int] == '-');
    assert forall|j: int| 0 <= j < d.len() implies t[j] != '-' by {
        assert(t[j] == d[j]);
        assert(is_digit(d[j]));
    }
    lemma_first_index_of(t, '-', d.len() as int);
    assert(t.take(d.len() as int) =~= d);
    assert(t.skip((d.len() + 1) as int) =~= key);
    lemma_parse_decimal(id as nat, usize::MAX as nat);
}

} // verus!
