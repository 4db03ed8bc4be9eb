//! A user of the web interface and its password, stored as an Argon2 hash.

use vstd::prelude::*;
use argon2::password_hash::{rand_core::OsRng, PasswordHash, PasswordHasher, PasswordVerifier, SaltString};
use argon2::Argon2;

verus! {

#[verifier::external_type_specification]
#[verifier::external_body]
pub struct ExPasswordHashError(argon2::password_hash::Error);

/// `hash` is a PHC string that argon2's `PasswordHash::new` accepts.
pub uninterp spec fn phc_parses(hash: Seq<char>) -> bool;

/// Argon2 (default parameters) accepts `password` against the PHC string
/// `hash` (`verify_password` succeeds).
pub uninterp spec fn password_verifies(hash: Seq<char>, password: Seq<char>) -> bool;

/// A password short enough for argon2 to hash: with the default parameters
/// and a generated salt, `hash_password` fails only for a password of more
/// than `0xFFFF_FFFF` bytes, and a character takes at most four bytes.
pub open spec fn password_hashable(password: Seq<char>) -> bool {
    password.len() <= 0x3FFF_FFFF
}

/// argon2: `SaltString::generate(&mut OsRng)` then
/// `Argon2::default().hash_password(..)` turned into its PHC string. The salt
/// is random, so the hash is not named; claimed, as the crate's own usage
/// example shows, that a hash it produces parses and verifies the password
/// it was made from, and that it succeeds for a hashable password (its only
/// error with these parameters is a password that is too long). A failure of
/// the operating system's random source panics in `OsRng`; that is not
/// covered here.
#[verifier::external_body]
fn hash_with_random_salt(password: &str) -> (r: Result<String, argon2::password_hash::Error>)
    ensures
        r matches Ok(h) ==> phc_parses(h@) && password_verifies(h@, password@),
        password_hashable(password@) ==> r is Ok,
{
    let salt = SaltString::generate(&mut OsRng);
    match Argon2::default().hash_password(password.as_bytes(), &salt) {
        Ok(h) => Ok(h.to_string()),
        Err(e) => Err(e),
    }
}

/// argon2: `PasswordHash::new(hash)` then `Argon2::default().verify_password`
/// of `password`, success taken as `true`. Claimed: an error exactly when the
/// hash does not parse, else whether the password verifies.
#[verifier::external_body]
fn verify_against_hash(hash: &str, password: &str) -> (r: Result<bool, argon2::password_hash::Error>)
    ensures
        match r {
            Ok(b) => phc_parses(hash@) && b == password_verifies(hash@, password@),
            Err(_) => !phc_parses(hash@),
        },
{
    let parsed_hash = PasswordHash::new(hash)?;
    Ok(Argon2::default().verify_password(password.as_bytes(), &parsed_hash).is_ok())
}

/// Why a password could not be hashed or checked.
#[derive(Clone, Copy, Debug, PartialEq, Eq, Structural)]
pub enum PasswordError {
    /// The hashing library reported an error.
    Hashing,
}

/// What checking `password` against the stored `hash` gives: `None` when the
/// stored hash does not parse, else whether the password verifies.
pub open spec fn password_check(hash: Seq<char>, password: Seq<char>) -> Option<bool> {
    if phc_parses(hash) { Some(password_verifies(hash, password)) } else { None }
}

/// A user: its id, name, role and password hash.
#[derive(Clone, Debug)]
pub struct User {
    pub id: usize,
    username: String,
    role: String,
    password: String,
}

impl User {
    pub closed spec fn id_of(&self) -> usize {
        self.id
    }

    pub closed spec fn username_of(&self) -> Seq<char> {
        self.username@
    }

    pub closed spec fn role_of(&self) -> Seq<char> {
        self.role@
    }

    pub closed spec fn password_hash_of(&self) -> Seq<char> {
        self.password@
    }

    /// A new user (id 0) whose password is hashed with a fresh random salt;
    /// this succeeds for every hashable password.
    pub fn new(username: String, password: String, role: String) -> (r: Result<User, PasswordError>)
        ensures
            password_hashable(password@) ==> r is Ok,
            match r {
                Ok(u) => {
                    &&& u.id_of() == 0
                    &&& u.username_of() == username@
                    &&& u.role_of() == role@
                    &&& password_check(u.password_hash_of(), password@) == Some(true)
                },
                Err(e) => e == PasswordError::Hashing,
            },
    {
        let mut user = User { id: 0, username: username, role: role, password: String::new() };
        user.set_password(password)?;
        return Ok(user);
    }

    /// A user from its stored fields.
    pub fn new_raw(username: String, password: String, role: String, id: usize) -> (u: User)
        ensures
            u.id_of() == id,
            u.username_of() == username@,
            u.role_of() == role@,
            u.password_hash_of() == password@,
    {
        User { id, username, role, password }
    }

    /// Replaces the password hash by a hash of `new_password` with a fresh
    /// random salt; on error nothing changes. This succeeds for every
    /// hashable password.
    pub fn set_password(&mut self, new_password: String) -> (r: Result<(), PasswordError>)
        ensures
            password_hashable(new_password@) ==> r is Ok,
            final(self).id_of() == old(self).id_of(),
            final(self).username_of() == old(self).username_of(),
            final(self).role_of() == old(self).role_of(),
            match r {
                Ok(_) => password_check(final(self).password_hash_of(), new_password@) == Some(true),
                Err(e) => e == PasswordError::Hashing && final(self).password_hash_of() == old(self).password_hash_of(),
            },
    {
        let hashed = match hash_with_random_salt(new_password.as_str()) {
            Ok(pw_hash) => Some(pw_hash),
            Err(_) => None,
        };
        self.store_password_hash(hashed)
    }

    /// Stores the outcome of hashing a new password: the hash when there is
    /// one (`Ok`), else nothing changes and hashing is reported as failed.
    pub fn store_password_hash(&mut self, hashed: Option<String>) -> (r: Result<(), PasswordError>)
        ensures
            final(self).id_of() == old(self).id_of(),
            final(self).username_of() == old(self).username_of(),
            final(self).role_of() == old(self).role_of(),
            match hashed {
                Some(h) => r is Ok && final(self).password_hash_of() == h@,
                None => r == Err::<(), PasswordError>(PasswordError::Hashing)
                    && final(self).password_hash_of() == old(self).password_hash_of(),
            },
    {
        match hashed {
            Some(pw_hash) => {
                self.password = pw_hash;
                Ok(())
            },
            None => Err(PasswordError::Hashing),
        }
    }

    /// Whether `password` is the user's password; an error when the stored
    /// hash cannot be read.
    pub fn check_password(&mut self, password: String) -> (r: Result<bool, PasswordError>)
        ensures
            *final(self) == *old(self),
            match password_check(old(self).password_hash_of(), password@) {
                Some(b) => r == Ok::<bool, PasswordError>(b),
                None => r == Err::<bool, PasswordError>(PasswordError::Hashing),
            },
    {
        let password_hash = self.get_password_hash();
        match verify_against_hash(password_hash.as_str(), password.as_str()) {
            Ok(b) => Ok(b),
            Err(_) => Err(PasswordError::Hashing),
        }
    }

    /// The user's id.
    pub fn user_id(&self) -> (r: usize)
        ensures
            r == self.id_of(),
    {
        self.id
    }

    pub fn get_role(&mut self) -> (r: String)
        ensures
            r@ == old(self).role_of(),
            *final(self) == *old(self),
    {
        self.role.clone()
    }

    pub fn get_username(&mut self) -> (r: String)
        ensures
            r@ == old(self).username_of(),
            *final(self) == *old(self),
    {
        self.username.clone()
    }

    pub fn get_password_hash(&mut self) -> (r: String)
        ensures
            r@ == old(self).password_hash_of(),
            *final(self) == *old(self),
    {
        self.password.clone()
    }
}

/// A password that was set is accepted when checked again.
pub proof fn lemma_set_password_then_check(hash: Seq<char>, password: Seq<char>)
    requires
        phc_parses(hash) && password_verifies(hash, password),
    ensures
        password_check(hash, password) == Some(true),
{
}

} // verus!
