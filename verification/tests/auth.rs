use viloz::guards::auth::auth::{Auth, AuthError};
use viloz::guards::auth::cookie::{get_session, LoginSession, LoginSessionError};
use viloz::guards::auth::session::SessionManager;
use viloz::guards::auth::user::{PasswordError, User};
use viloz::guards::auth::users::{rand_string, LoginError, UserManager};

#[test]
fn session_cookie_text() {
    let s = LoginSession { id: 5, auth_key: "abc".into() };
    assert_eq!(s.to_string(), "5-abc");
    let back = LoginSession::from_str("5-a-b").ok().unwrap();
    assert_eq!((back.id, back.auth_key.as_str()), (5, "a-b"));
    let empty_key = LoginSession::from_str("12-").ok().unwrap();
    assert_eq!((empty_key.id, empty_key.auth_key.as_str()), (12, ""));
    assert!(matches!(LoginSession::from_str("x-1"), Err(LoginSessionError::InvalidSession)));
    assert!(matches!(LoginSession::from_str("nodash"), Err(LoginSessionError::InvalidSession)));
    assert!(matches!(LoginSession::from_str("-key"), Err(LoginSessionError::InvalidSession)));
    assert!(matches!(get_session("99999999999999999999999-k"), Err(LoginSessionError::InvalidSession)));
    let via_cookie = get_session("+7-k").ok().unwrap();
    assert_eq!(via_cookie.id, 7);
}

#[test]
fn session_text_round_trip() {
    for (id, key) in [(0usize, ""), (42, "x-y;z"), (usize::MAX, "--")] {
        let s = LoginSession { id, auth_key: key.to_string() };
        let back = LoginSession::from_str(&s.to_string()).ok().unwrap();
        assert_eq!((back.id, back.auth_key.as_str()), (id, key));
    }
}

#[test]
fn session_table() {
    let mut m = SessionManager::new();
    assert_eq!(m.get(1), None);
    m.insert(1, "k1".into(), 50);
    m.insert(2, "k2".into(), 500);
    assert_eq!(m.get(1).as_deref(), Some("k1"));
    m.insert(1, "k1b".into(), 50);
    assert_eq!(m.get(1).as_deref(), Some("k1b"));
    m.clear_expired(100);
    assert_eq!(m.get(1), None);
    assert_eq!(m.get(2).as_deref(), Some("k2"));
    m.clear_expired(500);
    assert_eq!(m.get(2), None);
    m.insert(3, "k3".into(), 1);
    m.remove(3);
    assert_eq!(m.get(3), None);
    m.insert(4, "k4".into(), 1);
    m.clear_all();
    assert_eq!(m.get(4), None);
}

#[test]
fn passwords() {
    let mut u = User::new("ann".into(), "hunter42".into(), "admin".into()).ok().unwrap();
    assert_eq!(u.id, 0);
    assert_eq!(u.get_username(), "ann");
    assert_eq!(u.get_role(), "admin");
    assert!(u.get_password_hash().starts_with("$argon2"));
    assert_eq!(u.check_password("hunter42".into()), Ok(true));
    assert_eq!(u.check_password("hunter43".into()), Ok(false));
    assert_eq!(u.set_password("new".into()), Ok(()));
    assert_eq!(u.check_password("new".into()), Ok(true));
    let mut raw = User::new_raw("bob".into(), "not a hash".into(), "user".into(), 3);
    assert_eq!(raw.user_id(), 3);
    assert_eq!(raw.check_password("x".into()), Err(PasswordError::Hashing));
}

#[test]
fn random_keys() {
    let k = rand_string(128);
    assert_eq!(k.chars().count(), 128);
    assert!(k.chars().all(|c| (32..126).contains(&(c as u32)) && c != ';'));
    assert_eq!(rand_string(0), "");
}

#[test]
fn logging_in_and_out() {
    let mut users = UserManager::new();
    let ann = User::new("ann".into(), "pw".into(), "admin".into()).ok().unwrap();
    let mut ann = ann;
    ann.id = 8;
    assert!(matches!(users.login(None, "pw".into()), Err(LoginError::NoUser)));
    assert!(matches!(users.login(Some(ann.clone()), "wrong".into()), Err(LoginError::NoUser)));
    let broken = User::new_raw("x".into(), "garbage".into(), "r".into(), 9);
    assert!(matches!(users.login(Some(broken), "pw".into()), Err(LoginError::InternalError)));
    let session = users.login(Some(ann.clone()), "pw".into()).ok().unwrap();
    assert_eq!(session.id, 8);
    assert_eq!(session.auth_key.chars().count(), 128);
    assert!(session.auth_key.chars().all(|c| (' '..='}').contains(&c) && c != ';'));
    assert_eq!(users.is_auth(&session), Some(8));
    let forged = LoginSession { id: 8, auth_key: "guess".into() };
    assert_eq!(users.is_auth(&forged), None);
    let cookie = session.to_string();
    assert_eq!(Auth::check(&users, Some(&cookie)), Ok(8));
    assert_eq!(Auth::check(&users, None), Err(AuthError::NotAuthenticated));
    assert_eq!(Auth::check(&users, Some("garbage")), Err(AuthError::NotAuthenticated));
    // a second login replaces the first session
    let again = users.login(Some(ann), "pw".into()).ok().unwrap();
    assert_eq!(users.is_auth(&again), Some(8));
    users.logout(8);
    assert_eq!(users.is_auth(&again), None);
    assert_eq!(AuthError::NotAuthenticated.to_string(), "NotAuthenticated");
}

#[test]
fn sessions_expire() {
    let mut users = UserManager::new();
    let mut u = User::new("c".into(), "pw".into(), "r".into()).ok().unwrap();
    u.id = 1;
    let s = users.login(Some(u), "pw".into()).ok().unwrap();
    users.clear_expired(899);
    assert_eq!(users.is_auth(&s), Some(1));
    users.clear_expired(900);
    assert_eq!(users.is_auth(&s), None);
    users.modify_user(User::new_raw("c".into(), "h".into(), "r".into(), 1));
}

#[test]
fn storing_password_hashes() {
    let mut u = User::new_raw("d".into(), "old".into(), "r".into(), 2);
    assert_eq!(u.store_password_hash(None), Err(PasswordError::Hashing));
    assert_eq!(u.get_password_hash(), "old");
    assert_eq!(u.store_password_hash(Some("new".into())), Ok(()));
    assert_eq!(u.get_password_hash(), "new");
    assert_eq!((u.user_id(), u.get_username(), u.get_role()), (2, "d".to_string(), "r".to_string()));
}

#[test]
fn short_passwords_always_hash() {
    let mut u = User::new("d".into(), "".into(), "r".into()).ok().unwrap();
    assert_eq!(u.check_password("".into()), Ok(true));
    assert!(u.set_password("ünïcode pässword".into()).is_ok());
    assert_eq!(u.check_password("ünïcode pässword".into()), Ok(true));
    assert_eq!(u.check_password("other".into()), Ok(false));
}
