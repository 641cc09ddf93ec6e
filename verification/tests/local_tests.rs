use sceideal_auth::local::{hash_password, login, LocalAuthError};
use sceideal_auth::session::{CookieJar, SessionStore};

fn empty_jar() -> CookieJar {
    CookieJar { session: None }
}

#[test]
fn login_with_correct_password_starts_session() {
    let mut store = SessionStore::new(false);
    let digest = hash_password(&"hunter2".to_string()).expect("hashing succeeds");
    let jar = login(
        &mut store,
        empty_jar(),
        Some((7, digest)),
        &"hunter2".to_string(),
        0,
    )
    .expect("correct password logs in");
    assert_eq!(store.get(&jar, 1).expect("session active").user_id, 7);
}

#[test]
fn login_with_wrong_password_is_rejected() {
    let mut store = SessionStore::new(false);
    let digest = hash_password(&"hunter2".to_string()).unwrap();
    let r = login(
        &mut store,
        empty_jar(),
        Some((7, digest)),
        &"letmein".to_string(),
        0,
    );
    assert_eq!(r.unwrap_err(), LocalAuthError::UserNotFound);
    assert!(store.get(&empty_jar(), 1).is_none());
}

#[test]
fn login_without_credentials_is_user_not_found() {
    let mut store = SessionStore::new(false);
    let r = login(&mut store, empty_jar(), None, &"hunter2".to_string(), 0);
    assert_eq!(r.unwrap_err(), LocalAuthError::UserNotFound);
}

#[test]
fn login_with_malformed_digest_is_internal() {
    let mut store = SessionStore::new(false);
    let r = login(
        &mut store,
        empty_jar(),
        Some((7, "not-a-bcrypt-digest".to_string())),
        &"hunter2".to_string(),
        0,
    );
    match r {
        Err(LocalAuthError::Internal(_)) => {},
        other => panic!("expected an internal error, got {:?}", other),
    }
}
