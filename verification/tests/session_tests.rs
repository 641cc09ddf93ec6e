use sceideal_auth::session::{CookieJar, SessionData, SessionStore, SESSION_TTL};

fn empty_jar() -> CookieJar {
    CookieJar { session: None }
}

#[test]
fn session_data_new_starts_empty() {
    let data = SessionData::new(7);
    assert_eq!(data.user_id, 7);
    assert!(data.rp_logout_providers_with_open_sessions.is_empty());
}

#[test]
fn add_rp_providers_never_duplicates() {
    let mut data = SessionData::new(7);
    data.add_rp_providers("keycloak".to_string());
    data.add_rp_providers("google".to_string());
    data.add_rp_providers("keycloak".to_string());
    assert_eq!(
        data.rp_logout_providers_with_open_sessions,
        vec!["keycloak".to_string(), "google".to_string()]
    );
}

#[test]
fn create_and_resolve_session() {
    let mut store = SessionStore::new(false);
    let jar = store.insert(SessionData::new(7), empty_jar(), 0);
    let cookie = jar.session.as_ref().expect("session cookie issued");
    assert_eq!(cookie.value.len(), 30);
    assert!(cookie.value.chars().all(|c| c.is_ascii_alphanumeric()));
    assert_eq!(cookie.max_age_seconds, SESSION_TTL);
    assert!(cookie.http_only);
    assert!(!cookie.secure);
    assert!(!cookie.same_site_strict);
    let data = store.get(&jar, 10).expect("session resolves");
    assert_eq!(data.user_id, 7);
}

#[test]
fn production_cookie_attributes() {
    let mut store = SessionStore::new(true);
    let jar = store.insert(SessionData::new(1), empty_jar(), 0);
    let cookie = jar.session.as_ref().unwrap();
    assert!(cookie.secure);
    assert!(cookie.same_site_strict);
    assert!(cookie.http_only);
}

#[test]
fn resolve_without_cookie_is_anonymous() {
    let store = SessionStore::new(false);
    assert!(store.get(&empty_jar(), 0).is_none());
}

#[test]
fn session_expires_without_touch() {
    let mut store = SessionStore::new(false);
    let jar = store.insert(SessionData::new(7), empty_jar(), 0);
    assert!(store.get(&jar, SESSION_TTL - 1).is_some());
    assert!(store.get(&jar, SESSION_TTL).is_none());
}

#[test]
fn touch_slides_expiry() {
    let mut store = SessionStore::new(false);
    let mut jar = store.insert(SessionData::new(7), empty_jar(), 0);
    // touched before each expiry, the session stays alive past its first
    // lifetime; after the touches stop it dies one full lifetime later
    jar = store.reup(jar, 10_000);
    assert!(store.get(&jar, SESSION_TTL + 5_000).is_some());
    jar = store.reup(jar, 20_000);
    assert!(store.get(&jar, 20_000 + SESSION_TTL - 1).is_some());
    assert!(store.get(&jar, 20_000 + SESSION_TTL).is_none());
}

#[test]
fn touch_on_dead_session_does_not_revive_it() {
    let mut store = SessionStore::new(false);
    let jar = store.insert(SessionData::new(7), empty_jar(), 0);
    let jar = store.reup(jar, SESSION_TTL);
    assert!(store.get(&jar, SESSION_TTL + 1).is_none());
}

#[test]
fn remove_destroys_session_and_strips_cookie() {
    let mut store = SessionStore::new(false);
    let jar = store.insert(SessionData::new(7), empty_jar(), 0);
    let sid = jar.session.as_ref().unwrap().value.clone();
    let (data, jar2) = store.remove(jar, 10);
    assert_eq!(data.expect("live session removed").user_id, 7);
    assert!(jar2.session.is_none());
    // the old id is permanently dead, even if presented again
    let old_jar = CookieJar {
        session: Some(sceideal_auth::session::SessionCookie {
            value: sid,
            max_age_seconds: SESSION_TTL,
            http_only: true,
            secure: false,
            same_site_strict: false,
        }),
    };
    assert!(store.get(&old_jar, 10).is_none());
}

#[test]
fn add_rp_provider_updates_live_session_in_place() {
    let mut store = SessionStore::new(false);
    let jar = store.insert(SessionData::new(7), empty_jar(), 0);
    store.add_rp_provider(&jar, "keycloak".to_string(), 5);
    store.add_rp_provider(&jar, "keycloak".to_string(), 6);
    let data = store.get(&jar, 10).unwrap();
    assert_eq!(
        data.rp_logout_providers_with_open_sessions,
        vec!["keycloak".to_string()]
    );
    // the update must not extend the session's life
    assert!(store.get(&jar, SESSION_TTL).is_none());
}

#[test]
fn resolve_and_renew_extends_a_live_session() {
    let mut store = SessionStore::new(false);
    let jar = store.insert(SessionData::new(7), empty_jar(), 0);
    let (data, jar) = store.resolve_and_renew(jar, 10_000);
    assert_eq!(data.expect("session resolves").user_id, 7);
    assert!(store.get(&jar, SESSION_TTL + 5_000).is_some());
    let (data2, _jar) = store.resolve_and_renew(jar, 10_000 + SESSION_TTL);
    assert!(data2.is_none(), "a dead session does not resolve and is not renewed");
}

#[test]
fn purge_expired_keeps_live_sessions_resolvable() {
    let mut store = SessionStore::new(false);
    let jar_live = store.insert(SessionData::new(1), empty_jar(), 10_000);
    let jar_dead = store.insert(SessionData::new(2), empty_jar(), 0);
    store.purge_expired(SESSION_TTL + 1);
    assert_eq!(store.get(&jar_live, SESSION_TTL + 1).unwrap().user_id, 1);
    assert!(store.get(&jar_dead, SESSION_TTL + 1).is_none());
}

#[test]
fn cookie_name_and_path_are_fixed() {
    assert_eq!(sceideal_auth::session::SESSION_COOKIE_NAME, "sid");
    assert_eq!(sceideal_auth::session::SESSION_COOKIE_PATH, "/");
}
