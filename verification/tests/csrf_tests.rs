use sceideal_auth::config::OAuthProvision;
use sceideal_auth::csrf::{CsrfCache, CsrfNonceCache, NONCE_TIMEOUT};

#[test]
fn nonce_round_trip_and_no_replay() {
    let mut cache = CsrfNonceCache::new();
    let (token, nonce) = cache.begin(0);
    assert_eq!(token.len(), 30);
    assert_eq!(nonce.len(), 30);
    let consumed = cache.consume(&token, 1).expect("fresh token consumes");
    assert_eq!(consumed, nonce);
    assert_eq!(cache.consume(&token, 1), None, "a replayed token must fail");
}

#[test]
fn nonce_tokens_are_fresh_each_round() {
    let mut cache = CsrfNonceCache::new();
    let (t1, _) = cache.begin(0);
    let (t2, _) = cache.begin(0);
    assert_ne!(t1, t2);
}

#[test]
fn expired_nonce_token_does_not_consume() {
    let mut cache = CsrfNonceCache::new();
    let (token, _) = cache.begin(0);
    assert_eq!(cache.consume(&token, NONCE_TIMEOUT), None);
}

#[test]
fn unknown_state_does_not_consume() {
    let mut cache = CsrfNonceCache::new();
    let _ = cache.begin(0);
    assert_eq!(cache.consume(&"never-issued".to_string(), 0), None);
}

#[test]
fn link_record_round_trip() {
    let mut cache = CsrfCache::new();
    let token = cache.begin(7, OAuthProvision::Location, 0);
    let record = cache.consume(&token, 10).expect("fresh token consumes");
    assert_eq!(record.user_id, 7);
    assert_eq!(record.provides, OAuthProvision::Location);
    assert_eq!(cache.consume(&token, 10), None);
}

#[test]
fn purge_drops_only_expired_records() {
    let mut cache = CsrfNonceCache::new();
    let (t1, n1) = cache.begin(0);
    let (t2, _) = cache.begin(0);
    // t2's record expires by advancing past its lifetime in a later begin
    let (t3, n3) = cache.begin(NONCE_TIMEOUT + 10);
    cache.purge_expired(NONCE_TIMEOUT + 10);
    assert_eq!(cache.consume(&t2, NONCE_TIMEOUT + 10), None);
    assert_eq!(cache.consume(&t1, NONCE_TIMEOUT + 10), None);
    assert_eq!(cache.consume(&t3, NONCE_TIMEOUT + 11), Some(n3));
    let _ = n1;
}
