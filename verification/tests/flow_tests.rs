use std::collections::HashMap;

use sceideal_auth::config::{Config, OAuthProvision, Provider, ProviderUrls, PublicConfig};
use sceideal_auth::csrf::{CsrfCache, CsrfNonceCache};
use sceideal_auth::error::OAuthError;
use sceideal_auth::flow::{
    logout, openid_attach_provider, openid_authorize_start, openid_callback_verify, openid_decide,
    signup_outcome, start_provider_session, CallbackDecision, IdClaims, StoreUserOutcome,
};
use sceideal_auth::oauth::{
    oauth_attach_provider, oauth_authorize_start, oauth_callback_verify, OAuthClients,
};
use sceideal_auth::openid::{DiscoveredMetadata, OpenIdClients};
use sceideal_auth::session::{CookieJar, SessionStore};

fn test_config() -> Config {
    Config {
        base_url: "https://app.example".to_string(),
        allow_signups: true,
        redirect_to_first_oauth_provider: false,
        integrations: vec![
            (
                "keycloak".to_string(),
                Provider {
                    client_id: "kc-client".to_string(),
                    client_secret: Some("test-client-secret".to_string()),
                    urls: ProviderUrls::OpenIdConnect {
                        issuer_url: "https://idp.example/realms/main".to_string(),
                    },
                    provides: vec![OAuthProvision::Auth],
                },
            ),
            (
                "calsync".to_string(),
                Provider {
                    client_id: "cal-client".to_string(),
                    client_secret: None,
                    urls: ProviderUrls::OAuthOnly {
                        auth_url: "https://cal.example/authorize".to_string(),
                        token_url: "https://cal.example/token".to_string(),
                    },
                    provides: vec![OAuthProvision::Calendar],
                },
            ),
        ],
    }
}

fn discovered() -> Vec<Option<DiscoveredMetadata>> {
    vec![
        Some(DiscoveredMetadata {
            end_session_endpoint: Some("https://idp.example/logout".to_string()),
        }),
        None,
    ]
}

fn empty_jar() -> CookieJar {
    CookieJar { session: None }
}

#[test]
fn public_config_lists_provider_names_in_order() {
    let config = test_config();
    let public = PublicConfig::from_config(&config);
    assert!(!public.redirect_to_first_oauth_provider);
    assert_eq!(
        public.oauth_providers,
        vec!["keycloak".to_string(), "calsync".to_string()]
    );
}

#[test]
fn discovery_plan_names_selected_issuers_only() {
    let plan = OpenIdClients::discovery_plan(&test_config());
    assert_eq!(
        plan,
        vec![Some("https://idp.example/realms/main".to_string()), None]
    );
}

#[test]
fn openid_registry_keeps_discovered_providers_only() {
    let config = test_config();
    let clients = OpenIdClients::from_config(&config, &discovered());
    let record = clients.get(&"keycloak".to_string()).expect("discovered provider present");
    assert_eq!(record.client_id, "kc-client");
    assert_eq!(record.issuer_url, "https://idp.example/realms/main");
    assert_eq!(
        record.redirect_url,
        "https://app.example/api/user/openid/keycloak/callback"
    );
    assert_eq!(
        record.end_session_endpoint,
        Some("https://idp.example/logout".to_string())
    );
    assert!(clients.get(&"calsync".to_string()).is_none());
    assert!(clients.get(&"unknown".to_string()).is_none());
}

#[test]
fn failed_discovery_drops_provider_but_not_build() {
    let config = test_config();
    let clients = OpenIdClients::from_config(&config, &vec![None, None]);
    assert!(clients.get(&"keycloak".to_string()).is_none());
}

#[test]
fn oauth_registry_keeps_plain_oauth_providers_only() {
    let config = test_config();
    let clients = OAuthClients::from_config(&config);
    let record = clients.get(&"calsync".to_string()).expect("plain provider present");
    assert_eq!(record.client_id, "cal-client");
    assert_eq!(record.auth_url, "https://cal.example/authorize");
    assert_eq!(record.token_url, "https://cal.example/token");
    assert_eq!(
        record.redirect_url,
        "https://app.example/api/oauth/calsync/callback"
    );
    assert!(clients.get(&"keycloak".to_string()).is_none());
}

#[test]
fn authorize_start_unknown_provider_is_rejected() {
    let clients = OpenIdClients::from_config(&test_config(), &discovered());
    let mut cn_cache = CsrfNonceCache::new();
    let r = openid_authorize_start(&clients, &mut cn_cache, &"github".to_string(), 0);
    assert_eq!(r.unwrap_err(), OAuthError::MissingProvider);
}

#[test]
fn callback_with_unknown_state_is_invalid_and_creates_no_session() {
    let clients = OpenIdClients::from_config(&test_config(), &discovered());
    let mut cn_cache = CsrfNonceCache::new();
    let session = SessionStore::new(false);
    // a state value that no begin ever produced
    let r = openid_callback_verify(
        &clients,
        &mut cn_cache,
        &"keycloak".to_string(),
        &"forged-state-value".to_string(),
        0,
    );
    assert_eq!(r.unwrap_err(), OAuthError::InvalidOAuthState);
    // the callback aborted before any session work: nothing resolves
    assert!(session.get(&empty_jar(), 0).is_none());
}

#[test]
fn callback_state_cannot_be_replayed() {
    let clients = OpenIdClients::from_config(&test_config(), &discovered());
    let mut cn_cache = CsrfNonceCache::new();
    let start =
        openid_authorize_start(&clients, &mut cn_cache, &"keycloak".to_string(), 0).unwrap();
    let nonce =
        openid_callback_verify(&clients, &mut cn_cache, &"keycloak".to_string(), &start.state_token, 1)
            .expect("first callback passes");
    assert_eq!(nonce, start.nonce);
    let replay =
        openid_callback_verify(&clients, &mut cn_cache, &"keycloak".to_string(), &start.state_token, 1);
    assert_eq!(replay.unwrap_err(), OAuthError::InvalidOAuthState);
}

fn claims(nonce: &str) -> IdClaims {
    IdClaims {
        subject: "subject-1".to_string(),
        nonce: nonce.to_string(),
        email: Some("a@b.com".to_string()),
        email_verified: true,
        given_name: Some("A".to_string()),
        family_name: Some("B".to_string()),
        phone_number: None,
    }
}

#[test]
fn decide_rejects_wrong_nonce() {
    let r = openid_decide(None, None, true, &"expected".to_string(), &claims("other"));
    match r {
        Err(OAuthError::ProviderError(_)) => {},
        other => panic!("expected a provider error, got {:?}", other),
    }
}

#[test]
fn decide_rejects_signup_when_disallowed() {
    let r = openid_decide(None, None, false, &"n".to_string(), &claims("n"));
    assert_eq!(r.unwrap_err(), OAuthError::SignUpDisallowed);
}

#[test]
fn decide_rejects_incomplete_claims() {
    let mut c = claims("n");
    c.family_name = None;
    let r = openid_decide(None, None, true, &"n".to_string(), &c);
    assert_eq!(r.unwrap_err(), OAuthError::MissingInformation);
}

#[test]
fn signup_outcome_maps_conflict_to_user_already_exists() {
    assert_eq!(signup_outcome(StoreUserOutcome::Created(5)), Ok(5));
    assert_eq!(
        signup_outcome(StoreUserOutcome::UniqueViolation),
        Err(OAuthError::UserAlreadyExists)
    );
    assert_eq!(
        signup_outcome(StoreUserOutcome::Error("down".to_string())),
        Err(OAuthError::DatabaseError("down".to_string()))
    );
}

/// A stand-in for the persisted provider-link directory: (provider, subject)
/// to local user id, plus the created users.
struct Directory {
    links: HashMap<(String, String), i32>,
    next_id: i32,
    users: Vec<i32>,
}

impl Directory {
    fn new() -> Self {
        Directory { links: HashMap::new(), next_id: 1, users: Vec::new() }
    }

    fn create_user(&mut self) -> StoreUserOutcome {
        let id = self.next_id;
        self.next_id += 1;
        self.users.push(id);
        StoreUserOutcome::Created(id)
    }
}

/// Drives one OIDC callback the way the boundary layer does, against
/// simulated provider claims and directory.
fn run_openid_callback(
    clients: &OpenIdClients,
    cn_cache: &mut CsrfNonceCache,
    session: &mut SessionStore,
    directory: &mut Directory,
    allow_signups: bool,
    provider: &str,
    state: &str,
    claims: &IdClaims,
    jar: CookieJar,
    now: u64,
) -> Result<CookieJar, OAuthError> {
    let expected_nonce =
        openid_callback_verify(clients, cn_cache, &provider.to_string(), &state.to_string(), now)?;
    let authenticated_user = session.get(&jar, now).map(|d| d.user_id);
    let linked_user = directory
        .links
        .get(&(provider.to_string(), claims.subject.clone()))
        .copied();
    let decision = openid_decide(
        authenticated_user,
        linked_user,
        allow_signups,
        &expected_nonce,
        claims,
    )?;
    match decision {
        CallbackDecision::AttachToSession { user_id } => {
            let record = clients.get(&provider.to_string()).unwrap();
            openid_attach_provider(
                session,
                &jar,
                provider.to_string(),
                record.end_session_endpoint.is_some(),
                now,
            );
            directory
                .links
                .insert((provider.to_string(), claims.subject.clone()), user_id);
            Ok(jar)
        },
        CallbackDecision::SignIn { user_id } => {
            Ok(start_provider_session(session, jar, user_id, provider.to_string(), now))
        },
        CallbackDecision::SignUp { new_user } => {
            let _ = new_user;
            let user_id = signup_outcome(directory.create_user())?;
            directory
                .links
                .insert((provider.to_string(), claims.subject.clone()), user_id);
            Ok(start_provider_session(session, jar, user_id, provider.to_string(), now))
        },
    }
}

#[test]
fn signup_then_repeat_login_reuses_the_user() {
    let config = test_config();
    let clients = OpenIdClients::from_config(&config, &discovered());
    let mut cn_cache = CsrfNonceCache::new();
    let mut session = SessionStore::new(false);
    let mut directory = Directory::new();

    // first-time subject signs up: exactly one user, one active session
    let start = openid_authorize_start(&clients, &mut cn_cache, &"keycloak".to_string(), 0).unwrap();
    let jar = run_openid_callback(
        &clients,
        &mut cn_cache,
        &mut session,
        &mut directory,
        true,
        "keycloak",
        &start.state_token,
        &claims(&start.nonce),
        empty_jar(),
        1,
    )
    .expect("sign-up callback succeeds");
    assert_eq!(directory.users, vec![1]);
    assert_eq!(session.get(&jar, 2).expect("session active").user_id, 1);

    // the same subject coming back signs in as the same user
    let start2 = openid_authorize_start(&clients, &mut cn_cache, &"keycloak".to_string(), 10).unwrap();
    let jar2 = run_openid_callback(
        &clients,
        &mut cn_cache,
        &mut session,
        &mut directory,
        true,
        "keycloak",
        &start2.state_token,
        &claims(&start2.nonce),
        empty_jar(),
        11,
    )
    .expect("repeat login succeeds");
    assert_eq!(directory.users, vec![1], "no duplicate user is created");
    assert_eq!(session.get(&jar2, 12).unwrap().user_id, 1);
}

#[test]
fn authenticated_callback_attaches_provider_to_the_session() {
    let config = test_config();
    let clients = OpenIdClients::from_config(&config, &discovered());
    let mut cn_cache = CsrfNonceCache::new();
    let mut session = SessionStore::new(false);
    let mut directory = Directory::new();
    let _ = directory.create_user();

    // user 1 is already signed in when the callback completes
    let jar = session.insert(sceideal_auth::session::SessionData::new(1), empty_jar(), 0);
    let start = openid_authorize_start(&clients, &mut cn_cache, &"keycloak".to_string(), 1).unwrap();
    let jar = run_openid_callback(
        &clients,
        &mut cn_cache,
        &mut session,
        &mut directory,
        true,
        "keycloak",
        &start.state_token,
        &claims(&start.nonce),
        jar,
        2,
    )
    .expect("attach callback succeeds");

    let data = session.get(&jar, 3).expect("session still resolves");
    assert_eq!(data.user_id, 1);
    assert_eq!(
        data.rp_logout_providers_with_open_sessions,
        vec!["keycloak".to_string()],
        "the provider's open relying-party session is recorded"
    );
    assert_eq!(directory.links.len(), 1, "the link is persisted");
    assert_eq!(directory.users, vec![1], "no new user is created");
}

#[test]
fn link_flow_accepts_the_binding_user_and_rejects_another() {
    let config = test_config();
    let oauth_clients = OAuthClients::from_config(&config);
    let mut c_cache = CsrfCache::new();
    let mut session = SessionStore::new(false);

    // user 7 is signed in, starts the link flow, and completes it as user 7
    let jar = session.insert(sceideal_auth::session::SessionData::new(7), empty_jar(), 0);
    let token = oauth_authorize_start(
        &oauth_clients,
        &mut c_cache,
        &"calsync".to_string(),
        OAuthProvision::Calendar,
        7,
        0,
    )
    .expect("link flow starts");
    let record =
        oauth_callback_verify(&oauth_clients, &mut c_cache, &"calsync".to_string(), &token, 7, 1)
            .expect("matching user passes");
    assert_eq!(record.user_id, 7);
    assert_eq!(record.provides, OAuthProvision::Calendar);

    // completing the link appends the provider record to session 7
    oauth_attach_provider(&mut session, &jar, "calsync".to_string(), 1);
    let data = session.get(&jar, 2).expect("session 7 still resolves");
    assert_eq!(data.user_id, 7);
    assert_eq!(
        data.rp_logout_providers_with_open_sessions,
        vec!["calsync".to_string()],
        "the provider record is attached to the session"
    );

    // user 9 presenting a state bound to user 7 is an invalid state
    let token2 = oauth_authorize_start(
        &oauth_clients,
        &mut c_cache,
        &"calsync".to_string(),
        OAuthProvision::Calendar,
        7,
        2,
    )
    .unwrap();
    let r = oauth_callback_verify(&oauth_clients, &mut c_cache, &"calsync".to_string(), &token2, 9, 3);
    assert_eq!(r.unwrap_err(), OAuthError::InvalidOAuthState);
}

#[test]
fn link_flow_cannot_request_auth_provision() {
    let config = test_config();
    let oauth_clients = OAuthClients::from_config(&config);
    let mut c_cache = CsrfCache::new();
    let r = oauth_authorize_start(
        &oauth_clients,
        &mut c_cache,
        &"calsync".to_string(),
        OAuthProvision::Auth,
        7,
        0,
    );
    assert_eq!(r.unwrap_err(), OAuthError::MissingProvider);
}

#[test]
fn logout_returns_rp_logout_url_and_kills_the_session() {
    let config = test_config();
    let clients = OpenIdClients::from_config(&config, &discovered());
    let mut session = SessionStore::new(false);

    let jar = start_provider_session(&mut session, empty_jar(), 7, "keycloak".to_string(), 0);
    let sid = jar.session.as_ref().unwrap().value.clone();

    let (jar2, rp) = logout(&mut session, &clients, &config.base_url, jar, 5);
    assert!(jar2.session.is_none(), "the cookie is cleared");
    let rp = rp.expect("the open relying-party session yields a logout request");
    assert_eq!(rp.end_session_endpoint, "https://idp.example/logout");
    assert_eq!(rp.post_logout_redirect, "https://app.example");

    // the old cookie value no longer resolves
    let old_jar = CookieJar {
        session: Some(sceideal_auth::session::SessionCookie {
            value: sid,
            max_age_seconds: 1,
            http_only: true,
            secure: false,
            same_site_strict: false,
        }),
    };
    assert!(session.get(&old_jar, 6).is_none());
}

#[test]
fn logout_without_rp_session_returns_no_url() {
    let config = test_config();
    let clients = OpenIdClients::from_config(&config, &discovered());
    let mut session = SessionStore::new(false);
    let jar = session.insert(sceideal_auth::session::SessionData::new(3), empty_jar(), 0);
    let (jar2, rp) = logout(&mut session, &clients, &config.base_url, jar, 1);
    assert!(jar2.session.is_none());
    assert!(rp.is_none());
}

#[test]
fn error_messages_match_their_variants() {
    assert_eq!(OAuthError::MissingProvider.message(), "No provider by that name exists");
    assert_eq!(OAuthError::InvalidOAuthState.message(), "Invalid OAuth State");
    assert_eq!(
        OAuthError::ProviderError("timeout".to_string()).message(),
        "OAuth Provider error: timeout"
    );
    assert_eq!(
        OAuthError::DatabaseError("down".to_string()).message(),
        "A database error has occurred: down"
    );
    assert_eq!(
        OAuthError::PoolError("exhausted".to_string()).message(),
        "A database pool error has occurred: exhausted"
    );
}

#[test]
fn unparseable_redirect_url_drops_the_provider_from_both_registries() {
    let mut config = test_config();
    // a base URL that cannot parse as a URL poisons every computed redirect
    config.base_url = "not a url at all".to_string();
    let openid_clients = OpenIdClients::from_config(&config, &discovered());
    assert!(openid_clients.get(&"keycloak".to_string()).is_none());
    let oauth_clients = OAuthClients::from_config(&config);
    assert!(oauth_clients.get(&"calsync".to_string()).is_none());
}
