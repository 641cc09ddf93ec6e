//! The OIDC authentication flow: starting an authorization, the callback
//! gates in their fixed order — provider lookup, single-use state
//! consumption, nonce check — and the decision among attaching to the
//! current session, signing an existing user in, and signing a new user up;
//! then logout with its optional relying-party logout request.

use vstd::prelude::*;

use crate::cache::live;
use crate::csrf::{CsrfNonceCache, NONCE_TIMEOUT, TOKEN_LEN};
use crate::error::OAuthError;
use crate::openid::{clone_opt_string, OpenIdClients};
use crate::registry::{has_provider, key_idx};
use crate::session::{add_provider_view, CookieJar, SessionDataView, SessionStore, SessionData,
    SESSION_TTL};
use crate::token::all_alphanumeric;

verus! {

/// What starting an authorization hands back for the authorization URL: the
/// fresh state token and the fresh nonce, both already recorded.
#[derive(Debug)]
pub struct AuthorizeStart {
    pub state_token: String,
    pub nonce: String,
}

/// Starts an OIDC authorization: the provider must be known; a fresh state
/// token and nonce are generated and the nonce recorded under the token for
/// `NONCE_TIMEOUT` seconds.
pub fn openid_authorize_start(
    clients: &OpenIdClients,
    cn_cache: &mut CsrfNonceCache,
    provider: &String,
    now: u64,
) -> (r: Result<AuthorizeStart, OAuthError>)
    requires
        now + NONCE_TIMEOUT <= u64::MAX,
    ensures
        r is Ok <==> has_provider(clients.clients@, provider@),
        r is Err ==> r == Err::<AuthorizeStart, OAuthError>(OAuthError::MissingProvider)
            && final(cn_cache)@ == old(cn_cache)@,
        match r {
            Ok(s) => s.state_token@.len() == TOKEN_LEN && all_alphanumeric(s.state_token@)
                && s.nonce@.len() == TOKEN_LEN && all_alphanumeric(s.nonce@) && final(cn_cache)@
                == old(cn_cache)@.insert(
                s.state_token@,
                (s.nonce@, (now + NONCE_TIMEOUT) as u64),
            ),
            Err(_) => true,
        },
{
    match clients.get(provider) {
        None => Err(OAuthError::MissingProvider),
        Some(_) => {
            let (state_token, nonce) = cn_cache.begin(now);
            Ok(AuthorizeStart { state_token, nonce })
        },
    }
}

/// The first callback gates, in order: the provider must be known, then the
/// echoed state must consume a live record — consuming removes it, so a
/// replayed callback fails — and the stored nonce comes back for the claims
/// check.
pub fn openid_callback_verify(
    clients: &OpenIdClients,
    cn_cache: &mut CsrfNonceCache,
    provider: &String,
    state: &String,
    now: u64,
) -> (r: Result<String, OAuthError>)
    ensures
        !has_provider(clients.clients@, provider@) ==> r == Err::<String, OAuthError>(
            OAuthError::MissingProvider,
        ) && final(cn_cache)@ == old(cn_cache)@,
        has_provider(clients.clients@, provider@) ==> final(cn_cache)@ == old(
            cn_cache,
        )@.remove(state@),
        has_provider(clients.clients@, provider@) && !live(old(cn_cache)@, state@, now) ==> r
            == Err::<String, OAuthError>(OAuthError::InvalidOAuthState),
        has_provider(clients.clients@, provider@) && live(old(cn_cache)@, state@, now) ==> (
        match r {
            Ok(nonce) => nonce@ == old(cn_cache)@[state@].0,
            Err(_) => false,
        }),
{
    match clients.get(provider) {
        None => Err(OAuthError::MissingProvider),
        Some(_) => {
            match cn_cache.consume(state, now) {
                None => Err(OAuthError::InvalidOAuthState),
                Some(nonce) => Ok(nonce),
            }
        },
    }
}

/// The ID token's claims, read as plain values after the provider's
/// signature check.
#[derive(Debug)]
pub struct IdClaims {
    pub subject: String,
    pub nonce: String,
    pub email: Option<String>,
    pub email_verified: bool,
    pub given_name: Option<String>,
    pub family_name: Option<String>,
    pub phone_number: Option<String>,
}

/// The claims carry everything a new user record needs.
pub open spec fn claims_complete(c: IdClaims) -> bool {
    c.email is Some && c.given_name is Some && c.family_name is Some
}

/// What the directory is asked to create for a first-time subject.
#[derive(Debug)]
pub struct NewUserRecord {
    pub email: String,
    pub email_verified: bool,
    pub phone_number: Option<String>,
    pub fname: String,
    pub lname: String,
}

/// How a verified callback ends.
#[derive(Debug)]
pub enum CallbackDecision {
    /// The caller is authenticated: attach the provider to its session.
    AttachToSession { user_id: i32 },
    /// A persisted provider link maps the subject to a local user: start a
    /// session for that user.
    SignIn { user_id: i32 },
    /// No link and sign-ups are allowed: create this user, then start a
    /// session.
    SignUp { new_user: NewUserRecord },
}

/// The decision tree after the code exchange, in order: the ID token must
/// echo the stored nonce; an authenticated caller attaches the provider; an
/// anonymous caller with a persisted link signs in; otherwise sign-up, when
/// allowed and the claims are complete. Each failure names its gate.
pub fn openid_decide(
    authenticated_user: Option<i32>,
    linked_user: Option<i32>,
    allow_signups: bool,
    expected_nonce: &String,
    claims: &IdClaims,
) -> (r: Result<CallbackDecision, OAuthError>)
    ensures
        claims.nonce@ != expected_nonce@ ==> (r matches Err(OAuthError::ProviderError(m))
            && m@ == "ID token nonce does not match the expected nonce"@),
        claims.nonce@ == expected_nonce@ && authenticated_user is Some ==> r == Ok::<
            CallbackDecision,
            OAuthError,
        >(CallbackDecision::AttachToSession { user_id: authenticated_user.unwrap() }),
        claims.nonce@ == expected_nonce@ && authenticated_user is None && linked_user is Some
            ==> r == Ok::<CallbackDecision, OAuthError>(
            CallbackDecision::SignIn { user_id: linked_user.unwrap() },
        ),
        claims.nonce@ == expected_nonce@ && authenticated_user is None && linked_user is None
            && !allow_signups ==> r == Err::<CallbackDecision, OAuthError>(
            OAuthError::SignUpDisallowed,
        ),
        claims.nonce@ == expected_nonce@ && authenticated_user is None && linked_user is None
            && allow_signups && !claims_complete(*claims) ==> r == Err::<
            CallbackDecision,
            OAuthError,
        >(OAuthError::MissingInformation),
        claims.nonce@ == expected_nonce@ && authenticated_user is None && linked_user is None
            && allow_signups && claims_complete(*claims) ==> (r matches Ok(
            CallbackDecision::SignUp { new_user },
        ) && new_user.email == claims.email.unwrap() && new_user.email_verified
            == claims.email_verified && new_user.phone_number == claims.phone_number
            && new_user.fname == claims.given_name.unwrap() && new_user.lname
            == claims.family_name.unwrap()),
{
    if !(claims.nonce == *expected_nonce) {
        return Err(
            OAuthError::ProviderError(
                "ID token nonce does not match the expected nonce".to_string(),
            ),
        );
    }
    match authenticated_user {
        Some(user_id) => Ok(CallbackDecision::AttachToSession { user_id }),
        None => match linked_user {
            Some(user_id) => Ok(CallbackDecision::SignIn { user_id }),
            None => {
                if !allow_signups {
                    return Err(OAuthError::SignUpDisallowed);
                }
                let email = match &claims.email {
                    Some(e) => e.clone(),
                    None => {
                        return Err(OAuthError::MissingInformation);
                    },
                };
                let fname = match &claims.given_name {
                    Some(n) => n.clone(),
                    None => {
                        return Err(OAuthError::MissingInformation);
                    },
                };
                let lname = match &claims.family_name {
                    Some(n) => n.clone(),
                    None => {
                        return Err(OAuthError::MissingInformation);
                    },
                };
                Ok(
                    CallbackDecision::SignUp {
                        new_user: NewUserRecord {
                            email,
                            email_verified: claims.email_verified,
                            phone_number: clone_opt_string(&claims.phone_number),
                            fname,
                            lname,
                        },
                    },
                )
            },
        },
    }
}

/// The authenticated branch of the callback: when the provider can end
/// sessions, its open relying-party session is recorded on the caller's
/// live session; otherwise nothing changes.
pub fn openid_attach_provider(
    session: &mut SessionStore,
    jar: &CookieJar,
    provider: String,
    has_end_session: bool,
    now: u64,
)
    ensures
        final(session).spec_production() == old(session).spec_production(),
        !has_end_session ==> final(session)@ == old(session)@,
        has_end_session ==> match jar.session {
            None => final(session)@ == old(session)@,
            Some(c) => {
                if live(old(session)@, c.value@, now) {
                    final(session)@ == old(session)@.insert(
                        c.value@,
                        (
                            add_provider_view(old(session)@[c.value@].0, provider@),
                            old(session)@[c.value@].1,
                        ),
                    )
                } else {
                    final(session)@ == old(session)@
                }
            },
        },
{
    if has_end_session {
        session.add_rp_provider(jar, provider, now);
    }
}

/// Starts the session a sign-in or completed sign-up ends with: a fresh
/// cookie for `user_id`, the session holding one relying-party record for
/// the provider that authenticated it.
pub fn start_provider_session(
    session: &mut SessionStore,
    jar: CookieJar,
    user_id: i32,
    provider: String,
    now: u64,
) -> (r: CookieJar)
    requires
        now + SESSION_TTL <= u64::MAX,
    ensures
        final(session).spec_production() == old(session).spec_production(),
        r.session is Some,
        ({
            let c = r.session.unwrap();
            &&& c.value@.len() == crate::session::SESSION_ID_LEN
            &&& all_alphanumeric(c.value@)
            &&& c.max_age_seconds == SESSION_TTL
            &&& c.http_only
            &&& c.secure == old(session).spec_production()
            &&& c.same_site_strict == old(session).spec_production()
            &&& final(session)@ == old(session)@.insert(
                c.value@,
                (
                    SessionDataView { user_id, rp_logout_providers: seq![provider@] },
                    (now + SESSION_TTL) as u64,
                ),
            )
        }),
{
    let mut data = SessionData::new(user_id);
    data.add_rp_providers(provider);
    proof {
        assert(!Seq::<Seq<char>>::empty().contains(provider@));
        assert(data@.rp_logout_providers =~= seq![provider@]);
        assert(data@ =~= SessionDataView { user_id, rp_logout_providers: seq![provider@] });
    }
    session.insert(data, jar, now)
}

/// How the directory answered a request to create a user.
#[derive(Debug)]
pub enum StoreUserOutcome {
    /// Created, with the new user's id.
    Created(i32),
    /// A uniqueness conflict: such a user already exists.
    UniqueViolation,
    /// Any other database failure, with its description.
    Error(String),
}

/// The sign-up branch's reading of the directory's answer: a conflict means
/// the caller must log in first and link the provider instead — never a
/// duplicate user.
pub fn signup_outcome(outcome: StoreUserOutcome) -> (r: Result<i32, OAuthError>)
    ensures
        match outcome {
            StoreUserOutcome::Created(id) => r == Ok::<i32, OAuthError>(id),
            StoreUserOutcome::UniqueViolation => r == Err::<i32, OAuthError>(
                OAuthError::UserAlreadyExists,
            ),
            StoreUserOutcome::Error(msg) => r == Err::<i32, OAuthError>(
                OAuthError::DatabaseError(msg),
            ),
        },
{
    match outcome {
        StoreUserOutcome::Created(id) => Ok(id),
        StoreUserOutcome::UniqueViolation => Err(OAuthError::UserAlreadyExists),
        StoreUserOutcome::Error(msg) => Err(OAuthError::DatabaseError(msg)),
    }
}

/// The pieces of an RP-initiated logout URL: the provider's end-session
/// endpoint and the post-logout redirect back to the application.
#[derive(Debug)]
pub struct RpLogoutRequest {
    pub end_session_endpoint: String,
    pub post_logout_redirect: String,
}

/// Logout: destroys the session named by the jar's cookie and strips the
/// cookie; when the removed session recorded a provider with an open
/// relying-party session whose registry entry has an end-session endpoint,
/// the pieces of the RP-initiated logout URL come back with it.
pub fn logout(
    session: &mut SessionStore,
    oid_clients: &OpenIdClients,
    base_url: &String,
    jar: CookieJar,
    now: u64,
) -> (r: (CookieJar, Option<RpLogoutRequest>))
    ensures
        final(session).spec_production() == old(session).spec_production(),
        r.0.session is None,
        match jar.session {
            None => final(session)@ == old(session)@ && r.1 is None,
            Some(c) => final(session)@ == old(session)@.remove(c.value@) && (if live(
                old(session)@,
                c.value@,
                now,
            ) {
                ({
                    let d = old(session)@[c.value@].0;
                    if d.rp_logout_providers.len() > 0 && has_provider(
                        oid_clients.clients@,
                        d.rp_logout_providers[0],
                    ) {
                        ({
                            let rec = oid_clients.clients@[key_idx(
                                oid_clients.clients@,
                                d.rp_logout_providers[0],
                            )].1;
                            match rec.end_session_endpoint {
                                Some(url) => r.1 matches Some(req) && req.end_session_endpoint
                                    == url && req.post_logout_redirect@ == base_url@,
                                None => r.1 is None,
                            }
                        })
                    } else {
                        r.1 is None
                    }
                })
            } else {
                r.1 is None
            }),
        },
{
    let (data, jar2) = session.remove(jar, now);
    let mut rp_logout: Option<RpLogoutRequest> = None;
    match &data {
        None => {},
        Some(d) => {
            if d.rp_logout_providers_with_open_sessions.len() > 0 {
                let provider = &d.rp_logout_providers_with_open_sessions[0];
                match oid_clients.get(provider) {
                    None => {},
                    Some(rec) => {
                        match &rec.end_session_endpoint {
                            None => {},
                            Some(url) => {
                                rp_logout = Some(
                                    RpLogoutRequest {
                                        end_session_endpoint: url.clone(),
                                        post_logout_redirect: base_url.clone(),
                                    },
                                );
                            },
                        }
                    },
                }
            }
        },
    }
    (jar2, rp_logout)
}

} // verus!
