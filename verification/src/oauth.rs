//! Plain OAuth2 providers and the account-linking flow: the registry of
//! configured authorize/token endpoints, starting a linking authorization
//! bound to the requesting user, and the callback gates that verify the
//! echoed state and that it belongs to the caller.

use vstd::prelude::*;
use vstd::string::StringExecFns;

use crate::cache::live;
use crate::config::{Config, OAuthProvision, Provider, ProviderUrls};
use crate::csrf::{CsrfCache, CsrfCacheRecord, CSRF_TIMEOUT, TOKEN_LEN};
use crate::error::OAuthError;
use crate::registry::{has_provider, key_idx, lemma_key_idx, redirect_url_is_valid, valid_redirect};
use crate::session::{add_provider_view, CookieJar, SessionStore};
use crate::token::all_alphanumeric;

verus! {

/// One configured plain-OAuth2 provider.
pub struct OAuthClientRecord {
    pub client_id: String,
    pub client_secret: Option<String>,
    pub auth_url: String,
    pub token_url: String,
    pub redirect_url: String,
}

/// The mathematical reading of a registry record.
#[verifier::ext_equal]
pub struct OAuthClientRecordView {
    pub client_id: Seq<char>,
    pub client_secret: Option<Seq<char>>,
    pub auth_url: Seq<char>,
    pub token_url: Seq<char>,
    pub redirect_url: Seq<char>,
}

impl View for OAuthClientRecord {
    type V = OAuthClientRecordView;

    open spec fn view(&self) -> OAuthClientRecordView {
        OAuthClientRecordView {
            client_id: self.client_id@,
            client_secret: crate::openid::opt_view(self.client_secret),
            auth_url: self.auth_url@,
            token_url: self.token_url@,
            redirect_url: self.redirect_url@,
        }
    }
}

/// The authorize endpoint of a plain-OAuth2 entry; empty otherwise.
pub open spec fn auth_url_of(u: ProviderUrls) -> Seq<char> {
    match u {
        ProviderUrls::OAuthOnly { auth_url, .. } => auth_url@,
        ProviderUrls::OpenIdConnect { .. } => Seq::empty(),
    }
}

/// The token endpoint of a plain-OAuth2 entry; empty otherwise.
pub open spec fn token_url_of(u: ProviderUrls) -> Seq<char> {
    match u {
        ProviderUrls::OAuthOnly { token_url, .. } => token_url@,
        ProviderUrls::OpenIdConnect { .. } => Seq::empty(),
    }
}

/// The redirect URL registered for a plain-OAuth2 provider.
pub open spec fn oauth_redirect_of(base: Seq<char>, key: Seq<char>) -> Seq<char> {
    base + "/api/oauth/"@ + key + "/callback"@
}

/// The record a plain-OAuth2 provider gets.
pub open spec fn oauth_record_of(key: Seq<char>, p: Provider, base: Seq<char>) -> (
    OAuthClientRecordView
) {
    OAuthClientRecordView {
        client_id: p.client_id@,
        client_secret: crate::openid::opt_view(p.client_secret),
        auth_url: auth_url_of(p.urls),
        token_url: token_url_of(p.urls),
        redirect_url: oauth_redirect_of(base, key),
    }
}

/// The registry a configuration builds: its plain-OAuth2 entries whose
/// redirect URL parses, in configuration order.
pub open spec fn oauth_registry_of(entries: Seq<(String, Provider)>, base: Seq<char>) -> Seq<
    (Seq<char>, OAuthClientRecordView),
>
    decreases entries.len(),
{
    if entries.len() == 0 {
        Seq::empty()
    } else {
        let prev = oauth_registry_of(entries.drop_last(), base);
        let key = entries.last().0;
        let p = entries.last().1;
        if p.urls is OAuthOnly && valid_redirect(oauth_redirect_of(base, key@)) {
            prev.push((key@, oauth_record_of(key@, p, base)))
        } else {
            prev
        }
    }
}

/// Registry of the configured plain-OAuth2 providers, built once at startup;
/// read-only afterwards.
pub struct OAuthClients {
    pub clients: Vec<(String, OAuthClientRecord)>,
}

impl OAuthClients {
    /// The registry read as name-record pairs of character sequences.
    pub open spec fn spec_entries(&self) -> Seq<(Seq<char>, OAuthClientRecordView)> {
        self.clients@.map_values(|e: (String, OAuthClientRecord)| (e.0@, e.1@))
    }

    /// Builds the registry: every plain-OAuth2 entry of the configuration
    /// whose redirect URL parses, in order; an entry with an unparseable
    /// redirect URL is dropped without aborting the build, and OIDC entries
    /// are not its business.
    #[verifier::loop_isolation(false)]
    pub fn from_config(config: &Config) -> (r: Self)
        ensures
            r.spec_entries() == oauth_registry_of(config.integrations@, config.base_url@),
    {
        let mut clients: Vec<(String, OAuthClientRecord)> = Vec::new();
        let n = config.integrations.len();
        let mut i: usize = 0;
        while i < n
            invariant
                0 <= i <= n,
                clients@.map_values(
                    |e: (String, OAuthClientRecord)| (e.0@, e.1@),
                ) == oauth_registry_of(config.integrations@.take(i as int), config.base_url@),
            decreases n - i,
        {
            let ghost before = clients@;
            let entry = &config.integrations[i];
            match &entry.1.urls {
                ProviderUrls::OAuthOnly { auth_url, token_url } => {
                    let mut redirect = config.base_url.clone();
                    redirect.append("/api/oauth/");
                    redirect.append(entry.0.as_str());
                    redirect.append("/callback");
                    if redirect_url_is_valid(&redirect) {
                        let record = OAuthClientRecord {
                            client_id: entry.1.client_id.clone(),
                            client_secret: crate::openid::clone_opt_string(&entry.1.client_secret),
                            auth_url: auth_url.clone(),
                            token_url: token_url.clone(),
                            redirect_url: redirect,
                        };
                        let key_copy = entry.0.clone();
                        let ghost pushed = (key_copy@, record@);
                        clients.push((key_copy, record));
                        proof {
                            assert(pushed.1 =~= oauth_record_of(
                                config.integrations@[i as int].0@,
                                config.integrations@[i as int].1,
                                config.base_url@,
                            ));
                            assert(valid_redirect(oauth_redirect_of(
                                config.base_url@,
                                config.integrations@[i as int].0@,
                            )));
                        }
                    } else {
                        proof {
                            assert(!valid_redirect(oauth_redirect_of(
                                config.base_url@,
                                config.integrations@[i as int].0@,
                            )));
                        }
                    }
                },
                ProviderUrls::OpenIdConnect { .. } => {},
            }
            proof {
                let ints = config.integrations@;
                let f = |e: (String, OAuthClientRecord)| (e.0@, e.1@);
                assert(ints.take(i + 1).drop_last() =~= ints.take(i as int));
                assert(ints.take(i + 1).last() == ints[i as int]);
                if clients@.len() > before.len() {
                    assert(clients@.drop_last() =~= before);
                    assert(clients@.map_values(f) =~= before.map_values(f).push(
                        f(clients@.last()),
                    ));
                } else {
                    assert(clients@.map_values(f) =~= before.map_values(f));
                }
            }
            i += 1;
        }
        proof {
            assert(config.integrations@.take(n as int) =~= config.integrations@);
        }
        OAuthClients { clients }
    }

    /// The record of the named provider, or nothing for an unknown one.
    pub fn get(&self, provider: &String) -> (r: Option<&OAuthClientRecord>)
        ensures
            match r {
                Some(rec) => has_provider(self.clients@, provider@) && *rec == self.clients@[
                    key_idx(self.clients@, provider@)].1,
                None => !has_provider(self.clients@, provider@),
            },
    {
        let n = self.clients.len();
        let mut i: usize = 0;
        while i < n
            invariant
                n == self.clients@.len(),
                0 <= i <= n,
                forall|j: int| 0 <= j < i ==> self.clients@[j].0@ != provider@,
            decreases n - i,
        {
            if self.clients[i].0 == *provider {
                proof {
                    lemma_key_idx(self.clients@, provider@);
                    let m = key_idx(self.clients@, provider@);
                    if m < i {
                        assert(self.clients@[m].0@ != provider@);
                    }
                    if m > i {
                        assert(self.clients@[i as int].0@ != provider@);
                    }
                }
                return Some(&self.clients[i].1);
            }
            i += 1;
        }
        proof {
            lemma_key_idx(self.clients@, provider@);
        }
        None
    }
}

/// Starts an account-linking authorization: `Auth` cannot be requested here,
/// the provider must be known, and on success a fresh state token bound to
/// the requesting user and provision is recorded for `CSRF_TIMEOUT` seconds.
pub fn oauth_authorize_start(
    clients: &OAuthClients,
    c_cache: &mut CsrfCache,
    provider: &String,
    provides: OAuthProvision,
    user_id: i32,
    now: u64,
) -> (r: Result<String, OAuthError>)
    requires
        now + CSRF_TIMEOUT <= u64::MAX,
    ensures
        r is Ok <==> provides != OAuthProvision::Auth && has_provider(
            clients.clients@,
            provider@,
        ),
        r is Err ==> r == Err::<String, OAuthError>(OAuthError::MissingProvider)
            && final(c_cache)@ == old(c_cache)@,
        match r {
            Ok(token) => token@.len() == TOKEN_LEN && all_alphanumeric(token@) && final(c_cache)@
                == old(c_cache)@.insert(
                token@,
                (CsrfCacheRecord { user_id, provides }, (now + CSRF_TIMEOUT) as u64),
            ),
            Err(_) => true,
        },
{
    if matches!(provides, OAuthProvision::Auth) {
        return Err(OAuthError::MissingProvider);
    }
    match clients.get(provider) {
        None => Err(OAuthError::MissingProvider),
        Some(_) => {
            let token = c_cache.begin(user_id, provides, now);
            Ok(token)
        },
    }
}

/// The completing step of the account-linking callback, run after the code
/// exchange succeeded: the provider is recorded on the caller's live
/// session — append-or-replace by provider name, never a duplicate record,
/// expiry untouched. A missing or dead session is left as it is.
pub fn oauth_attach_provider(
    session: &mut SessionStore,
    jar: &CookieJar,
    provider: String,
    now: u64,
)
    ensures
        final(session).spec_production() == old(session).spec_production(),
        match jar.session {
            None => final(session)@ == old(session)@,
            Some(c) => {
                if live(old(session)@, c.value@, now) {
                    final(session)@ == old(session)@.insert(
                        c.value@,
                        (
                            add_provider_view(old(session)@[c.value@].0, provider@),
                            old(session)@[c.value@].1,
                        ),
                    )
                } else {
                    final(session)@ == old(session)@
                }
            },
        },
{
    session.add_rp_provider(jar, provider, now);
}

/// The account-linking callback gates, in order: the provider must be known;
/// the echoed state must consume a live record — consuming removes it, so a
/// replay fails; and the record must be bound to the calling user. A
/// consumed record is gone even when the user check then fails.
pub fn oauth_callback_verify(
    clients: &OAuthClients,
    c_cache: &mut CsrfCache,
    provider: &String,
    state: &String,
    current_user: i32,
    now: u64,
) -> (r: Result<CsrfCacheRecord, OAuthError>)
    ensures
        !has_provider(clients.clients@, provider@) ==> r == Err::<CsrfCacheRecord, OAuthError>(
            OAuthError::MissingProvider,
        ) && final(c_cache)@ == old(c_cache)@,
        has_provider(clients.clients@, provider@) ==> final(c_cache)@ == old(c_cache)@.remove(
            state@,
        ),
        has_provider(clients.clients@, provider@) && !live(old(c_cache)@, state@, now) ==> r
            == Err::<CsrfCacheRecord, OAuthError>(OAuthError::InvalidOAuthState),
        has_provider(clients.clients@, provider@) && live(old(c_cache)@, state@, now)
            && old(c_cache)@[state@].0.user_id != current_user ==> r == Err::<
            CsrfCacheRecord,
            OAuthError,
        >(OAuthError::InvalidOAuthState),
        has_provider(clients.clients@, provider@) && live(old(c_cache)@, state@, now)
            && old(c_cache)@[state@].0.user_id == current_user ==> r == Ok::<
            CsrfCacheRecord,
            OAuthError,
        >(old(c_cache)@[state@].0),
{
    match clients.get(provider) {
        None => Err(OAuthError::MissingProvider),
        Some(_) => {
            match c_cache.consume(state, now) {
                None => Err(OAuthError::InvalidOAuthState),
                Some(record) => {
                    if record.user_id != current_user {
                        Err(OAuthError::InvalidOAuthState)
                    } else {
                        Ok(record)
                    }
                },
            }
        },
    }
}

} // verus!
