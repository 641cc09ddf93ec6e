//! The OIDC provider registry: which configured providers survive discovery,
//! with the plain values the flows read of each — client id, issuer,
//! redirect URL, and the optional end-session endpoint. Discovery itself is a
//! network call made by the caller; this module decides which issuers to
//! discover and what the outcomes build.

use vstd::prelude::*;
use vstd::string::StringExecFns;

use crate::config::{Config, OAuthProvision, Provider, ProviderUrls};
use crate::registry::{has_provider, key_idx, lemma_key_idx, redirect_url_is_valid, valid_redirect};

verus! {

/// What OIDC discovery brought back for one issuer, read as plain values.
pub struct DiscoveredMetadata {
    pub end_session_endpoint: Option<String>,
}

/// One usable OIDC provider after discovery.
pub struct OpenIdClientRecord {
    pub client_id: String,
    pub client_secret: Option<String>,
    pub issuer_url: String,
    pub redirect_url: String,
    pub end_session_endpoint: Option<String>,
}

/// The mathematical reading of a registry record.
#[verifier::ext_equal]
pub struct OpenIdClientRecordView {
    pub client_id: Seq<char>,
    pub client_secret: Option<Seq<char>>,
    pub issuer_url: Seq<char>,
    pub redirect_url: Seq<char>,
    pub end_session_endpoint: Option<Seq<char>>,
}

/// An optional string read as characters.
pub open spec fn opt_view(o: Option<String>) -> Option<Seq<char>> {
    match o {
        Some(s) => Some(s@),
        None => None,
    }
}

impl View for OpenIdClientRecord {
    type V = OpenIdClientRecordView;

    open spec fn view(&self) -> OpenIdClientRecordView {
        OpenIdClientRecordView {
            client_id: self.client_id@,
            client_secret: opt_view(self.client_secret),
            issuer_url: self.issuer_url@,
            redirect_url: self.redirect_url@,
            end_session_endpoint: opt_view(self.end_session_endpoint),
        }
    }
}

/// The issuer URL of an OIDC entry; empty for plain OAuth2 entries.
pub open spec fn issuer_of(u: ProviderUrls) -> Seq<char> {
    match u {
        ProviderUrls::OpenIdConnect { issuer_url } => issuer_url@,
        ProviderUrls::OAuthOnly { .. } => Seq::empty(),
    }
}

/// Whether a configured provider takes part in OIDC discovery: it offers
/// authentication or is configured as OIDC.
pub open spec fn openid_selected(p: Provider) -> bool {
    p.provides@.contains(OAuthProvision::Auth) || p.urls is OpenIdConnect
}

/// The redirect URL registered for an OIDC provider.
pub open spec fn openid_redirect_of(base: Seq<char>, key: Seq<char>) -> Seq<char> {
    base + "/api/user/openid/"@ + key + "/callback"@
}

/// The record a surviving provider gets.
pub open spec fn openid_record_of(
    key: Seq<char>,
    p: Provider,
    d: DiscoveredMetadata,
    base: Seq<char>,
) -> OpenIdClientRecordView {
    OpenIdClientRecordView {
        client_id: p.client_id@,
        client_secret: opt_view(p.client_secret),
        issuer_url: issuer_of(p.urls),
        redirect_url: openid_redirect_of(base, key),
        end_session_endpoint: opt_view(d.end_session_endpoint),
    }
}

/// The registry that a configuration and its discovery outcomes build:
/// selected OIDC entries whose discovery succeeded and whose redirect URL
/// parses, in configuration order.
pub open spec fn openid_registry_of(
    entries: Seq<(String, Provider)>,
    discs: Seq<Option<DiscoveredMetadata>>,
    base: Seq<char>,
) -> Seq<(Seq<char>, OpenIdClientRecordView)>
    decreases entries.len(),
{
    if entries.len() == 0 {
        Seq::empty()
    } else {
        let prev = openid_registry_of(
            entries.drop_last(),
            discs.take(entries.len() - 1),
            base,
        );
        let key = entries.last().0;
        let p = entries.last().1;
        let d = discs[entries.len() - 1];
        if openid_selected(p) && p.urls is OpenIdConnect && d is Some && valid_redirect(
            openid_redirect_of(base, key@),
        ) {
            prev.push((key@, openid_record_of(key@, p, d.unwrap(), base)))
        } else {
            prev
        }
    }
}

/// Whether `p` offers the `Auth` provision.
fn provides_auth(p: &Provider) -> (r: bool)
    ensures
        r == p.provides@.contains(OAuthProvision::Auth),
{
    let n = p.provides.len();
    let mut i: usize = 0;
    while i < n
        invariant
            n == p.provides@.len(),
            0 <= i <= n,
            forall|j: int| 0 <= j < i ==> p.provides@[j] != OAuthProvision::Auth,
        decreases n - i,
    {
        if matches!(p.provides[i], OAuthProvision::Auth) {
            proof {
                assert(p.provides@[i as int] == OAuthProvision::Auth);
            }
            return true;
        }
        i += 1;
    }
    false
}

/// A copy of an optional string.
pub(crate) fn clone_opt_string(o: &Option<String>) -> (r: Option<String>)
    ensures
        r == *o,
{
    match o {
        Some(s) => Some(s.clone()),
        None => None,
    }
}

/// Registry of the usable OIDC providers, built once at startup from the
/// configuration and the discovery outcomes; read-only afterwards.
pub struct OpenIdClients {
    pub clients: Vec<(String, OpenIdClientRecord)>,
}

impl OpenIdClients {
    /// The registry read as name-record pairs of character sequences.
    pub open spec fn spec_entries(&self) -> Seq<(Seq<char>, OpenIdClientRecordView)> {
        self.clients@.map_values(|e: (String, OpenIdClientRecord)| (e.0@, e.1@))
    }

    /// The issuers to discover, aligned with `integrations`: the issuer URL
    /// of every selected OIDC entry, nothing for the others. An entry that
    /// is selected but not OIDC is among the latter — it is dropped with a
    /// warning by the caller, never discovered.
    pub fn discovery_plan(config: &Config) -> (r: Vec<Option<String>>)
        ensures
            r@.len() == config.integrations@.len(),
            forall|i: int|
                0 <= i < r@.len() ==> #[trigger] opt_view(r@[i]) == (if openid_selected(
                    config.integrations@[i].1,
                ) && config.integrations@[i].1.urls is OpenIdConnect {
                    Some(issuer_of(config.integrations@[i].1.urls))
                } else {
                    None::<Seq<char>>
                }),
    {
        let mut plan: Vec<Option<String>> = Vec::new();
        let n = config.integrations.len();
        let mut i: usize = 0;
        while i < n
            invariant
                n == config.integrations@.len(),
                0 <= i <= n,
                plan@.len() == i,
                forall|j: int|
                    0 <= j < i ==> #[trigger] opt_view(plan@[j]) == (if openid_selected(
                        config.integrations@[j].1,
                    ) && config.integrations@[j].1.urls is OpenIdConnect {
                        Some(issuer_of(config.integrations@[j].1.urls))
                    } else {
                        None::<Seq<char>>
                    }),
            decreases n - i,
        {
            let entry = &config.integrations[i];
            let selected = provides_auth(&entry.1) || entry.1.urls.is_open_id();
            match &entry.1.urls {
                ProviderUrls::OpenIdConnect { issuer_url } if selected => {
                    plan.push(Some(issuer_url.clone()));
                },
                _ => {
                    plan.push(None);
                },
            }
            i += 1;
        }
        plan
    }

    /// Builds the registry from the configuration and the per-provider
    /// discovery outcomes, aligned with `integrations` (`None`: discovery
    /// failed or was not attempted). An entry that is not OIDC, whose
    /// discovery failed, or whose redirect URL does not parse is dropped;
    /// the others keep configuration order. A dropped provider never aborts
    /// the build.
    #[verifier::loop_isolation(false)]
    pub fn from_config(config: &Config, discoveries: &Vec<Option<DiscoveredMetadata>>) -> (r: Self)
        requires
            discoveries@.len() == config.integrations@.len(),
        ensures
            r.spec_entries() == openid_registry_of(
                config.integrations@,
                discoveries@,
                config.base_url@,
            ),
    {
        let ghost f = |e: (String, OpenIdClientRecord)| (e.0@, e.1@);
        let mut clients: Vec<(String, OpenIdClientRecord)> = Vec::new();
        let n = config.integrations.len();
        let mut i: usize = 0;
        while i < n
            invariant
                n == config.integrations@.len(),
                discoveries@.len() == n,
                0 <= i <= n,
                clients@.map_values(
                    |e: (String, OpenIdClientRecord)| (e.0@, e.1@),
                ) == openid_registry_of(
                    config.integrations@.take(i as int),
                    discoveries@.take(i as int),
                    config.base_url@,
                ),
            decreases n - i,
        {
            let ghost before = clients@;
            let entry = &config.integrations[i];
            let selected = provides_auth(&entry.1) || entry.1.urls.is_open_id();
            if selected {
                match &entry.1.urls {
                    ProviderUrls::OpenIdConnect { issuer_url } => {
                        match &discoveries[i] {
                            Some(d) => {
                                let mut redirect = config.base_url.clone();
                                redirect.append("/api/user/openid/");
                                redirect.append(entry.0.as_str());
                                redirect.append("/callback");
                                if redirect_url_is_valid(&redirect) {
                                    let record = OpenIdClientRecord {
                                        client_id: entry.1.client_id.clone(),
                                        client_secret: clone_opt_string(&entry.1.client_secret),
                                        issuer_url: issuer_url.clone(),
                                        redirect_url: redirect,
                                        end_session_endpoint: clone_opt_string(
                                            &d.end_session_endpoint,
                                        ),
                                    };
                                    let key_copy = entry.0.clone();
                                    let ghost pushed = (key_copy@, record@);
                                    clients.push((key_copy, record));
                                    proof {
                                        assert(f(clients@.last()) == pushed);
                                        assert(valid_redirect(openid_redirect_of(
                                            config.base_url@,
                                            config.integrations@[i as int].0@,
                                        )));
                                    }
                                } else {
                                    proof {
                                        assert(!valid_redirect(openid_redirect_of(
                                            config.base_url@,
                                            config.integrations@[i as int].0@,
                                        )));
                                    }
                                }
                            },
                            None => {},
                        }
                    },
                    ProviderUrls::OAuthOnly { .. } => {},
                }
            }
            proof {
                let ints = config.integrations@;
                let discs = discoveries@;
                assert(ints.take(i + 1).drop_last() =~= ints.take(i as int));
                assert(discs.take(i + 1).take(i as int) =~= discs.take(i as int));
                assert(ints.take(i + 1).last() == ints[i as int]);
                assert(discs.take(i + 1)[i as int] == discs[i as int]);
                if clients@.len() > before.len() {
                    assert(clients@.drop_last() =~= before);
                    assert(clients@.map_values(f) =~= before.map_values(f).push(
                        f(clients@.last()),
                    ));
                    let built = f(clients@.last()).1;
                    let expected = openid_record_of(
                        ints[i as int].0@,
                        ints[i as int].1,
                        discs[i as int].unwrap(),
                        config.base_url@,
                    );
                    assert(built.client_id == expected.client_id);
                    assert(built.client_secret == expected.client_secret);
                    assert(built.issuer_url == expected.issuer_url);
                    assert(built.redirect_url == expected.redirect_url);
                    assert(built.end_session_endpoint == expected.end_session_endpoint);
                    assert(built =~= expected);
                } else {
                    assert(clients@.map_values(f) =~= before.map_values(f));
                }
            }
            i += 1;
        }
        proof {
            assert(config.integrations@.take(n as int) =~= config.integrations@);
            assert(discoveries@.take(n as int) =~= discoveries@);
        }
        OpenIdClients { clients }
    }

    /// The record of the named provider, or nothing for an unknown or
    /// dropped provider.
    pub fn get(&self, provider: &String) -> (r: Option<&OpenIdClientRecord>)
        ensures
            match r {
                Some(rec) => has_provider(self.clients@, provider@) && *rec == self.clients@[
                    key_idx(self.clients@, provider@)].1,
                None => !has_provider(self.clients@, provider@),
            },
    {
        let n = self.clients.len();
        let mut i: usize = 0;
        while i < n
            invariant
                n == self.clients@.len(),
                0 <= i <= n,
                forall|j: int| 0 <= j < i ==> self.clients@[j].0@ != provider@,
            decreases n - i,
        {
            if self.clients[i].0 == *provider {
                proof {
                    lemma_key_idx(self.clients@, provider@);
                    let m = key_idx(self.clients@, provider@);
                    if m < i {
                        assert(self.clients@[m].0@ != provider@);
                    }
                    if m > i {
                        assert(self.clients@[i as int].0@ != provider@);
                    }
                }
                return Some(&self.clients[i].1);
            }
            i += 1;
        }
        proof {
            lemma_key_idx(self.clients@, provider@);
        }
        None
    }
}

} // verus!
