//! The configuration the authentication core consumes: named provider
//! entries, each either plain OAuth2 endpoints or an OIDC issuer to discover,
//! plus the flags and base URL the flows read.

use vstd::prelude::*;

verus! {

/// What a provider connection provides.
#[derive(Clone, Copy, PartialEq, Eq, Structural, Debug, Hash)]
pub enum OAuthProvision {
    Auth,
    Location,
    Calendar,
}

/// A provider's endpoints: either explicit OAuth2 authorize and token URLs,
/// or an OIDC issuer whose metadata is discovered at startup. The ambiguity
/// is resolved once, at configuration parse time.
pub enum ProviderUrls {
    OAuthOnly { auth_url: String, token_url: String },
    OpenIdConnect { issuer_url: String },
}

impl ProviderUrls {
    /// Whether these are OIDC issuer URLs.
    pub fn is_open_id(&self) -> (r: bool)
        ensures
            r == (self is OpenIdConnect),
    {
        match self {
            ProviderUrls::OpenIdConnect { .. } => true,
            _ => false,
        }
    }

    /// Whether these are plain OAuth2 endpoints.
    pub fn is_oauth_only(&self) -> (r: bool)
        ensures
            r == (self is OAuthOnly),
    {
        match self {
            ProviderUrls::OAuthOnly { .. } => true,
            _ => false,
        }
    }
}

/// One named provider's configuration.
pub struct Provider {
    pub client_id: String,
    pub client_secret: Option<String>,
    pub urls: ProviderUrls,
    pub provides: Vec<OAuthProvision>,
}

/// The part of the application configuration that the authentication core
/// reads. Built once at startup; read-only afterwards.
pub struct Config {
    /// Base of the application's own URL, scheme included; redirect URLs are
    /// computed under it.
    pub base_url: String,
    /// Gates the sign-up branch of the callback.
    pub allow_signups: bool,
    pub redirect_to_first_oauth_provider: bool,
    /// Provider name to provider configuration, in configuration order.
    pub integrations: Vec<(String, Provider)>,
}

/// The projection of the configuration that is safe to hand to clients.
pub struct PublicConfig {
    pub redirect_to_first_oauth_provider: bool,
    pub oauth_providers: Vec<String>,
}

impl PublicConfig {
    /// The public projection: the redirect flag and the provider names, in
    /// configuration order.
    pub fn from_config(config: &Config) -> (r: PublicConfig)
        ensures
            r.redirect_to_first_oauth_provider == config.redirect_to_first_oauth_provider,
            r.oauth_providers@.map_values(|p: String| p@) == config.integrations@.map_values(
                |e: (String, Provider)| e.0@,
            ),
    {
        let mut names: Vec<String> = Vec::new();
        let n = config.integrations.len();
        let mut i: usize = 0;
        while i < n
            invariant
                n == config.integrations@.len(),
                0 <= i <= n,
                names@.len() == i,
                forall|j: int| 0 <= j < i ==> names@[j]@ == #[trigger] config.integrations@[j].0@,
            decreases n - i,
        {
            names.push(config.integrations[i].0.clone());
            i += 1;
        }
        proof {
            assert(names@.map_values(|p: String| p@) =~= config.integrations@.map_values(
                |e: (String, Provider)| e.0@,
            ));
        }
        PublicConfig { redirect_to_first_oauth_provider: config.redirect_to_first_oauth_provider, oauth_providers: names }
    }
}

} // verus!
