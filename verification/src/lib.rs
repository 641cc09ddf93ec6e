//! Session, CSRF/nonce and OAuth/OpenID-Connect authentication core for a
//! scheduling backend: an expiring key-value cache with an explicit clock,
//! a session store that issues and renews cookies on top of it, single-use
//! CSRF/nonce records, a provider registry built from configuration, and the
//! decision logic of the provider callback.

pub mod cache;
pub mod config;
pub mod csrf;
pub mod error;
pub mod flow;
pub mod local;
pub mod oauth;
pub mod openid;
pub mod registry;
pub mod session;
pub mod token;
