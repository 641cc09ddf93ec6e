//! Single-use CSRF records: one cache binding a random state token to an
//! OIDC nonce, and one binding it to the requesting user and provision for
//! the account-linking flow. A record is consumed — removed — on its first
//! use, so a replayed callback can never succeed twice.

use vstd::prelude::*;

use crate::cache::{live, ExpiringCache};
use crate::config::OAuthProvision;
use crate::token::{all_alphanumeric, random_alphanumeric};

verus! {

/// Lifetime of a pending OIDC authorization: one hour.
pub const NONCE_TIMEOUT: u64 = 3600;

/// Lifetime of a pending account-linking authorization: one hour.
pub const CSRF_TIMEOUT: u64 = 3600;

/// Length of a state token or nonce: random alphanumeric characters.
pub const TOKEN_LEN: usize = 30;

/// Pending OIDC authorizations: state token to the nonce that the returned
/// ID token must echo.
pub struct CsrfNonceCache {
    cache: ExpiringCache<String>,
}

impl View for CsrfNonceCache {
    type V = Map<Seq<char>, (Seq<char>, u64)>;

    closed spec fn view(&self) -> Map<Seq<char>, (Seq<char>, u64)> {
        Map::new(
            |k: Seq<char>| self.cache@.contains_key(k),
            |k: Seq<char>| (self.cache@[k].0@, self.cache@[k].1),
        )
    }
}

impl CsrfNonceCache {
    /// An empty cache.
    pub fn new() -> (r: Self)
        ensures
            r@ == Map::<Seq<char>, (Seq<char>, u64)>::empty(),
    {
        let r = CsrfNonceCache { cache: ExpiringCache::new() };
        proof {
            assert(r@ =~= Map::<Seq<char>, (Seq<char>, u64)>::empty());
        }
        r
    }

    /// The view is the cache's map with each nonce read as characters.
    proof fn lemma_view(&self)
        ensures
            forall|k: Seq<char>| #[trigger]
                self@.contains_key(k) <==> self.cache@.contains_key(k),
            forall|k: Seq<char>|
                self.cache@.contains_key(k) ==> #[trigger] self@[k] == (
                self.cache@[k].0@,
                self.cache@[k].1,
                ),
    {
    }

    /// Opens an authorization round: generates a fresh random state token and
    /// nonce, stores the nonce under the token for `NONCE_TIMEOUT` seconds,
    /// and returns both for inclusion in the authorization URL.
    pub fn begin(&mut self, now: u64) -> (r: (String, String))
        requires
            now + NONCE_TIMEOUT <= u64::MAX,
        ensures
            r.0@.len() == TOKEN_LEN && all_alphanumeric(r.0@),
            r.1@.len() == TOKEN_LEN && all_alphanumeric(r.1@),
            final(self)@ == old(self)@.insert(r.0@, (r.1@, (now + NONCE_TIMEOUT) as u64)),
    {
        let token = random_alphanumeric(TOKEN_LEN);
        let nonce = random_alphanumeric(TOKEN_LEN);
        let ghost nonce_view = nonce@;
        self.cache.insert(token.clone(), nonce.clone(), NONCE_TIMEOUT, now);
        proof {
            old(self).lemma_view();
            self.lemma_view();
            assert(final(self)@ =~= old(self)@.insert(
                token@,
                (nonce_view, (now + NONCE_TIMEOUT) as u64),
            ));
        }
        (token, nonce)
    }

    /// Consumes — removes, never merely reads — the record under `token`:
    /// the stored nonce comes back exactly when the token is live, and the
    /// token is dead afterwards, so a second consumption finds nothing.
    pub fn consume(&mut self, token: &String, now: u64) -> (r: Option<String>)
        ensures
            final(self)@ == old(self)@.remove(token@),
            match r {
                Some(n) => live(old(self)@, token@, now) && n@ == old(self)@[token@].0,
                None => !live(old(self)@, token@, now),
            },
    {
        let r = self.cache.remove(token, now);
        proof {
            old(self).lemma_view();
            self.lemma_view();
            assert(final(self)@ =~= old(self)@.remove(token@));
        }
        r
    }

    /// Evicts expired records; what `consume` can observe is unchanged.
    pub fn purge_expired(&mut self, now: u64)
        ensures
            forall|k: Seq<char>| #[trigger]
                final(self)@.contains_key(k) <==> live(old(self)@, k, now),
            forall|k: Seq<char>|
                final(self)@.contains_key(k) ==> #[trigger] final(self)@[k] == old(self)@[k],
    {
        proof {
            old(self).lemma_view();
        }
        self.cache.purge_expired(now);
        proof {
            self.lemma_view();
        }
    }
}

/// What a pending account-linking authorization remembers: who asked, and
/// for which provision.
#[derive(Clone, Copy, PartialEq, Eq, Structural, Debug)]
pub struct CsrfCacheRecord {
    pub user_id: i32,
    pub provides: OAuthProvision,
}

/// Pending account-linking authorizations: state token to the requesting
/// user and provision.
pub struct CsrfCache {
    cache: ExpiringCache<CsrfCacheRecord>,
}

impl View for CsrfCache {
    type V = Map<Seq<char>, (CsrfCacheRecord, u64)>;

    closed spec fn view(&self) -> Map<Seq<char>, (CsrfCacheRecord, u64)> {
        self.cache@
    }
}

impl CsrfCache {
    /// An empty cache.
    pub fn new() -> (r: Self)
        ensures
            r@ == Map::<Seq<char>, (CsrfCacheRecord, u64)>::empty(),
    {
        CsrfCache { cache: ExpiringCache::new() }
    }

    /// Opens a linking round for `user_id` and `provides`: generates a fresh
    /// random state token and stores the record under it for `CSRF_TIMEOUT`
    /// seconds.
    pub fn begin(&mut self, user_id: i32, provides: OAuthProvision, now: u64) -> (r: String)
        requires
            now + CSRF_TIMEOUT <= u64::MAX,
        ensures
            r@.len() == TOKEN_LEN && all_alphanumeric(r@),
            final(self)@ == old(self)@.insert(
                r@,
                (CsrfCacheRecord { user_id, provides }, (now + CSRF_TIMEOUT) as u64),
            ),
    {
        let token = random_alphanumeric(TOKEN_LEN);
        self.cache.insert(token.clone(), CsrfCacheRecord { user_id, provides }, CSRF_TIMEOUT, now);
        token
    }

    /// Consumes — removes, never merely reads — the record under `token`:
    /// it comes back exactly when the token is live, and the token is dead
    /// afterwards, so a second consumption finds nothing.
    pub fn consume(&mut self, token: &String, now: u64) -> (r: Option<CsrfCacheRecord>)
        ensures
            final(self)@ == old(self)@.remove(token@),
            match r {
                Some(rec) => live(old(self)@, token@, now) && rec == old(self)@[token@].0,
                None => !live(old(self)@, token@, now),
            },
    {
        self.cache.remove(token, now)
    }

    /// Evicts expired records; what `consume` can observe is unchanged.
    pub fn purge_expired(&mut self, now: u64)
        ensures
            forall|k: Seq<char>| #[trigger]
                final(self)@.contains_key(k) <==> live(old(self)@, k, now),
            forall|k: Seq<char>|
                final(self)@.contains_key(k) ==> #[trigger] final(self)@[k] == old(self)@[k],
    {
        self.cache.purge_expired(now);
    }
}

/// Law: the CSRF round trip. A `begin` at time `t` makes its token live, with
/// its nonce or record stored, at every instant before `t` plus the lifetime —
/// so an immediate `consume` returns the stored context; and after any
/// consumption the token is not live, so a second `consume` of the same token
/// returns nothing. Replay is impossible.
pub proof fn lemma_csrf_round_trip<C>(
    m: Map<Seq<char>, (C, u64)>,
    token: Seq<char>,
    context: C,
    ttl: u64,
    t: u64,
    now: u64,
)
    requires
        t + ttl <= u64::MAX,
    ensures
        now < t + ttl ==> live(m.insert(token, (context, (t + ttl) as u64)), token, now)
            && m.insert(token, (context, (t + ttl) as u64))[token].0 == context,
        !live(m.insert(token, (context, (t + ttl) as u64)).remove(token), token, now),
{
}

} // verus!
