//! Sessions: an expiring cache keyed by an opaque random id, the cookie that
//! carries a copy of that id, and the operations the request pipeline uses —
//! create, resolve, sliding renewal, destroy, and recording provider links.

use vstd::prelude::*;

use crate::cache::{live, ExpiringCache};
use crate::token::{all_alphanumeric, random_alphanumeric};

verus! {

/// Name the session cookie is issued under. `SessionCookie` carries the
/// attributes that vary; the name and path are these constants on every
/// cookie the store issues.
pub const SESSION_COOKIE_NAME: &'static str = "sid";

/// Path attribute of the session cookie: the whole application.
pub const SESSION_COOKIE_PATH: &'static str = "/";

/// Session lifetime in seconds: five hours.
pub const SESSION_TTL: u64 = 3600 * 5;

/// Length of a session id: random alphanumeric characters.
pub const SESSION_ID_LEN: usize = 30;

/// What one session holds: the authenticated user and the providers that
/// still have an open relying-party session for it.
pub struct SessionData {
    pub user_id: i32,
    pub rp_logout_providers_with_open_sessions: Vec<String>,
}

/// The mathematical reading of a session: the user id and the provider names
/// as character sequences.
#[verifier::ext_equal]
pub struct SessionDataView {
    pub user_id: i32,
    pub rp_logout_providers: Seq<Seq<char>>,
}

impl View for SessionData {
    type V = SessionDataView;

    open spec fn view(&self) -> SessionDataView {
        SessionDataView {
            user_id: self.user_id,
            rp_logout_providers: self.rp_logout_providers_with_open_sessions@.map_values(
                |p: String| p@,
            ),
        }
    }
}

/// The session after noting an open relying-party session at provider `p`:
/// unchanged when `p` is already recorded, appended otherwise — one record
/// per provider, never a duplicate.
pub open spec fn add_provider_view(v: SessionDataView, p: Seq<char>) -> SessionDataView {
    if v.rp_logout_providers.contains(p) {
        v
    } else {
        SessionDataView {
            user_id: v.user_id,
            rp_logout_providers: v.rp_logout_providers.push(p),
        }
    }
}

impl SessionData {
    /// A fresh session for `user_id` with no provider records.
    pub fn new(user_id: i32) -> (r: Self)
        ensures
            r@ == (SessionDataView { user_id, rp_logout_providers: Seq::empty() }),
    {
        let r = SessionData { user_id, rp_logout_providers_with_open_sessions: Vec::new() };
        proof {
            assert(r@ =~= SessionDataView { user_id, rp_logout_providers: Seq::empty() });
        }
        r
    }

    /// Records that `provider` holds an open relying-party session, unless it
    /// is already recorded.
    pub fn add_rp_providers(&mut self, provider: String)
        ensures
            final(self)@ == add_provider_view(old(self)@, provider@),
    {
        let n = self.rp_logout_providers_with_open_sessions.len();
        let mut i: usize = 0;
        while i < n
            invariant
                *self == *old(self),
                n == self.rp_logout_providers_with_open_sessions@.len(),
                0 <= i <= n,
                forall|j: int|
                    0 <= j < i ==> self.rp_logout_providers_with_open_sessions@[j]@ != provider@,
            decreases n - i,
        {
            if self.rp_logout_providers_with_open_sessions[i] == provider {
                proof {
                    assert(old(self)@.rp_logout_providers[i as int] == provider@);
                }
                return ;
            }
            i += 1;
        }
        proof {
            assert forall|j: int|
                0 <= j < old(self)@.rp_logout_providers.len() implies old(
                self,
            )@.rp_logout_providers[j] != provider@ by {
                assert(self.rp_logout_providers_with_open_sessions@[j]@ != provider@);
            }
        }
        self.rp_logout_providers_with_open_sessions.push(provider);
        proof {
            assert(final(self)@ =~= add_provider_view(old(self)@, provider@));
        }
    }
}

impl Clone for SessionData {
    /// A snapshot with the same reading.
    fn clone(&self) -> (res: Self)
        ensures
            res@ == self@,
    {
        let providers = self.rp_logout_providers_with_open_sessions.clone();
        proof {
            assert(providers@ =~= self.rp_logout_providers_with_open_sessions@);
        }
        let res = SessionData {
            user_id: self.user_id,
            rp_logout_providers_with_open_sessions: providers,
        };
        proof {
            assert(res@ =~= self@);
        }
        res
    }
}

/// The session cookie as the store issues it: the opaque id plus the
/// attributes set on it. Every issued cookie is named `SESSION_COOKIE_NAME`
/// with path `SESSION_COOKIE_PATH`; the cookie is a copy of the id, never
/// authoritative state.
#[derive(Debug)]
pub struct SessionCookie {
    pub value: String,
    pub max_age_seconds: u64,
    pub http_only: bool,
    pub secure: bool,
    pub same_site_strict: bool,
}

/// The slice of a request's cookie jar that the session subsystem reads and
/// writes: the session cookie, when one is present.
#[derive(Debug)]
pub struct CookieJar {
    pub session: Option<SessionCookie>,
}

/// Sessions keyed by an opaque random id carried in a cookie. The view maps
/// each stored id to the session's reading and its absolute expiry.
pub struct SessionStore {
    cache: ExpiringCache<SessionData>,
    production: bool,
}

impl View for SessionStore {
    type V = Map<Seq<char>, (SessionDataView, u64)>;

    closed spec fn view(&self) -> Map<Seq<char>, (SessionDataView, u64)> {
        Map::new(
            |k: Seq<char>| self.cache@.contains_key(k),
            |k: Seq<char>| (self.cache@[k].0@, self.cache@[k].1),
        )
    }
}

impl SessionStore {
    /// Whether cookies are issued with the production attributes
    /// (`Secure`, `SameSite=Strict`) rather than the development ones.
    pub closed spec fn spec_production(&self) -> bool {
        self.production
    }

    /// An empty store; `production` picks the cookie attribute profile.
    pub fn new(production: bool) -> (r: Self)
        ensures
            r@ == Map::<Seq<char>, (SessionDataView, u64)>::empty(),
            r.spec_production() == production,
    {
        let r = SessionStore { cache: ExpiringCache::new(), production };
        proof {
            assert(r@ =~= Map::<Seq<char>, (SessionDataView, u64)>::empty());
        }
        r
    }

    /// The view is the cache's map with each session read through its view.
    proof fn lemma_view(&self)
        ensures
            forall|k: Seq<char>| #[trigger]
                self@.contains_key(k) <==> self.cache@.contains_key(k),
            forall|k: Seq<char>|
                self.cache@.contains_key(k) ==> #[trigger] self@[k] == (
                self.cache@[k].0@,
                self.cache@[k].1,
                ),
    {
    }

    /// Starts a session: generates a fresh random id, stores the data under
    /// it for `SESSION_TTL` seconds, and returns the jar carrying the session
    /// cookie with the documented attributes.
    pub fn insert(&mut self, session_data: SessionData, jar: CookieJar, now: u64) -> (r: CookieJar)
        requires
            now + SESSION_TTL <= u64::MAX,
        ensures
            r.session is Some,
            ({
                let c = r.session.unwrap();
                &&& c.value@.len() == SESSION_ID_LEN
                &&& all_alphanumeric(c.value@)
                &&& c.max_age_seconds == SESSION_TTL
                &&& c.http_only
                &&& c.secure == old(self).spec_production()
                &&& c.same_site_strict == old(self).spec_production()
                &&& final(self)@ == old(self)@.insert(
                    c.value@,
                    (session_data@, (now + SESSION_TTL) as u64),
                )
            }),
            final(self).spec_production() == old(self).spec_production(),
    {
        let _ = jar;
        let sid = random_alphanumeric(SESSION_ID_LEN);
        let ghost data_view = session_data@;
        let cookie = SessionCookie {
            value: sid.clone(),
            max_age_seconds: SESSION_TTL,
            http_only: true,
            secure: self.production,
            same_site_strict: self.production,
        };
        self.cache.insert(sid, session_data, SESSION_TTL, now);
        proof {
            old(self).lemma_view();
            self.lemma_view();
            assert(final(self)@ =~= old(self)@.insert(
                cookie.value@,
                (data_view, (now + SESSION_TTL) as u64),
            ));
        }
        CookieJar { session: Some(cookie) }
    }

    /// Resolves the jar's session cookie to a snapshot of the session, when
    /// the cookie is present and its id is live. An absent cookie is an
    /// anonymous request, not an error. Never extends the session.
    pub fn get(&self, jar: &CookieJar, now: u64) -> (r: Option<SessionData>)
        ensures
            match jar.session {
                None => r is None,
                Some(c) => match r {
                    Some(d) => live(self@, c.value@, now) && d@ == self@[c.value@].0,
                    None => !live(self@, c.value@, now),
                },
            },
    {
        proof {
            self.lemma_view();
        }
        match &jar.session {
            None => None,
            Some(c) => match self.cache.get(&c.value, now) {
                Some(d) => Some(d.clone()),
                None => None,
            },
        }
    }

    /// Sliding renewal: when the jar carries a live session id, its expiry is
    /// reset to `now + SESSION_TTL`; otherwise nothing changes. The jar is
    /// returned as it came.
    pub fn reup(&mut self, jar: CookieJar, now: u64) -> (r: CookieJar)
        requires
            now + SESSION_TTL <= u64::MAX,
        ensures
            r == jar,
            final(self).spec_production() == old(self).spec_production(),
            match jar.session {
                None => final(self)@ == old(self)@,
                Some(c) => {
                    if live(old(self)@, c.value@, now) {
                        final(self)@ == old(self)@.insert(
                            c.value@,
                            (old(self)@[c.value@].0, (now + SESSION_TTL) as u64),
                        )
                    } else {
                        final(self)@ == old(self)@
                    }
                },
            },
    {
        match &jar.session {
            None => {},
            Some(c) => {
                self.cache.set_expiration(&c.value, SESSION_TTL, now);
                proof {
                    old(self).lemma_view();
                    self.lemma_view();
                    if live(old(self)@, c.value@, now) {
                        assert(final(self)@ =~= old(self)@.insert(
                            c.value@,
                            (old(self)@[c.value@].0, (now + SESSION_TTL) as u64),
                        ));
                    } else {
                        assert(final(self)@ =~= old(self)@);
                    }
                }
            },
        }
        jar
    }

    /// Evicts expired sessions. Purely a memory reclamation: which sessions
    /// resolve, and to what, is unchanged.
    pub fn purge_expired(&mut self, now: u64)
        ensures
            final(self).spec_production() == old(self).spec_production(),
            forall|k: Seq<char>| #[trigger]
                final(self)@.contains_key(k) <==> live(old(self)@, k, now),
            forall|k: Seq<char>|
                final(self)@.contains_key(k) ==> #[trigger] final(self)@[k] == old(self)@[k],
    {
        proof {
            old(self).lemma_view();
        }
        self.cache.purge_expired(now);
        proof {
            self.lemma_view();
        }
    }

    /// The session-extraction step run on every authenticated request:
    /// resolves the jar's cookie to a session snapshot and, exactly when one
    /// is live, renews it to a full lifetime, so an active user's session
    /// never expires mid-use. The jar passes through unchanged.
    pub fn resolve_and_renew(&mut self, jar: CookieJar, now: u64) -> (r: (
        Option<SessionData>,
        CookieJar,
    ))
        requires
            now + SESSION_TTL <= u64::MAX,
        ensures
            r.1 == jar,
            final(self).spec_production() == old(self).spec_production(),
            match jar.session {
                None => r.0 is None && final(self)@ == old(self)@,
                Some(c) => match r.0 {
                    Some(d) => live(old(self)@, c.value@, now) && d@ == old(self)@[c.value@].0
                        && final(self)@ == old(self)@.insert(
                        c.value@,
                        (old(self)@[c.value@].0, (now + SESSION_TTL) as u64),
                    ),
                    None => !live(old(self)@, c.value@, now) && final(self)@ == old(self)@,
                },
            },
    {
        let data = self.get(&jar, now);
        match data {
            Some(d) => {
                let jar2 = self.reup(jar, now);
                (Some(d), jar2)
            },
            None => (None, jar),
        }
    }

    /// Destroys the session named by the jar's cookie and strips the cookie:
    /// the removed data comes back exactly when the id was live, and the id
    /// is dead afterwards whatever happened.
    pub fn remove(&mut self, jar: CookieJar, now: u64) -> (r: (Option<SessionData>, CookieJar))
        ensures
            r.1.session is None,
            final(self).spec_production() == old(self).spec_production(),
            match jar.session {
                None => final(self)@ == old(self)@ && r.0 is None,
                Some(c) => final(self)@ == old(self)@.remove(c.value@) && (match r.0 {
                    Some(d) => live(old(self)@, c.value@, now) && d@ == old(self)@[c.value@].0,
                    None => !live(old(self)@, c.value@, now),
                }),
            },
    {
        let mut session_data: Option<SessionData> = None;
        match &jar.session {
            None => {},
            Some(c) => {
                session_data = self.cache.remove(&c.value, now);
                proof {
                    old(self).lemma_view();
                    self.lemma_view();
                    assert(final(self)@ =~= old(self)@.remove(c.value@));
                }
            },
        }
        (session_data, CookieJar { session: None })
    }

    /// Records on the live session named by the jar that `provider` holds an
    /// open relying-party session: replace-if-present-else-append, never a
    /// duplicate record, expiry untouched. A missing or dead session is left
    /// as it is.
    pub fn add_rp_provider(&mut self, jar: &CookieJar, provider: String, now: u64)
        ensures
            final(self).spec_production() == old(self).spec_production(),
            match jar.session {
                None => final(self)@ == old(self)@,
                Some(c) => {
                    if live(old(self)@, c.value@, now) {
                        final(self)@ == old(self)@.insert(
                            c.value@,
                            (
                                add_provider_view(old(self)@[c.value@].0, provider@),
                                old(self)@[c.value@].1,
                            ),
                        )
                    } else {
                        final(self)@ == old(self)@
                    }
                },
            },
    {
        proof {
            old(self).lemma_view();
        }
        match &jar.session {
            None => {},
            Some(c) => {
                let updated = match self.cache.get(&c.value, now) {
                    Some(d) => {
                        let mut nd = d.clone();
                        nd.add_rp_providers(provider);
                        Some(nd)
                    },
                    None => None,
                };
                match updated {
                    Some(nd) => {
                        let ghost nd_view = nd@;
                        self.cache.replace_value(&c.value, nd, now);
                        proof {
                            self.lemma_view();
                            assert(final(self)@ =~= old(self)@.insert(
                                c.value@,
                                (nd_view, old(self)@[c.value@].1),
                            ));
                        }
                    },
                    None => {},
                }
            },
        }
    }
}

/// The store's map after one renewal of `sid` at time `t`, as `reup` leaves
/// it on a live session.
pub open spec fn touched(
    m: Map<Seq<char>, (SessionDataView, u64)>,
    sid: Seq<char>,
    t: u64,
) -> Map<Seq<char>, (SessionDataView, u64)> {
    m.insert(sid, (m[sid].0, (t + SESSION_TTL) as u64))
}

/// The store's map after renewals of `sid` at each time in `times`, in order.
pub open spec fn after_touches(
    m: Map<Seq<char>, (SessionDataView, u64)>,
    sid: Seq<char>,
    times: Seq<u64>,
) -> Map<Seq<char>, (SessionDataView, u64)>
    decreases times.len(),
{
    if times.len() == 0 {
        m
    } else {
        touched(after_touches(m, sid, times.drop_last()), sid, times.last())
    }
}

/// Law: sliding expiry. Renewing a session that is live at time `t` makes it
/// live at every instant strictly before `t + SESSION_TTL` and dead at every
/// instant from `t + SESSION_TTL` on, with its data untouched.
pub proof fn lemma_sliding_expiry(
    m: Map<Seq<char>, (SessionDataView, u64)>,
    sid: Seq<char>,
    t: u64,
    now: u64,
)
    requires
        live(m, sid, t),
        t + SESSION_TTL <= u64::MAX,
    ensures
        now < t + SESSION_TTL ==> live(touched(m, sid, t), sid, now),
        now >= t + SESSION_TTL ==> !live(touched(m, sid, t), sid, now),
        touched(m, sid, t)[sid].0 == m[sid].0,
{
}

/// Law: sliding expiry, iterated. A session live at the time of a first
/// renewal, renewed again and again with each renewal coming no earlier than
/// the one before and strictly within one lifetime of it, stays alive — with
/// its data untouched — through every renewal and until one full lifetime
/// after the last; once the renewals stop it is unresolvable from that
/// instant on.
pub proof fn lemma_touch_chain(
    m: Map<Seq<char>, (SessionDataView, u64)>,
    sid: Seq<char>,
    times: Seq<u64>,
    now: u64,
)
    requires
        times.len() > 0,
        live(m, sid, times[0]),
        forall|i: int| 0 <= i < times.len() ==> #[trigger] times[i] + SESSION_TTL <= u64::MAX,
        forall|i: int|
            0 < i < times.len() ==> times[i - 1] <= #[trigger] times[i] < times[i - 1]
                + SESSION_TTL,
    ensures
        now < times.last() + SESSION_TTL ==> live(after_touches(m, sid, times), sid, now),
        now >= times.last() + SESSION_TTL ==> !live(after_touches(m, sid, times), sid, now),
        after_touches(m, sid, times)[sid].0 == m[sid].0,
    decreases times.len(),
{
    if times.len() == 1 {
        assert(after_touches(m, sid, times.drop_last()) == m);
        lemma_sliding_expiry(m, sid, times[0], now);
        assert(times.last() == times[0]);
    } else {
        let rest = times.drop_last();
        assert forall|i: int| 0 <= i < rest.len() implies #[trigger] rest[i] + SESSION_TTL
            <= u64::MAX by {
            assert(rest[i] == times[i]);
        }
        assert forall|i: int| 0 < i < rest.len() implies rest[i - 1] <= #[trigger] rest[i]
            && rest[i] < rest[i - 1] + SESSION_TTL by {
            assert(rest[i] == times[i]);
            assert(rest[i - 1] == times[i - 1]);
        }
        assert(rest[0] == times[0]);
        lemma_touch_chain(m, sid, rest, times.last());
        assert(rest.last() == times[times.len() - 2]);
        assert(times.last() < rest.last() + SESSION_TTL);
        lemma_sliding_expiry(after_touches(m, sid, rest), sid, times.last(), now);
    }
}

} // verus!
