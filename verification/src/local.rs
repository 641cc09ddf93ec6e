//! Local (password) login: the credential gate over the bcrypt collaborator,
//! and the session it starts. Whether a password matches a stored digest is
//! the collaborator's verdict; which of session start, rejection and error
//! follows from each verdict is decided and proved here.

use vstd::prelude::*;

use crate::session::{CookieJar, SessionData, SessionDataView, SessionStore, SESSION_TTL};
use crate::token::all_alphanumeric;

verus! {

/// Why a local login or sign-up failed.
#[derive(Debug, Clone, PartialEq, Eq)]
pub enum LocalAuthError {
    /// No user with that name, login method, or password was found.
    UserNotFound,
    /// The hashing collaborator failed, with its description.
    Internal(String),
}

/// Whether bcrypt accepts `password` against the digest `hash`: a function
/// of the two strings alone.
pub uninterp spec fn bcrypt_accepts(password: Seq<char>, hash: Seq<char>) -> bool;

/// Whether bcrypt can reach a verdict at all on `password` against `hash` —
/// that the digest parses, its cost is in range, its salt decodes. Like the
/// verdict itself, a function of the two strings alone.
pub uninterp spec fn bcrypt_answers(password: Seq<char>, hash: Seq<char>) -> bool;

/// Relies on bcrypt::verify: deterministic in the password and digest —
/// the cost and salt are re-read from the digest — so both whether it
/// answers (`bcrypt_answers`) and its verdict (`bcrypt_accepts`) are
/// functions of the two strings; a malformed digest is an error, never a
/// verdict.
#[verifier::external_body]
fn bcrypt_verify(password: &String, hash: &String) -> (r: Result<bool, String>)
    ensures
        r is Ok <==> bcrypt_answers(password@, hash@),
        r matches Ok(b) ==> b == bcrypt_accepts(password@, hash@),
{
    bcrypt::verify(password, hash).map_err(|e| e.to_string())
}

/// Relies on bcrypt::hash at the default cost: a fresh digest of the
/// password under a random salt. Which digest comes back is not assumed;
/// that a fresh digest is well formed and verifies its own password is —
/// bcrypt re-reads the cost and salt from the digest and recomputes the
/// same checksum.
#[verifier::external_body]
fn bcrypt_hash(password: &String) -> (r: Result<String, String>)
    ensures
        r matches Ok(h) ==> bcrypt_answers(password@, h@) && bcrypt_accepts(password@, h@),
{
    bcrypt::hash(password, bcrypt::DEFAULT_COST).map_err(|e| e.to_string())
}

/// A fresh digest of `password` for a new local login, or the collaborator's
/// failure. A returned digest accepts the password it was made from, so the
/// sign-up-then-log-in round trip goes through.
pub fn hash_password(password: &String) -> (r: Result<String, LocalAuthError>)
    ensures
        r matches Ok(h) ==> bcrypt_answers(password@, h@) && bcrypt_accepts(password@, h@),
        r matches Err(e) ==> e is Internal,
{
    match bcrypt_hash(password) {
        Ok(h) => Ok(h),
        Err(m) => Err(LocalAuthError::Internal(m)),
    }
}

/// Turns the hashing verdict into the login result: `Ok(true)` starts a
/// session for `user_id`; `Ok(false)` means the password was wrong, and an
/// `Err` carries the failure description; neither of those touches the store.
pub fn complete_login(
    session: &mut SessionStore,
    jar: CookieJar,
    user_id: i32,
    verdict: Result<bool, String>,
    now: u64,
) -> (r: Result<CookieJar, LocalAuthError>)
    requires
        now + SESSION_TTL <= u64::MAX,
    ensures
        final(session).spec_production() == old(session).spec_production(),
        r is Ok <==> verdict == Ok::<bool, String>(true),
        r is Err ==> final(session)@ == old(session)@,
        verdict == Ok::<bool, String>(false) ==> r == Err::<CookieJar, LocalAuthError>(
            LocalAuthError::UserNotFound,
        ),
        (verdict matches Err(m) ==> r == Err::<CookieJar, LocalAuthError>(
            LocalAuthError::Internal(m),
        )),
        (r matches Ok(jar2) ==> jar2.session is Some && ({
            let c = jar2.session.unwrap();
            &&& c.value@.len() == crate::session::SESSION_ID_LEN
            &&& all_alphanumeric(c.value@)
            &&& final(session)@ == old(session)@.insert(
                c.value@,
                (
                    SessionDataView { user_id, rp_logout_providers: Seq::empty() },
                    (now + SESSION_TTL) as u64,
                ),
            )
        })),
{
    match verdict {
        Ok(true) => {
            let data = SessionData::new(user_id);
            let jar2 = session.insert(data, jar, now);
            Ok(jar2)
        },
        Ok(false) => Err(LocalAuthError::UserNotFound),
        Err(m) => Err(LocalAuthError::Internal(m)),
    }
}

/// Local login once the directory has answered: no matching user or stored
/// digest is "user not found"; otherwise the password is verified against
/// the digest, and a session starts exactly when bcrypt reaches a verdict
/// and accepts it — a rejected password is "user not found", an
/// unverifiable digest the collaborator's failure. On any failure the store
/// is untouched.
pub fn login(
    session: &mut SessionStore,
    jar: CookieJar,
    credentials: Option<(i32, String)>,
    password: &String,
    now: u64,
) -> (r: Result<CookieJar, LocalAuthError>)
    requires
        now + SESSION_TTL <= u64::MAX,
    ensures
        final(session).spec_production() == old(session).spec_production(),
        credentials is None ==> r == Err::<CookieJar, LocalAuthError>(
            LocalAuthError::UserNotFound,
        ) && final(session)@ == old(session)@,
        r is Err ==> final(session)@ == old(session)@,
        (credentials matches Some((uid, hash)) ==> {
            &&& (r is Ok <==> bcrypt_answers(password@, hash@) && bcrypt_accepts(
                password@,
                hash@,
            ))
            &&& (bcrypt_answers(password@, hash@) && !bcrypt_accepts(password@, hash@) ==> r
                == Err::<CookieJar, LocalAuthError>(LocalAuthError::UserNotFound))
            &&& (!bcrypt_answers(password@, hash@) ==> r is Err && (r matches Err(e) ==> e
                is Internal))
            &&& (r matches Ok(jar2) ==> jar2.session is Some && ({
                let c = jar2.session.unwrap();
                &&& c.value@.len() == crate::session::SESSION_ID_LEN
                &&& all_alphanumeric(c.value@)
                &&& final(session)@ == old(session)@.insert(
                    c.value@,
                    (
                        SessionDataView { user_id: uid, rp_logout_providers: Seq::empty() },
                        (now + SESSION_TTL) as u64,
                    ),
                )
            }))
        }),
{
    match credentials {
        None => Err(LocalAuthError::UserNotFound),
        Some((user_id, hash)) => {
            let verdict = bcrypt_verify(password, &hash);
            complete_login(session, jar, user_id, verdict, now)
        },
    }
}

} // verus!
