//! Lookup by provider name in a registry built once at startup: a list of
//! `(name, record)` pairs read in configuration order, first match winning;
//! and the redirect-URL validity check that decides whether a configured
//! provider can be registered at all.

use vstd::prelude::*;

verus! {

/// Whether `s` parses as a redirect URL: a function of the string alone.
pub uninterp spec fn valid_redirect(s: Seq<char>) -> bool;

/// Relies on oauth2::RedirectUrl::new, which is a plain `url::Url` parse of
/// the string: whether `s` is a well-formed redirect URL, deterministic in
/// the string alone.
#[verifier::external_body]
pub(crate) fn redirect_url_is_valid(s: &String) -> (r: bool)
    ensures
        r == valid_redirect(s@),
{
    oauth2::RedirectUrl::new(s.clone()).is_ok()
}

/// The position of the first pair named `k`, or `s.len()` if none is.
pub open spec fn key_idx<T>(s: Seq<(String, T)>, k: Seq<char>) -> int
    decreases s.len(),
{
    if s.len() == 0 {
        0
    } else if s[0].0@ == k {
        0
    } else {
        1 + key_idx(s.subrange(1, s.len() as int), k)
    }
}

/// Whether some pair of `s` is named `k`.
pub open spec fn has_provider<T>(s: Seq<(String, T)>, k: Seq<char>) -> bool {
    key_idx(s, k) < s.len()
}

/// `key_idx` points at the first pair with the given name.
pub proof fn lemma_key_idx<T>(s: Seq<(String, T)>, k: Seq<char>)
    ensures
        0 <= key_idx(s, k) <= s.len(),
        key_idx(s, k) < s.len() ==> s[key_idx(s, k)].0@ == k,
        forall|j: int| 0 <= j < key_idx(s, k) ==> s[j].0@ != k,
    decreases s.len(),
{
    if s.len() == 0 {
    } else if s[0].0@ == k {
    } else {
        let rest = s.subrange(1, s.len() as int);
        lemma_key_idx(rest, k);
        assert forall|j: int| 0 <= j < key_idx(s, k) implies s[j].0@ != k by {
            if j > 0 {
                assert(s[j] == rest[j - 1]);
            }
        }
    }
}

} // verus!
