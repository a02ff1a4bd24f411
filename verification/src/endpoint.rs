//! Endpoint normalization.
//!
//! The directory service hands out endpoints that may carry a leading
//! secure-websocket scheme prefix; the voice engine wants the bare
//! `host[:port]` form. Normalization strips that leading prefix, once,
//! and leaves every other endpoint unchanged.

use vstd::prelude::*;
use vstd::string::StrSliceExecFns;

verus! {

/// The secure-websocket scheme prefix, as a character sequence.
pub open spec fn wss_prefix() -> Seq<char> {
    seq!['w', 's', 's', ':', '/', '/']
}

/// Whether an endpoint starts with the secure-websocket scheme prefix.
pub open spec fn has_wss_prefix(e: Seq<char>) -> bool {
    e.len() >= 6 && e.subrange(0, 6) == wss_prefix()
}

/// What normalization returns: the endpoint with a leading scheme prefix
/// stripped, or the endpoint itself when no such prefix leads it.
pub open spec fn spec_normalize_endpoint(e: Seq<char>) -> Seq<char> {
    if has_wss_prefix(e) {
        e.subrange(6, e.len() as int)
    } else {
        e
    }
}

/// Strips a leading secure-websocket scheme prefix from an endpoint.
pub fn normalize_endpoint(endpoint: &str) -> (r: String)
    ensures
        r@ == spec_normalize_endpoint(endpoint@),
{
    let n = endpoint.unicode_len();
    let prefixed = n >= 6 && endpoint.get_char(0) == 'w' && endpoint.get_char(1) == 's'
        && endpoint.get_char(2) == 's' && endpoint.get_char(3) == ':'
        && endpoint.get_char(4) == '/' && endpoint.get_char(5) == '/';
    if prefixed {
        proof {
            assert(endpoint@.subrange(0, 6) =~= wss_prefix());
        }
        let rest = endpoint.substring_char(6, n);
        rest.to_owned()
    } else {
        proof {
            if has_wss_prefix(endpoint@) {
                assert(endpoint@.subrange(0, 6) =~= wss_prefix());
                assert(endpoint@[0] == 'w');
                assert(endpoint@[1] == 's');
                assert(endpoint@[2] == 's');
                assert(endpoint@[3] == ':');
                assert(endpoint@[4] == '/');
                assert(endpoint@[5] == '/');
            }
        }
        endpoint.to_owned()
    }
}

/// A prefixed endpoint and its bare form normalize to the identical outgoing
/// endpoint: for any endpoint that does not itself start with the scheme
/// prefix, prepending the prefix and normalizing gives the same result as
/// normalizing the bare endpoint.
pub proof fn lemma_normalize_agrees_on_prefixed_form(e: Seq<char>)
    requires
        !has_wss_prefix(e),
    ensures
        spec_normalize_endpoint(wss_prefix() + e) == spec_normalize_endpoint(e),
{
    let p = wss_prefix() + e;
    assert(p.subrange(0, 6) =~= wss_prefix());
    assert(p.subrange(6, p.len() as int) =~= e);
}

/// Normalization is idempotent on endpoints that carry at most one leading
/// scheme prefix: a normalized endpoint that no longer starts with the prefix
/// normalizes to itself.
pub proof fn lemma_normalize_bare_is_identity(e: Seq<char>)
    requires
        !has_wss_prefix(e),
    ensures
        spec_normalize_endpoint(e) == e,
{
}

} // verus!
