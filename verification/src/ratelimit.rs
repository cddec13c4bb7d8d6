//! The rate-limiter key extractor, run once per request ahead of dispatch.
//!
//! Serving a request that the collaborator's cache already holds imposes no
//! upstream load, so such a request is keyed by a fixed exempt key that the
//! limiter whitelists. Every other request is keyed by its caller's network
//! address, and is rejected outright when no address is obtainable.

use vstd::prelude::*;
use vstd::string::StrSliceExecFns;

verus! {

/// The fixed key under which a request is never throttled: the empty string.
pub open spec fn exempt_key_view() -> Seq<char> {
    Seq::<char>::empty()
}

/// The cause rejecting a request whose caller address cannot be determined.
pub open spec fn no_address_cause() -> Seq<char> {
    "Could not extract peer IP address from request"@
}

/// The keys the limiter never throttles: exactly the exempt key.
pub open spec fn whitelist_view() -> Seq<Seq<char>> {
    seq![exempt_key_view()]
}

/// What key extraction decides, from the collaborator's cache answer for the
/// exact request and the caller's address: a cached request gets the exempt
/// key whatever its caller; an uncached one is keyed by the caller's address,
/// and rejected when there is none.
pub open spec fn extract_decision(
    cached: bool,
    peer_addr: Option<String>,
    r: Result<String, String>,
) -> bool {
    if cached {
        r matches Ok(k) && k@ == exempt_key_view()
    } else {
        match peer_addr {
            Some(addr) => r == Ok::<String, String>(addr),
            None => r matches Err(c) && c@ == no_address_cause(),
        }
    }
}

/// Derives the limiter key for one request.
///
/// `cached` is the collaborator's answer on whether the exact request — path
/// and query parameters — is presently served from its cache; `peer_addr` is
/// the caller's source address, printed, where one is obtainable. An `Err`
/// rejects the request before any handler runs.
pub struct CachingKeyExtractor;

impl CachingKeyExtractor {
    pub fn extract(&self, cached: bool, peer_addr: Option<String>) -> (r: Result<String, String>)
        ensures
            extract_decision(cached, peer_addr, r),
    {
        if cached {
            return Ok(String::new());
        }
        match peer_addr {
            Some(addr) => Ok(addr),
            None => Err("Could not extract peer IP address from request".to_owned()),
        }
    }

    /// The keys the limiter never throttles.
    pub fn whitelisted_keys(&self) -> (r: Vec<String>)
        ensures
            r@.len() == whitelist_view().len(),
            forall|i: int| 0 <= i < r@.len() ==> #[trigger] r@[i]@ == whitelist_view()[i],
    {
        let mut keys: Vec<String> = Vec::new();
        keys.push(String::new());
        keys
    }
}

/// The path a request is probed in the cache under: the request path with its
/// leading segment separator stripped.
pub fn cache_probe_path(path: &String) -> (r: String)
    requires
        path@.len() >= 1,
    ensures
        r@ == path@.subrange(1, path@.len() as int),
{
    let n = path.as_str().unicode_len();
    path.as_str().substring_char(1, n).to_owned()
}

/// Cache-exemption idempotence: while the collaborator reports a request as
/// cached, every extraction for it — whatever the caller's address, however
/// often repeated — yields the exempt key, and the whitelist holds that key.
pub proof fn lemma_cached_requests_exempt(
    r1: Result<String, String>,
    peer1: Option<String>,
    r2: Result<String, String>,
    peer2: Option<String>,
)
    requires
        extract_decision(true, peer1, r1),
        extract_decision(true, peer2, r2),
    ensures
        r1 matches Ok(k) && k@ == exempt_key_view(),
        r2 matches Ok(k) && k@ == exempt_key_view(),
        whitelist_view().contains(exempt_key_view()),
{
    assert(whitelist_view()[0] == exempt_key_view());
}

} // verus!
