//! Transport addressing: where the sealed query is sent. With a proxy
//! configured the request goes to the proxy, which learns the true
//! target only through explicit query parameters and cannot decrypt
//! the body; without one it goes directly to the target, which then
//! sees the client's address.

use vstd::prelude::*;

use crate::OdohError;

verus! {

/// The target address normalized to its query endpoint: the address
/// parsed as a URL with its path replaced by `path`, re-serialized,
/// paired with the URL's host. `None` when the address does not parse
/// as a URL or the URL has no host. A function of the two strings
/// alone.
pub uninterp spec fn url_endpoint(s: Seq<char>, path: Seq<char>) -> Option<(Seq<char>, Seq<char>)>;

/// A URL string normalized by parsing and re-serializing it; `None`
/// when it does not parse. A function of the string alone.
pub uninterp spec fn url_normalized(s: Seq<char>) -> Option<Seq<char>>;

/// Relies on url's `Url::parse`, `Url::set_path`, `Url::host_str` and
/// `Url::as_str`: parsing a URL, replacing its path and reading its
/// host and string form are functions of the two strings alone.
#[verifier::external_body]
pub(crate) fn target_endpoint(s: &str, path: &str) -> (r: Option<(String, String)>)
    ensures
        r is Some <==> url_endpoint(s@, path@) is Some,
        r is Some ==> r.unwrap().0@ == url_endpoint(s@, path@).unwrap().0,
        r is Some ==> r.unwrap().1@ == url_endpoint(s@, path@).unwrap().1,
{
    let mut u = match url::Url::parse(s) {
        Ok(u) => u,
        Err(_) => return None,
    };
    u.set_path(path);
    let host = match u.host_str() {
        Some(h) => h.to_string(),
        None => return None,
    };
    Some((u.as_str().to_string(), host))
}

/// Relies on url's `Url::parse` and `Url::as_str`: both are functions
/// of the string alone.
#[verifier::external_body]
pub(crate) fn normalize_url(s: &str) -> (r: Option<String>)
    ensures
        r is Some <==> url_normalized(s@) is Some,
        r is Some ==> r.unwrap()@ == url_normalized(s@).unwrap(),
{
    match url::Url::parse(s) {
        Ok(u) => Some(u.as_str().to_string()),
        Err(_) => None,
    }
}

/// Gates the discovery fetch: a successful HTTP status hands the
/// payload on; any other status is a discovery failure.
pub fn accept_discovery(status: u16, payload: Vec<u8>) -> (r: Result<Vec<u8>, OdohError>)
    ensures
        match r {
            Ok(p) => 200 <= status < 300 && p@ == payload@,
            Err(e) => !(200 <= status < 300) && e == OdohError::Discovery,
        },
{
    if status < 200 || status >= 300 {
        return Err(OdohError::Discovery);
    }
    Ok(payload)
}

/// One planned transport request for a sealed query.
#[derive(Debug)]
pub struct RequestPlan {
    /// The URL the HTTP POST goes to: the proxy when one is
    /// configured, else the target's query endpoint.
    pub destination: String,
    /// The `targethost` and `targetpath` query parameters naming the
    /// true target; present exactly when the request is proxied.
    pub target_params: Option<(String, String)>,
    /// `Content-Type` and `Accept` value: the ODoH media type.
    pub media_type: String,
    /// `Cache-Control` value: responses are per-query and must never
    /// be cached or replayed.
    pub cache_control: String,
}

} // verus!
