use vstd::prelude::*;

use crate::text::{ends_with, has_suffix, str_eq};

verus! {

/// Browser origins that may call the HTTP API: the local dashboard, the
/// public site over HTTP or HTTPS, and any of its subdomains.
pub open spec fn origin_is_allowed(origin: Seq<char>) -> bool {
    ||| origin == "http://127.0.0.1:5173"@
    ||| origin == "http://localhost:5173"@
    ||| origin == "https://williamtekpeh.com"@
    ||| origin == "http://williamtekpeh.com"@
    ||| has_suffix(origin, ".williamtekpeh.com"@)
}

/// Decides whether a request from `origin` receives CORS headers.
pub fn is_allowed_origin(origin: &str) -> (allowed: bool)
    ensures
        allowed == origin_is_allowed(origin@),
{
    str_eq(origin, "http://127.0.0.1:5173") || str_eq(origin, "http://localhost:5173") || str_eq(
        origin,
        "https://williamtekpeh.com",
    ) || str_eq(origin, "http://williamtekpeh.com") || ends_with(origin, ".williamtekpeh.com")
}

} // verus!
