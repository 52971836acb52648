//! The fixed security headers attached to every response.

use vstd::prelude::*;
use vstd::string::*;

verus! {

/// The header pairs that every response carries: content-type sniffing,
/// framing, legacy XSS filtering, caching, content sources and transport
/// security are all locked down, and the server identifies itself as
/// nothing.
pub fn security_headers() -> (r: Vec<(String, String)>)
    ensures
        r@.len() == 7,
        r@[0].0@ == "X-Content-Type-Options"@ && r@[0].1@ == "nosniff"@,
        r@[1].0@ == "X-Frame-Options"@ && r@[1].1@ == "DENY"@,
        r@[2].0@ == "X-XSS-Protection"@ && r@[2].1@ == "0"@,
        r@[3].0@ == "Cache-Control"@ && r@[3].1@ == "no-store"@,
        r@[4].0@ == "Content-Security-Policy"@ && r@[4].1@
            == "default-src 'none'; frame-ancestors 'none'; sandbox"@,
        r@[5].0@ == "Strict-Transport-Security"@ && r@[5].1@ == "max-age=31536000"@,
        r@[6].0@ == "Server"@ && r@[6].1@ == ""@,
{
    let mut r: Vec<(String, String)> = Vec::new();
    r.push((String::from_str("X-Content-Type-Options"), String::from_str("nosniff")));
    r.push((String::from_str("X-Frame-Options"), String::from_str("DENY")));
    r.push((String::from_str("X-XSS-Protection"), String::from_str("0")));
    r.push((String::from_str("Cache-Control"), String::from_str("no-store")));
    r.push(
        (
            String::from_str("Content-Security-Policy"),
            String::from_str("default-src 'none'; frame-ancestors 'none'; sandbox"),
        ),
    );
    r.push((String::from_str("Strict-Transport-Security"), String::from_str("max-age=31536000")));
    r.push((String::from_str("Server"), String::from_str("")));
    r
}

} // verus!
