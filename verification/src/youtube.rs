//! YouTube upload settings read from the environment: which client
//! credentials count as configured, and the default OAuth redirect.
use crate::text::{chars_of, contains, contains_exec, occurs_at, occurs_at_exec, owned};
use vstd::prelude::*;

verus! {

/// `s` ends with `p`.
pub open spec fn ends_with(s: Seq<char>, p: Seq<char>) -> bool {
    p.len() <= s.len() && occurs_at(s, p, s.len() - p.len())
}

/// A client id is configured: not empty, not the `your-client-id`
/// placeholder, and a Google OAuth client id (`.apps.googleusercontent.com`).
pub open spec fn client_id_configured(v: Seq<char>) -> bool {
    v.len() > 0 && !contains(v, "your-client-id"@) && ends_with(v, ".apps.googleusercontent.com"@)
}

/// A client secret is configured: not empty and not the `your-client-secret`
/// placeholder.
pub open spec fn client_secret_configured(v: Seq<char>) -> bool {
    v.len() > 0 && !contains(v, "your-client-secret"@)
}

/// Whether a `YOUTUBE_CLIENT_ID` value counts as configured.
pub fn client_id_usable(v: &str) -> (r: bool)
    ensures
        r == client_id_configured(v@),
{
    let c = chars_of(v);
    if c.len() == 0 {
        return false;
    }
    let placeholder = chars_of("your-client-id");
    if contains_exec(c.as_slice(), placeholder.as_slice()) {
        return false;
    }
    let suffix = chars_of(".apps.googleusercontent.com");
    if suffix.len() > c.len() {
        return false;
    }
    occurs_at_exec(c.as_slice(), suffix.as_slice(), c.len() - suffix.len())
}

/// Whether a `YOUTUBE_CLIENT_SECRET` value counts as configured.
pub fn client_secret_usable(v: &str) -> (r: bool)
    ensures
        r == client_secret_configured(v@),
{
    let c = chars_of(v);
    if c.len() == 0 {
        return false;
    }
    let placeholder = chars_of("your-client-secret");
    !contains_exec(c.as_slice(), placeholder.as_slice())
}

/// The OAuth redirect URI: the `YOUTUBE_REDIRECT_URI` value when set, else
/// `http://localhost:8080/oauth2/callback`.
pub fn redirect_uri(v: Option<String>) -> (r: String)
    ensures
        r@ == (match v {
            Some(s) => s@,
            None => "http://localhost:8080/oauth2/callback"@,
        }),
{
    match v {
        Some(s) => s,
        None => owned("http://localhost:8080/oauth2/callback"),
    }
}

} // verus!
