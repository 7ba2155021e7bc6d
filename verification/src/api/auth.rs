//! Who may call the JSON API.
use crate::config::AuthMode;
use crate::text::str_eq;
use crate::web::access::session_marker;
use crate::web::session::{session_value, session_value_of};
use vstd::prelude::*;

verus! {

/// An API request is served when authentication is off, when it carries a session
/// cookie, signed under the secret, that says `authenticated`, or when its
/// `Authorization` header is `Bearer` and the configured API token.
pub open spec fn api_allowed_spec(
    cookie: Option<Seq<char>>,
    authorization: Option<Seq<char>>,
    api_token: Option<Seq<char>>,
    mode: AuthMode,
    secret: Seq<u8>,
) -> bool {
    ||| mode == AuthMode::Disabled
    ||| (cookie matches Some(c) && session_value(c, secret) == Some(session_marker()))
    ||| (authorization matches Some(a) && api_token matches Some(t) && a == "Bearer "@ + t)
}

pub open spec fn opt_seq(o: Option<&str>) -> Option<Seq<char>> {
    match o {
        Some(s) => Some(s@),
        None => None,
    }
}

/// Decides whether an API request is served, from its readable `Cookie` and
/// `Authorization` headers.
pub fn api_request_allowed(
    cookie: Option<&str>,
    authorization: Option<&str>,
    api_token: Option<&str>,
    mode: AuthMode,
    secret: &[u8],
) -> (r: bool)
    requires
        secret@.len() >= 64,
    ensures
        r == api_allowed_spec(opt_seq(cookie), opt_seq(authorization), opt_seq(api_token), mode, secret@),
{
    let mut ui_ok = false;
    let mut api_ok = false;
    if let Some(c) = cookie {
        ui_ok = match session_value_of(c, secret) {
            Some(v) => str_eq(v.as_str(), "authenticated"),
            None => false,
        };
    }
    if let Some(a) = authorization {
        if let Some(t) = api_token {
            let expected = String::from_str("Bearer ").concat(t);
            if str_eq(a, expected.as_str()) {
                api_ok = true;
            }
        }
    }
    if mode == AuthMode::Disabled {
        api_ok = true;
        ui_ok = true;
    }
    ui_ok || api_ok
}

} // verus!
