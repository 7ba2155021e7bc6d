//! The signed session cookie that marks a signed-in browser.
use crate::text::{find_char_from, str_eq, trim_bounds, trim_spec};
use crate::web::access::{public_path, session_marker};
use cookie::{Cookie, CookieJar, Key};
use vstd::prelude::*;

verus! {

/// `s[i..j]` is one of the `;`-separated parts of `s`.
pub open spec fn cookie_segment(s: Seq<char>, i: int, j: int) -> bool {
    &&& 0 <= i <= j <= s.len()
    &&& (i == 0 || s[i - 1] == ';')
    &&& (j == s.len() || s[j] == ';')
    &&& forall|k: int| i <= k < j ==> s[k] != ';'
}

/// The name and value that `cookie::Cookie::parse_encoded` reads from a text, with
/// percent-encoding decoded, or `None` where the text is no cookie.
pub uninterp spec fn cookie_pair(s: Seq<char>) -> Option<(Seq<char>, Seq<char>)>;

/// The value that a signed cookie value carries, where its signature verifies under
/// the key as `cookie::SignedJar::verify` checks it, or `None`.
pub uninterp spec fn signed_value(value: Seq<char>, key: Seq<u8>) -> Option<Seq<char>>;

/// Reads one cookie with `cookie::Cookie::parse_encoded`. The result is named, not
/// described: it is the pair the crate's parser gives for the text.
#[verifier::external_body]
fn parse_cookie(s: &str) -> (r: Option<(String, String)>)
    ensures
        match r {
            Some(p) => cookie_pair(s@) == Some((p.0@, p.1@)),
            None => cookie_pair(s@) is None,
        },
{
    match Cookie::parse_encoded(s.to_string()) {
        Ok(c) => Some((c.name().to_string(), c.value().to_string())),
        Err(_) => None,
    }
}

/// Checks a signed cookie value with `cookie::SignedJar::verify` under the key made
/// by `cookie::Key::from` from the secret, which panics on fewer than 64 bytes. The
/// check depends on the value and the key alone; what it computes (an HMAC-SHA256 in
/// base64 before the value) is named, not described.
#[verifier::external_body]
fn verify_signed(value: &str, secret: &[u8]) -> (r: Option<String>)
    requires
        secret@.len() >= 64,
    ensures
        match r {
            Some(v) => signed_value(value@, secret@) == Some(v@),
            None => signed_value(value@, secret@) is None,
        },
{
    let key = Key::from(secret);
    let jar = CookieJar::new();
    jar.signed(&key).verify(Cookie::new("session", value.to_string())).map(|c| c.value().to_string())
}

/// The text that `cookie::SignedJar::add` stores as a signed cookie's value under the
/// key (an HMAC-SHA256 of the value in base64, then the value).
pub uninterp spec fn signed_text(value: Seq<char>, key: Seq<u8>) -> Seq<char>;

/// Signs a cookie value with `cookie::SignedJar::add` under the key made by
/// `cookie::Key::from` from the secret, which panics on fewer than 64 bytes. The signed
/// text is named, not described; the crate documents that `SignedJar::verify` always
/// succeeds on what a signed jar with the same key produced, and gives back the value.
#[verifier::external_body]
fn sign_value(value: &str, secret: &[u8]) -> (r: String)
    requires
        secret@.len() >= 64,
    ensures
        r@ == signed_text(value@, secret@),
        signed_value(r@, secret@) == Some(value@),
{
    let key = Key::from(secret);
    let mut jar = CookieJar::new();
    jar.signed_mut(&key).add(Cookie::new("session", value.to_string()));
    jar.get("session").expect("just added").value().to_string()
}

/// The segment `s[i..j]` of a cookie header holds a cookie named `session`.
pub open spec fn named_session(s: Seq<char>, i: int, j: int) -> bool {
    &&& cookie_segment(s, i, j)
    &&& cookie_pair(trim_spec(s.subrange(i, j))) matches Some(p) && p.0 == "session"@
}

/// The value of the cookie in segment `s[i..j]`.
pub open spec fn segment_value(s: Seq<char>, i: int, j: int) -> Seq<char> {
    cookie_pair(trim_spec(s.subrange(i, j)))->Some_0.1
}

/// `s[i..j]` is the last segment of the header that holds a cookie named `session`.
pub open spec fn last_named_session(s: Seq<char>, i: int, j: int) -> bool {
    &&& named_session(s, i, j)
    &&& forall|i2: int, j2: int| #[trigger] named_session(s, i2, j2) ==> i2 <= i
}

/// The raw value of the session cookie of a header: a later cookie of the same name
/// replaces an earlier one, as in a `cookie::CookieJar`.
pub open spec fn session_cookie_raw(s: Seq<char>) -> Option<Seq<char>> {
    if exists|i: int, j: int| #[trigger] last_named_session(s, i, j) {
        let p = choose|i: int, j: int| #[trigger] last_named_session(s, i, j);
        Some(segment_value(s, p.0, p.1))
    } else {
        None
    }
}

/// The value of the session cookie of a header once its signature is checked.
pub open spec fn session_value(s: Seq<char>, secret: Seq<u8>) -> Option<Seq<char>> {
    match session_cookie_raw(s) {
        Some(v) => signed_value(v, secret),
        None => None,
    }
}

/// A segment ends at the first `;` after its start.
proof fn lemma_segment_end(s: Seq<char>, i: int, j: int, j2: int)
    requires
        cookie_segment(s, i, j),
        cookie_segment(s, i, j2),
    ensures
        j == j2,
{
    if j < j2 {
        assert(s[j] == ';');
    }
    if j2 < j {
        assert(s[j2] == ';');
    }
}

/// The raw value of the session cookie of a cookie header.
pub fn session_cookie(header: &str) -> (r: Option<String>)
    ensures
        match r {
            Some(v) => session_cookie_raw(header@) == Some(v@),
            None => session_cookie_raw(header@) is None,
        },
{
    let n = header.unicode_len();
    let mut start: usize = 0;
    let mut found: Option<String> = None;
    let ghost mut at: (int, int) = (0, 0);
    loop
        invariant
            n == header@.len(),
            start <= n,
            start == 0 || header@[start - 1] == ';',
            match found {
                Some(v) => {
                    &&& named_session(header@, at.0, at.1)
                    &&& at.0 < start
                    &&& segment_value(header@, at.0, at.1) == v@
                    &&& forall|i2: int, j2: int|
                        #[trigger] named_session(header@, i2, j2) && i2 < start ==> i2 <= at.0
                },
                None => forall|i2: int, j2: int|
                    #[trigger] named_session(header@, i2, j2) ==> i2 >= start,
            },
        decreases n - start,
    {
        let end = match find_char_from(header, ';', start) {
            Some(e) => e,
            None => n,
        };
        assert(cookie_segment(header@, start as int, end as int));
        let (a, b) = trim_bounds(header, start, end);
        let piece = header.substring_char(a, b);
        assert(piece@ == trim_spec(header@.subrange(start as int, end as int)));
        match parse_cookie(piece) {
            Some(p) => {
                if str_eq(p.0.as_str(), "session") {
                    found = Some(p.1);
                    proof {
                        at = (start as int, end as int);
                    }
                } else {
                    assert(!named_session(header@, start as int, end as int));
                }
            },
            None => {
                assert(!named_session(header@, start as int, end as int));
            },
        }
        proof {
            assert forall|i2: int, j2: int| #[trigger] named_session(header@, i2, j2) && i2 >= start
                implies i2 == start && j2 == end || i2 > end by {
                if i2 <= end {
                    if i2 > start {
                        assert(header@[i2 - 1] == ';');
                    }
                    assert(i2 == start);
                    lemma_segment_end(header@, start as int, end as int, j2);
                }
            }
        }
        if end == n {
            proof {
                if found is Some {
                    assert(last_named_session(header@, at.0, at.1));
                    let p = choose|i: int, j: int| #[trigger] last_named_session(header@, i, j);
                    assert(p.0 == at.0);
                    lemma_segment_end(header@, at.0, p.1, at.1);
                } else {
                    assert forall|i: int, j: int| !#[trigger] last_named_session(header@, i, j) by {
                        if last_named_session(header@, i, j) {
                            assert(named_session(header@, i, j));
                        }
                    }
                }
            }
            return found;
        }
        start = end + 1;
    }
}

/// The value of the session cookie of a cookie header, if its signature checks out
/// under the secret.
pub fn session_value_of(header: &str, secret: &[u8]) -> (r: Option<String>)
    requires
        secret@.len() >= 64,
    ensures
        match r {
            Some(v) => session_value(header@, secret@) == Some(v@),
            None => session_value(header@, secret@) is None,
        },
{
    match session_cookie(header) {
        Some(v) => verify_signed(v.as_str(), secret),
        None => None,
    }
}

/// The value of a session cookie that carries `value`, signed under the secret: a
/// header whose last session cookie has this value checks out to `value`.
pub fn sign_session(value: &str, secret: &[u8]) -> (r: String)
    requires
        secret@.len() >= 64,
    ensures
        r@ == signed_text(value@, secret@),
        signed_value(r@, secret@) == Some(value@),
        forall|h: Seq<char>|
            session_cookie_raw(h) == Some(r@) ==> #[trigger] session_value(h, secret@) == Some(value@),
{
    sign_value(value, secret)
}

/// When authentication is on, a page is shown if it is public or the request carries
/// a session cookie, signed under the secret, whose value says `authenticated`.
pub fn page_allowed(path: &str, cookie_header: Option<&str>, secret: &[u8]) -> (r: bool)
    requires
        secret@.len() >= 64,
    ensures
        r == (public_path(path@) || (cookie_header matches Some(h) && session_value(h@, secret@)
            == Some(session_marker()))),
{
    let session = match cookie_header {
        Some(h) => session_value_of(h, secret),
        None => None,
    };
    let s = match &session {
        Some(v) => Some(v.as_str()),
        None => None,
    };
    crate::web::access::ui_request_allowed(path, s)
}

} // verus!
