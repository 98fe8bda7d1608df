//! The per-request guard: extract a token from the request's cookie or
//! bearer header, verify it, and decide — before any handler runs — whether
//! the request may proceed.
//!
//! The decision is a value; the HTTP plumbing around it lives outside the
//! crate and must follow it literally: forward exactly when told to.

use vstd::prelude::*;
use crate::tokens::{spec_verify, AuthService, Claims, TokenCheck};

verus! {

/// A text with every occurrence of `"Bearer "` removed, scanning left to
/// right.
pub open spec fn remove_bearer(s: Seq<char>) -> Seq<char>
    decreases s.len(),
{
    if s.len() >= 7 && s.take(7) == "Bearer "@ {
        remove_bearer(s.skip(7))
    } else if s.len() == 0 {
        Seq::empty()
    } else {
        seq![s[0]] + remove_bearer(s.skip(1))
    }
}

/// Whether `"Bearer "` stands at position `i` of `value`.
fn bearer_at(value: &str, i: usize, n: usize) -> (r: bool)
    requires
        n == value@.len(),
        i < n,
    ensures
        r == (value@.skip(i as int).len() >= 7 && value@.skip(i as int).take(7) == "Bearer "@),
{
    proof {
        reveal_strlit("Bearer ");
    }
    if n - i < 7 {
        return false;
    }
    let hit = value.get_char(i) == 'B' && value.get_char(i + 1) == 'e' && value.get_char(i + 2)
        == 'a' && value.get_char(i + 3) == 'r' && value.get_char(i + 4) == 'e' && value.get_char(
        i + 5,
    ) == 'r' && value.get_char(i + 6) == ' ';
    proof {
        if hit {
            assert(value@.skip(i as int).take(7) =~= "Bearer "@);
        } else {
            assert(value@.skip(i as int).take(7) != "Bearer "@) by {
                if value@.skip(i as int).take(7) == "Bearer "@ {
                    assert(value@.skip(i as int).take(7)[0] == value@[i as int]);
                    assert(value@.skip(i as int).take(7)[1] == value@[i as int + 1]);
                    assert(value@.skip(i as int).take(7)[2] == value@[i as int + 2]);
                    assert(value@.skip(i as int).take(7)[3] == value@[i as int + 3]);
                    assert(value@.skip(i as int).take(7)[4] == value@[i as int + 4]);
                    assert(value@.skip(i as int).take(7)[5] == value@[i as int + 5]);
                    assert(value@.skip(i as int).take(7)[6] == value@[i as int + 6]);
                }
            }
        }
    }
    hit
}

/// Remove every `"Bearer "` occurrence from a header value, as
/// `str::replace` would.
fn replace_bearer(value: &str) -> (r: String)
    ensures
        r@ == remove_bearer(value@),
{
    let n = value.unicode_len();
    let mut out = String::new();
    let mut i: usize = 0;
    proof {
        assert(value@.skip(0) =~= value@);
        assert(out@ + remove_bearer(value@) =~= remove_bearer(value@));
    }
    while i < n
        invariant
            n == value@.len(),
            0 <= i <= n,
            out@ + remove_bearer(value@.skip(i as int)) == remove_bearer(value@),
        decreases n - i,
    {
        if bearer_at(value, i, n) {
            proof {
                assert(value@.skip(i as int).skip(7) =~= value@.skip(i as int + 7));
            }
            i = i + 7;
        } else {
            let one = value.substring_char(i, i + 1);
            out.append(one);
            proof {
                assert(value@.skip(i as int).len() > 0);
                assert(value@.skip(i as int)[0] == value@[i as int]);
                assert(one@ =~= seq![value@[i as int]]);
                assert(value@.skip(i as int).skip(1) =~= value@.skip(i as int + 1));
                assert(remove_bearer(value@.skip(i as int)) == seq![value@[i as int]]
                    + remove_bearer(value@.skip(i as int + 1)));
                assert(out@ + remove_bearer(value@.skip(i as int + 1)) == remove_bearer(value@));
            }
            i = i + 1;
        }
    }
    proof {
        assert(value@.skip(n as int) =~= Seq::<char>::empty());
        assert(out@ + Seq::<char>::empty() =~= out@);
    }
    out
}

/// Where the guard looks for a token: the `access_token` cookie first, then
/// the `Authorization` header with every `"Bearer "` marker removed.
pub open spec fn spec_extract_token(
    cookie: Option<Seq<char>>,
    header: Option<Seq<char>>,
) -> Option<Seq<char>> {
    match cookie {
        Some(c) => Some(c),
        None => match header {
            Some(h) => Some(remove_bearer(h)),
            None => None,
        },
    }
}

impl AuthService {
    /// Pick the token a request carries, if any: the value of the
    /// `access_token` cookie when that cookie is present, else the
    /// `Authorization` header value stripped of its bearer marker.
    pub fn extract_token_impl(
        access_cookie: Option<&String>,
        authorization_header: Option<&String>,
    ) -> (r: Option<String>)
        ensures
            match spec_extract_token(
                match access_cookie {
                    Some(c) => Some(c@),
                    None => None,
                },
                match authorization_header {
                    Some(h) => Some(h@),
                    None => None,
                },
            ) {
                Some(t) => r matches Some(rt) && rt@ == t,
                None => r is None,
            },
    {
        match access_cookie {
            Some(cookie_value) => Some(cookie_value.clone()),
            None => match authorization_header {
                Some(header_value) => Some(replace_bearer(header_value.as_str())),
                None => None,
            },
        }
    }
}

/// What the guard decides for one request: hand the decoded identity to the
/// handler, or answer unauthorized with the given text and never invoke it.
#[derive(Debug)]
pub enum GuardDecision {
    Forward(Claims),
    Reject(String),
}

/// Decide one guarded request at the given instant. A request carrying no
/// token in either place is rejected outright — the handler is never to be
/// invoked — with the missing-token text. A carried token is verified
/// against the access secret; the expired and invalid cases, distinct
/// inside the crate, are answered with one and the same text.
pub fn guard_request(
    service: &AuthService,
    access_cookie: Option<&String>,
    authorization_header: Option<&String>,
    now: usize,
) -> (d: GuardDecision)
    ensures
        access_cookie is None && authorization_header is None ==> (d matches GuardDecision::Reject(m) && m@
            == "Authorization token missing"@),
        match spec_extract_token(
            match access_cookie {
                Some(c) => Some(c@),
                None => None,
            },
            match authorization_header {
                Some(h) => Some(h@),
                None => None,
            },
        ) {
            Some(t) => match spec_verify(service.access_secret(), t, now as int) {
                TokenCheck::Valid(c) => d matches GuardDecision::Forward(claims) && claims@ == c,
                TokenCheck::Expired(_) => d matches GuardDecision::Reject(m) && m@ == "Invalid or expired token"@,
                TokenCheck::Invalid => d matches GuardDecision::Reject(m) && m@ == "Invalid or expired token"@,
            },
            None => d matches GuardDecision::Reject(m) && m@ == "Authorization token missing"@,
        },
{
    match AuthService::extract_token_impl(access_cookie, authorization_header) {
        Some(token) => match service.verify_token_at(token.as_str(), now) {
            Ok(claims) => GuardDecision::Forward(claims),
            Err(_) => GuardDecision::Reject(String::from_str("Invalid or expired token")),
        },
        None => GuardDecision::Reject(String::from_str("Authorization token missing")),
    }
}

} // verus!
