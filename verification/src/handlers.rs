//! The compute half of the session routes: what cookies each route sets or
//! clears, and what each route answers for every input. The HTTP framing
//! around these values lives outside the crate.

use vstd::prelude::*;
use crate::errors::ApiError;
use crate::text::{parse_bool, str_eq};
use crate::tokens::{spec_verify, AuthService, Claims, TokenCheck, TokenResponseDto};

verus! {

/// Body of the login route.
#[derive(Debug)]
pub struct LoginRequest {
    pub code: String,
}

/// Confirmation body returned when tokens were set as cookies.
#[derive(Debug)]
pub struct AuthResponseMessage {
    pub message: String,
    pub tokens_in_cookies: bool,
}

/// The confirmation the login and refresh routes answer with.
pub fn auth_success_message() -> (m: AuthResponseMessage)
    ensures
        m.message@ == "Authentication successful. Tokens are stored in cookies."@,
        m.tokens_in_cookies == true,
{
    AuthResponseMessage {
        message: String::from_str("Authentication successful. Tokens are stored in cookies."),
        tokens_in_cookies: true,
    }
}

/// The `SameSite` attribute of a session cookie.
#[derive(Debug, Clone, Copy, PartialEq, Eq, Structural)]
pub enum SameSite {
    Strict,
    Lax,
    /// Stands for the `SameSite=None` attribute.
    NoneSite,
}

/// The configuration-driven attributes of the two session cookies.
#[derive(Debug)]
pub struct CookieSettings {
    pub http_only: bool,
    pub secure: bool,
    pub same_site: SameSite,
}

/// What a raw boolean cookie setting yields: itself when it reads as a
/// boolean, true — the secure default — otherwise.
pub open spec fn spec_flag(raw: Option<Seq<char>>) -> bool {
    match raw {
        Some(s) => if s == "false"@ {
            false
        } else {
            true
        },
        None => true,
    }
}

/// What a raw same-site setting yields: `Strict` and `None` by name, `Lax`
/// for everything else and by default.
pub open spec fn spec_same_site(raw: Option<Seq<char>>) -> SameSite {
    match raw {
        Some(s) => if s == "Strict"@ {
            SameSite::Strict
        } else if s == "None"@ {
            SameSite::NoneSite
        } else {
            SameSite::Lax
        },
        None => SameSite::Lax,
    }
}

impl CookieSettings {
    /// Build the cookie attributes from the raw environment values:
    /// `httpOnly` and `secure` default to true, `sameSite` to `Lax`.
    pub fn from_env_values(
        http_only: Option<&String>,
        secure: Option<&String>,
        same_site: Option<&String>,
    ) -> (c: CookieSettings)
        ensures
            c.http_only == spec_flag(
                match http_only {
                    Some(s) => Some(s@),
                    None => None,
                },
            ),
            c.secure == spec_flag(
                match secure {
                    Some(s) => Some(s@),
                    None => None,
                },
            ),
            c.same_site == spec_same_site(
                match same_site {
                    Some(s) => Some(s@),
                    None => None,
                },
            ),
    {
        proof {
            reveal_strlit("true");
            reveal_strlit("false");
            assert("true"@.len() != "false"@.len());
            assert("true"@ != "false"@);
        }
        let http_only = match http_only {
            Some(s) => match parse_bool(s.as_str()) {
                Some(b) => b,
                None => true,
            },
            None => true,
        };
        let secure = match secure {
            Some(s) => match parse_bool(s.as_str()) {
                Some(b) => b,
                None => true,
            },
            None => true,
        };
        let same_site = match same_site {
            Some(s) => {
                if str_eq(s.as_str(), "Strict") {
                    SameSite::Strict
                } else if str_eq(s.as_str(), "None") {
                    SameSite::NoneSite
                } else {
                    SameSite::Lax
                }
            },
            None => SameSite::Lax,
        };
        CookieSettings { http_only, secure, same_site }
    }
}

/// Everything one Set-Cookie answer carries: name, value, the flag
/// attributes, the path, and — for a clearing cookie — a negative max-age.
#[derive(Debug)]
pub struct CookieSpec {
    pub name: String,
    pub value: String,
    pub http_only: bool,
    pub secure: bool,
    pub same_site: Option<SameSite>,
    pub path: String,
    pub max_age_secs: Option<i64>,
}

/// The session cookie carrying `value` under `name` with the configured
/// attributes, on the root path, without a max-age.
pub open spec fn spec_session_cookie(
    c: CookieSpec,
    name: Seq<char>,
    value: Seq<char>,
    settings: CookieSettings,
) -> bool {
    &&& c.name@ == name
    &&& c.value@ == value
    &&& c.http_only == settings.http_only
    &&& c.secure == settings.secure
    &&& c.same_site == Some(settings.same_site)
    &&& c.path@ == "/"@
    &&& c.max_age_secs is None
}

fn session_cookie(name: &str, value: &String, settings: &CookieSettings) -> (c: CookieSpec)
    ensures
        spec_session_cookie(c, name@, value@, *settings),
{
    CookieSpec {
        name: String::from_str(name),
        value: value.clone(),
        http_only: settings.http_only,
        secure: settings.secure,
        same_site: Some(settings.same_site),
        path: String::from_str("/"),
        max_age_secs: None,
    }
}

/// The two cookies a successful login or refresh sets: `access_token` and
/// `refresh_token`, each carrying its artifact under the configured
/// attributes.
pub fn session_cookies(tokens: &TokenResponseDto, settings: &CookieSettings) -> (r: (
    CookieSpec,
    CookieSpec,
))
    ensures
        spec_session_cookie(r.0, "access_token"@, tokens.access_token@, *settings),
        spec_session_cookie(r.1, "refresh_token"@, tokens.refresh_token@, *settings),
{
    (
        session_cookie("access_token", &tokens.access_token, settings),
        session_cookie("refresh_token", &tokens.refresh_token, settings),
    )
}

/// The cookie that clears `name`: empty value, hardened attributes, and a
/// negative max-age so the client drops it at once.
pub open spec fn spec_clearing_cookie(c: CookieSpec, name: Seq<char>) -> bool {
    &&& c.name@ == name
    &&& c.value@ == Seq::<char>::empty()
    &&& c.http_only == true
    &&& c.secure == true
    &&& c.same_site is None
    &&& c.path@ == "/"@
    &&& c.max_age_secs == Some(-1i64)
}

fn clearing_cookie(name: &str) -> (c: CookieSpec)
    ensures
        spec_clearing_cookie(c, name@),
{
    CookieSpec {
        name: String::from_str(name),
        value: String::new(),
        http_only: true,
        secure: true,
        same_site: None,
        path: String::from_str("/"),
        max_age_secs: Some(-1),
    }
}

/// What logout answers, unconditionally: both session cookies cleared.
pub fn logout_cookies() -> (r: (CookieSpec, CookieSpec))
    ensures
        spec_clearing_cookie(r.0, "access_token"@),
        spec_clearing_cookie(r.1, "refresh_token"@),
{
    (clearing_cookie("access_token"), clearing_cookie("refresh_token"))
}

/// What the refresh route answers at the given instant. A missing
/// `refresh_token` cookie is an invalid-token error naming it; a cookie
/// that does not refresh — invalid or expired alike — is answered with one
/// fixed failure text; a valid one yields the rotated pair and its two
/// session cookies.
pub fn refresh_request_at(
    service: &AuthService,
    refresh_cookie: Option<&String>,
    settings: &CookieSettings,
    now: usize,
) -> (r: Result<(TokenResponseDto, CookieSpec, CookieSpec), ApiError>)
    requires
        now + service.access_ttl() <= usize::MAX,
        now + service.refresh_ttl() <= usize::MAX,
    ensures
        match refresh_cookie {
            None => r matches Err(e) && (e matches ApiError::InvalidToken(m) && m@
                == "No refresh token cookie"@),
            Some(cookie) => match spec_verify(
                service.refresh_secret(),
                cookie@,
                now as int,
            ) {
                TokenCheck::Valid(c) => r matches Ok(out) && {
                    &&& service.minted_pair_properties(out.0@, c.id, c.name, now as int)
                    &&& spec_session_cookie(out.1, "access_token"@, out.0.access_token@, *settings)
                    &&& spec_session_cookie(out.2, "refresh_token"@, out.0.refresh_token@, *settings)
                },
                TokenCheck::Expired(_) => r matches Err(e) && (e matches ApiError::InvalidToken(m)
                    && m@ == "Failed to refresh tokens"@),
                TokenCheck::Invalid => r matches Err(e) && (e matches ApiError::InvalidToken(m)
                    && m@ == "Failed to refresh tokens"@),
            },
        },
{
    let cookie = match refresh_cookie {
        Some(cookie) => cookie,
        None => {
            return Err(ApiError::InvalidToken(String::from_str("No refresh token cookie")));
        },
    };
    match service.refresh_tokens_at(cookie.as_str(), now) {
        Ok(tokens) => {
            let (access_cookie, refresh_cookie) = session_cookies(&tokens, settings);
            Ok((tokens, access_cookie, refresh_cookie))
        },
        Err(_) => Err(ApiError::InvalidToken(String::from_str("Failed to refresh tokens"))),
    }
}

/// What the identity route answers for one request.
#[derive(Debug)]
pub enum MeOutcome {
    Authorized(Claims),
    Unauthorized(String),
}

/// What the identity route answers at the given instant: the decoded
/// claims for a valid `access_token` cookie; for a missing cookie its own
/// text, and for an invalid or expired one a shared text that does not say
/// which of the two it was.
pub fn me_request_at(service: &AuthService, access_cookie: Option<&String>, now: usize) -> (r:
    MeOutcome)
    ensures
        match access_cookie {
            None => r matches MeOutcome::Unauthorized(m) && m@ == "Access token not found."@,
            Some(cookie) => match spec_verify(service.access_secret(), cookie@, now as int) {
                TokenCheck::Valid(c) => r matches MeOutcome::Authorized(claims) && claims@ == c,
                TokenCheck::Expired(_) => r matches MeOutcome::Unauthorized(m) && m@
                    == "Invalid or expired token."@,
                TokenCheck::Invalid => r matches MeOutcome::Unauthorized(m) && m@
                    == "Invalid or expired token."@,
            },
        },
{
    match access_cookie {
        None => MeOutcome::Unauthorized(String::from_str("Access token not found.")),
        Some(cookie) => match service.verify_token_at(cookie.as_str(), now) {
            Ok(claims) => MeOutcome::Authorized(claims),
            Err(_) => MeOutcome::Unauthorized(String::from_str("Invalid or expired token.")),
        },
    }
}

} // verus!
