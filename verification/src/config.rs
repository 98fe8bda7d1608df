//! The immutable configuration value, built once from the environment's raw
//! text and passed to every component.
//!
//! Reading the environment is the caller's business; the defaulting and
//! parsing rules applied to whatever it found are verified here.

use vstd::prelude::*;
use crate::text::{
    all_digits, dec_value, parse_usize, split_commas, split_trim_commas, trim_spaces,
};

verus! {

/// Everything the service is configured with: the client pair for the
/// external identity source, the listen address, the two signing secrets,
/// the two token lifetimes in seconds, and the allowed CORS origins.
#[derive(Debug)]
pub struct Config {
    pub client_id: String,
    pub client_secret: String,
    pub serv_addrs: String,
    pub jwt_secret: String,
    pub jwt_refresh_secret: String,
    pub token_expiration: usize,
    pub token_refresh_expiration: usize,
    pub cors_allowed_origins: Vec<String>,
}

/// The access-token lifetime a raw setting yields: its decimal value when
/// it parses, the default otherwise.
pub open spec fn spec_token_expiration(raw: Option<Seq<char>>) -> int {
    match raw {
        Some(s) => if s.len() > 0 && all_digits(s) && dec_value(s) <= usize::MAX {
            dec_value(s) as int
        } else {
            14400
        },
        None => 14400,
    }
}

/// A raw optional setting, defaulted.
pub open spec fn spec_or_default(raw: Option<Seq<char>>, default: Seq<char>) -> Seq<char> {
    match raw {
        Some(s) => s,
        None => default,
    }
}

impl Config {
    /// Build the configuration from the raw environment values, applying
    /// the documented defaults: listen address `0.0.0.0:20090`, test
    /// signing secrets, a four-hour access-token lifetime when the setting
    /// is absent or unreadable, a fixed refresh lifetime, and `*` as the
    /// origin list, split at commas and trimmed.
    pub fn from_env_values(
        client_id: String,
        client_secret: String,
        serv_addrs: Option<String>,
        jwt_secret: Option<String>,
        jwt_refresh_secret: Option<String>,
        cors_allowed_origins: Option<String>,
        access_token_expiration: Option<String>,
    ) -> (c: Config)
        ensures
            c.client_id == client_id,
            c.client_secret == client_secret,
            c.serv_addrs@ == spec_or_default(
                match serv_addrs {
                    Some(ref s) => Some(s@),
                    None => None,
                },
                "0.0.0.0:20090"@,
            ),
            c.jwt_secret@ == spec_or_default(
                match jwt_secret {
                    Some(ref s) => Some(s@),
                    None => None,
                },
                "test_jwt_secret"@,
            ),
            c.jwt_refresh_secret@ == spec_or_default(
                match jwt_refresh_secret {
                    Some(ref s) => Some(s@),
                    None => None,
                },
                "test_jwt_refresh_secret"@,
            ),
            c.token_expiration as int == spec_token_expiration(
                match access_token_expiration {
                    Some(ref s) => Some(s@),
                    None => None,
                },
            ),
            c.token_refresh_expiration == 30000usize,
            c.cors_allowed_origins@.map_values(|t: String| t@) == split_commas(
                spec_or_default(
                    match cors_allowed_origins {
                        Some(ref s) => Some(s@),
                        None => None,
                    },
                    "*"@,
                ),
            ).map_values(|p: Seq<char>| trim_spaces(p)),
    {
        let serv_addrs = match serv_addrs {
            Some(s) => s,
            None => String::from_str("0.0.0.0:20090"),
        };
        let jwt_secret = match jwt_secret {
            Some(s) => s,
            None => String::from_str("test_jwt_secret"),
        };
        let jwt_refresh_secret = match jwt_refresh_secret {
            Some(s) => s,
            None => String::from_str("test_jwt_refresh_secret"),
        };
        let token_expiration = match access_token_expiration {
            Some(ref s) => match parse_usize(s.as_str()) {
                Some(v) => v,
                None => 14400,
            },
            None => 14400,
        };
        let origins_raw = match cors_allowed_origins {
            Some(s) => s,
            None => String::from_str("*"),
        };
        let cors_allowed_origins = split_trim_commas(origins_raw.as_str());
        Config {
            client_id,
            client_secret,
            serv_addrs,
            jwt_secret,
            jwt_refresh_secret,
            token_expiration,
            token_refresh_expiration: 30000,
            cors_allowed_origins,
        }
    }
}

} // verus!
