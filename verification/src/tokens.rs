//! Stateless mint / verify / refresh of signed session tokens.
//!
//! Signing and signature checking are carried out by the `jsonwebtoken`
//! crate behind two trusted wrappers; everything the service promises about
//! tokens is phrased over the two names `encode_token` and `decode_token`
//! those wrappers relate.

use vstd::prelude::*;
use crate::code_service::ZohoCodeService;
use crate::code_store::code_active;
use crate::errors::ApiError;
use crate::text::str_eq;
use crate::zoho_api::ZohoMapAccess;

verus! {

/// Decoded identity payload embedded (signed) inside a token; never persisted.
#[derive(Debug)]
pub struct Claims {
    pub id: String,
    pub name: String,
    pub exp: usize,
}

pub ghost struct ClaimsView {
    pub id: Seq<char>,
    pub name: Seq<char>,
    pub exp: int,
}

impl View for Claims {
    type V = ClaimsView;

    open spec fn view(&self) -> ClaimsView {
        ClaimsView { id: self.id@, name: self.name@, exp: self.exp as int }
    }
}

/// The pair of signed artifacts handed to a client: a short-lived access
/// token and a longer-lived refresh token, each under its own secret.
#[derive(Debug)]
pub struct TokenResponseDto {
    pub access_token: String,
    pub refresh_token: String,
}

pub ghost struct TokenPairView {
    pub access_token: Seq<char>,
    pub refresh_token: Seq<char>,
}

impl View for TokenResponseDto {
    type V = TokenPairView;

    open spec fn view(&self) -> TokenPairView {
        TokenPairView { access_token: self.access_token@, refresh_token: self.refresh_token@ }
    }
}

/// The token that signing a claims set under a secret produces.
pub uninterp spec fn encode_token(secret: Seq<char>, claims: ClaimsView) -> Seq<char>;

/// What decoding a token under a secret yields: the embedded claims when the
/// token is well formed and its signature matches the secret, nothing
/// otherwise.
pub uninterp spec fn decode_token(secret: Seq<char>, token: Seq<char>) -> Option<ClaimsView>;

/// Outcome of checking a token under a secret at an instant.
pub ghost enum TokenCheck {
    Valid(ClaimsView),
    Expired(ClaimsView),
    Invalid,
}

/// Signature check, then the explicit expiry check: a token past its `exp`
/// is expired, one that does not decode at all is invalid, and the two are
/// kept distinct.
pub open spec fn spec_verify(secret: Seq<char>, token: Seq<char>, now: int) -> TokenCheck {
    match decode_token(secret, token) {
        Option::Some(c) => if now > c.exp {
            TokenCheck::Expired(c)
        } else {
            TokenCheck::Valid(c)
        },
        Option::None => TokenCheck::Invalid,
    }
}

/// Relies on `jsonwebtoken::encode` with the default (HS256) header and a key
/// from `EncodingKey::from_secret`: the token is a deterministic function of
/// the secret and the claims, and it decodes back to those claims under the
/// same secret. The last clause speaks only of other secrets of the same
/// length: the scheme pads shorter keys, so a secret with NUL characters
/// appended signs exactly as the secret itself, while two distinct secrets
/// of one length give distinct padded keys — rejection then rests on the
/// standard idealization that HMAC-SHA256 signatures under distinct keys do
/// not collide.
#[verifier::external_body]
fn jwt_encode(secret: &str, user_id: &str, name: &str, exp: usize) -> (token: String)
    ensures
        token@ == encode_token(secret@, ClaimsView { id: user_id@, name: name@, exp: exp as int }),
        decode_token(secret@, token@) == Some(
            ClaimsView { id: user_id@, name: name@, exp: exp as int },
        ),
        forall|other: Seq<char>|
            other != secret@ && other.len() == secret@.len() ==> decode_token(other, token@)
                is None,
{
    let mut claims = serde_json::Map::new();
    claims.insert("id".to_string(), serde_json::Value::String(user_id.to_string()));
    claims.insert("name".to_string(), serde_json::Value::String(name.to_string()));
    claims.insert("exp".to_string(), serde_json::Value::from(exp as u64));
    let key = jsonwebtoken::EncodingKey::from_secret(secret.as_bytes());
    let header = jsonwebtoken::Header::default();
    match jsonwebtoken::encode(&header, &serde_json::Value::Object(claims), &key) {
        Ok(token) => token,
        Err(_) => String::new(),
    }
}

/// Relies on `jsonwebtoken::decode` with an HS256 key, the signature check on
/// and the expiry check off: the outcome is a deterministic function of the
/// secret and the token alone. `Some` only for a well-formed token signed
/// under this secret whose payload carries an `exp` number, string `id` and
/// `name`, and no `aud` claim; `None` otherwise. Expiry is checked
/// separately, in verified code.
#[verifier::external_body]
fn jwt_decode(secret: &str, token: &str) -> (r: Option<Claims>)
    ensures
        match r {
            Some(c) => decode_token(secret@, token@) == Some(c@),
            None => decode_token(secret@, token@) is None,
        },
{
    let key = jsonwebtoken::DecodingKey::from_secret(secret.as_bytes());
    let mut validation = jsonwebtoken::Validation::new(jsonwebtoken::Algorithm::HS256);
    validation.validate_exp = false;
    let data = jsonwebtoken::decode::<serde_json::Value>(token, &key, &validation).ok()?.claims;
    let id = data.get("id")?.as_str()?.to_string();
    let name = data.get("name")?.as_str()?.to_string();
    let exp = data.get("exp")?.as_u64()? as usize;
    Some(Claims { id, name, exp })
}

/// Relies on `chrono::Utc::now` for the clock; nothing is assumed of the
/// value, callers state what holds of every outcome.
#[verifier::external_body]
fn current_timestamp() -> i64 {
    chrono::Utc::now().timestamp()
}

/// Seconds since the epoch by the machine clock, clamped below at zero;
/// whatever the clock said, the value fits a signed 64-bit word.
fn current_time_secs() -> (t: usize)
    ensures
        t as int <= i64::MAX as int,
{
    let ts = current_timestamp();
    if ts <= 0 {
        0
    } else {
        ts as usize
    }
}

/// Stateless token service: two immutable signing secrets and the two
/// lifetimes, in seconds, of the artifacts minted under them.
pub struct AuthService {
    jwt_secret: String,
    jwt_refresh_secret: String,
    token_expiration: usize,
    token_refresh_expiration: usize,
}

impl AuthService {
    pub closed spec fn access_secret(&self) -> Seq<char> {
        self.jwt_secret@
    }

    pub closed spec fn refresh_secret(&self) -> Seq<char> {
        self.jwt_refresh_secret@
    }

    pub closed spec fn access_ttl(&self) -> int {
        self.token_expiration as int
    }

    pub closed spec fn refresh_ttl(&self) -> int {
        self.token_refresh_expiration as int
    }

    pub fn new(
        jwt_secret: String,
        jwt_refresh_secret: String,
        token_expiration: usize,
        token_refresh_expiration: usize,
    ) -> (s: Self)
        ensures
            s.access_secret() == jwt_secret@,
            s.refresh_secret() == jwt_refresh_secret@,
            s.access_ttl() == token_expiration as int,
            s.refresh_ttl() == token_refresh_expiration as int,
    {
        AuthService { jwt_secret, jwt_refresh_secret, token_expiration, token_refresh_expiration }
    }

    /// The claims an access token minted at `now` carries.
    pub open spec fn access_claims(&self, id: Seq<char>, name: Seq<char>, now: int) -> ClaimsView {
        ClaimsView { id, name, exp: now + self.access_ttl() }
    }

    /// The claims a refresh token minted at `now` carries.
    pub open spec fn refresh_claims(&self, id: Seq<char>, name: Seq<char>, now: int) -> ClaimsView {
        ClaimsView { id, name, exp: now + self.refresh_ttl() }
    }

    /// The pair minted for an identity at an instant.
    pub open spec fn minted_pair(&self, id: Seq<char>, name: Seq<char>, now: int) -> TokenPairView {
        TokenPairView {
            access_token: encode_token(self.access_secret(), self.access_claims(id, name, now)),
            refresh_token: encode_token(self.refresh_secret(), self.refresh_claims(id, name, now)),
        }
    }

    /// The deployment assumption on the configured pair of secrets: no
    /// artifact signed under one decodes under the other. It rules out
    /// configurations that the signing scheme treats as one key — a secret
    /// and the same secret with NUL characters appended produce identical
    /// signatures, for instance — and it is what the separation of the two
    /// token kinds rests on wherever a contract names it.
    pub open spec fn secrets_independent(&self) -> bool {
        &&& forall|c: ClaimsView|
            #[trigger] decode_token(
                self.refresh_secret(),
                encode_token(self.access_secret(), c),
            ) is None
        &&& forall|c: ClaimsView|
            #[trigger] decode_token(
                self.access_secret(),
                encode_token(self.refresh_secret(), c),
            ) is None
    }

    /// Everything minting promises of a fresh pair: the pair is the one
    /// determined by identity and instant; each token, checked under its own
    /// secret, yields exactly the embedded claims until its expiry instant
    /// and counts as expired after it; and neither token decodes under any
    /// other secret of the same length. Under
    /// [`AuthService::secrets_independent`] a refresh token moreover never
    /// passes the access check, nor the other way round.
    pub open spec fn minted_pair_properties(
        &self,
        p: TokenPairView,
        id: Seq<char>,
        name: Seq<char>,
        now: int,
    ) -> bool {
        &&& p == self.minted_pair(id, name, now)
        &&& decode_token(self.access_secret(), p.access_token) == Some(
            self.access_claims(id, name, now),
        )
        &&& decode_token(self.refresh_secret(), p.refresh_token) == Some(
            self.refresh_claims(id, name, now),
        )
        &&& forall|t: int|
            #[trigger] spec_verify(self.access_secret(), p.access_token, t) == if t > now
                + self.access_ttl() {
                TokenCheck::Expired(self.access_claims(id, name, now))
            } else {
                TokenCheck::Valid(self.access_claims(id, name, now))
            }
        &&& forall|t: int|
            #[trigger] spec_verify(self.refresh_secret(), p.refresh_token, t) == if t > now
                + self.refresh_ttl() {
                TokenCheck::Expired(self.refresh_claims(id, name, now))
            } else {
                TokenCheck::Valid(self.refresh_claims(id, name, now))
            }
        &&& forall|other: Seq<char>|
            other != self.access_secret() && other.len() == self.access_secret().len()
                ==> #[trigger] decode_token(other, p.access_token) is None
        &&& forall|other: Seq<char>|
            other != self.refresh_secret() && other.len() == self.refresh_secret().len()
                ==> #[trigger] decode_token(other, p.refresh_token) is None
    }

    /// A pair minted for this identity at some instant, with everything
    /// minting promises of it.
    pub open spec fn minted_some_instant(
        &self,
        p: TokenPairView,
        id: Seq<char>,
        name: Seq<char>,
    ) -> bool {
        exists|now: int| #[trigger] self.minted_pair_properties(p, id, name, now)
    }

    /// A minted access token, checked under the access secret, yields
    /// exactly the identity and expiry it was minted with at any instant up
    /// to its expiry, and counts as expired — never invalid — at any later
    /// instant; the refresh token behaves the same under the refresh
    /// secret.
    pub proof fn lemma_minted_verifies(
        &self,
        p: TokenPairView,
        id: Seq<char>,
        name: Seq<char>,
        now: int,
        t: int,
    )
        requires
            self.minted_pair_properties(p, id, name, now),
        ensures
            t <= now + self.access_ttl() ==> spec_verify(self.access_secret(), p.access_token, t)
                == TokenCheck::Valid(self.access_claims(id, name, now)),
            t > now + self.access_ttl() ==> spec_verify(self.access_secret(), p.access_token, t)
                == TokenCheck::Expired(self.access_claims(id, name, now)),
            t <= now + self.refresh_ttl() ==> spec_verify(
                self.refresh_secret(),
                p.refresh_token,
                t,
            ) == TokenCheck::Valid(self.refresh_claims(id, name, now)),
            t > now + self.refresh_ttl() ==> spec_verify(self.refresh_secret(), p.refresh_token, t)
                == TokenCheck::Expired(self.refresh_claims(id, name, now)),
    {
    }

    /// While the two secrets are independent, a minted refresh token never
    /// passes the access check, and a minted access token never passes the
    /// refresh check — at no instant, and not even as expired: both read as
    /// invalid.
    pub proof fn lemma_cross_secret_rejected(
        &self,
        p: TokenPairView,
        id: Seq<char>,
        name: Seq<char>,
        now: int,
        t: int,
    )
        requires
            self.minted_pair_properties(p, id, name, now),
            self.secrets_independent(),
        ensures
            spec_verify(self.access_secret(), p.refresh_token, t) is Invalid,
            spec_verify(self.refresh_secret(), p.access_token, t) is Invalid,
    {
        assert(decode_token(
            self.access_secret(),
            encode_token(self.refresh_secret(), self.refresh_claims(id, name, now)),
        ) is None);
        assert(decode_token(
            self.refresh_secret(),
            encode_token(self.access_secret(), self.access_claims(id, name, now)),
        ) is None);
    }

    /// Rotation yields fresh artifacts: two pairs minted at different
    /// instants share no token, in any combination, while the secrets are
    /// independent — so a refreshed pair is disjoint from the pair it
    /// replaces.
    pub proof fn lemma_rotation_disjoint(
        &self,
        p0: TokenPairView,
        p1: TokenPairView,
        id0: Seq<char>,
        name0: Seq<char>,
        id1: Seq<char>,
        name1: Seq<char>,
        now0: int,
        now1: int,
    )
        requires
            self.minted_pair_properties(p0, id0, name0, now0),
            self.minted_pair_properties(p1, id1, name1, now1),
            now0 != now1,
            self.secrets_independent(),
        ensures
            p1.access_token != p0.access_token,
            p1.refresh_token != p0.refresh_token,
            p1.access_token != p0.refresh_token,
            p1.refresh_token != p0.access_token,
    {
        assert(self.access_claims(id0, name0, now0).exp != self.access_claims(
            id1,
            name1,
            now1,
        ).exp);
        if p1.access_token == p0.access_token {
            assert(decode_token(self.access_secret(), p1.access_token) == decode_token(
                self.access_secret(),
                p0.access_token,
            ));
        }
        if p1.refresh_token == p0.refresh_token {
            assert(decode_token(self.refresh_secret(), p1.refresh_token) == decode_token(
                self.refresh_secret(),
                p0.refresh_token,
            ));
        }
        if p1.access_token == p0.refresh_token {
            assert(decode_token(
                self.refresh_secret(),
                encode_token(self.access_secret(), self.access_claims(id1, name1, now1)),
            ) is None);
        }
        if p1.refresh_token == p0.access_token {
            assert(decode_token(
                self.access_secret(),
                encode_token(self.refresh_secret(), self.refresh_claims(id1, name1, now1)),
            ) is None);
        }
    }

    /// Mint the pair for an identity at the given instant.
    pub fn generate_tokens_at(&self, user_id: &str, name: &str, now: usize) -> (r: TokenResponseDto)
        requires
            now + self.access_ttl() <= usize::MAX,
            now + self.refresh_ttl() <= usize::MAX,
        ensures
            self.minted_pair_properties(r@, user_id@, name@, now as int),
    {
        let access_exp = now + self.token_expiration;
        let refresh_exp = now + self.token_refresh_expiration;
        let access_token = jwt_encode(self.jwt_secret.as_str(), user_id, name, access_exp);
        let refresh_token = jwt_encode(self.jwt_refresh_secret.as_str(), user_id, name, refresh_exp);
        TokenResponseDto { access_token, refresh_token }
    }

    /// Mint a pair for an identity at the current instant by the machine
    /// clock. Fails only when a computed expiry would not fit the machine
    /// word — never, while each lifetime leaves room for any clock value.
    pub fn generate_tokens(&self, user_id: &str, name: &str) -> (r: Result<
        TokenResponseDto,
        ApiError,
    >)
        ensures
            r matches Ok(p) ==> self.minted_some_instant(p@, user_id@, name@),
            r matches Err(e) ==> e is InternalError,
            self.access_ttl() + i64::MAX as int <= usize::MAX as int && self.refresh_ttl()
                + i64::MAX as int <= usize::MAX as int ==> r is Ok,
    {
        let now = current_time_secs();
        let access_ok = now.checked_add(self.token_expiration);
        let refresh_ok = now.checked_add(self.token_refresh_expiration);
        if access_ok.is_none() || refresh_ok.is_none() {
            return Err(ApiError::InternalError(String::from_str("Token expiration overflow")));
        }
        let pair = self.generate_tokens_at(user_id, name, now);
        proof {
            assert(self.minted_some_instant(pair@, user_id@, name@)) by {
                assert(self.minted_pair_properties(pair@, user_id@, name@, now as int));
            }
        }
        Ok(pair)
    }

    /// Check a token against the access secret at the given instant: the
    /// embedded claims when valid; a distinct error for an expired token and
    /// for one that does not decode.
    pub fn verify_token_at(&self, token: &str, now: usize) -> (r: Result<Claims, ApiError>)
        ensures
            match spec_verify(self.access_secret(), token@, now as int) {
                TokenCheck::Valid(c) => r matches Ok(rc) && rc@ == c,
                TokenCheck::Expired(c) => r matches Err(e) && e matches ApiError::TokenExpired(m)
                    && m@ == "Token has expired"@,
                TokenCheck::Invalid => r matches Err(e) && e matches ApiError::InvalidToken(m)
                    && m@ == "Invalid token"@,
            },
    {
        match jwt_decode(self.jwt_secret.as_str(), token) {
            Some(claims) => {
                if now > claims.exp {
                    Err(ApiError::TokenExpired(String::from_str("Token has expired")))
                } else {
                    Ok(claims)
                }
            },
            None => Err(ApiError::InvalidToken(String::from_str("Invalid token"))),
        }
    }

    /// Check a token against the access secret at the current instant. The
    /// two failure classes track the token, not the clock: invalid exactly
    /// for a token that does not decode, expired only for one that does.
    pub fn verify_token(&self, token: &str) -> (r: Result<Claims, ApiError>)
        ensures
            r matches Ok(c) ==> decode_token(self.access_secret(), token@) == Some(c@),
            r matches Err(e) ==> e is TokenExpired || e is InvalidToken,
            (r matches Err(e) && e is InvalidToken) <==> decode_token(
                self.access_secret(),
                token@,
            ) is None,
    {
        let now = current_time_secs();
        self.verify_token_at(token, now)
    }

    /// Refresh at the given instant: decode the submitted token against the
    /// refresh secret, re-check its expiry, and on success mint a brand-new
    /// pair — full rotation — for the same identity. A fresh token differs
    /// from the submitted one whenever their expiries differ, which bounds
    /// the replay window of a leaked pair after a refresh.
    pub fn refresh_tokens_at(&self, refresh_token: &str, now: usize) -> (r: Result<
        TokenResponseDto,
        ApiError,
    >)
        requires
            now + self.access_ttl() <= usize::MAX,
            now + self.refresh_ttl() <= usize::MAX,
        ensures
            match spec_verify(self.refresh_secret(), refresh_token@, now as int) {
                TokenCheck::Valid(c) => {
                    &&& r matches Ok(p)
                    &&& self.minted_pair_properties(p@, c.id, c.name, now as int)
                    &&& c.exp != now + self.refresh_ttl() ==> p@.refresh_token != refresh_token@
                    &&& self.secrets_independent() ==> p@.access_token != refresh_token@
                },
                TokenCheck::Expired(c) => r matches Err(e) && e matches ApiError::TokenExpired(m)
                    && m@ == "Refresh token has expired"@,
                TokenCheck::Invalid => r matches Err(e) && e matches ApiError::InvalidToken(m)
                    && m@ == "Invalid token"@,
            },
    {
        match jwt_decode(self.jwt_refresh_secret.as_str(), refresh_token) {
            Some(claims) => {
                if now > claims.exp {
                    Err(ApiError::TokenExpired(String::from_str("Refresh token has expired")))
                } else {
                    let pair = self.generate_tokens_at(claims.id.as_str(), claims.name.as_str(), now);
                    proof {
                        let c = decode_token(self.refresh_secret(), refresh_token@)->Some_0;
                        if c.exp != now + self.refresh_ttl() && pair@.refresh_token
                            == refresh_token@ {
                            assert(decode_token(self.refresh_secret(), pair@.refresh_token)
                                == decode_token(self.refresh_secret(), refresh_token@));
                        }
                        if self.secrets_independent() && pair@.access_token == refresh_token@ {
                            assert(decode_token(
                                self.refresh_secret(),
                                encode_token(
                                    self.access_secret(),
                                    self.access_claims(c.id, c.name, now as int),
                                ),
                            ) is None);
                        }
                    }
                    Ok(pair)
                }
            },
            None => Err(ApiError::InvalidToken(String::from_str("Invalid token"))),
        }
    }

    /// What a failed identity lookup tells the login caller: a permission
    /// refusal keeps its fixed, non-revealing text; every other failure is
    /// wrapped as an internal lookup error carrying the cause.
    pub open spec fn spec_lookup_failure(&self, le: ApiError, r: Result<
        TokenResponseDto,
        ApiError,
    >) -> bool {
        match le {
            ApiError::Forbidden(_) => r matches Err(e) && (e matches ApiError::Forbidden(m) && m@
                == "No autorizado: Verifica tus credenciales o permisos para acceder a Zoho"@),
            _ => r matches Err(e) && (e matches ApiError::InternalError(m) && m@
                == "Error al obtener acceso al mapa: "@ + le.spec_prefix() + le.spec_detail()),
        }
    }

    /// Turn a failed identity lookup into the login error the caller sees.
    fn lookup_failure(&self, le: &ApiError) -> (r: ApiError)
        ensures
            self.spec_lookup_failure(*le, Err(r)),
    {
        match le {
            ApiError::Forbidden(_) => ApiError::Forbidden(
                String::from_str(
                    "No autorizado: Verifica tus credenciales o permisos para acceder a Zoho",
                ),
            ),
            _ => {
                let mut msg = String::from_str("Error al obtener acceso al mapa: ");
                msg.append(le.message().as_str());
                proof {
                    assert(msg@ =~= "Error al obtener acceso al mapa: "@ + le.spec_prefix()
                        + le.spec_detail());
                }
                ApiError::InternalError(msg)
            },
        }
    }

    /// Code-based login at the given instant. The submitted code must stand
    /// in the store as the active one; an inactive or unknown code is
    /// refused outright, before any use of the lookup. For an active code
    /// the pre-fetched lookup outcome decides: a found record mints a fresh
    /// pair for that identity, a failed lookup maps onto the login error —
    /// kept distinct from the code refusal — without leaking internal cause
    /// text beyond the lookup error's own message.
    pub fn login_with_code(
        &self,
        codes: &ZohoCodeService,
        code: &str,
        lookup: &Result<ZohoMapAccess, ApiError>,
        now: usize,
    ) -> (r: Result<TokenResponseDto, ApiError>)
        requires
            now + self.access_ttl() <= usize::MAX,
            now + self.refresh_ttl() <= usize::MAX,
        ensures
            !code_active(codes@, code@) ==> (r matches Err(e) && (e matches ApiError::Forbidden(m)
                && m@ == "Código de Zoho inválido o expirado"@)),
            code_active(codes@, code@) ==> match lookup {
                Ok(ma) => r matches Ok(p) && self.minted_pair_properties(
                    p@,
                    ma.id@,
                    ma.name@,
                    now as int,
                ),
                Err(le) => self.spec_lookup_failure(*le, r),
            },
    {
        if !codes.validate_code(code) {
            return Err(ApiError::Forbidden(String::from_str("Código de Zoho inválido o expirado")));
        }
        match lookup {
            Ok(map_access) => Ok(
                self.generate_tokens_at(map_access.id.as_str(), map_access.name.as_str(), now),
            ),
            Err(le) => Err(self.lookup_failure(le)),
        }
    }

    /// Name-based login at the given instant: the looked-up record must
    /// carry exactly the requested name, else the login is refused with the
    /// fixed permission text; a failed lookup maps as for the code login.
    pub fn login_with_zoho(
        &self,
        name: &str,
        lookup: &Result<ZohoMapAccess, ApiError>,
        now: usize,
    ) -> (r: Result<TokenResponseDto, ApiError>)
        requires
            now + self.access_ttl() <= usize::MAX,
            now + self.refresh_ttl() <= usize::MAX,
        ensures
            match lookup {
                Ok(ma) => {
                    if ma.name@ == name@ {
                        r matches Ok(p) && self.minted_pair_properties(
                            p@,
                            ma.id@,
                            ma.name@,
                            now as int,
                        )
                    } else {
                        r matches Err(e) && (e matches ApiError::Forbidden(m) && m@
                            == "No autorizado: Verifica tus credenciales o permisos para acceder a Zoho"@)
                    }
                },
                Err(le) => self.spec_lookup_failure(*le, r),
            },
    {
        match lookup {
            Ok(map_access) => {
                if !str_eq(map_access.name.as_str(), name) {
                    Err(
                        ApiError::Forbidden(
                            String::from_str(
                                "No autorizado: Verifica tus credenciales o permisos para acceder a Zoho",
                            ),
                        ),
                    )
                } else {
                    Ok(self.generate_tokens_at(map_access.id.as_str(), map_access.name.as_str(), now))
                }
            },
            Err(le) => Err(self.lookup_failure(le)),
        }
    }

    /// Refresh against the machine clock. While each lifetime leaves room
    /// for any clock value, a failure is the submitted token's own —
    /// expired or invalid — and a token that does not decode is always
    /// answered as invalid.
    pub fn refresh_tokens(&self, refresh_token: &str) -> (r: Result<TokenResponseDto, ApiError>)
        ensures
            r matches Ok(p) ==> (decode_token(self.refresh_secret(), refresh_token@) matches Some(
                c,
            ) && self.minted_some_instant(p@, c.id, c.name)),
            decode_token(self.refresh_secret(), refresh_token@) is None ==> r is Err,
            self.access_ttl() + i64::MAX as int <= usize::MAX as int && self.refresh_ttl()
                + i64::MAX as int <= usize::MAX as int ==> {
                &&& r matches Err(e) ==> e is TokenExpired || e is InvalidToken
                &&& decode_token(self.refresh_secret(), refresh_token@) is None ==> (r matches Err(
                    e,
                ) && e is InvalidToken)
            },
    {
        let now = current_time_secs();
        let access_ok = now.checked_add(self.token_expiration);
        let refresh_ok = now.checked_add(self.token_refresh_expiration);
        if access_ok.is_none() || refresh_ok.is_none() {
            return Err(ApiError::InternalError(String::from_str("Token expiration overflow")));
        }
        let result = self.refresh_tokens_at(refresh_token, now);
        proof {
            if result is Ok {
                let c = decode_token(self.refresh_secret(), refresh_token@)->Some_0;
                assert(self.minted_some_instant(result->Ok_0@, c.id, c.name)) by {
                    assert(self.minted_pair_properties(result->Ok_0@, c.id, c.name, now as int));
                }
            }
        }
        result
    }
}

} // verus!
