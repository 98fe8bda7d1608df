use mapauth::code_service::ZohoCodeService;
use mapauth::code_store::ZohoCodeRepository;
use mapauth::code_sync::ZohoCodeSyncService;
use mapauth::errors::ApiError;
use mapauth::handlers::{
    auth_success_message, logout_cookies, me_request_at, refresh_request_at, CookieSettings,
    MeOutcome, SameSite,
};
use mapauth::middleware::{guard_request, GuardDecision};
use mapauth::tokens::AuthService;
use mapauth::zoho_api::ZohoMapAccess;

fn service() -> AuthService {
    AuthService::new(
        String::from("access-secret-a"),
        String::from("refresh-secret-b"),
        3600,
        36000,
    )
}

const NOW: usize = 1_700_000_000;

#[test]
fn guard_without_cookie_or_header_rejects_and_never_invokes() {
    let svc = service();
    let mut handler_invocations: u32 = 0;
    match guard_request(&svc, None, None, NOW) {
        GuardDecision::Forward(_) => {
            handler_invocations += 1;
        }
        GuardDecision::Reject(m) => assert_eq!(m, "Authorization token missing"),
    }
    assert_eq!(handler_invocations, 0);
}

#[test]
fn guard_with_valid_bearer_header_forwards_the_identity() {
    let svc = service();
    let pair = svc.generate_tokens_at("user-3", "Carol", NOW);
    let header = format!("Bearer {}", pair.access_token);
    let mut handler_invocations: u32 = 0;
    match guard_request(&svc, None, Some(&header), NOW) {
        GuardDecision::Forward(claims) => {
            handler_invocations += 1;
            assert_eq!(claims.id, "user-3");
            assert_eq!(claims.name, "Carol");
        }
        GuardDecision::Reject(m) => panic!("rejected: {}", m),
    }
    assert_eq!(handler_invocations, 1);
}

#[test]
fn guard_prefers_the_cookie_over_the_header() {
    let svc = service();
    let pair = svc.generate_tokens_at("user-3", "Carol", NOW);
    let bogus_header = String::from("Bearer nonsense");
    match guard_request(&svc, Some(&pair.access_token), Some(&bogus_header), NOW) {
        GuardDecision::Forward(claims) => assert_eq!(claims.id, "user-3"),
        GuardDecision::Reject(m) => panic!("rejected: {}", m),
    }
}

#[test]
fn guard_expired_and_invalid_share_one_external_text() {
    let svc = service();
    let pair = svc.generate_tokens_at("user-3", "Carol", NOW);
    let expired = match guard_request(&svc, Some(&pair.access_token), None, NOW + 3601) {
        GuardDecision::Reject(m) => m,
        GuardDecision::Forward(_) => panic!("forwarded an expired token"),
    };
    let garbage = String::from("garbage");
    let invalid = match guard_request(&svc, Some(&garbage), None, NOW) {
        GuardDecision::Reject(m) => m,
        GuardDecision::Forward(_) => panic!("forwarded garbage"),
    };
    assert_eq!(expired, "Invalid or expired token");
    assert_eq!(invalid, "Invalid or expired token");
}

#[test]
fn extract_token_strips_every_bearer_marker() {
    let header = String::from("Bearer Bearer tok");
    let token = AuthService::extract_token_impl(None, Some(&header)).unwrap();
    assert_eq!(token, "tok");
    let plain = String::from("tok2");
    let token2 = AuthService::extract_token_impl(None, Some(&plain)).unwrap();
    assert_eq!(token2, "tok2");
    assert!(AuthService::extract_token_impl(None, None).is_none());
}

#[test]
fn refresh_route_without_cookie_is_a_missing_cookie_error() {
    let svc = service();
    let settings = CookieSettings::from_env_values(None, None, None);
    let err = refresh_request_at(&svc, None, &settings, NOW).unwrap_err();
    assert!(matches!(err, ApiError::InvalidToken(m) if m == "No refresh token cookie"));
}

#[test]
fn refresh_route_sets_both_session_cookies() {
    let svc = service();
    let settings = CookieSettings::from_env_values(None, None, None);
    let pair = svc.generate_tokens_at("user-3", "Carol", NOW);
    let (tokens, access_cookie, refresh_cookie) =
        refresh_request_at(&svc, Some(&pair.refresh_token), &settings, NOW + 10).unwrap();
    assert_eq!(access_cookie.name, "access_token");
    assert_eq!(access_cookie.value, tokens.access_token);
    assert_eq!(refresh_cookie.name, "refresh_token");
    assert_eq!(refresh_cookie.value, tokens.refresh_token);
    assert!(access_cookie.http_only);
    assert!(access_cookie.secure);
    assert_eq!(access_cookie.same_site, Some(SameSite::Lax));
    assert_eq!(access_cookie.path, "/");
    assert_eq!(access_cookie.max_age_secs, None);
}

#[test]
fn refresh_route_maps_any_bad_token_to_one_text() {
    let svc = service();
    let settings = CookieSettings::from_env_values(None, None, None);
    let garbage = String::from("garbage");
    let err = refresh_request_at(&svc, Some(&garbage), &settings, NOW).unwrap_err();
    assert!(matches!(err, ApiError::InvalidToken(m) if m == "Failed to refresh tokens"));
    let pair = svc.generate_tokens_at("u", "n", NOW);
    let err2 =
        refresh_request_at(&svc, Some(&pair.refresh_token), &settings, NOW + 36001).unwrap_err();
    assert!(matches!(err2, ApiError::InvalidToken(m) if m == "Failed to refresh tokens"));
}

#[test]
fn me_route_answers_for_each_case() {
    let svc = service();
    let pair = svc.generate_tokens_at("user-3", "Carol", NOW);
    match me_request_at(&svc, Some(&pair.access_token), NOW) {
        MeOutcome::Authorized(claims) => assert_eq!(claims.name, "Carol"),
        MeOutcome::Unauthorized(m) => panic!("unauthorized: {}", m),
    }
    match me_request_at(&svc, None, NOW) {
        MeOutcome::Unauthorized(m) => assert_eq!(m, "Access token not found."),
        MeOutcome::Authorized(_) => panic!("authorized without a cookie"),
    }
    match me_request_at(&svc, Some(&pair.access_token), NOW + 3601) {
        MeOutcome::Unauthorized(m) => assert_eq!(m, "Invalid or expired token."),
        MeOutcome::Authorized(_) => panic!("authorized an expired token"),
    }
}

#[test]
fn logout_clears_both_cookies_unconditionally() {
    let (access_cookie, refresh_cookie) = logout_cookies();
    assert_eq!(access_cookie.name, "access_token");
    assert_eq!(refresh_cookie.name, "refresh_token");
    assert_eq!(access_cookie.value, "");
    assert_eq!(refresh_cookie.value, "");
    assert_eq!(access_cookie.max_age_secs, Some(-1));
    assert_eq!(refresh_cookie.max_age_secs, Some(-1));
    assert!(access_cookie.http_only && access_cookie.secure);
    assert_eq!(access_cookie.same_site, None);
}

#[test]
fn cookie_settings_parse_and_default() {
    let settings = CookieSettings::from_env_values(None, None, None);
    assert!(settings.http_only);
    assert!(settings.secure);
    assert_eq!(settings.same_site, SameSite::Lax);

    let http_only = String::from("false");
    let secure = String::from("nonsense");
    let strict = String::from("Strict");
    let settings2 = CookieSettings::from_env_values(Some(&http_only), Some(&secure), Some(&strict));
    assert!(!settings2.http_only);
    assert!(settings2.secure);
    assert_eq!(settings2.same_site, SameSite::Strict);

    let none_site = String::from("None");
    let settings3 = CookieSettings::from_env_values(None, None, Some(&none_site));
    assert_eq!(settings3.same_site, SameSite::NoneSite);
}

#[test]
fn auth_success_message_text() {
    let m = auth_success_message();
    assert_eq!(m.message, "Authentication successful. Tokens are stored in cookies.");
    assert!(m.tokens_in_cookies);
}

fn sync_with(code: &str) -> ZohoCodeSyncService {
    let mut sync = ZohoCodeSyncService::new(ZohoCodeService::new(ZohoCodeRepository::new()));
    sync.initialize_with_zoho(Some(code), 1000).unwrap();
    sync
}

#[test]
fn login_with_inactive_code_is_refused_before_any_lookup() {
    let svc = service();
    let sync = sync_with("GOOD42");
    let lookup: Result<ZohoMapAccess, ApiError> = Err(ApiError::InternalError(String::from(
        "must never be read",
    )));
    let err = svc
        .login_with_code(sync.code_service(), "BAD", &lookup, NOW)
        .unwrap_err();
    assert!(matches!(err, ApiError::Forbidden(m) if m == "Código de Zoho inválido o expirado"));
}

#[test]
fn login_with_active_code_mints_for_the_looked_up_identity() {
    let svc = service();
    let sync = sync_with("GOOD42");
    let lookup = Ok(ZohoMapAccess {
        id: String::from("id-1"),
        name: String::from("Door"),
    });
    let pair = svc
        .login_with_code(sync.code_service(), "GOOD42", &lookup, NOW)
        .unwrap();
    let claims = svc.verify_token_at(&pair.access_token, NOW).unwrap();
    assert_eq!(claims.id, "id-1");
    assert_eq!(claims.name, "Door");
}

#[test]
fn login_lookup_failures_map_to_the_documented_errors() {
    let svc = service();
    let sync = sync_with("GOOD42");
    let not_found: Result<ZohoMapAccess, ApiError> =
        Err(ApiError::NotFound(String::from("no record")));
    let err = svc
        .login_with_code(sync.code_service(), "GOOD42", &not_found, NOW)
        .unwrap_err();
    assert!(
        matches!(err, ApiError::InternalError(m) if m == "Error al obtener acceso al mapa: Not Found: no record")
    );

    let forbidden: Result<ZohoMapAccess, ApiError> =
        Err(ApiError::Forbidden(String::from("denied")));
    let err2 = svc
        .login_with_code(sync.code_service(), "GOOD42", &forbidden, NOW)
        .unwrap_err();
    assert!(
        matches!(err2, ApiError::Forbidden(m) if m == "No autorizado: Verifica tus credenciales o permisos para acceder a Zoho")
    );
}

#[test]
fn login_with_zoho_checks_the_name() {
    let svc = service();
    let lookup = Ok(ZohoMapAccess {
        id: String::from("id-1"),
        name: String::from("Door"),
    });
    let pair = svc.login_with_zoho("Door", &lookup, NOW).unwrap();
    let claims = svc.verify_token_at(&pair.access_token, NOW).unwrap();
    assert_eq!(claims.name, "Door");

    let err = svc.login_with_zoho("Window", &lookup, NOW).unwrap_err();
    assert!(matches!(err, ApiError::Forbidden(_)));
}
