use mapauth::errors::ApiError;
use mapauth::tokens::AuthService;

fn service() -> AuthService {
    AuthService::new(
        String::from("access-secret-a"),
        String::from("refresh-secret-b"),
        3600,
        36000,
    )
}

#[test]
fn issue_then_verify_returns_the_claims() {
    let svc = service();
    let now: usize = 1_700_000_000;
    let pair = svc.generate_tokens_at("user-7", "Alice", now);
    let claims = svc.verify_token_at(&pair.access_token, now).unwrap();
    assert_eq!(claims.id, "user-7");
    assert_eq!(claims.name, "Alice");
    assert_eq!(claims.exp, now + 3600);
}

#[test]
fn issue_then_verify_just_before_expiry() {
    let svc = service();
    let now: usize = 1_700_000_000;
    let pair = svc.generate_tokens_at("user-7", "Alice", now);
    let claims = svc.verify_token_at(&pair.access_token, now + 3600).unwrap();
    assert_eq!(claims.id, "user-7");
}

#[test]
fn refresh_token_never_verifies_as_access_token() {
    let svc = service();
    let now: usize = 1_700_000_000;
    let pair = svc.generate_tokens_at("user-7", "Alice", now);
    let err = svc.verify_token_at(&pair.refresh_token, now).unwrap_err();
    assert!(matches!(err, ApiError::InvalidToken(_)));
}

#[test]
fn access_token_never_refreshes() {
    let svc = service();
    let now: usize = 1_700_000_000;
    let pair = svc.generate_tokens_at("user-7", "Alice", now);
    let err = svc.refresh_tokens_at(&pair.access_token, now).unwrap_err();
    assert!(matches!(err, ApiError::InvalidToken(_)));
}

#[test]
fn expired_and_tampered_fail_distinctly() {
    let svc = service();
    let now: usize = 1_700_000_000;
    let pair = svc.generate_tokens_at("user-7", "Alice", now);

    let expired = svc
        .verify_token_at(&pair.access_token, now + 3601)
        .unwrap_err();
    assert!(matches!(expired, ApiError::TokenExpired(_)));

    let mut tampered = pair.access_token.clone();
    tampered.push('x');
    let invalid = svc.verify_token_at(&tampered, now).unwrap_err();
    assert!(matches!(invalid, ApiError::InvalidToken(_)));
}

#[test]
fn wrong_secret_service_rejects_token() {
    let svc = service();
    let other = AuthService::new(
        String::from("some-other-secret"),
        String::from("refresh-secret-b"),
        3600,
        36000,
    );
    let now: usize = 1_700_000_000;
    let pair = svc.generate_tokens_at("user-7", "Alice", now);
    let err = other.verify_token_at(&pair.access_token, now).unwrap_err();
    assert!(matches!(err, ApiError::InvalidToken(_)));
}

#[test]
fn wrong_secret_of_the_same_length_rejects_token() {
    let svc = service();
    let other = AuthService::new(
        String::from("access-secret-x"),
        String::from("refresh-secret-b"),
        3600,
        36000,
    );
    let now: usize = 1_700_000_000;
    let pair = svc.generate_tokens_at("user-7", "Alice", now);
    let err = other.verify_token_at(&pair.access_token, now).unwrap_err();
    assert!(matches!(err, ApiError::InvalidToken(_)));
}

#[test]
fn refresh_rotates_the_whole_pair_and_preserves_identity() {
    let svc = service();
    let now: usize = 1_700_000_000;
    let pair = svc.generate_tokens_at("user-7", "Alice", now);
    let rotated = svc.refresh_tokens_at(&pair.refresh_token, now + 60).unwrap();

    assert_ne!(rotated.access_token, pair.access_token);
    assert_ne!(rotated.refresh_token, pair.refresh_token);
    assert_ne!(rotated.access_token, pair.refresh_token);
    assert_ne!(rotated.refresh_token, pair.access_token);

    let claims = svc
        .verify_token_at(&rotated.access_token, now + 60)
        .unwrap();
    assert_eq!(claims.id, "user-7");
    assert_eq!(claims.name, "Alice");
    assert_eq!(claims.exp, now + 60 + 3600);
}

#[test]
fn refresh_on_expired_refresh_token_always_fails() {
    let svc = service();
    let now: usize = 1_700_000_000;
    let pair = svc.generate_tokens_at("user-7", "Alice", now);
    let err = svc
        .refresh_tokens_at(&pair.refresh_token, now + 36001)
        .unwrap_err();
    assert!(matches!(err, ApiError::TokenExpired(m) if m == "Refresh token has expired"));
}

#[test]
fn refresh_on_garbage_fails() {
    let svc = service();
    let err = svc
        .refresh_tokens_at("not.a.token", 1_700_000_000)
        .unwrap_err();
    assert!(matches!(err, ApiError::InvalidToken(_)));
}

#[test]
fn clock_based_generate_and_verify_roundtrip() {
    let svc = service();
    let pair = svc.generate_tokens("user-9", "Bob").unwrap();
    let claims = svc.verify_token(&pair.access_token).unwrap();
    assert_eq!(claims.id, "user-9");
    assert_eq!(claims.name, "Bob");
    let rotated = svc.refresh_tokens(&pair.refresh_token).unwrap();
    let claims2 = svc.verify_token(&rotated.access_token).unwrap();
    assert_eq!(claims2.id, "user-9");
}

#[test]
fn empty_identity_roundtrips() {
    let svc = service();
    let now: usize = 1_700_000_000;
    let pair = svc.generate_tokens_at("", "", now);
    let claims = svc.verify_token_at(&pair.access_token, now).unwrap();
    assert_eq!(claims.id, "");
    assert_eq!(claims.name, "");
}
