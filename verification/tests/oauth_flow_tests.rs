use loaa::error::OAuthError;
use loaa::jwt::validate_jwt;
use loaa::pkce::compute_s256_challenge;
use loaa::store::OAuthState;
use loaa::AUTH_CODE_TTL_SECONDS;

const SECRET: &str = "test-signing-secret";
const ISSUER: &str = "http://127.0.0.1:3000";
const AUDIENCE: &str = "loaa-mcp";
const MINUTE: i64 = 60;

fn issue_code(store: &mut OAuthState, now: i64) -> String {
    store.create_authorization_code(
        "c1".to_string(),
        "https://x/cb".to_string(),
        "mcp:tools:read".to_string(),
        compute_s256_challenge("abc"),
        "S256".to_string(),
        "u1".to_string(),
        now,
    )
}

#[test]
fn test_exchange_succeeds_once_then_invalid_grant() {
    let mut store = OAuthState::new();
    let code = issue_code(&mut store, 0);
    let (token, expires_in) = store
        .exchange_code(&code, "c1", "abc", "https://x/cb", 5 * MINUTE, SECRET, ISSUER)
        .unwrap();
    assert_eq!(expires_in, 86400);
    let claims = validate_jwt(&token, SECRET, ISSUER, AUDIENCE, 5 * MINUTE).unwrap();
    assert_eq!(claims.sub, "u1");
    assert_eq!(claims.scope, "mcp:tools:read");
    // The code was consumed: the same exchange a minute later fails.
    let again = store.exchange_code(&code, "c1", "abc", "https://x/cb", 6 * MINUTE, SECRET, ISSUER);
    assert_eq!(again.unwrap_err(), OAuthError::InvalidGrant);
}

#[test]
fn test_exchange_past_ttl_expires_and_purges() {
    let mut store = OAuthState::new();
    let code = issue_code(&mut store, 0);
    let late = store.exchange_code(&code, "c1", "abc", "https://x/cb", 11 * MINUTE, SECRET, ISSUER);
    assert_eq!(late.unwrap_err(), OAuthError::Expired);
    // The stale entry was purged: now the code is simply unknown.
    let gone = store.exchange_code(&code, "c1", "abc", "https://x/cb", 11 * MINUTE, SECRET, ISSUER);
    assert_eq!(gone.unwrap_err(), OAuthError::InvalidGrant);
}

#[test]
fn test_exchange_at_exact_deadline_still_succeeds() {
    let mut store = OAuthState::new();
    let code = issue_code(&mut store, 0);
    let r = store.exchange_code(
        &code,
        "c1",
        "abc",
        "https://x/cb",
        AUTH_CODE_TTL_SECONDS,
        SECRET,
        ISSUER,
    );
    assert!(r.is_ok());
}

#[test]
fn test_wrong_verifier_leaves_code_valid() {
    let mut store = OAuthState::new();
    let code = issue_code(&mut store, 0);
    let bad = store.exchange_code(&code, "c1", "wrong", "https://x/cb", 5 * MINUTE, SECRET, ISSUER);
    assert_eq!(bad.unwrap_err(), OAuthError::InvalidVerifier);
    // A PKCE failure does not consume the code: the correct verifier still works.
    let good = store.exchange_code(&code, "c1", "abc", "https://x/cb", 6 * MINUTE, SECRET, ISSUER);
    assert!(good.is_ok());
}

#[test]
fn test_client_binding() {
    let mut store = OAuthState::new();
    let code = issue_code(&mut store, 0);
    let r = store.exchange_code(&code, "c2", "abc", "https://x/cb", 5 * MINUTE, SECRET, ISSUER);
    assert_eq!(r.unwrap_err(), OAuthError::ClientMismatch);
    // The mismatch left the code in place for the right client.
    let good = store.exchange_code(&code, "c1", "abc", "https://x/cb", 6 * MINUTE, SECRET, ISSUER);
    assert!(good.is_ok());
}

#[test]
fn test_redirect_binding() {
    let mut store = OAuthState::new();
    let code = issue_code(&mut store, 0);
    let r = store.exchange_code(&code, "c1", "abc", "https://y/cb", 5 * MINUTE, SECRET, ISSUER);
    assert_eq!(r.unwrap_err(), OAuthError::RedirectMismatch);
}

#[test]
fn test_unknown_code_is_invalid_grant() {
    let mut store = OAuthState::new();
    let r = store.exchange_code("no-such-code", "c1", "abc", "https://x/cb", 0, SECRET, ISSUER);
    assert_eq!(r.unwrap_err(), OAuthError::InvalidGrant);
}

#[test]
fn test_plain_method_exchange() {
    let mut store = OAuthState::new();
    let code = store.create_authorization_code(
        "c1".to_string(),
        "https://x/cb".to_string(),
        "mcp:tools:read".to_string(),
        "the-plain-secret".to_string(),
        "plain".to_string(),
        "u1".to_string(),
        0,
    );
    let r = store.exchange_code(
        &code,
        "c1",
        "the-plain-secret",
        "https://x/cb",
        MINUTE,
        SECRET,
        ISSUER,
    );
    assert!(r.is_ok());
}

#[test]
fn test_codes_are_distinct() {
    let mut store = OAuthState::new();
    let first = issue_code(&mut store, 0);
    let second = issue_code(&mut store, 0);
    assert_eq!(first.len(), 36);
    assert_eq!(second.len(), 36);
    assert_ne!(first, second);
}

#[test]
fn test_cleanup_purges_only_expired_codes() {
    let mut store = OAuthState::new();
    let stale = issue_code(&mut store, 0);
    let fresh = issue_code(&mut store, 10 * MINUTE);
    // At 10 minutes the first code's deadline has been reached.
    store.cleanup_expired(AUTH_CODE_TTL_SECONDS);
    let gone = store.exchange_code(&stale, "c1", "abc", "https://x/cb", 10 * MINUTE, SECRET, ISSUER);
    assert_eq!(gone.unwrap_err(), OAuthError::InvalidGrant);
    let kept = store.exchange_code(&fresh, "c1", "abc", "https://x/cb", 12 * MINUTE, SECRET, ISSUER);
    assert!(kept.is_ok());
}

#[test]
fn test_error_messages() {
    assert_eq!(OAuthError::InvalidGrant.message(), "Invalid authorization code");
    assert_eq!(OAuthError::Expired.message(), "Authorization code expired");
    assert_eq!(OAuthError::ClientMismatch.message(), "Client ID mismatch");
    assert_eq!(OAuthError::RedirectMismatch.message(), "Redirect URI mismatch");
    assert_eq!(OAuthError::InvalidVerifier.message(), "Invalid code verifier");
    assert_eq!(
        OAuthError::UnsupportedGrantType.message(),
        "Unsupported grant_type. Only 'authorization_code' is supported."
    );
    assert_eq!(OAuthError::InvalidToken.message(), "JWT validation failed");
    assert_eq!(OAuthError::ServerError.message(), "Internal server error");
    assert_eq!(OAuthError::InvalidRequest.message(), "Invalid request");
}
