use loaa::error::OAuthError;
use loaa::jwt::{mint, validate_jwt};
use loaa::ACCESS_TOKEN_TTL_SECONDS;

const SECRET: &str = "test-signing-secret";
const ISSUER: &str = "http://127.0.0.1:3000";
const AUDIENCE: &str = "loaa-mcp";

#[test]
fn test_jwt_round_trip() {
    let now = 1_700_000_000;
    let (token, expires_in) = mint("u1", ISSUER, AUDIENCE, "mcp:tools:read", now, SECRET);
    assert_eq!(expires_in, ACCESS_TOKEN_TTL_SECONDS);
    let claims = validate_jwt(&token, SECRET, ISSUER, AUDIENCE, now).unwrap();
    assert_eq!(claims.sub, "u1");
    assert_eq!(claims.scope, "mcp:tools:read");
    assert_eq!(claims.iss, ISSUER);
    assert_eq!(claims.aud, AUDIENCE);
    assert_eq!(claims.iat, now);
    assert_eq!(claims.exp, now + ACCESS_TOKEN_TTL_SECONDS);
}

#[test]
fn test_jwt_valid_until_expiry() {
    let now = 1_700_000_000;
    let (token, _) = mint("u1", ISSUER, AUDIENCE, "mcp:tools:read", now, SECRET);
    // Still valid at the deadline itself.
    assert!(validate_jwt(&token, SECRET, ISSUER, AUDIENCE, now + ACCESS_TOKEN_TTL_SECONDS).is_ok());
    // One second past the deadline it is refused.
    let late = validate_jwt(&token, SECRET, ISSUER, AUDIENCE, now + ACCESS_TOKEN_TTL_SECONDS + 1);
    assert_eq!(late.unwrap_err(), OAuthError::InvalidToken);
}

#[test]
fn test_jwt_issuer_pinning() {
    let now = 1_700_000_000;
    let (token, _) = mint("u1", ISSUER, AUDIENCE, "mcp:tools:read", now, SECRET);
    let wrong = validate_jwt(&token, SECRET, "http://other.example", AUDIENCE, now);
    assert_eq!(wrong.unwrap_err(), OAuthError::InvalidToken);
}

#[test]
fn test_jwt_audience_pinning() {
    let now = 1_700_000_000;
    let (token, _) = mint("u1", ISSUER, AUDIENCE, "mcp:tools:read", now, SECRET);
    let wrong = validate_jwt(&token, SECRET, ISSUER, "other-audience", now);
    assert_eq!(wrong.unwrap_err(), OAuthError::InvalidToken);
}

#[test]
fn test_jwt_wrong_secret_rejected() {
    let now = 1_700_000_000;
    let (token, _) = mint("u1", ISSUER, AUDIENCE, "mcp:tools:read", now, SECRET);
    let wrong = validate_jwt(&token, "another-secret", ISSUER, AUDIENCE, now);
    assert_eq!(wrong.unwrap_err(), OAuthError::InvalidToken);
}

#[test]
fn test_jwt_garbage_rejected() {
    let now = 1_700_000_000;
    assert!(validate_jwt("", SECRET, ISSUER, AUDIENCE, now).is_err());
    assert!(validate_jwt("not-a-token", SECRET, ISSUER, AUDIENCE, now).is_err());
    assert!(validate_jwt("a.b.c", SECRET, ISSUER, AUDIENCE, now).is_err());
}

#[test]
fn test_jwt_tampered_token_rejected() {
    let now = 1_700_000_000;
    let (token, _) = mint("u1", ISSUER, AUDIENCE, "mcp:tools:read", now, SECRET);
    let mut tampered = token.clone();
    let flipped = if tampered.ends_with('A') { 'B' } else { 'A' };
    tampered.pop();
    tampered.push(flipped);
    assert!(validate_jwt(&tampered, SECRET, ISSUER, AUDIENCE, now).is_err());
}

#[test]
fn test_jwt_token_shape() {
    let now = 1_700_000_000;
    let (token, _) = mint("u1", ISSUER, AUDIENCE, "mcp:tools:read", now, SECRET);
    // A compact JWT: three dot-separated base64url segments.
    assert_eq!(token.split('.').count(), 3);
}
