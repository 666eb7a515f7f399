use loaa::endpoints::{
    authorize_get, check_pending_oauth, token_post, AuthorizeAction, AuthorizeParams, TokenParams,
};
use loaa::error::OAuthError;
use loaa::jwt::validate_jwt;
use loaa::metadata::{get_authorization_server_metadata, get_protected_resource_metadata};
use loaa::pkce::compute_s256_challenge;
use loaa::store::OAuthState;

const SECRET: &str = "test-signing-secret";
const ISSUER: &str = "http://127.0.0.1:3000";
const AUDIENCE: &str = "loaa-mcp";

fn request_params() -> AuthorizeParams {
    AuthorizeParams {
        client_id: "c1".to_string(),
        redirect_uri: "https://x/cb".to_string(),
        scope: "mcp:tools:read".to_string(),
        state: "xyz".to_string(),
        code_challenge: compute_s256_challenge("abc"),
        code_challenge_method: "S256".to_string(),
    }
}

#[test]
fn test_authorize_unauthenticated_defers_to_login() {
    let mut store = OAuthState::new();
    match authorize_get(&mut store, request_params(), None, 0) {
        AuthorizeAction::LoginRedirect { pending } => {
            assert_eq!(pending.client_id, "c1");
            assert_eq!(pending.state, "xyz");
        }
        AuthorizeAction::CodeRedirect { .. } => panic!("no code may be issued before login"),
    }
}

#[test]
fn test_authorize_authenticated_issues_code() {
    let mut store = OAuthState::new();
    let url = match authorize_get(&mut store, request_params(), Some("u1".to_string()), 0) {
        AuthorizeAction::CodeRedirect { url } => url,
        AuthorizeAction::LoginRedirect { .. } => panic!("an authenticated user gets a code"),
    };
    let prefix = "https://x/cb?code=";
    let suffix = "&state=xyz";
    assert!(url.starts_with(prefix), "unexpected redirect: {}", url);
    assert!(url.ends_with(suffix), "unexpected redirect: {}", url);
    let code = &url[prefix.len()..url.len() - suffix.len()];
    assert_eq!(code.len(), 36);
    // The code in the URL really is exchangeable.
    let r = store.exchange_code(code, "c1", "abc", "https://x/cb", 60, SECRET, ISSUER);
    assert!(r.is_ok());
}

#[test]
fn test_token_post_rejects_other_grant_types() {
    let mut store = OAuthState::new();
    let params = TokenParams {
        grant_type: "client_credentials".to_string(),
        code: String::new(),
        client_id: "c1".to_string(),
        code_verifier: String::new(),
        redirect_uri: "https://x/cb".to_string(),
    };
    let r = token_post(&mut store, &params, 0, SECRET, ISSUER);
    assert_eq!(r.unwrap_err(), OAuthError::UnsupportedGrantType);
}

#[test]
fn test_token_post_full_flow() {
    let mut store = OAuthState::new();
    let url = match authorize_get(&mut store, request_params(), Some("u1".to_string()), 0) {
        AuthorizeAction::CodeRedirect { url } => url,
        AuthorizeAction::LoginRedirect { .. } => panic!("an authenticated user gets a code"),
    };
    let code = url["https://x/cb?code=".len()..url.len() - "&state=xyz".len()].to_string();
    let params = TokenParams {
        grant_type: "authorization_code".to_string(),
        code,
        client_id: "c1".to_string(),
        code_verifier: "abc".to_string(),
        redirect_uri: "https://x/cb".to_string(),
    };
    let response = token_post(&mut store, &params, 300, SECRET, ISSUER).unwrap();
    assert_eq!(response.token_type, "Bearer");
    assert_eq!(response.expires_in, 86400);
    assert!(response.refresh_token.is_none());
    let claims = validate_jwt(&response.access_token, SECRET, ISSUER, AUDIENCE, 300).unwrap();
    assert_eq!(claims.sub, "u1");
    // Single use: the same token request fails the second time.
    let again = token_post(&mut store, &params, 360, SECRET, ISSUER);
    assert_eq!(again.unwrap_err(), OAuthError::InvalidGrant);
}

#[test]
fn test_check_pending_oauth_none_pending() {
    let r = check_pending_oauth(None, None, None, None, None, None);
    assert_eq!(r.unwrap(), None);
}

#[test]
fn test_check_pending_oauth_builds_url() {
    let r = check_pending_oauth(
        Some("c1".to_string()),
        Some("https://x/cb".to_string()),
        Some("mcp:tools:read".to_string()),
        Some("xyz".to_string()),
        Some("challenge".to_string()),
        Some("S256".to_string()),
    );
    assert_eq!(
        r.unwrap().unwrap(),
        "/oauth/authorize?client_id=c1&redirect_uri=https://x/cb&scope=mcp:tools:read\
         &state=xyz&code_challenge=challenge&code_challenge_method=S256"
    );
}

#[test]
fn test_check_pending_oauth_broken_session() {
    let r = check_pending_oauth(
        Some("c1".to_string()),
        None,
        Some("mcp:tools:read".to_string()),
        Some("xyz".to_string()),
        Some("challenge".to_string()),
        Some("S256".to_string()),
    );
    assert_eq!(r.unwrap_err(), OAuthError::ServerError);
}

#[test]
fn test_authorization_server_metadata_values() {
    let m = get_authorization_server_metadata("http://127.0.0.1:3000");
    assert_eq!(m.issuer, "http://127.0.0.1:3000");
    assert_eq!(m.authorization_endpoint, "http://127.0.0.1:3000/oauth/authorize");
    assert_eq!(m.token_endpoint, "http://127.0.0.1:3000/oauth/token");
    assert_eq!(m.code_challenge_methods_supported, vec!["S256".to_string()]);
    assert_eq!(m.grant_types_supported, vec!["authorization_code".to_string()]);
    assert_eq!(m.response_types_supported, vec!["code".to_string()]);
    assert_eq!(
        m.scopes_supported,
        vec!["mcp:tools:read".to_string(), "mcp:tools:write".to_string()]
    );
}

#[test]
fn test_protected_resource_metadata_values() {
    let m = get_protected_resource_metadata("http://127.0.0.1:3000");
    assert_eq!(m.resource, "http://127.0.0.1:3000/mcp");
    assert_eq!(m.authorization_servers, vec!["http://127.0.0.1:3000".to_string()]);
}
