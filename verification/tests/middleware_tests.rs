use loaa::dto::AccountTypeDto;
use loaa::jwt::mint;
use loaa::middleware::{authenticate_request, bearer_token, www_authenticate_value, RequestAuth};
use loaa::models::user::AccountType;
use loaa::session::{
    account_type_from_session, account_type_value, is_admin_session, login_decision, LoginDecision,
};

const SECRET: &str = "test-signing-secret";
const ISSUER: &str = "http://127.0.0.1:3000";
const AUDIENCE: &str = "loaa-mcp";

#[test]
fn test_www_authenticate_value() {
    assert_eq!(
        www_authenticate_value("http://127.0.0.1:3000"),
        "Bearer resource_metadata=\"http://127.0.0.1:3000/.well-known/oauth-protected-resource\", \
         scope=\"mcp:tools:read mcp:tools:write\""
    );
}

#[test]
fn test_bearer_token_extraction() {
    assert_eq!(bearer_token("Bearer abc.def.ghi"), Some("abc.def.ghi"));
    assert_eq!(bearer_token("Bearer "), Some(""));
    assert_eq!(bearer_token("bearer abc"), None);
    assert_eq!(bearer_token("Basic dXNlcjpwdw=="), None);
    assert_eq!(bearer_token(""), None);
}

#[test]
fn test_request_without_header_is_challenged() {
    match authenticate_request(None, SECRET, ISSUER, 0) {
        RequestAuth::Challenge(m) => assert_eq!(m, "Unauthorized: No Authorization header"),
        RequestAuth::Proceed(_) => panic!("a request without a header may not proceed"),
    }
}

#[test]
fn test_request_without_bearer_scheme_is_challenged() {
    match authenticate_request(Some("Token abc"), SECRET, ISSUER, 0) {
        RequestAuth::Challenge(m) => assert_eq!(m, "Unauthorized: Bearer token required"),
        RequestAuth::Proceed(_) => panic!("a non-bearer header may not proceed"),
    }
}

#[test]
fn test_request_with_bad_token_is_challenged() {
    match authenticate_request(Some("Bearer not.a.token"), SECRET, ISSUER, 0) {
        RequestAuth::Challenge(m) => assert_eq!(m, "Unauthorized: JWT validation failed"),
        RequestAuth::Proceed(_) => panic!("a bad token may not proceed"),
    }
}

#[test]
fn test_request_with_valid_token_proceeds() {
    let now = 1_700_000_000;
    let (token, _) = mint("u1", ISSUER, AUDIENCE, "mcp:tools:read", now, SECRET);
    let header = format!("Bearer {}", token);
    match authenticate_request(Some(&header), SECRET, ISSUER, now) {
        RequestAuth::Proceed(claims) => assert_eq!(claims.sub, "u1"),
        RequestAuth::Challenge(m) => panic!("a valid token was challenged: {}", m),
    }
}

#[test]
fn test_request_with_expired_token_is_challenged() {
    let now = 1_700_000_000;
    let (token, _) = mint("u1", ISSUER, AUDIENCE, "mcp:tools:read", now, SECRET);
    let header = format!("Bearer {}", token);
    match authenticate_request(Some(&header), SECRET, ISSUER, now + 86401) {
        RequestAuth::Challenge(m) => assert_eq!(m, "Unauthorized: JWT validation failed"),
        RequestAuth::Proceed(_) => panic!("an expired token may not proceed"),
    }
}

#[test]
fn test_login_decision_routing() {
    let configured = "admin-pw".to_string();
    assert_eq!(
        login_decision("admin", "admin-pw", Some(&configured)),
        LoginDecision::AdminGranted
    );
    assert_eq!(
        login_decision("admin", "wrong", Some(&configured)),
        LoginDecision::AdminDenied
    );
    assert_eq!(
        login_decision("admin", "admin-pw", None),
        LoginDecision::AdminNotConfigured
    );
    assert_eq!(
        login_decision("alice", "whatever", Some(&configured)),
        LoginDecision::CheckDatabase
    );
}

#[test]
fn test_account_type_markers() {
    assert_eq!(account_type_value(AccountType::Admin), "admin");
    assert_eq!(account_type_value(AccountType::User), "user");
    let admin = "admin".to_string();
    let user = "user".to_string();
    assert_eq!(account_type_from_session(Some(&admin)), AccountTypeDto::Admin);
    assert_eq!(account_type_from_session(Some(&user)), AccountTypeDto::User);
    assert_eq!(account_type_from_session(None), AccountTypeDto::User);
    assert!(is_admin_session(Some(&admin)));
    assert!(!is_admin_session(Some(&user)));
    assert!(!is_admin_session(None));
}
