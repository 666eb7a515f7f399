//! The discovery documents: authorization-server metadata and
//! protected-resource metadata, both derived from the server's externally
//! visible base URL.  Rendering them as JSON belongs to the caller.

use vstd::prelude::*;
use vstd::string::StringExecFns;

verus! {

/// The authorization-server discovery document.
#[derive(Clone, Debug)]
pub struct AuthorizationServerMetadata {
    pub issuer: String,
    pub authorization_endpoint: String,
    pub token_endpoint: String,
    pub code_challenge_methods_supported: Vec<String>,
    pub grant_types_supported: Vec<String>,
    pub response_types_supported: Vec<String>,
    pub scopes_supported: Vec<String>,
}

/// The protected-resource discovery document.
#[derive(Clone, Debug)]
pub struct ProtectedResourceMetadata {
    pub resource: String,
    pub authorization_servers: Vec<String>,
}

/// The authorization-server metadata for a server living at `base_url`: the
/// base URL is the issuer, the endpoints hang under `/oauth`, and only the
/// `authorization_code` grant with `S256` challenges and `code` responses is
/// advertised.
pub fn get_authorization_server_metadata(base_url: &str) -> (r: AuthorizationServerMetadata)
    ensures
        r.issuer@ == base_url@,
        r.authorization_endpoint@ == base_url@ + "/oauth/authorize"@,
        r.token_endpoint@ == base_url@ + "/oauth/token"@,
        r.code_challenge_methods_supported@.len() == 1,
        r.code_challenge_methods_supported@[0]@ == "S256"@,
        r.grant_types_supported@.len() == 1,
        r.grant_types_supported@[0]@ == "authorization_code"@,
        r.response_types_supported@.len() == 1,
        r.response_types_supported@[0]@ == "code"@,
        r.scopes_supported@.len() == 2,
        r.scopes_supported@[0]@ == "mcp:tools:read"@,
        r.scopes_supported@[1]@ == "mcp:tools:write"@,
{
    let issuer = base_url.to_owned();
    let mut authorization_endpoint = base_url.to_owned();
    authorization_endpoint.append("/oauth/authorize");
    let mut token_endpoint = base_url.to_owned();
    token_endpoint.append("/oauth/token");
    let mut code_challenge_methods_supported: Vec<String> = Vec::new();
    code_challenge_methods_supported.push(String::from_str("S256"));
    let mut grant_types_supported: Vec<String> = Vec::new();
    grant_types_supported.push(String::from_str("authorization_code"));
    let mut response_types_supported: Vec<String> = Vec::new();
    response_types_supported.push(String::from_str("code"));
    let mut scopes_supported: Vec<String> = Vec::new();
    scopes_supported.push(String::from_str("mcp:tools:read"));
    scopes_supported.push(String::from_str("mcp:tools:write"));
    AuthorizationServerMetadata {
        issuer,
        authorization_endpoint,
        token_endpoint,
        code_challenge_methods_supported,
        grant_types_supported,
        response_types_supported,
        scopes_supported,
    }
}

/// The protected-resource metadata for a server living at `base_url`: the
/// protected API lives under `/mcp`, and the server itself is the only
/// authorization server.
pub fn get_protected_resource_metadata(base_url: &str) -> (r: ProtectedResourceMetadata)
    ensures
        r.resource@ == base_url@ + "/mcp"@,
        r.authorization_servers@.len() == 1,
        r.authorization_servers@[0]@ == base_url@,
{
    let mut resource = base_url.to_owned();
    resource.append("/mcp");
    let mut authorization_servers: Vec<String> = Vec::new();
    authorization_servers.push(base_url.to_owned());
    ProtectedResourceMetadata { resource, authorization_servers }
}

} // verus!
