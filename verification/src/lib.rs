//! OAuth 2.1 authorization-code flow with PKCE and JWT access tokens,
//! together with the configuration and domain models of the allowance
//! tracker that the flow protects.

use vstd::prelude::*;

pub mod activity;
pub mod config;
pub mod dto;
pub mod endpoints;
pub mod error;
pub mod events;
pub mod jwt;
pub mod metadata;
pub mod middleware;
pub mod models;
pub mod pkce;
pub mod session;
pub mod store;
pub mod text;
pub mod workflows;

verus! {

/// Number of seconds an access token stays valid after it is minted.
pub const ACCESS_TOKEN_TTL_SECONDS: i64 = 86400;

/// Number of seconds an authorization code stays valid after it is issued.
pub const AUTH_CODE_TTL_SECONDS: i64 = 600;

/// The fixed audience string carried by every access token: it identifies
/// the protected tool-calling API as the intended consumer.
pub fn token_audience() -> (r: &'static str)
    ensures
        r@ == spec_token_audience(),
{
    "loaa-mcp"
}

/// Specification-level value of the fixed token audience.
pub open spec fn spec_token_audience() -> Seq<char> {
    "loaa-mcp"@
}

/// Relies on `uuid::Uuid::new_v4` and its hyphenated string form: a fresh
/// random version-4 identifier, always 36 characters long.  Nothing is
/// promised about its value.
#[verifier::external_body]
pub(crate) fn fresh_uuid() -> (r: String)
    ensures
        r@.len() == 36,
{
    uuid::Uuid::new_v4().to_string()
}

} // verus!
