//! The resource-server side of the flow: every protected request must carry
//! `Authorization: Bearer <token>`, and the token must validate against the
//! expected issuer and the fixed audience.
//!
//! Header extraction and response plumbing belong to the caller; the
//! functions here decide, from the header value and the clock, whether the
//! request proceeds and under which identity.

use vstd::prelude::*;
use vstd::string::{StringExecFns, StrSliceExecFns};
use crate::jwt::{validate_jwt, validate_outcome, Claims};
use crate::text::str_eq;

verus! {

/// The `WWW-Authenticate` challenge attached to every 401 response, pointing
/// compliant clients at the protected-resource metadata document.
pub fn www_authenticate_value(base_url: &str) -> (r: String)
    ensures
        r@ == "Bearer resource_metadata=\""@ + base_url@
            + "/.well-known/oauth-protected-resource\", scope=\"mcp:tools:read mcp:tools:write\""@,
{
    let mut value = String::from_str("Bearer resource_metadata=\"");
    value.append(base_url);
    value.append("/.well-known/oauth-protected-resource\", scope=\"mcp:tools:read mcp:tools:write\"");
    value
}

/// Whether a header value has the `Bearer <token>` shape.
pub open spec fn has_bearer_shape(header: Seq<char>) -> bool {
    header.len() >= 7 && header.subrange(0, 7) == "Bearer "@
}

/// The token part of a `Bearer <token>` header value.
pub open spec fn bearer_token_of(header: Seq<char>) -> Seq<char> {
    header.subrange(7, header.len() as int)
}

/// Strip the `Bearer ` scheme from an `Authorization` header value.
pub fn bearer_token(header: &str) -> (r: Option<&str>)
    ensures
        match r {
            Some(t) => has_bearer_shape(header@) && t@ == bearer_token_of(header@),
            None => !has_bearer_shape(header@),
        },
{
    proof {
        reveal_strlit("Bearer ");
    }
    let n = header.unicode_len();
    if n < 7 {
        return None;
    }
    let prefix = header.substring_char(0, 7);
    if !str_eq(prefix, "Bearer ") {
        return None;
    }
    Some(header.substring_char(7, n))
}

/// What the resource server does with a request.
pub enum RequestAuth {
    /// The token validated; the request proceeds under this caller identity.
    Proceed(Claims),
    /// Refuse with 401, this body message, and the challenge header of
    /// [`www_authenticate_value`].
    Challenge(String),
}

/// Decide whether a protected request may proceed: the `Authorization`
/// header must be present, carry the `Bearer ` scheme, and hold a token that
/// validates at `now` against `expected_issuer` and the fixed audience.
/// A failed validation yields a uniform message; the cause is for the log,
/// never for the caller.
pub fn authenticate_request(
    auth_header: Option<&str>,
    jwt_secret: &str,
    expected_issuer: &str,
    now: i64,
) -> (r: RequestAuth)
    ensures
        match auth_header {
            None => r matches RequestAuth::Challenge(m) && m@
                == "Unauthorized: No Authorization header"@,
            Some(h) => {
                if !has_bearer_shape(h@) {
                    r matches RequestAuth::Challenge(m) && m@
                        == "Unauthorized: Bearer token required"@
                } else {
                    match validate_outcome(
                        bearer_token_of(h@),
                        jwt_secret@,
                        expected_issuer@,
                        crate::spec_token_audience(),
                        now as int,
                    ) {
                        Ok(claims) => r matches RequestAuth::Proceed(c) && c@ == claims,
                        Err(_) => r matches RequestAuth::Challenge(m) && m@
                            == "Unauthorized: JWT validation failed"@,
                    }
                }
            },
        },
{
    let header = match auth_header {
        None => {
            return RequestAuth::Challenge(String::from_str("Unauthorized: No Authorization header"));
        },
        Some(h) => h,
    };
    let token = match bearer_token(header) {
        None => {
            return RequestAuth::Challenge(String::from_str("Unauthorized: Bearer token required"));
        },
        Some(t) => t,
    };
    match validate_jwt(token, jwt_secret, expected_issuer, crate::token_audience(), now) {
        Ok(claims) => RequestAuth::Proceed(claims),
        Err(_) => RequestAuth::Challenge(String::from_str("Unauthorized: JWT validation failed")),
    }
}

} // verus!
