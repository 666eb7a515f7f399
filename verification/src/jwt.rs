//! Minting and validation of the signed bearer tokens (JWTs) that carry a
//! caller's identity between the token endpoint and the protected resource.
//!
//! Tokens are self-describing: validation needs no server-side state beyond
//! the process-wide signing secret, the expected issuer and audience, and the
//! current time.

use vstd::prelude::*;
use std::collections::HashSet;
use jsonwebtoken::{decode, encode, Algorithm, DecodingKey, EncodingKey, Header, Validation};
use crate::error::OAuthError;
use crate::text::str_eq;

verus! {

/// The claims carried inside an access token.
#[derive(Clone, Debug)]
pub struct Claims {
    /// Subject: the authenticated user's identity.
    pub sub: String,
    /// Issuer: the authorization server's public base URL.
    pub iss: String,
    /// Audience: the fixed identifier of the protected resource.
    pub aud: String,
    /// Expiration time as a Unix timestamp in seconds.
    pub exp: i64,
    /// Issuance time as a Unix timestamp in seconds.
    pub iat: i64,
    /// OAuth scopes, copied verbatim from the authorization request.
    pub scope: String,
}

/// Mathematical model of [`Claims`].
pub struct ClaimsData {
    pub sub: Seq<char>,
    pub iss: Seq<char>,
    pub aud: Seq<char>,
    pub exp: int,
    pub iat: int,
    pub scope: Seq<char>,
}

impl View for Claims {
    type V = ClaimsData;

    open spec fn view(&self) -> ClaimsData {
        ClaimsData {
            sub: self.sub@,
            iss: self.iss@,
            aud: self.aud@,
            exp: self.exp as int,
            iat: self.iat as int,
            scope: self.scope@,
        }
    }
}

/// The compact HS256 token that `jsonwebtoken::encode` produces for the given
/// claims under the given secret.
pub uninterp spec fn jwt_encoding(
    sub: Seq<char>,
    iss: Seq<char>,
    aud: Seq<char>,
    exp: int,
    iat: int,
    scope: Seq<char>,
    secret: Seq<char>,
) -> Seq<char>;

/// The claims that `jsonwebtoken::decode` recovers from a token under the
/// given secret after verifying its HS256 signature, or `None` when the token
/// is structurally invalid, uses another algorithm, fails its signature
/// check, or lacks one of the expected claims.
pub uninterp spec fn jwt_payload(token: Seq<char>, secret: Seq<char>) -> Option<ClaimsData>;

/// Relies on `jsonwebtoken::encode` with HS256: the compact token depends on
/// the claims and the secret alone, and a token it produces decodes back to
/// exactly those claims under the same secret.  With an HMAC key, HS256
/// signing of JSON claims cannot fail.
#[verifier::external_body]
fn jwt_encode(sub: &str, iss: &str, aud: &str, exp: i64, iat: i64, scope: &str, secret: &str) -> (r:
    String)
    ensures
        r@ == jwt_encoding(sub@, iss@, aud@, exp as int, iat as int, scope@, secret@),
        jwt_payload(r@, secret@) == Some(
            ClaimsData {
                sub: sub@,
                iss: iss@,
                aud: aud@,
                exp: exp as int,
                iat: iat as int,
                scope: scope@,
            },
        ),
{
    let mut claims = serde_json::Map::new();
    claims.insert("sub".into(), sub.into());
    claims.insert("iss".into(), iss.into());
    claims.insert("aud".into(), aud.into());
    claims.insert("exp".into(), exp.into());
    claims.insert("iat".into(), iat.into());
    claims.insert("scope".into(), scope.into());
    let key = EncodingKey::from_secret(secret.as_bytes());
    encode(&Header::default(), &serde_json::Value::Object(claims), &key)
        .expect("HS256 signing of JSON claims does not fail")
}

/// Relies on `jsonwebtoken::decode` with HS256 and time/audience validation
/// disabled: the recovered claims depend on the token and the secret alone.
#[verifier::external_body]
fn jwt_decode(token: &str, secret: &str) -> (r: Option<Claims>)
    ensures
        match r {
            Some(c) => jwt_payload(token@, secret@) == Some(c@),
            None => jwt_payload(token@, secret@) is None,
        },
{
    let mut validation = Validation::new(Algorithm::HS256);
    validation.validate_exp = false;
    validation.validate_aud = false;
    validation.required_spec_claims = HashSet::new();
    let key = DecodingKey::from_secret(secret.as_bytes());
    let c = decode::<serde_json::Value>(token, &key, &validation).ok()?.claims;
    Some(Claims {
        sub: c.get("sub")?.as_str()?.to_string(),
        iss: c.get("iss")?.as_str()?.to_string(),
        aud: c.get("aud")?.as_str()?.to_string(),
        exp: c.get("exp")?.as_i64()?,
        iat: c.get("iat")?.as_i64()?,
        scope: c.get("scope")?.as_str()?.to_string(),
    })
}

/// Mint a signed access token for `subject`, valid from `now` for
/// [`crate::ACCESS_TOKEN_TTL_SECONDS`] seconds, and return it together with
/// that time-to-live (needed for the token-endpoint response body).
pub fn mint(subject: &str, issuer: &str, audience: &str, scope: &str, now: i64, secret: &str) -> (r:
    (String, i64))
    requires
        now + crate::ACCESS_TOKEN_TTL_SECONDS <= i64::MAX,
    ensures
        r.0@ == jwt_encoding(
            subject@,
            issuer@,
            audience@,
            now + crate::ACCESS_TOKEN_TTL_SECONDS,
            now as int,
            scope@,
            secret@,
        ),
        jwt_payload(r.0@, secret@) == Some(
            ClaimsData {
                sub: subject@,
                iss: issuer@,
                aud: audience@,
                exp: now + crate::ACCESS_TOKEN_TTL_SECONDS,
                iat: now as int,
                scope: scope@,
            },
        ),
        r.1 == crate::ACCESS_TOKEN_TTL_SECONDS,
{
    let expires_at = now + crate::ACCESS_TOKEN_TTL_SECONDS;
    let token = jwt_encode(subject, issuer, audience, expires_at, now, scope, secret);
    (token, crate::ACCESS_TOKEN_TTL_SECONDS)
}

/// The outcome [`validate_jwt`] is obliged to return: the recovered claims
/// when the signature verifies, the token is not past its expiry at `now`,
/// and issuer and audience equal the expected values; otherwise a uniform
/// `InvalidToken` error, so that callers cannot distinguish failure causes.
pub open spec fn validate_outcome(
    token: Seq<char>,
    secret: Seq<char>,
    expected_issuer: Seq<char>,
    expected_audience: Seq<char>,
    now: int,
) -> Result<ClaimsData, OAuthError> {
    match jwt_payload(token, secret) {
        Option::None => Err(OAuthError::InvalidToken),
        Option::Some(c) => {
            if now > c.exp {
                Err(OAuthError::InvalidToken)
            } else if c.iss != expected_issuer {
                Err(OAuthError::InvalidToken)
            } else if c.aud != expected_audience {
                Err(OAuthError::InvalidToken)
            } else {
                Ok(c)
            }
        },
    }
}

/// Validate a bearer token: verify its signature, reject it past its expiry
/// or under an unexpected issuer or audience, and return its claims.
pub fn validate_jwt(
    token: &str,
    secret: &str,
    expected_issuer: &str,
    expected_audience: &str,
    now: i64,
) -> (r: Result<Claims, OAuthError>)
    ensures
        match r {
            Ok(c) => validate_outcome(token@, secret@, expected_issuer@, expected_audience@, now as int)
                == Ok::<ClaimsData, OAuthError>(c@),
            Err(e) => validate_outcome(token@, secret@, expected_issuer@, expected_audience@, now as int)
                == Err::<ClaimsData, OAuthError>(e),
        },
{
    match jwt_decode(token, secret) {
        None => Err(OAuthError::InvalidToken),
        Some(claims) => {
            if now > claims.exp {
                Err(OAuthError::InvalidToken)
            } else if !str_eq(claims.iss.as_str(), expected_issuer) {
                Err(OAuthError::InvalidToken)
            } else if !str_eq(claims.aud.as_str(), expected_audience) {
                Err(OAuthError::InvalidToken)
            } else {
                Ok(claims)
            }
        },
    }
}

/// Law: a token whose recovered payload carries the claims a mint at time
/// `iat` produces validates successfully, with the original subject and
/// scope, at every time up to its expiry, and fails past it.
pub proof fn lemma_jwt_round_trip(
    token: Seq<char>,
    secret: Seq<char>,
    sub: Seq<char>,
    iss: Seq<char>,
    aud: Seq<char>,
    iat: int,
    scope: Seq<char>,
    now: int,
)
    requires
        jwt_payload(token, secret) == Some(
            ClaimsData {
                sub: sub,
                iss: iss,
                aud: aud,
                exp: iat + crate::ACCESS_TOKEN_TTL_SECONDS,
                iat: iat,
                scope: scope,
            },
        ),
    ensures
        now <= iat + crate::ACCESS_TOKEN_TTL_SECONDS ==> validate_outcome(
            token,
            secret,
            iss,
            aud,
            now,
        ) == Ok::<ClaimsData, OAuthError>(
            ClaimsData {
                sub: sub,
                iss: iss,
                aud: aud,
                exp: iat + crate::ACCESS_TOKEN_TTL_SECONDS,
                iat: iat,
                scope: scope,
            },
        ),
        now > iat + crate::ACCESS_TOKEN_TTL_SECONDS ==> validate_outcome(
            token,
            secret,
            iss,
            aud,
            now,
        ) == Err::<ClaimsData, OAuthError>(OAuthError::InvalidToken),
{
}

/// Law: a token minted for one issuer or audience fails validation against a
/// different expected issuer or audience, even when otherwise well-formed
/// and unexpired.
pub proof fn lemma_issuer_audience_pinning(
    token: Seq<char>,
    secret: Seq<char>,
    claims: ClaimsData,
    expected_issuer: Seq<char>,
    expected_audience: Seq<char>,
    now: int,
)
    requires
        jwt_payload(token, secret) == Some(claims),
        claims.iss != expected_issuer || claims.aud != expected_audience,
    ensures
        validate_outcome(token, secret, expected_issuer, expected_audience, now) == Err::<
            ClaimsData,
            OAuthError,
        >(OAuthError::InvalidToken),
{
}

} // verus!
