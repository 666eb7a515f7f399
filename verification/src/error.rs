//! Failure taxonomy of the OAuth subsystem and of the domain models.

use vstd::prelude::*;

verus! {

/// Machine-readable reasons a request into the OAuth subsystem is refused.
///
/// Every variant but [`OAuthError::ServerError`] is client-caused and maps to
/// a 400-class response; `ServerError` maps to a 500-class response whose
/// detail is never returned to the caller.
#[derive(Clone, Copy, Debug, PartialEq, Eq, Structural)]
pub enum OAuthError {
    /// Malformed or missing request parameters.
    InvalidRequest,
    /// The authorization code is unknown.
    InvalidGrant,
    /// The authorization code has passed its expiry deadline.
    Expired,
    /// The client identifier differs from the one recorded at issuance.
    ClientMismatch,
    /// The redirect URI differs from the one recorded at issuance.
    RedirectMismatch,
    /// The PKCE verifier does not match the recorded challenge.
    InvalidVerifier,
    /// The grant type is anything other than `authorization_code`.
    UnsupportedGrantType,
    /// The bearer token failed decoding, signature or claim checks.
    InvalidToken,
    /// Missing configuration or a failing collaborator.
    ServerError,
}

impl OAuthError {
    /// The reason string a handler returns to the client for this error.
    pub fn message(&self) -> (r: &'static str)
        ensures
            r@ == self.spec_message(),
    {
        match self {
            OAuthError::InvalidRequest => "Invalid request",
            OAuthError::InvalidGrant => "Invalid authorization code",
            OAuthError::Expired => "Authorization code expired",
            OAuthError::ClientMismatch => "Client ID mismatch",
            OAuthError::RedirectMismatch => "Redirect URI mismatch",
            OAuthError::InvalidVerifier => "Invalid code verifier",
            OAuthError::UnsupportedGrantType => {
                "Unsupported grant_type. Only 'authorization_code' is supported."
            },
            OAuthError::InvalidToken => "JWT validation failed",
            OAuthError::ServerError => "Internal server error",
        }
    }

    /// Specification-level value of [`OAuthError::message`].
    pub open spec fn spec_message(self) -> Seq<char> {
        match self {
            OAuthError::InvalidRequest => "Invalid request"@,
            OAuthError::InvalidGrant => "Invalid authorization code"@,
            OAuthError::Expired => "Authorization code expired"@,
            OAuthError::ClientMismatch => "Client ID mismatch"@,
            OAuthError::RedirectMismatch => "Redirect URI mismatch"@,
            OAuthError::InvalidVerifier => "Invalid code verifier"@,
            OAuthError::UnsupportedGrantType => {
                "Unsupported grant_type. Only 'authorization_code' is supported."@
            },
            OAuthError::InvalidToken => "JWT validation failed"@,
            OAuthError::ServerError => "Internal server error"@,
        }
    }
}

/// Failures of the domain layer: validation of models and collaborator errors.
#[derive(Clone, Debug)]
pub enum Error {
    /// The document store refused or failed an operation.
    Database(String),
    /// A model value violates its validation rules.
    Validation(String),
    /// A requested record does not exist.
    NotFound(String),
    /// An unexpected internal failure.
    Internal(String),
}

} // verus!
