//! PKCE (Proof Key for Code Exchange) challenge computation and verification.
//!
//! A client binds its authorization request to a secret `code_verifier` by
//! sending `code_challenge = BASE64URL(SHA256(code_verifier))` (method `S256`)
//! or the verifier itself (method `plain`).  At exchange time the verifier is
//! presented and must reproduce the recorded challenge.

use vstd::prelude::*;
use vstd::utf8::encode_utf8;
use crate::text::str_eq;
use base64::Engine;
use sha2::Digest;

verus! {

/// The SHA-256 digest of a byte sequence, as computed by the `sha2` crate.
pub uninterp spec fn sha256_of(data: Seq<u8>) -> Seq<u8>;

/// The unpadded URL-safe base64 encoding of a byte sequence, as computed by
/// the `base64` crate.
pub uninterp spec fn base64url_of(data: Seq<u8>) -> Seq<char>;

/// The `S256` code challenge derived from a code verifier: the unpadded
/// URL-safe base64 encoding of the SHA-256 digest of the verifier's bytes.
pub open spec fn s256_challenge_of(verifier: Seq<char>) -> Seq<char> {
    base64url_of(sha256_of(encode_utf8(verifier)))
}

/// Whether a presented code verifier matches a recorded challenge under the
/// recorded challenge method.  Method `S256` compares against the derived
/// challenge; any other method compares the verifier directly (the weaker
/// `plain` method, kept for compatibility).
pub open spec fn pkce_matches(verifier: Seq<char>, challenge: Seq<char>, method: Seq<char>) -> bool {
    if method == "S256"@ {
        challenge == s256_challenge_of(verifier)
    } else {
        challenge == verifier
    }
}

/// Relies on `sha2::Sha256::digest`: the digest depends on the input bytes
/// alone and is exactly 32 bytes long.
#[verifier::external_body]
fn sha256_digest(data: &[u8]) -> (r: Vec<u8>)
    ensures
        r@ == sha256_of(data@),
        r@.len() == 32,
{
    sha2::Sha256::digest(data).to_vec()
}

/// Relies on `base64`'s `URL_SAFE_NO_PAD` engine: the unpadded URL-safe
/// encoding depends on the input bytes alone.
#[verifier::external_body]
fn base64url_encode(data: &[u8]) -> (r: String)
    ensures
        r@ == base64url_of(data@),
{
    base64::engine::general_purpose::URL_SAFE_NO_PAD.encode(data)
}

/// Compute the `S256` code challenge for a verifier, as a client would before
/// starting an authorization request.
pub fn compute_s256_challenge(code_verifier: &str) -> (r: String)
    ensures
        r@ == s256_challenge_of(code_verifier@),
{
    let digest = sha256_digest(code_verifier.as_bytes());
    base64url_encode(digest.as_slice())
}

/// Decide whether `code_verifier` matches the challenge recorded at
/// authorization time.  No side effects.
pub fn verify_pkce(code_verifier: &str, code_challenge: &str, code_challenge_method: &str) -> (r:
    bool)
    ensures
        r == pkce_matches(code_verifier@, code_challenge@, code_challenge_method@),
{
    if str_eq(code_challenge_method, "S256") {
        let computed = compute_s256_challenge(code_verifier);
        str_eq(computed.as_str(), code_challenge)
    } else {
        str_eq(code_verifier, code_challenge)
    }
}

/// Law: an `S256` challenge computed from a verifier always matches when the
/// same verifier is supplied at exchange time.
pub proof fn lemma_pkce_round_trip(verifier: Seq<char>)
    ensures
        pkce_matches(verifier, s256_challenge_of(verifier), "S256"@),
{
}

} // verus!
