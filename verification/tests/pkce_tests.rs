use loaa::pkce::{compute_s256_challenge, verify_pkce};

#[test]
fn test_s256_challenge_exact_value() {
    // BASE64URL(SHA256("abc")) without padding.
    assert_eq!(
        compute_s256_challenge("abc"),
        "ungWv48Bz-pBQUDeXa4iI7ADYaOWF3qctBD_YfIAFa0"
    );
}

#[test]
fn test_s256_round_trip() {
    let challenge = compute_s256_challenge("verifier-one");
    assert!(verify_pkce("verifier-one", &challenge, "S256"));
}

#[test]
fn test_s256_wrong_verifier_rejected() {
    let challenge = compute_s256_challenge("verifier-one");
    assert!(!verify_pkce("verifier-two", &challenge, "S256"));
    assert!(!verify_pkce("", &challenge, "S256"));
}

#[test]
fn test_distinct_verifiers_give_distinct_challenges() {
    assert_ne!(
        compute_s256_challenge("verifier-one"),
        compute_s256_challenge("verifier-two")
    );
}

#[test]
fn test_challenge_deterministic() {
    assert_eq!(
        compute_s256_challenge("verifier-one"),
        "oWznZcvhw3QgQqHwlFZIHuizYuQqAUxGDf_q-c8CmY4"
    );
    assert_eq!(
        compute_s256_challenge("verifier-one"),
        compute_s256_challenge("verifier-one")
    );
}

#[test]
fn test_plain_method_compares_directly() {
    assert!(verify_pkce("the-same-value", "the-same-value", "plain"));
    assert!(!verify_pkce("one-value", "another-value", "plain"));
    // Any non-S256 method falls back to the plain comparison.
    assert!(verify_pkce("v", "v", "unknown-method"));
}

#[test]
fn test_s256_verifier_is_not_its_own_challenge() {
    // Under S256 the raw verifier must not pass as its own challenge.
    assert!(!verify_pkce("verifier-one", "verifier-one", "S256"));
}
