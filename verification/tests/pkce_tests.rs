use stirling_auth::pkce::{create_session, generate_code_challenge, generate_code_verifier};

#[test]
fn verifier_is_128_alphanumeric_chars() {
    let v = generate_code_verifier();
    assert_eq!(v.chars().count(), 128);
    assert!(v.chars().all(|c| c.is_ascii_alphanumeric()));
}

#[test]
fn challenge_is_deterministic() {
    let a = generate_code_challenge("some-fixed-verifier-value");
    let b = generate_code_challenge("some-fixed-verifier-value");
    assert_eq!(a, b);
    let c = generate_code_challenge("another-verifier-value");
    assert_ne!(a, c);
}

#[test]
fn challenge_is_base64url_without_padding() {
    let v = generate_code_verifier();
    let c = generate_code_challenge(&v);
    assert_eq!(c.chars().count(), 43);
    assert!(!c.contains('='));
    assert!(!c.contains('+'));
    assert!(!c.contains('/'));
    assert!(c.chars().all(|ch| ch.is_ascii_alphanumeric() || ch == '-' || ch == '_'));
}

#[test]
fn challenge_known_vector() {
    // SHA-256("test") encoded base64url without padding.
    assert_eq!(
        generate_code_challenge("test"),
        "n4bQgYhMfWWaL-qgxVrQFaO_TxsrC4Is0V1sFbDwCgg"
    );
}

#[test]
fn session_pairs_verifier_and_challenge() {
    let s = create_session();
    assert_eq!(s.code_verifier.chars().count(), 128);
    assert_eq!(s.code_challenge, generate_code_challenge(&s.code_verifier));
}
