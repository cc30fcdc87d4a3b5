use client_auth::code_grant_pkce::{derive_challenge, generate_verifier_and_challenge};
use client_auth::generate_state_value;

#[test]
fn pkce_round_trip_generated() {
    let (verifier, challenge) = generate_verifier_and_challenge().expect("random source");
    assert_eq!(derive_challenge(&verifier), challenge);
}

#[test]
fn pkce_known_vector() {
    // Test vector from RFC 7636 appendix B.
    let verifier = "dBjftJeZ4CVP-mB92K27uhbUJU1p1r_wW1gFWFOEjXk";
    assert_eq!(derive_challenge(verifier), "E9Melhoa2OwvFrEMTJguCHaoeK1t8URWbuGJSstw-cM");
}

#[test]
fn verifier_and_challenge_shape() {
    let (verifier, challenge) = generate_verifier_and_challenge().expect("random source");
    // 32 random bytes and a 32-byte digest both render as 43 unpadded chars.
    assert_eq!(verifier.len(), 43);
    assert_eq!(challenge.len(), 43);
    let url_safe = |c: char| c.is_ascii_alphanumeric() || c == '-' || c == '_';
    assert!(verifier.chars().all(url_safe));
    assert!(challenge.chars().all(url_safe));
}

#[test]
fn fresh_pairs_differ() {
    let (v1, _) = generate_verifier_and_challenge().expect("random source");
    let (v2, _) = generate_verifier_and_challenge().expect("random source");
    assert_ne!(v1, v2);
}

#[test]
fn state_value_is_32_lowercase_hex_chars() {
    let s = generate_state_value().expect("random source");
    assert_eq!(s.len(), 32);
    assert!(s.chars().all(|c| c.is_ascii_hexdigit() && !c.is_ascii_uppercase()));
    let t = generate_state_value().expect("random source");
    assert_ne!(s, t);
}
