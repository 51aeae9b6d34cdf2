use rustlang_rocket_mongodb::hasher::{hash, hash_with_salt, verify, HashError};

#[test]
fn hash_then_verify_accepts_the_password() {
    let encoded = hash("secret123").unwrap();
    assert!(verify("secret123", &encoded));
}

#[test]
fn verify_rejects_another_password() {
    let encoded = hash("secret123").unwrap();
    assert!(!verify("wrong", &encoded));
    assert!(!verify("", &encoded));
}

#[test]
fn hash_is_not_the_plaintext() {
    let encoded = hash("secret123").unwrap();
    assert_ne!(encoded, "secret123");
    assert!(encoded.starts_with("$argon2id$v=19$"));
}

#[test]
fn two_hashes_of_one_password_differ_and_both_verify() {
    let first = hash("secret123").unwrap();
    let second = hash("secret123").unwrap();
    assert_ne!(first, second);
    assert!(verify("secret123", &first));
    assert!(verify("secret123", &second));
}

#[test]
fn hash_with_salt_is_a_function_of_password_and_salt() {
    let first = hash_with_salt("secret123", "c2FsdHNhbHRzYWx0").unwrap();
    let second = hash_with_salt("secret123", "c2FsdHNhbHRzYWx0").unwrap();
    assert_eq!(first, second);
    assert!(first.starts_with("$argon2id$v=19$m=19456,t=2,p=1$c2FsdHNhbHRzYWx0$"));
    assert!(verify("secret123", &first));
    let other = hash_with_salt("secret123", "b3RoZXJzYWx0b3RoZXI").unwrap();
    assert_ne!(first, other);
}

#[test]
fn hash_with_malformed_salt_is_rejected() {
    assert_eq!(hash_with_salt("secret123", "no"), Err(HashError::Rejected));
    assert_eq!(hash_with_salt("secret123", "not a salt!!"), Err(HashError::Rejected));
}

#[test]
fn verify_of_a_malformed_hash_is_false() {
    assert!(!verify("secret123", ""));
    assert!(!verify("secret123", "secret123"));
    assert!(!verify("secret123", "$argon2id$v=19$"));
}

#[test]
fn empty_password_hashes_and_verifies() {
    let encoded = hash("").unwrap();
    assert!(verify("", &encoded));
    assert!(!verify("x", &encoded));
}

#[test]
fn encoded_hash_starts_with_the_separator() {
    assert!(hash("secret123").unwrap().starts_with('$'));
    assert!(hash("").unwrap().starts_with('$'));
    assert!(hash_with_salt("$argon2id$", "c2FsdHNhbHRzYWx0").unwrap().starts_with('$'));
    assert_ne!(hash("$").unwrap(), "$");
}

#[test]
fn text_that_does_not_start_as_a_hash_is_never_accepted() {
    let encoded = hash("secret123").unwrap();
    assert!(!verify("secret123", &encoded[1..]));
    assert!(!verify("secret123", &format!(" {}", encoded)));
    assert!(!verify("secret123", "argon2id"));
}
