//! Credential hashing: a salted, memory-hard, one-way hash of a password,
//! kept as one self-describing string.

use argon2::password_hash::{PasswordHash, PasswordHasher, PasswordVerifier, SaltString};
use argon2::Argon2;
use vstd::prelude::*;

verus! {

/// The encoded hash that Argon2id, with its default cost parameters, gives
/// for a password and an encoded salt; `None` where it refuses them.
pub uninterp spec fn argon2_encoding(password: Seq<char>, salt: Seq<char>) -> Option<Seq<char>>;

/// Whether an encoded hash parses and Argon2, run with the parameters and the
/// salt that it records, gives its digest for the password.
pub uninterp spec fn argon2_accepts(password: Seq<char>, encoded: Seq<char>) -> bool;

/// Whether a text starts as every encoded hash does: with the separator `$`
/// that goes before the name of the algorithm.
pub open spec fn starts_as_hash(encoded: Seq<char>) -> bool {
    encoded.len() > 0 && encoded[0] == '$'
}

/// Why no hash could be made.
#[derive(Clone, Copy, Debug, PartialEq, Eq, Structural)]
pub enum HashError {
    /// The hashing function refused the password or the salt.
    Rejected,
}

/// `SaltString::generate` on the operating system's random source: sixteen
/// random bytes in the salt encoding. Nothing is claimed of the outcome. The
/// outside call takes no input that could be left out, and panics where the
/// operating system gives no random bytes.
#[verifier::external_body]
fn fresh_salt() -> (salt: String) {
    SaltString::generate(&mut argon2::password_hash::rand_core::OsRng)
        .as_str()
        .to_string()
}

/// `SaltString::from_b64` on the salt, then `Argon2::default().hash_password`
/// on the password's bytes, then the hash written out as a string; `None`
/// where either call fails. The result is a function of the password and the
/// salt alone. A hash that comes out is one that `verify_password` accepts
/// for the same password: verifying recomputes the hash with the algorithm,
/// version, parameters and salt that the string records. Written out, a hash
/// starts with the separator `$`.
#[verifier::external_body]
fn argon2_hash(password: &str, salt: &str) -> (encoded: Option<String>)
    ensures
        encoded.deep_view() == argon2_encoding(password@, salt@),
        encoded matches Some(e) ==> argon2_accepts(password@, e@) && starts_as_hash(e@),
{
    let salt = SaltString::from_b64(salt).ok()?;
    let hash = Argon2::default().hash_password(password.as_bytes(), &salt).ok()?;
    Some(hash.to_string())
}

/// `PasswordHash::new` on the encoded hash, then
/// `Argon2::default().verify_password` on the password's bytes; `false`
/// where either fails. The parser refuses a text that does not start with
/// the separator `$`.
#[verifier::external_body]
fn argon2_verify(password: &str, encoded: &str) -> (ok: bool)
    ensures
        ok == argon2_accepts(password@, encoded@),
        ok ==> starts_as_hash(encoded@),
{
    match PasswordHash::new(encoded) {
        Ok(parsed) => Argon2::default().verify_password(password.as_bytes(), &parsed).is_ok(),
        Err(_) => false,
    }
}

/// Whether `encoded` is a hash of `plaintext` under some salt.
pub open spec fn is_hash_of(plaintext: Seq<char>, encoded: Seq<char>) -> bool {
    exists|salt: Seq<char>| #[trigger] argon2_encoding(plaintext, salt) == Some(encoded)
}

/// What hashing a password under a given salt comes to: the encoded hash, or
/// the refusal.
pub open spec fn hashing(plaintext: Seq<char>, salt: Seq<char>) -> Result<Seq<char>, HashError> {
    match argon2_encoding(plaintext, salt) {
        Some(encoded) => Ok(encoded),
        None => Err(HashError::Rejected),
    }
}

/// The value of the outcome of a hashing.
pub open spec fn hash_view(r: Result<String, HashError>) -> Result<Seq<char>, HashError> {
    match r {
        Ok(encoded) => Ok(encoded@),
        Err(e) => Err(e),
    }
}

/// The hash of `plaintext` under the given salt, or why there is none.
pub fn hash_with_salt(plaintext: &str, salt: &str) -> (r: Result<String, HashError>)
    ensures
        hash_view(r) == hashing(plaintext@, salt@),
        match r {
            Ok(encoded) => {
                &&& argon2_encoding(plaintext@, salt@) == Some(encoded@)
                &&& argon2_accepts(plaintext@, encoded@)
                &&& starts_as_hash(encoded@)
                &&& !starts_as_hash(plaintext@) ==> encoded@ != plaintext@
            },
            Err(e) => {
                &&& argon2_encoding(plaintext@, salt@) is None
                &&& e == HashError::Rejected
            },
        },
{
    match argon2_hash(plaintext, salt) {
        Some(encoded) => Ok(encoded),
        None => Err(HashError::Rejected),
    }
}

/// Hashes a password under a salt drawn afresh for this call: the outcome is
/// what hashing under some salt comes to, so the call fails only where the
/// hashing function refuses the password under the salt that was drawn. A
/// hash that comes out verifies against the password it was made from.
pub fn hash(plaintext: &str) -> (r: Result<String, HashError>)
    ensures
        exists|salt: Seq<char>| #[trigger] hashing(plaintext@, salt) == hash_view(r),
        match r {
            Ok(encoded) => {
                &&& is_hash_of(plaintext@, encoded@)
                &&& argon2_accepts(plaintext@, encoded@)
                &&& starts_as_hash(encoded@)
                &&& !starts_as_hash(plaintext@) ==> encoded@ != plaintext@
            },
            Err(e) => e == HashError::Rejected,
        },
{
    let salt = fresh_salt();
    hash_with_salt(plaintext, salt.as_str())
}

/// Whether `encoded` is a hash that the password produces. A string that is
/// no encoded hash at all is answered like a wrong password; one that does
/// not start as a hash does is never accepted.
pub fn verify(plaintext: &str, encoded: &str) -> (ok: bool)
    ensures
        ok == argon2_accepts(plaintext@, encoded@),
        ok ==> starts_as_hash(encoded@),
{
    argon2_verify(plaintext, encoded)
}

} // verus!
