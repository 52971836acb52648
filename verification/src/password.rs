//! Memory-hard password hashing and verification.
//!
//! `hash_password` derives a digest from the secret and a fresh random salt
//! and encodes algorithm id, parameters, salt and digest into one
//! self-describing string; the raw secret is never stored. Verification
//! re-derives the digest from the encoded parameters and compares — a hash
//! never round-trips back to the secret.

use vstd::prelude::*;

use rand::Rng;

use crate::error::Error;

verus! {

/// What argon2's `verify_encoded` returns for an encoded hash and a secret:
/// `Some(b)` where the encoded string parses and the re-derived digest
/// comparison yields `b`, `None` where it cannot be parsed. The outcome is a
/// function of the two arguments alone.
pub uninterp spec fn argon2_verify(encoded: Seq<char>, password: Seq<char>) -> Option<bool>;

/// Whether an encoded hash verifies a secret.
pub open spec fn password_verifies(encoded: Seq<char>, password: Seq<char>) -> bool {
    argon2_verify(encoded, password) == Some(true)
}

/// The outcome `verify_password` owes its caller: the verification result,
/// or `MalformedHash` exactly where the encoded string cannot be parsed.
pub open spec fn spec_verify_password(encoded: Seq<char>, password: Seq<char>) -> Result<
    bool,
    Error,
> {
    match argon2_verify(encoded, password) {
        Some(b) => Ok(b),
        None => Err(Error::MalformedHash),
    }
}

/// Relies on rand's `thread_rng`: a fresh 32-byte salt. Nothing is promised
/// of its value beyond the length.
#[verifier::external_body]
fn random_salt() -> (s: Vec<u8>)
    ensures
        s@.len() == 32,
{
    rand::thread_rng().gen::<[u8; 32]>().to_vec()
}

/// Relies on argon2's `hash_encoded` with the default configuration, which
/// succeeds for every salt of 8 or more bytes, and on `verify_encoded`
/// parsing the encoded result back and re-deriving the same digest, so that
/// the result verifies the hashed secret.
#[verifier::external_body]
fn argon2_hash_encoded(password: &str, salt: &Vec<u8>) -> (r: String)
    requires
        8 <= salt@.len() <= 0xFFFF_FFFF,
        password@.len() <= 0x3FFF_FFFF,
    ensures
        argon2_verify(r@, password@) == Some(true),
{
    argon2::hash_encoded(password.as_bytes(), salt.as_slice(), &argon2::Config::default()).unwrap()
}

/// Relies on argon2's `verify_encoded`: the outcome is a function of the
/// encoded hash and the secret alone.
#[verifier::external_body]
fn argon2_verify_encoded(encoded: &str, password: &str) -> (r: Option<bool>)
    ensures
        r == argon2_verify(encoded@, password@),
{
    argon2::verify_encoded(encoded, password.as_bytes()).ok()
}

/// Hashes a secret with a fresh random salt. The encoded result verifies
/// the secret it was derived from; since the salt is drawn anew on every
/// call, two calls on the same secret yield distinct encoded strings with
/// overwhelming probability, and nothing here depends on them being equal.
pub fn hash_password(password: &str) -> (r: String)
    requires
        password@.len() <= 0x3FFF_FFFF,
    ensures
        password_verifies(r@, password@),
{
    let salt = random_salt();
    argon2_hash_encoded(password, &salt)
}

/// Checks a secret against an encoded hash: `Ok` with the comparison
/// outcome, or `MalformedHash` exactly where the encoded string cannot be
/// parsed (distinct from a `false` verification result).
pub fn verify_password(encoded: &str, password: &str) -> (r: Result<bool, Error>)
    ensures
        r == spec_verify_password(encoded@, password@),
{
    match argon2_verify_encoded(encoded, password) {
        Some(b) => Ok(b),
        None => Err(Error::MalformedHash),
    }
}

/// Law: a hash derived from a secret verifies that same secret. For any
/// encoded string with the property `hash_password` ensures of its result,
/// `verify_password` reports `Ok(true)`.
pub proof fn lemma_hash_then_verify(encoded: Seq<char>, password: Seq<char>)
    requires
        password_verifies(encoded, password),
    ensures
        spec_verify_password(encoded, password) == Ok::<bool, Error>(true),
{
}

} // verus!
