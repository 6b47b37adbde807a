//! Passwords: how they are hashed for storage and checked against what is
//! stored. The hashing itself is Argon2's; what is decided on its answers
//! is decided here.

use vstd::prelude::*;
use argon2::password_hash::SaltString;
use argon2::{Argon2, PasswordHash, PasswordHasher, PasswordVerifier};

verus! {

/// What Argon2id with its default parameters makes of `password` and the
/// B64 salt `salt`: the hash as a PHC string, or the text of the error where
/// the salt is not one or the hashing fails.
pub uninterp spec fn argon2_hash(password: Seq<char>, salt: Seq<char>) -> Result<Seq<char>, Seq<char>>;

/// Whether Argon2 finds that `password` is the password behind the PHC string
/// `stored_hash`; `None` where `stored_hash` is no PHC string.
pub uninterp spec fn argon2_verdict(password: Seq<char>, stored_hash: Seq<char>) -> Option<bool>;

/// The characters of a hashing result.
pub open spec fn hash_view(result: Result<String, String>) -> Result<Seq<char>, Seq<char>> {
    match result {
        Ok(hash) => Ok(hash@),
        Err(error) => Err(error@),
    }
}

/// Reads `salt` with `SaltString::from_b64` and hashes `password` with
/// `Argon2::default().hash_password`. The result is the hash as a PHC string,
/// or the text of the error that either of the two gave. Both depend on
/// nothing but their arguments, so the result is `argon2_hash` of them.
#[verifier::external_body]
pub(crate) fn hash_password(password: &str, salt: &str) -> (result: Result<String, String>)
    ensures
        hash_view(result) == argon2_hash(password@, salt@),
{
    let salt = match SaltString::from_b64(salt) {
        Ok(salt) => salt,
        Err(error) => return Err(error.to_string()),
    };
    match Argon2::default().hash_password(password.as_bytes(), &salt) {
        Ok(hash) => Ok(hash.to_string()),
        Err(error) => Err(error.to_string()),
    }
}

/// Reads `stored_hash` with `PasswordHash::new` and checks `password`
/// against it with `Argon2::default().verify_password`, which hashes the
/// password again with the algorithm, parameters and salt that the stored
/// hash names and compares. The result is `None` where `stored_hash` does not
/// parse, else whether the check passed. It depends on nothing but the two
/// arguments, so it is `argon2_verdict` of them. The memory for the hashing
/// is what the stored hash asks for: like any allocation, one that the
/// machine cannot serve ends the process.
#[verifier::external_body]
pub(crate) fn verify_password(password: &str, stored_hash: &str) -> (verdict: Option<bool>)
    ensures
        verdict == argon2_verdict(password@, stored_hash@),
{
    match PasswordHash::new(stored_hash) {
        Ok(hash) => Some(Argon2::default().verify_password(password.as_bytes(), &hash).is_ok()),
        Err(_) => None,
    }
}

} // verus!
