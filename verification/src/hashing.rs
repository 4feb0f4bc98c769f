//! Password hashing.
//!
//! A password is stored only as a salted, memory-hard PHC-format hash, and is
//! checked in constant time.  What "checks out" means is named by
//! [`password_verifies`]: verification is a deterministic function of the
//! password and the PHC string (the string carries its own salt and cost
//! parameters), while hashing draws a fresh random salt per call, so nothing
//! more than the round trip can be said of its output.

use argon2::password_hash::phc::PasswordHash;
use argon2::password_hash::PasswordHasher;
use argon2::password_hash::PasswordVerifier;
use vstd::prelude::*;

verus! {

/// Whether Argon2 verification of `password` against the PHC string `hash`
/// succeeds.  A string that does not parse as a PHC hash verifies as false.
pub uninterp spec fn password_verifies(password: Seq<char>, hash: Seq<char>) -> bool;

/// Hashes a password to a PHC string with a freshly generated random salt.
///
/// Relies on argon2's `Argon2::hash_password` and the PHC serialization:
/// whatever salt is drawn, the returned string verifies against the password
/// it was produced from, and it is self-describing — with the default
/// algorithm (Argon2id) it begins `$argon2id`, followed by the version, cost
/// parameters and salt that verification reads back out of it.  Failure is a
/// configuration fault, not a property of the password.
#[verifier::external_body]
pub fn hash_password(password: &str) -> (r: Result<String, String>)
    ensures
        r matches Ok(h) ==> password_verifies(password@, h@),
        r matches Ok(h) ==> h@.len() >= 9 && h@.subrange(0, 9) == "$argon2id"@,
{
    match argon2::Argon2::default().hash_password(password.as_bytes()) {
        Ok(h) => Ok(h.to_string()),
        Err(e) => Err(format!("{e:?}")),
    }
}

/// Recomputes and compares in constant time.
///
/// Relies on argon2's `Argon2::verify_password`: the outcome depends only on
/// the password and the PHC string.  A malformed PHC string and a wrong
/// password both come back as `false`; the two are never distinguished, so a
/// caller learns nothing about why a check failed.
#[verifier::external_body]
pub fn verify_password(password: &str, password_hash: &str) -> (r: bool)
    ensures
        r == password_verifies(password@, password_hash@),
{
    match PasswordHash::new(password_hash) {
        Ok(parsed) => {
            argon2::Argon2::default().verify_password(password.as_bytes(), &parsed).is_ok()
        },
        Err(_) => false,
    }
}

} // verus!
