//! Argon2 password hashing, through the `argon2` crate.

use argon2::{PasswordHasher, PasswordVerifier};
use vstd::prelude::*;

verus! {

/// The error type of the `password-hash` traits.
#[verifier::external_type_specification]
#[verifier::external_body]
pub struct ExPasswordHashError(argon2::password_hash::Error);

/// Whether `argon2::PasswordHash::new` accepts `phc` as a PHC string.
pub uninterp spec fn spec_phc_parses(phc: Seq<char>) -> bool;

/// Whether `Argon2::default().verify_password` accepts the UTF-8 bytes of
/// `password` against the hash that `PasswordHash::new` reads from `phc`.
pub uninterp spec fn spec_argon2_verify(password: Seq<char>, phc: Seq<char>) -> bool;

/// `argon2::PasswordHash::new(phc).is_ok()`.
#[verifier::external_body]
pub(crate) fn phc_parses(phc: &str) -> (r: bool)
    ensures
        r == spec_phc_parses(phc@),
{
    argon2::PasswordHash::new(phc).is_ok()
}

/// Checks `password` against the stored PHC string with
/// `Argon2::default().verify_password`, once `PasswordHash::new` has read it.
#[verifier::external_body]
pub(crate) fn verify_password(password: &str, phc: &str) -> (r: bool)
    requires
        spec_phc_parses(phc@),
    ensures
        r == spec_argon2_verify(password@, phc@),
{
    match argon2::PasswordHash::new(phc) {
        Ok(h) => argon2::Argon2::default().verify_password(password.as_bytes(), &h).is_ok(),
        Err(_) => false,
    }
}

/// Hashes `password` with `Argon2::default().hash_password` under a fresh
/// salt from `SaltString::generate(&mut OsRng)`, as a PHC string. The salt is
/// chance, so the text is not named. Stated of every outcome: hashing
/// succeeds (its only failure for the default parameters and a generated
/// salt is a password longer than `argon2::MAX_PWD_LEN` bytes), the text
/// reads back as a PHC string, and it verifies the same password, since
/// `verify_password` recomputes the hash with the algorithm, version,
/// parameters and salt that the string records.
#[verifier::external_body]
pub(crate) fn hash_password(password: &str) -> (r: Result<String, argon2::password_hash::Error>)
    requires
        vstd::utf8::encode_utf8(password@).len() <= 0xFFFF_FFFF,
    ensures
        r is Ok,
        spec_phc_parses(r->Ok_0@),
        spec_argon2_verify(password@, r->Ok_0@),
{
    let salt = argon2::password_hash::SaltString::generate(&mut argon2::password_hash::rand_core::OsRng);
    match argon2::Argon2::default().hash_password(password.as_bytes(), &salt) {
        Ok(h) => Ok(h.to_string()),
        Err(e) => Err(e),
    }
}

} // verus!
