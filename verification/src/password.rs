use vstd::prelude::*;

use argon2::password_hash::PasswordHasher;
use argon2::password_hash::PasswordVerifier;

verus! {

/// Declares argon2's password-hash error so that it can stand in signatures.
#[verifier::external_type_specification]
#[verifier::external_body]
pub struct ExPasswordHashError(argon2::password_hash::Error);

/// Whether argon2 accepts `password` against the PHC hash string `hash`.
/// The outcome depends on the two arguments alone.
pub uninterp spec fn argon2_verifies(password: Seq<char>, hash: Seq<char>) -> bool;

/// Relies on argon2's `Argon2::hash_password` with a freshly generated salt,
/// rendered as a PHC string: the crate documents that `verify_password`
/// accepts such a string for the password it was computed from.
#[verifier::external_body]
pub fn hash_password(password: &str) -> (r: Result<String, argon2::password_hash::Error>)
    ensures
        r matches Ok(h) ==> argon2_verifies(password@, h@),
{
    let hash = argon2::Argon2::default().hash_password(password.as_bytes())?.to_string();
    Ok(hash)
}

/// Relies on `phc::PasswordHash::new` and `Argon2::verify_password`, both
/// deterministic in the password and the PHC hash string; a string that does
/// not parse as a PHC hash verifies nothing.
#[verifier::external_body]
pub fn verify_password(password: &str, password_hash: &str) -> (r: bool)
    ensures
        r == argon2_verifies(password@, password_hash@),
{
    match argon2::password_hash::phc::PasswordHash::new(password_hash) {
        Ok(parsed) => {
            argon2::Argon2::default().verify_password(password.as_bytes(), &parsed).is_ok()
        },
        Err(_) => false,
    }
}

} // verus!
