//! Passwords: hashing a new one, and checking one against a stored hash.

use vstd::prelude::*;
use crate::services::auth_service::{AuthError, PasswordCheck};
use crate::text::join;

verus! {

/// The error of the password hashing crate, of which only the message is read.
#[verifier::external_type_specification]
#[verifier::external_body]
pub struct ExPasswordHashError(argon2::password_hash::Error);

/// Whether `hash` is a password hash in the PHC string format.
pub uninterp spec fn is_password_hash(hash: Seq<char>) -> bool;

/// Whether Argon2, with the parameters and the salt that the hash `hash`
/// names, hashes `password` to the output that `hash` holds.
pub uninterp spec fn password_verifies(password: Seq<char>, hash: Seq<char>) -> bool;

/// Calls `PasswordHash::new` of the `password-hash` crate, as `argon2`
/// exports it, and lets the parsed hash go. Whether the text parses is a
/// matter of the text alone; the claim here is only that `Ok` stands for the
/// readable hashes named above.
#[verifier::external_body]
fn read_hash(hash: &str) -> (r: Result<(), argon2::password_hash::Error>)
    ensures
        r is Ok <==> is_password_hash(hash@),
{
    argon2::password_hash::PasswordHash::new(hash).map(|_| ())
}

/// Calls `PasswordVerifier::verify_password` on `Argon2::default()` with the
/// bytes of the password and the parsed hash. The verifier takes algorithm,
/// version, parameters and salt from the hash, so the result is a function
/// of the password and the hash text; the claim here is only that `Ok`
/// stands for the verification named above.
#[verifier::external_body]
fn verify(password: &str, hash: &str) -> (r: Result<(), argon2::password_hash::Error>)
    requires
        is_password_hash(hash@),
    ensures
        r is Ok <==> password_verifies(password@, hash@),
{
    let parsed = argon2::password_hash::PasswordHash::new(hash)?;
    argon2::password_hash::PasswordVerifier::verify_password(
        &argon2::Argon2::default(),
        password.as_bytes(),
        &parsed,
    )
}

/// Calls `SaltString::generate` with the operating system's random source
/// and `PasswordHasher::hash_password` on `Argon2::default()`, and writes
/// the hash as a PHC string. The salt is random, so nothing is claimed of
/// the characters of the hash; the claim is what the crate documents of
/// every hash it makes: it is readable, and the password it was made of
/// verifies against it. The call aborts where the operating system cannot
/// supply random bytes.
#[verifier::external_body]
fn hash_with_fresh_salt(password: &str) -> (r: Result<String, argon2::password_hash::Error>)
    ensures
        r matches Ok(hash) ==> is_password_hash(hash@) && password_verifies(password@, hash@),
{
    let salt = argon2::password_hash::SaltString::generate(
        &mut argon2::password_hash::rand_core::OsRng,
    );
    let argon2 = argon2::Argon2::default();
    argon2::password_hash::PasswordHasher::hash_password(&argon2, password.as_bytes(), &salt)
        .map(|hash| hash.to_string())
}

/// The message of a hashing error, as its `Display` impl writes it. Nothing
/// is claimed of the text.
#[verifier::external_body]
fn error_text(error: &argon2::password_hash::Error) -> String {
    error.to_string()
}

/// What precedes the detail in the cause of a failed hashing.
pub open spec fn spec_hashing_failed_prefix() -> Seq<char> {
    "Failed to hash password: "@
}

/// What checking `password` against `stored_hash` finds.
pub open spec fn spec_check(password: Seq<char>, stored_hash: Seq<char>, check: PasswordCheck) -> bool {
    if !is_password_hash(stored_hash) {
        check is Unreadable
    } else if password_verifies(password, stored_hash) {
        check == PasswordCheck::Matches
    } else {
        check == PasswordCheck::Mismatch
    }
}

/// Checks a password against a stored hash: the hash must be readable, and
/// the password must hash to it.
pub fn check_password(password: &str, stored_hash: &str) -> (r: PasswordCheck)
    ensures
        spec_check(password@, stored_hash@, r),
{
    match read_hash(stored_hash) {
        Err(error) => PasswordCheck::Unreadable { detail: error_text(&error) },
        Ok(_) => match verify(password, stored_hash) {
            Ok(_) => PasswordCheck::Matches,
            Err(_) => PasswordCheck::Mismatch,
        },
    }
}

/// Hashes a new password with a fresh salt. The hash is one that the
/// password signs in with. A failure is a system failure whose cause is the
/// hasher's complaint.
pub fn hash_password(password: &str) -> (r: Result<String, AuthError>)
    ensures
        match r {
            Ok(hash) => spec_check(password@, hash@, PasswordCheck::Matches),
            Err(error) => error matches AuthError::System { cause }
                && spec_hashing_failed_prefix().is_prefix_of(cause@),
        },
{
    match hash_with_fresh_salt(password) {
        Ok(hash) => Ok(hash),
        Err(error) => {
            let detail = error_text(&error);
            let cause = join("Failed to hash password: ", detail.as_str());
            assert(cause@.subrange(0, spec_hashing_failed_prefix().len() as int)
                =~= spec_hashing_failed_prefix());
            Err(AuthError::System { cause })
        },
    }
}

} // verus!
