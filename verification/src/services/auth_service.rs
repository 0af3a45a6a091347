//! Accounts: what registration and sign-in decide, and how long a token lives.
//!
//! Hashing and checking passwords, signing tokens and the account store are
//! collaborators; the decisions here take their answers as plain values.

use vstd::prelude::*;
use crate::text::join;

verus! {

/// The lifetime of a token, in seconds: twenty-four hours.
pub const TOKEN_LIFETIME_SECONDS: i64 = 86400;

/// What a token claims: the account, and the time it expires, in seconds
/// since the epoch.
#[derive(Debug, Clone, Copy, PartialEq, Eq, Structural)]
pub struct Claims {
    pub sub: i32,
    pub exp: i64,
}

/// Why registration or sign-in failed.
#[derive(Debug, Clone, PartialEq, Eq)]
pub enum AuthError {
    /// An account with the e-mail address exists already.
    UserExists,
    /// No account has the e-mail address, or the password is not its own.
    InvalidCredentials,
    /// The stored password hash cannot be read.
    UnreadableHash { detail: String },
    /// A collaborator failed.
    System { cause: String },
}

/// The message of a registration for an address that has an account.
pub open spec fn spec_user_exists_message() -> Seq<char> {
    "User already exists"@
}

/// The message of a sign-in that is refused.
pub open spec fn spec_invalid_credentials_message() -> Seq<char> {
    "Invalid email or password"@
}

/// What precedes the detail in the message of an unreadable hash.
pub open spec fn spec_unreadable_hash_prefix() -> Seq<char> {
    "Invalid password hash: "@
}

impl AuthError {
    /// The message of the failure.
    pub open spec fn spec_message(self) -> Seq<char> {
        match self {
            AuthError::UserExists => spec_user_exists_message(),
            AuthError::InvalidCredentials => spec_invalid_credentials_message(),
            AuthError::UnreadableHash { detail } => spec_unreadable_hash_prefix() + detail@,
            AuthError::System { cause } => cause@,
        }
    }

    /// The message of the failure.
    pub fn message(&self) -> (r: String)
        ensures
            r@ == self.spec_message(),
    {
        match self {
            AuthError::UserExists => "User already exists".to_owned(),
            AuthError::InvalidCredentials => "Invalid email or password".to_owned(),
            AuthError::UnreadableHash { detail } => join("Invalid password hash: ", detail.as_str()),
            AuthError::System { cause } => cause.clone(),
        }
    }
}

/// What checking a password against a stored hash found.
#[derive(Debug, Clone, PartialEq, Eq)]
pub enum PasswordCheck {
    /// The password is the one that was hashed.
    Matches,
    /// The password is another.
    Mismatch,
    /// The stored hash cannot be read.
    Unreadable { detail: String },
}

/// Whether an account may be opened: only where none has the address yet.
pub fn registration_allowed(address_taken: bool) -> (r: Result<(), AuthError>)
    ensures
        r is Ok <==> !address_taken,
        r matches Err(e) ==> e == AuthError::UserExists,
{
    if address_taken {
        Err(AuthError::UserExists)
    } else {
        Ok(())
    }
}

/// What a sign-in for an address without an account fails with.
pub fn unknown_account() -> (r: AuthError)
    ensures
        r == AuthError::InvalidCredentials,
{
    AuthError::InvalidCredentials
}

/// Whether a sign-in is accepted, from the check of its password: only a
/// matching password is; another is refused, and a hash that cannot be read
/// is reported as such.
pub fn sign_in_allowed(check: PasswordCheck) -> (r: Result<(), AuthError>)
    ensures
        match check {
            PasswordCheck::Matches => r is Ok,
            PasswordCheck::Mismatch => r == Err::<(), AuthError>(AuthError::InvalidCredentials),
            PasswordCheck::Unreadable { detail } => r == Err::<(), AuthError>(
                AuthError::UnreadableHash { detail },
            ),
        },
{
    match check {
        PasswordCheck::Matches => Ok(()),
        PasswordCheck::Mismatch => Err(AuthError::InvalidCredentials),
        PasswordCheck::Unreadable { detail } => Err(AuthError::UnreadableHash { detail }),
    }
}

/// The claims of a token issued at `now` for the account: it expires
/// twenty-four hours later. `None` where that time is beyond the range of
/// the clock.
pub fn token_claims(account: i32, now: i64) -> (r: Option<Claims>)
    ensures
        match r {
            Some(claims) => claims.sub == account && claims.exp == now + TOKEN_LIFETIME_SECONDS,
            None => now + TOKEN_LIFETIME_SECONDS > i64::MAX,
        },
{
    match now.checked_add(TOKEN_LIFETIME_SECONDS) {
        Some(exp) => Some(Claims { sub: account, exp }),
        None => None,
    }
}

} // verus!
