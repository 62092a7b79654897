//! Checking a submitted password against a stored bcrypt hash.

use vstd::prelude::*;

use crate::error::AuthError;

verus! {

/// `bcrypt::BcryptError`: what `bcrypt::verify` reports of a hash that it
/// cannot check. It is carried through unread.
#[verifier::external_type_specification]
#[verifier::external_body]
pub struct ExBcryptError(bcrypt::BcryptError);

/// What `bcrypt::verify` makes of a password and a stored hash: `Some(true)`
/// where the password matches, `Some(false)` where it does not, `None` where
/// the hash cannot be parsed or checked.
pub uninterp spec fn bcrypt_verdict(password: Seq<char>, hash: Seq<char>) -> Option<bool>;

/// Calls `bcrypt::verify`, which re-hashes the password with the cost and salt
/// read from `hash` and compares the outcome in constant time. The result
/// depends on the two strings alone; an error means that `hash` is not a
/// bcrypt hash that can be checked.
#[verifier::external_body]
fn verify_hash(password: &str, hash: &str) -> (r: Result<bool, bcrypt::BcryptError>)
    ensures
        match r {
            Ok(same) => bcrypt_verdict(password@, hash@) == Some(same),
            Err(_) => bcrypt_verdict(password@, hash@) is None,
        },
{
    bcrypt::verify(password, hash)
}

/// What a login attempt comes to once the password has been held against the
/// stored hash.
pub open spec fn password_decision(verdict: Option<bool>) -> Result<(), AuthError> {
    match verdict {
        Some(true) => Ok(()),
        Some(false) => Err(AuthError::InvalidCredentials),
        None => Err(AuthError::VerificationError),
    }
}

/// Turns the verdict on a password into the login's next step: go on, or fail
/// with the error that the verdict calls for.
pub fn judge_password(verdict: Option<bool>) -> (r: Result<(), AuthError>)
    ensures
        r == password_decision(verdict),
{
    match verdict {
        Some(true) => Ok(()),
        Some(false) => Err(AuthError::InvalidCredentials),
        None => Err(AuthError::VerificationError),
    }
}

/// Checks `password` against the stored `hash`.
pub fn check_password(password: &str, hash: &str) -> (r: Result<(), AuthError>)
    ensures
        r == password_decision(bcrypt_verdict(password@, hash@)),
{
    let verdict = match verify_hash(password, hash) {
        Ok(same) => Some(same),
        Err(_) => None,
    };
    judge_password(verdict)
}

} // verus!
