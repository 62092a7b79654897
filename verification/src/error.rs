//! What can go wrong when a login is attempted or a token is checked.

use vstd::prelude::*;

verus! {

/// Why a login attempt did not produce a token.
#[derive(Clone, Copy, Debug, PartialEq, Eq, Structural)]
pub enum AuthError {
    /// No record under the email, or the password does not match it. The two
    /// are deliberately one value, so that a caller cannot learn which emails
    /// have an account.
    InvalidCredentials,
    /// The stored hash could not be parsed or checked.
    VerificationError,
    /// The credential store could not complete the lookup.
    StoreUnavailable,
    /// No token could be built or signed for the authenticated user.
    TokenIssuance,
}

impl AuthError {
    /// The text that describes the error. A missing record and a wrong
    /// password read the same.
    pub open spec fn text(self) -> Seq<char> {
        match self {
            AuthError::InvalidCredentials => "Invalid email or password"@,
            AuthError::VerificationError => "Stored password hash could not be verified"@,
            AuthError::StoreUnavailable => "Credential store unavailable"@,
            AuthError::TokenIssuance => "Token could not be issued"@,
        }
    }

    /// The text that describes the error.
    pub fn message(&self) -> (text: String)
        ensures
            text@ == self.text(),
    {
        match self {
            AuthError::InvalidCredentials => "Invalid email or password".to_owned(),
            AuthError::VerificationError => "Stored password hash could not be verified".to_owned(),
            AuthError::StoreUnavailable => "Credential store unavailable".to_owned(),
            AuthError::TokenIssuance => "Token could not be issued".to_owned(),
        }
    }
}

/// Why a token was rejected.
#[derive(Clone, Copy, Debug, PartialEq, Eq, Structural)]
pub enum TokenError {
    /// The token is not well formed or its signature does not verify under
    /// the secret.
    InvalidToken,
    /// The signature verifies, but the payload lacks one of the claims that
    /// this service signs, or holds it in another shape.
    MalformedClaims,
    /// The token was presented at or after its expiry.
    Expired,
}

impl TokenError {
    /// The text that describes the error.
    pub open spec fn text(self) -> Seq<char> {
        match self {
            TokenError::InvalidToken => "Invalid token"@,
            TokenError::MalformedClaims => "Token claims are malformed"@,
            TokenError::Expired => "Token has expired"@,
        }
    }

    /// The text that describes the error.
    pub fn message(&self) -> (text: String)
        ensures
            text@ == self.text(),
    {
        match self {
            TokenError::InvalidToken => "Invalid token".to_owned(),
            TokenError::MalformedClaims => "Token claims are malformed".to_owned(),
            TokenError::Expired => "Token has expired".to_owned(),
        }
    }
}

} // verus!
