//! The policy of the authentication service: the signing secret and the
//! time that a token lives, and what is decided with them.

use vstd::prelude::*;

use crate::error::{AuthError, TokenError};
use crate::password::{bcrypt_verdict, check_password, password_decision};
use crate::repository::StoreError;
use crate::token::{
    claims_at, claims_for, jwt_encoding, jwt_payload, sign, token_decision, token_view,
    validate_token, validation_outcome, validation_view, Claims,
};
use crate::user::{User, UserRecord};

verus! {

/// What issuing a token to `user` at `now` comes to: the token that the
/// signer makes of the claims, or a failure where the expiry cannot be held
/// or the signer reports an error.
pub open spec fn issue_outcome(user: UserRecord, secret: Seq<char>, ttl: i64, now: i64) -> Result<
    Seq<char>,
    AuthError,
> {
    match claims_at(user, now, ttl) {
        Some(claims) => token_decision(jwt_encoding(secret, claims)),
        None => Err(AuthError::TokenIssuance),
    }
}

/// The mathematical value of what a lookup came to.
pub open spec fn lookup_view(found: Result<Option<User>, StoreError>) -> Result<
    Option<UserRecord>,
    StoreError,
> {
    match found {
        Ok(Some(user)) => Ok(Some(user@)),
        Ok(None) => Ok(None),
        Err(e) => Err(e),
    }
}

/// What a login comes to, from what the store answered for the email:
/// a store that did not answer is reported as such; an email without a
/// record and a password that does not match give the same error; a hash
/// that cannot be checked is an error of its own; a matching password leads
/// to a token.
pub open spec fn login_outcome(
    found: Result<Option<UserRecord>, StoreError>,
    password: Seq<char>,
    secret: Seq<char>,
    ttl: i64,
    now: i64,
) -> Result<Seq<char>, AuthError> {
    match found {
        Err(_) => Err(AuthError::StoreUnavailable),
        Ok(None) => Err(AuthError::InvalidCredentials),
        Ok(Some(user)) => match password_decision(bcrypt_verdict(password, user.password_hash)) {
            Err(e) => Err(e),
            Ok(_) => issue_outcome(user, secret, ttl, now),
        },
    }
}

/// Why a configuration was turned down.
#[derive(Clone, Copy, Debug, PartialEq, Eq, Structural)]
pub enum ConfigError {
    /// The time to live is not above zero.
    TtlNotPositive,
}

/// The configuration that all logins share: the secret that tokens are signed
/// with, and the seconds that a token lives. Both are fixed when the policy
/// is made; the time to live is above zero. The type has no `Debug`: the
/// secret is not to be printed.
pub struct AuthPolicy {
    secret: String,
    ttl: i64,
}

impl Clone for AuthPolicy {
    fn clone(&self) -> (copy: Self)
        ensures
            copy == *self,
    {
        proof {
            use_type_invariant(self);
        }
        AuthPolicy { secret: self.secret.clone(), ttl: self.ttl }
    }
}

impl AuthPolicy {
    #[verifier::type_invariant]
    spec fn ttl_is_positive(self) -> bool {
        self.ttl > 0
    }

    /// The signing secret.
    pub closed spec fn secret(&self) -> Seq<char> {
        self.secret@
    }

    /// The seconds that a token lives.
    pub closed spec fn ttl(&self) -> i64 {
        self.ttl
    }

    /// A policy with the given secret and time to live.
    pub fn new(secret: String, ttl: i64) -> (policy: Self)
        requires
            ttl > 0,
        ensures
            policy.secret() == secret@,
            policy.ttl() == ttl,
    {
        AuthPolicy { secret, ttl }
    }

    /// A policy with the given secret and time to live, where the time to
    /// live is above zero.
    pub fn configure(secret: String, ttl: i64) -> (r: Result<Self, ConfigError>)
        ensures
            r is Ok <==> ttl > 0,
            r matches Ok(policy) ==> policy.secret() == secret@ && policy.ttl() == ttl,
            r matches Err(e) ==> e == ConfigError::TtlNotPositive,
    {
        if ttl > 0 {
            Ok(AuthPolicy::new(secret, ttl))
        } else {
            Err(ConfigError::TtlNotPositive)
        }
    }

    /// The seconds that a token lives.
    pub fn token_ttl(&self) -> (ttl: i64)
        ensures
            ttl == self.ttl(),
            ttl > 0,
    {
        proof {
            use_type_invariant(self);
        }
        self.ttl
    }

    /// Issues a token to `user` at the instant `now`.
    pub fn issue(&self, user: &User, now: i64) -> (r: Result<String, AuthError>)
        ensures
            token_view(r) == issue_outcome(user@, self.secret(), self.ttl(), now),
    {
        match claims_for(user, now, self.ttl) {
            Some(claims) => sign(self.secret.as_str(), &claims),
            None => Err(AuthError::TokenIssuance),
        }
    }

    /// Decides a login at the instant `now`, from what the store answered for
    /// the submitted email and from the submitted password.
    pub fn authenticate(
        &self,
        found: Result<Option<User>, StoreError>,
        password: &str,
        now: i64,
    ) -> (r: Result<String, AuthError>)
        ensures
            token_view(r) == login_outcome(
                lookup_view(found),
                password@,
                self.secret(),
                self.ttl(),
                now,
            ),
    {
        match found {
            Err(_) => Err(AuthError::StoreUnavailable),
            Ok(None) => Err(AuthError::InvalidCredentials),
            Ok(Some(user)) => match check_password(password, user.password_hash.as_str()) {
                Err(e) => Err(e),
                Ok(_) => self.issue(&user, now),
            },
        }
    }

    /// Checks a token presented at the instant `now`.
    pub fn validate(&self, token: &str, now: i64) -> (r: Result<Claims, TokenError>)
        ensures
            validation_view(r) == validation_outcome(jwt_payload(token@, self.secret()), now),
    {
        validate_token(self.secret.as_str(), token, now)
    }
}

} // verus!
