//! The authentication service: a credential store and the policy under which
//! its users log in.

use vstd::prelude::*;

use crate::clock::unix_now;
use crate::error::{AuthError, TokenError};
use crate::policy::{login_outcome, AuthPolicy};
use crate::repository::{record_under, UserRepository};
use crate::token::{jwt_payload, token_view, validation_outcome, validation_view, Claims};

verus! {

/// Logs users in against a credential store. The service only reads the
/// store, and keeps nothing between calls.
pub struct UserService<R: UserRepository + Clone> {
    repo: R,
    policy: AuthPolicy,
}

impl<R: UserRepository + Clone> Clone for UserService<R> {
    fn clone(&self) -> (copy: Self)
        ensures
            cloned(self.repo(), copy.repo()),
            copy.policy() == self.policy(),
    {
        UserService { repo: self.repo.clone(), policy: self.policy.clone() }
    }
}

impl<R: UserRepository + Clone> UserService<R> {
    /// The credential store.
    pub closed spec fn repo(&self) -> R {
        self.repo
    }

    /// The policy under which tokens are issued and checked.
    pub closed spec fn policy(&self) -> AuthPolicy {
        self.policy
    }

    /// What a login with these credentials at `now` comes to, where the
    /// store answers.
    pub open spec fn outcome_at(&self, email: Seq<char>, password: Seq<char>, now: i64) -> Result<
        Seq<char>,
        AuthError,
    > {
        login_outcome(
            Ok(record_under(self.repo().records(), email)),
            password,
            self.policy().secret(),
            self.policy().ttl(),
            now,
        )
    }

    /// A service over `repo` that signs with `jwt_secret` and issues tokens
    /// that live `jwt_exp` seconds.
    pub fn new(repo: R, jwt_secret: String, jwt_exp: i64) -> (service: Self)
        requires
            jwt_exp > 0,
        ensures
            service.repo() == repo,
            service.policy().secret() == jwt_secret@,
            service.policy().ttl() == jwt_exp,
    {
        UserService { repo, policy: AuthPolicy::new(jwt_secret, jwt_exp) }
    }

    /// A service over `repo` under `policy`.
    pub fn with_policy(repo: R, policy: AuthPolicy) -> (service: Self)
        ensures
            service.repo() == repo,
            service.policy() == policy,
    {
        UserService { repo, policy }
    }

    /// The credential store.
    pub fn repository(&self) -> (repo: &R)
        ensures
            *repo == self.repo(),
    {
        &self.repo
    }

    /// The policy under which tokens are issued and checked.
    pub fn auth_policy(&self) -> (policy: &AuthPolicy)
        ensures
            *policy == self.policy(),
    {
        &self.policy
    }

    /// Logs in with `email` and `password` at the instant `now`: looks the
    /// email up in the store, checks the password against the stored hash,
    /// and issues a token. Where the store does not answer, the login fails
    /// with `StoreUnavailable`; a store that always answers leaves the
    /// outcome to the credentials alone.
    pub fn login_at(&self, email: &str, password: &str, now: i64) -> (r: Result<String, AuthError>)
        ensures
            token_view(r) == Err::<Seq<char>, AuthError>(AuthError::StoreUnavailable) || token_view(
                r,
            ) == self.outcome_at(email@, password@, now),
            self.repo().always_answers() ==> token_view(r) == self.outcome_at(
                email@,
                password@,
                now,
            ),
    {
        let found = self.repo.find_by_email(email);
        self.policy.authenticate(found, password, now)
    }

    /// Logs in with `email` and `password` at the instant that the clock
    /// shows.
    pub fn login(&self, email: &str, password: &str) -> (r: Result<String, AuthError>)
        ensures
            token_view(r) == Err::<Seq<char>, AuthError>(AuthError::StoreUnavailable) || exists|
                now: i64,
            | token_view(r) == #[trigger] self.outcome_at(email@, password@, now),
            self.repo().always_answers() ==> exists|now: i64|
                token_view(r) == #[trigger] self.outcome_at(email@, password@, now),
    {
        let now = unix_now();
        self.login_at(email, password, now)
    }

    /// Checks a token presented at the instant `now`.
    pub fn validate(&self, token: &str, now: i64) -> (r: Result<Claims, TokenError>)
        ensures
            validation_view(r) == validation_outcome(
                jwt_payload(token@, self.policy().secret()),
                now,
            ),
    {
        self.policy.validate(token, now)
    }
}

} // verus!
