//! What holds of every login and of every validation.

use vstd::prelude::*;

use crate::error::{AuthError, TokenError};
use crate::password::bcrypt_verdict;
use crate::policy::{issue_outcome, login_outcome};
use crate::repository::record_under;
use crate::token::{
    claims_at, claims_in, jwt_encoding, jwt_payload, validation_outcome, ClaimSet, PayloadView,
};
use crate::user::UserRecord;

verus! {

/// A login with the email of a stored user and a password that verifies
/// against the stored hash succeeds exactly when the expiry can be held and
/// the signer makes a token; it then returns the token signed for claims
/// whose subject is the user's identifier, whose email is the user's email,
/// and whose expiry lies the configured time to live after the issuance,
/// which is later than the issuance where the time to live is above zero.
/// It fails in no other way than for want of a token.
pub proof fn lemma_correct_password_yields_token(
    records: Map<Seq<char>, UserRecord>,
    user: UserRecord,
    password: Seq<char>,
    secret: Seq<char>,
    ttl: i64,
    now: i64,
)
    requires
        record_under(records, user.email) == Some(user),
        bcrypt_verdict(password, user.password_hash) == Some(true),
    ensures
        ({
            let outcome = login_outcome(
                Ok(record_under(records, user.email)),
                password,
                secret,
                ttl,
                now,
            );
            let claims = claims_at(user, now, ttl);
            &&& outcome is Ok <==> claims is Some && jwt_encoding(secret, claims->0) is Some
            &&& outcome is Err ==> outcome == Err::<Seq<char>, AuthError>(AuthError::TokenIssuance)
            &&& outcome matches Ok(token) ==> {
                &&& jwt_encoding(secret, claims->0) == Some(token)
                &&& claims->0.sub == user.id
                &&& claims->0.email == user.email
                &&& claims->0.iat == now
                &&& claims->0.exp - claims->0.iat == ttl
                &&& ttl > 0 ==> claims->0.iat < claims->0.exp
            }
        }),
{
}

/// A login with the email of a stored user and a password that the stored
/// hash turns down fails with `InvalidCredentials`.
pub proof fn lemma_wrong_password_is_refused(
    records: Map<Seq<char>, UserRecord>,
    user: UserRecord,
    password: Seq<char>,
    secret: Seq<char>,
    ttl: i64,
    now: i64,
)
    requires
        record_under(records, user.email) == Some(user),
        bcrypt_verdict(password, user.password_hash) == Some(false),
    ensures
        login_outcome(Ok(record_under(records, user.email)), password, secret, ttl, now) == Err::<
            Seq<char>,
            AuthError,
        >(AuthError::InvalidCredentials),
{
}

/// A login with an email under which the store holds no record fails with
/// `InvalidCredentials`, whatever the password.
pub proof fn lemma_unknown_email_is_refused(
    records: Map<Seq<char>, UserRecord>,
    email: Seq<char>,
    password: Seq<char>,
    secret: Seq<char>,
    ttl: i64,
    now: i64,
)
    requires
        !records.contains_key(email),
    ensures
        login_outcome(Ok(record_under(records, email)), password, secret, ttl, now) == Err::<
            Seq<char>,
            AuthError,
        >(AuthError::InvalidCredentials),
{
}

/// An unknown email and a wrong password cannot be told apart: both logins
/// come to the same outcome.
pub proof fn lemma_refusals_are_indistinguishable(
    records: Map<Seq<char>, UserRecord>,
    user: UserRecord,
    wrong_password: Seq<char>,
    unknown_email: Seq<char>,
    any_password: Seq<char>,
    secret: Seq<char>,
    ttl: i64,
    now: i64,
)
    requires
        record_under(records, user.email) == Some(user),
        bcrypt_verdict(wrong_password, user.password_hash) == Some(false),
        !records.contains_key(unknown_email),
    ensures
        login_outcome(Ok(record_under(records, user.email)), wrong_password, secret, ttl, now)
            == login_outcome(
            Ok(record_under(records, unknown_email)),
            any_password,
            secret,
            ttl,
            now,
        ),
{
}

/// A token whose payload holds claims is accepted at every instant before
/// the expiry, with those claims, and rejected as expired at the expiry and
/// at every instant after it.
pub proof fn lemma_accepted_until_expiry(payload: PayloadView, claims: ClaimSet, now: i64)
    requires
        claims_in(payload) == Some(claims),
    ensures
        now < claims.exp ==> validation_outcome(Some(payload), now) == Ok::<ClaimSet, TokenError>(
            claims,
        ),
        now >= claims.exp ==> validation_outcome(Some(payload), now) == Err::<
            ClaimSet,
            TokenError,
        >(TokenError::Expired),
{
}

/// Where two tokens issued to a user at two instants each read back, under
/// the secret, as the claims that they were signed for, each is accepted
/// with those claims at its own issuance and at every instant before its own
/// expiry, and rejected as expired from then on, whatever the other is: a
/// token issued later takes nothing from one issued earlier.
pub proof fn lemma_issued_tokens_stand_alone(
    user: UserRecord,
    secret: Seq<char>,
    ttl: i64,
    first: i64,
    second: i64,
    first_token: Seq<char>,
    second_token: Seq<char>,
    now: i64,
)
    requires
        ttl > 0,
        issue_outcome(user, secret, ttl, first) == Ok::<Seq<char>, AuthError>(first_token),
        issue_outcome(user, secret, ttl, second) == Ok::<Seq<char>, AuthError>(second_token),
        jwt_payload(first_token, secret) matches Some(payload) && claims_in(payload) == claims_at(
            user,
            first,
            ttl,
        ),
        jwt_payload(second_token, secret) matches Some(payload) && claims_in(payload) == claims_at(
            user,
            second,
            ttl,
        ),
    ensures
        validation_outcome(jwt_payload(first_token, secret), now) == (if now < first + ttl {
            Ok::<ClaimSet, TokenError>(claims_at(user, first, ttl)->0)
        } else {
            Err::<ClaimSet, TokenError>(TokenError::Expired)
        }),
        validation_outcome(jwt_payload(second_token, secret), now) == (if now < second + ttl {
            Ok::<ClaimSet, TokenError>(claims_at(user, second, ttl)->0)
        } else {
            Err::<ClaimSet, TokenError>(TokenError::Expired)
        }),
        validation_outcome(jwt_payload(first_token, secret), first) is Ok,
        validation_outcome(jwt_payload(second_token, secret), second) is Ok,
{
}

} // verus!
