//! Token claims, and the signed strings that carry them.

use jsonwebtoken::{Algorithm, DecodingKey, EncodingKey, Header, Validation};
use serde_json::Value;
use uuid::Uuid;
use vstd::prelude::*;

use crate::error::{AuthError, TokenError};
use crate::user::{User, UserRecord};

verus! {

/// `jsonwebtoken::errors::Error`: what `encode` and `decode` report. It is
/// carried through unread.
#[verifier::external_type_specification]
#[verifier::external_body]
pub struct ExJwtError(jsonwebtoken::errors::Error);

/// `uuid::Error`: what `Uuid::parse_str` reports. It is carried through
/// unread.
#[verifier::external_type_specification]
#[verifier::external_body]
pub struct ExUuidError(uuid::Error);

/// The payload of an access token. Instants are whole seconds since the Unix
/// epoch.
#[derive(Clone, Debug, PartialEq, Eq)]
pub struct Claims {
    /// Identifier of the authenticated user.
    pub sub: u128,
    /// The user's email when the token was issued.
    pub email: String,
    /// Instant from which the token is no longer accepted.
    pub exp: i64,
    /// Instant of issuance.
    pub iat: i64,
}

/// The mathematical value of [`Claims`].
pub struct ClaimSet {
    pub sub: u128,
    pub email: Seq<char>,
    pub exp: i64,
    pub iat: i64,
}

impl View for Claims {
    type V = ClaimSet;

    open spec fn view(&self) -> ClaimSet {
        ClaimSet { sub: self.sub, email: self.email@, exp: self.exp, iat: self.iat }
    }
}

/// What a token's payload holds under the four names that this service
/// signs, as far as each is there in the expected JSON type: `sub` and `email`
/// as strings, `exp` and `iat` as integers.
#[derive(Clone, Debug, PartialEq, Eq)]
pub struct Payload {
    pub sub: Option<String>,
    pub email: Option<String>,
    pub exp: Option<i64>,
    pub iat: Option<i64>,
}

/// The mathematical value of a [`Payload`].
pub struct PayloadView {
    pub sub: Option<Seq<char>>,
    pub email: Option<Seq<char>>,
    pub exp: Option<i64>,
    pub iat: Option<i64>,
}

impl View for Payload {
    type V = PayloadView;

    open spec fn view(&self) -> PayloadView {
        PayloadView {
            sub: match self.sub {
                Some(text) => Some(text@),
                None => None,
            },
            email: match self.email {
                Some(text) => Some(text@),
                None => None,
            },
            exp: self.exp,
            iat: self.iat,
        }
    }
}

/// The token that `jsonwebtoken::encode` makes of a secret and claims, under
/// the default header (HS256); `None` where it reports an error.
pub uninterp spec fn jwt_encoding(secret: Seq<char>, claims: ClaimSet) -> Option<Seq<char>>;

/// What `jsonwebtoken::decode` reads from a token under a secret, where HS256
/// is the only algorithm accepted, the expiry is not looked at and no claim
/// is required: the four members of the payload that [`Payload`] names;
/// `None` where it rejects the token.
pub uninterp spec fn jwt_payload(token: Seq<char>, secret: Seq<char>) -> Option<PayloadView>;

/// The 128 bits that `uuid::Uuid::parse_str` reads from a text; `None` where
/// the text is not a UUID in one of the forms that it accepts.
pub uninterp spec fn uuid_of_text(text: Seq<char>) -> Option<u128>;

/// Calls `jsonwebtoken::encode` with the default header, which names HS256,
/// and the bytes of `secret` as the HMAC key. The claims go in as a JSON
/// object with the members `sub` (the UUID in its hyphenated form), `email`,
/// `exp` and `iat`, in this order. The token depends on the secret and the
/// claims alone.
#[verifier::external_body]
fn sign_claims(secret: &str, claims: &Claims) -> (r: Result<String, jsonwebtoken::errors::Error>)
    ensures
        match r {
            Ok(token) => jwt_encoding(secret@, claims@) == Some(token@),
            Err(_) => jwt_encoding(secret@, claims@) is None,
        },
{
    let mut body = serde_json::Map::new();
    body.insert("sub".to_string(), Value::from(Uuid::from_u128(claims.sub).to_string()));
    body.insert("email".to_string(), Value::from(claims.email.as_str()));
    body.insert("exp".to_string(), Value::from(claims.exp));
    body.insert("iat".to_string(), Value::from(claims.iat));
    jsonwebtoken::encode(&Header::default(), &body, &EncodingKey::from_secret(secret.as_bytes()))
}

/// Calls `jsonwebtoken::decode` with the bytes of `secret` as the HMAC key
/// and HS256 as the only algorithm. `decode` rejects a token that has not
/// three parts, whose header names another algorithm, whose signature is not
/// the HMAC of the first two parts, or whose payload is no JSON value. Its
/// expiry check, which reads the machine's clock, is switched off, and no
/// claim is required; its other checks stay as `Validation::new` sets them.
/// From the payload the four members are picked, each where it has the
/// expected JSON type. The result depends on the token and the secret alone.
#[verifier::external_body]
fn open_token(token: &str, secret: &str) -> (r: Result<Payload, jsonwebtoken::errors::Error>)
    ensures
        match r {
            Ok(payload) => jwt_payload(token@, secret@) == Some(payload@),
            Err(_) => jwt_payload(token@, secret@) is None,
        },
{
    let mut rules = Validation::new(Algorithm::HS256);
    rules.validate_exp = false;
    rules.required_spec_claims.clear();
    let key = DecodingKey::from_secret(secret.as_bytes());
    let body = jsonwebtoken::decode::<Value>(token, &key, &rules)?.claims;
    Ok(Payload {
        sub: body.get("sub").and_then(Value::as_str).map(String::from),
        email: body.get("email").and_then(Value::as_str).map(String::from),
        exp: body.get("exp").and_then(Value::as_i64),
        iat: body.get("iat").and_then(Value::as_i64),
    })
}

/// Calls `uuid::Uuid::parse_str` and takes the 128 bits of the UUID read.
#[verifier::external_body]
fn parse_id(text: &str) -> (r: Result<u128, uuid::Error>)
    ensures
        match r {
            Ok(id) => uuid_of_text(text@) == Some(id),
            Err(_) => uuid_of_text(text@) is None,
        },
{
    Uuid::parse_str(text).map(|id| id.as_u128())
}

/// The claims for `user` at the instant `now` with `ttl` seconds to live;
/// `None` where the expiry is no instant that an `i64` holds.
pub open spec fn claims_at(user: UserRecord, now: i64, ttl: i64) -> Option<ClaimSet> {
    if i64::MIN <= now + ttl <= i64::MAX {
        Some(ClaimSet { sub: user.id, email: user.email, exp: (now + ttl) as i64, iat: now })
    } else {
        None
    }
}

/// The mathematical value of claims that may be missing.
pub open spec fn claims_view(claims: Option<Claims>) -> Option<ClaimSet> {
    match claims {
        Some(c) => Some(c@),
        None => None,
    }
}

/// Builds the claims of a token issued to `user` at `now`: the user's
/// identifier and email, `now` as the instant of issuance, and `now + ttl` as
/// the expiry.
pub fn claims_for(user: &User, now: i64, ttl: i64) -> (r: Option<Claims>)
    ensures
        claims_view(r) == claims_at(user@, now, ttl),
{
    match now.checked_add(ttl) {
        Some(exp) => Some(Claims { sub: user.id, email: user.email.clone(), exp, iat: now }),
        None => None,
    }
}

/// What issuing comes to once the signer has answered.
pub open spec fn token_decision(signed: Option<Seq<char>>) -> Result<Seq<char>, AuthError> {
    match signed {
        Some(token) => Ok(token),
        None => Err(AuthError::TokenIssuance),
    }
}

/// The mathematical value of a login's result.
pub open spec fn token_view(r: Result<String, AuthError>) -> Result<Seq<char>, AuthError> {
    match r {
        Ok(token) => Ok(token@),
        Err(e) => Err(e),
    }
}

/// The mathematical value of a signer's answer.
pub open spec fn signed_view(signed: Option<String>) -> Option<Seq<char>> {
    match signed {
        Some(token) => Some(token@),
        None => None,
    }
}

/// Hands on the token that the signer made, or reports that none was made.
pub fn token_result(signed: Option<String>) -> (r: Result<String, AuthError>)
    ensures
        token_view(r) == token_decision(signed_view(signed)),
{
    match signed {
        Some(token) => Ok(token),
        None => Err(AuthError::TokenIssuance),
    }
}

/// The token for `claims` under `secret`.
pub fn sign(secret: &str, claims: &Claims) -> (r: Result<String, AuthError>)
    ensures
        token_view(r) == token_decision(jwt_encoding(secret@, claims@)),
{
    let signed = match sign_claims(secret, claims) {
        Ok(token) => Some(token),
        Err(_) => None,
    };
    token_result(signed)
}

/// The claims that a payload holds, given what its `sub` reads as: all four
/// members must be there, and `sub` must be a UUID.
pub open spec fn claims_from(payload: PayloadView, id: Option<u128>) -> Option<ClaimSet> {
    match (id, payload.email, payload.exp, payload.iat) {
        (Some(sub), Some(email), Some(exp), Some(iat)) => Some(ClaimSet { sub, email, exp, iat }),
        _ => None,
    }
}

/// The identifier that the `sub` of a payload reads as.
pub open spec fn subject_of(payload: PayloadView) -> Option<u128> {
    match payload.sub {
        Some(text) => uuid_of_text(text),
        None => None,
    }
}

/// The claims that a payload holds.
pub open spec fn claims_in(payload: PayloadView) -> Option<ClaimSet> {
    claims_from(payload, subject_of(payload))
}

/// Puts the claims together from a payload and the identifier read from its
/// `sub`.
pub fn assemble_claims(payload: Payload, id: Option<u128>) -> (r: Option<Claims>)
    ensures
        claims_view(r) == claims_from(payload@, id),
{
    match (id, payload.email, payload.exp, payload.iat) {
        (Some(sub), Some(email), Some(exp), Some(iat)) => Some(Claims { sub, email, exp, iat }),
        _ => None,
    }
}

/// Reads the claims out of a payload.
pub fn read_claims(payload: Payload) -> (r: Option<Claims>)
    ensures
        claims_view(r) == claims_in(payload@),
{
    let id = match &payload.sub {
        Some(text) => match parse_id(text.as_str()) {
            Ok(id) => Some(id),
            Err(_) => None,
        },
        None => None,
    };
    assemble_claims(payload, id)
}

/// The verdict on claims presented at `now`: they stand while `now` is before
/// the expiry.
pub open spec fn expiry_decision(claims: ClaimSet, now: i64) -> Result<ClaimSet, TokenError> {
    if now < claims.exp {
        Ok(claims)
    } else {
        Err(TokenError::Expired)
    }
}

/// The mathematical value of a validation's result.
pub open spec fn validation_view(r: Result<Claims, TokenError>) -> Result<ClaimSet, TokenError> {
    match r {
        Ok(claims) => Ok(claims@),
        Err(e) => Err(e),
    }
}

/// Accepts claims presented before their expiry, and rejects them from the
/// expiry on.
pub fn check_expiry(claims: Claims, now: i64) -> (r: Result<Claims, TokenError>)
    ensures
        validation_view(r) == expiry_decision(claims@, now),
{
    if now < claims.exp {
        Ok(claims)
    } else {
        Err(TokenError::Expired)
    }
}

/// The verdict on a token, from what was read of it under the secret.
pub open spec fn validation_outcome(opened: Option<PayloadView>, now: i64) -> Result<
    ClaimSet,
    TokenError,
> {
    match opened {
        None => Err(TokenError::InvalidToken),
        Some(payload) => match claims_in(payload) {
            None => Err(TokenError::MalformedClaims),
            Some(claims) => expiry_decision(claims, now),
        },
    }
}

/// Checks a token presented at `now` against `secret`: the signature must
/// verify, the payload must hold the four claims, and `now` must be before
/// the expiry.
pub fn validate_token(secret: &str, token: &str, now: i64) -> (r: Result<Claims, TokenError>)
    ensures
        validation_view(r) == validation_outcome(jwt_payload(token@, secret@), now),
{
    let payload = match open_token(token, secret) {
        Ok(payload) => payload,
        Err(_) => {
            return Err(TokenError::InvalidToken);
        },
    };
    match read_claims(payload) {
        Some(claims) => check_expiry(claims, now),
        None => Err(TokenError::MalformedClaims),
    }
}

} // verus!
