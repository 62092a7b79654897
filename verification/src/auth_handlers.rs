//! What a request handler does with a login request, short of the transport:
//! it calls the service and maps the outcome to a reply.

use vstd::prelude::*;

use crate::error::AuthError;
use crate::repository::UserRepository;
use crate::user_service::UserService;
use crate::token::token_view;

verus! {

/// The body of a login request. The type has no `Debug`: the password is not
/// to be printed.
#[derive(Clone, PartialEq, Eq)]
pub struct LoginRequest {
    pub email: String,
    pub password: String,
}

/// The reply to a login request.
#[derive(Clone, Debug, PartialEq, Eq)]
pub enum LoginReply {
    /// The login succeeded; the reply carries the token.
    Token(String),
    /// The credentials were not accepted.
    Unauthorized,
    /// The server could not decide the login.
    ServerError,
}

/// The mathematical value of a [`LoginReply`].
pub enum ReplyView {
    Token(Seq<char>),
    Unauthorized,
    ServerError,
}

impl View for LoginReply {
    type V = ReplyView;

    open spec fn view(&self) -> ReplyView {
        match self {
            LoginReply::Token(token) => ReplyView::Token(token@),
            LoginReply::Unauthorized => ReplyView::Unauthorized,
            LoginReply::ServerError => ReplyView::ServerError,
        }
    }
}

/// The HTTP status that goes with a reply.
pub open spec fn status_of(reply: ReplyView) -> u16 {
    match reply {
        ReplyView::Token(_) => 200,
        ReplyView::Unauthorized => 401,
        ReplyView::ServerError => 500,
    }
}

/// The reply that a login's outcome calls for: a token is handed on;
/// credentials that were not accepted are answered as unauthorized; a hash
/// that cannot be checked, a store that does not answer and a token that
/// cannot be issued are the server's failures.
pub open spec fn reply_for(outcome: Result<Seq<char>, AuthError>) -> ReplyView {
    match outcome {
        Ok(token) => ReplyView::Token(token),
        Err(AuthError::InvalidCredentials) => ReplyView::Unauthorized,
        Err(AuthError::VerificationError) => ReplyView::ServerError,
        Err(AuthError::StoreUnavailable) => ReplyView::ServerError,
        Err(AuthError::TokenIssuance) => ReplyView::ServerError,
    }
}

/// The error text that goes with a reply that carries no token.
pub open spec fn error_of(reply: ReplyView) -> Option<Seq<char>> {
    match reply {
        ReplyView::Token(_) => None,
        ReplyView::Unauthorized => Some("Invalid credentials"@),
        ReplyView::ServerError => Some("Internal server error"@),
    }
}

/// The mathematical value of a text that may be missing.
pub open spec fn text_view(text: Option<String>) -> Option<Seq<char>> {
    match text {
        Some(t) => Some(t@),
        None => None,
    }
}

impl LoginReply {
    /// The error text that goes with the reply, where it carries no token.
    pub fn error(&self) -> (text: Option<String>)
        ensures
            text_view(text) == error_of(self@),
    {
        match self {
            LoginReply::Token(_) => None,
            LoginReply::Unauthorized => Some("Invalid credentials".to_owned()),
            LoginReply::ServerError => Some("Internal server error".to_owned()),
        }
    }

    /// The HTTP status that goes with the reply.
    pub fn status(&self) -> (code: u16)
        ensures
            code == status_of(self@),
    {
        match self {
            LoginReply::Token(_) => 200,
            LoginReply::Unauthorized => 401,
            LoginReply::ServerError => 500,
        }
    }
}

/// Maps the outcome of a login to the reply that it calls for.
pub fn login_reply(outcome: Result<String, AuthError>) -> (reply: LoginReply)
    ensures
        reply@ == reply_for(token_view(outcome)),
{
    match outcome {
        Ok(token) => LoginReply::Token(token),
        Err(AuthError::InvalidCredentials) => LoginReply::Unauthorized,
        Err(AuthError::VerificationError) => LoginReply::ServerError,
        Err(AuthError::StoreUnavailable) => LoginReply::ServerError,
        Err(AuthError::TokenIssuance) => LoginReply::ServerError,
    }
}

/// Handles a login request: logs in with the email and password of the
/// request and replies with what came of it.
pub fn login_handler<R: UserRepository + Clone>(service: &UserService<R>, payload: &LoginRequest) -> (reply:
    LoginReply)
    ensures
        reply@ == ReplyView::ServerError || exists|now: i64|
            reply@ == reply_for(
                #[trigger] service.outcome_at(payload.email@, payload.password@, now),
            ),
        service.repo().always_answers() ==> exists|now: i64|
            reply@ == reply_for(
                #[trigger] service.outcome_at(payload.email@, payload.password@, now),
            ),
{
    let outcome = service.login(payload.email.as_str(), payload.password.as_str());
    login_reply(outcome)
}

} // verus!
