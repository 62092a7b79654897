use bcrypt::hash;
use user_auth::error::AuthError;
use user_auth::auth_handlers::{login_handler, login_reply, LoginReply, LoginRequest};
use user_auth::memory_user_repo::InMemoryUserRepo;
use user_auth::repository::UserRepository;
use user_auth::user_service::UserService;
use user_auth::user::User;

fn service() -> UserService<InMemoryUserRepo> {
    let mut repo = InMemoryUserRepo::new();
    repo.save(&User {
        id: 7,
        email: "a@b.com".into(),
        password_hash: hash("secret", 4).unwrap(),
        created_at: 0,
        updated_at: 0,
    })
    .unwrap();
    UserService::new(repo, "mysecret".into(), 3600)
}

fn request(email: &str, password: &str) -> LoginRequest {
    LoginRequest { email: email.into(), password: password.into() }
}

#[test]
fn accepted_login_is_answered_with_the_token() {
    let service = service();
    let reply = login_handler(&service, &request("a@b.com", "secret"));
    assert_eq!(reply.status(), 200);
    match reply {
        LoginReply::Token(token) => {
            let claims = service.validate(&token, 0).expect("token rejected");
            assert_eq!(claims.sub, 7);
            assert_eq!(claims.email, "a@b.com");
        }
        other => panic!("no token: {:?}", other),
    }
}

#[test]
fn refused_login_is_answered_as_unauthorized() {
    let service = service();
    let wrong = login_handler(&service, &request("a@b.com", "wrong"));
    assert_eq!(wrong, LoginReply::Unauthorized);
    assert_eq!(wrong.status(), 401);
    let unknown = login_handler(&service, &request("nouser@b.com", "secret"));
    assert_eq!(unknown, LoginReply::Unauthorized);
}

#[test]
fn each_outcome_has_its_reply() {
    assert_eq!(login_reply(Ok("t".into())), LoginReply::Token("t".into()));
    assert_eq!(login_reply(Err(AuthError::InvalidCredentials)), LoginReply::Unauthorized);
    assert_eq!(login_reply(Err(AuthError::VerificationError)), LoginReply::ServerError);
    assert_eq!(login_reply(Err(AuthError::StoreUnavailable)), LoginReply::ServerError);
    assert_eq!(login_reply(Err(AuthError::TokenIssuance)), LoginReply::ServerError);
}

#[test]
fn each_reply_has_its_status() {
    assert_eq!(LoginReply::Token("t".into()).status(), 200);
    assert_eq!(LoginReply::Unauthorized.status(), 401);
    assert_eq!(LoginReply::ServerError.status(), 500);
}

#[test]
fn each_reply_without_a_token_has_its_error_text() {
    assert_eq!(LoginReply::Token("t".into()).error(), None);
    assert_eq!(LoginReply::Unauthorized.error(), Some("Invalid credentials".to_string()));
    assert_eq!(LoginReply::ServerError.error(), Some("Internal server error".to_string()));
}
