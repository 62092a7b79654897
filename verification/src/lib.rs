//! Credential authentication: checking an email and password against stored
//! credentials and issuing signed, time-bounded access tokens.
//!
//! [`user_service::UserService`] logs users in against a
//! [`repository::UserRepository`]; [`policy::AuthPolicy`] holds the signing
//! secret and the time that tokens live, decides logins from what a store
//! answered, and checks tokens; [`laws`] states what holds of every login and
//! of every validation.

pub mod auth_handlers;
pub mod clock;
pub mod error;
pub mod laws;
pub mod memory_user_repo;
pub mod password;
pub mod policy;
pub mod repository;
pub mod token;
pub mod user;
pub mod user_service;

pub use auth_handlers::{login_handler, login_reply, LoginReply, LoginRequest};
pub use error::{AuthError, TokenError};
pub use memory_user_repo::InMemoryUserRepo;
pub use policy::{AuthPolicy, ConfigError};
pub use repository::{StoreError, UserRepository};
pub use token::Claims;
pub use user::User;
pub use user_service::UserService;
