//! Account API data: request payloads and the error taxonomy.

pub mod handlers;
pub mod jwt;
pub mod oauth;
pub mod password;

use vstd::prelude::*;
use vstd::string::*;

verus! {

/// Register request payload.
#[derive(Debug, Clone)]
pub struct RegisterRequest {
    pub email: String,
    pub password: String,
    pub username: Option<String>,
}

/// Login request payload.
#[derive(Debug, Clone)]
pub struct LoginRequest {
    pub email: String,
    pub password: String,
}

/// Email verification request.
#[derive(Debug, Clone)]
pub struct VerifyEmailRequest {
    pub token: String,
}

/// Resend-verification request.
#[derive(Debug, Clone)]
pub struct ResendVerifyRequest {
    pub email: String,
}

/// Password reset request.
#[derive(Debug, Clone)]
pub struct RequestResetRequest {
    pub email: String,
}

/// Reset password with a token.
#[derive(Debug, Clone)]
pub struct ResetPasswordRequest {
    pub token: String,
    pub new_password: String,
}

/// Account errors.
#[derive(Debug, Clone)]
pub enum AuthError {
    InvalidCredentials,
    EmailExists,
    UsernameExists,
    InvalidToken,
    UserSuspended,
    UserBlacklisted,
    WeakPassword(String),
    InvalidEmail,
    UserNotFound,
    Database(String),
    Internal(String),
}

impl AuthError {
    /// The HTTP status code each error maps to.
    pub fn status_code(&self) -> (r: u16)
        ensures
            self is InvalidCredentials || self is InvalidToken ==> r == 401,
            self is EmailExists || self is UsernameExists ==> r == 409,
            self is UserSuspended || self is UserBlacklisted ==> r == 403,
            self is WeakPassword || self is InvalidEmail ==> r == 400,
            self is UserNotFound ==> r == 404,
            self is Database || self is Internal ==> r == 500,
    {
        match self {
            AuthError::InvalidCredentials => 401,
            AuthError::InvalidToken => 401,
            AuthError::EmailExists => 409,
            AuthError::UsernameExists => 409,
            AuthError::UserSuspended => 403,
            AuthError::UserBlacklisted => 403,
            AuthError::WeakPassword(_) => 400,
            AuthError::InvalidEmail => 400,
            AuthError::UserNotFound => 404,
            AuthError::Database(_) => 500,
            AuthError::Internal(_) => 500,
        }
    }

    /// The user-facing message of each error.
    pub fn message(&self) -> (r: String)
        ensures
            self is InvalidCredentials ==> r@ == "Invalid credentials"@,
            self is EmailExists ==> r@ == "Email already registered"@,
            self is UsernameExists ==> r@ == "Username already taken"@,
            self is InvalidToken ==> r@ == "Invalid or expired token"@,
            self is UserSuspended ==> r@ == "User is suspended"@,
            self is UserBlacklisted ==> r@ == "User is blacklisted"@,
            self matches AuthError::WeakPassword(m) ==> r@ == "Password too weak: "@ + m@,
            self is InvalidEmail ==> r@ == "Invalid email format"@,
            self is UserNotFound ==> r@ == "User not found"@,
            self matches AuthError::Database(m) ==> r@ == "Database error: "@ + m@,
            self matches AuthError::Internal(m) ==> r@ == "Internal error: "@ + m@,
    {
        match self {
            AuthError::InvalidCredentials => "Invalid credentials".to_owned(),
            AuthError::EmailExists => "Email already registered".to_owned(),
            AuthError::UsernameExists => "Username already taken".to_owned(),
            AuthError::InvalidToken => "Invalid or expired token".to_owned(),
            AuthError::UserSuspended => "User is suspended".to_owned(),
            AuthError::UserBlacklisted => "User is blacklisted".to_owned(),
            AuthError::WeakPassword(m) => {
                let mut out = "Password too weak: ".to_owned();
                out.append(m.as_str());
                out
            },
            AuthError::InvalidEmail => "Invalid email format".to_owned(),
            AuthError::UserNotFound => "User not found".to_owned(),
            AuthError::Database(m) => {
                let mut out = "Database error: ".to_owned();
                out.append(m.as_str());
                out
            },
            AuthError::Internal(m) => {
                let mut out = "Internal error: ".to_owned();
                out.append(m.as_str());
                out
            },
        }
    }
}

} // verus!
