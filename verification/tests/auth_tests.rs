use code_warrior::auth::handlers::is_valid_email;
use code_warrior::auth::jwt::extract_bearer_token;
use code_warrior::auth::oauth::OAuthState;
use code_warrior::auth::password::{generate_secure_token, hash_token, validate_password_strength};
use code_warrior::auth::AuthError;
use code_warrior::auth_middleware::RateLimitConfig;

#[test]
fn test_extract_bearer_token() {
    assert_eq!(extract_bearer_token("Bearer abc123"), Some("abc123"));
    assert_eq!(extract_bearer_token("bearer abc123"), Some("abc123"));
    assert_eq!(extract_bearer_token("Basic abc123"), None);
}

#[test]
fn test_password_validation() {
    // Too short
    assert!(matches!(
        validate_password_strength("short1"),
        Err(AuthError::WeakPassword(_))
    ));

    // No number
    assert!(matches!(
        validate_password_strength("NoNumberHere"),
        Err(AuthError::WeakPassword(_))
    ));

    // No letter
    assert!(matches!(
        validate_password_strength("12345678"),
        Err(AuthError::WeakPassword(_))
    ));

    // Valid
    assert!(validate_password_strength("ValidPass123").is_ok());
}

#[test]
fn test_secure_token() {
    let token1 = generate_secure_token();
    let token2 = generate_secure_token();

    assert_eq!(token1.len(), 64); // 32 bytes = 64 hex chars
    assert_ne!(token1, token2);
}

#[test]
fn test_hash_token() {
    let token = "test_token_123";
    let hash1 = hash_token(token);
    let hash2 = hash_token(token);

    // Same input should produce same hash
    assert_eq!(hash1, hash2);

    // Different input should produce different hash
    let hash3 = hash_token("different_token");
    assert_ne!(hash1, hash3);
}

#[test]
fn hash_token_matches_known_digest() {
    // SHA-256 of the empty string, in lowercase hex
    assert_eq!(
        hash_token(""),
        "e3b0c44298fc1c149afbf4c8996fb92427ae41e4649b934ca495991b7852b855"
    );
}

#[test]
fn test_rate_limit_config_default() {
    let config = RateLimitConfig::default();
    assert_eq!(config.xp_0_99, 30);
    assert_eq!(config.xp_100_499, 60);
    assert_eq!(config.xp_500_1999, 120);
    assert_eq!(config.xp_2000_plus, 240);
}

#[test]
fn rate_limits_rise_with_xp() {
    let config = RateLimitConfig::default();
    assert_eq!(config.limit_for_xp(0), 30);
    assert_eq!(config.limit_for_xp(99), 30);
    assert_eq!(config.limit_for_xp(100), 60);
    assert_eq!(config.limit_for_xp(499), 60);
    assert_eq!(config.limit_for_xp(500), 120);
    assert_eq!(config.limit_for_xp(1999), 120);
    assert_eq!(config.limit_for_xp(2000), 240);
}

#[test]
fn email_shapes() {
    assert!(is_valid_email("user@example.com"));
    assert!(!is_valid_email("userexample.com"));
    assert!(!is_valid_email("user@@example.com"));
    assert!(!is_valid_email("@example.com"));
    assert!(!is_valid_email("user@"));
    assert!(!is_valid_email("user@examplecom"));
    assert!(!is_valid_email("user@.example.com"));
    assert!(!is_valid_email("user@example.com."));
    let long_local = "x".repeat(250);
    assert!(!is_valid_email(&format!("{}@ex.com", long_local)));
}

#[test]
fn auth_error_status_codes_and_messages() {
    assert_eq!(AuthError::InvalidCredentials.status_code(), 401);
    assert_eq!(AuthError::InvalidToken.status_code(), 401);
    assert_eq!(AuthError::EmailExists.status_code(), 409);
    assert_eq!(AuthError::UsernameExists.status_code(), 409);
    assert_eq!(AuthError::UserSuspended.status_code(), 403);
    assert_eq!(AuthError::UserBlacklisted.status_code(), 403);
    assert_eq!(AuthError::WeakPassword("x".to_string()).status_code(), 400);
    assert_eq!(AuthError::InvalidEmail.status_code(), 400);
    assert_eq!(AuthError::UserNotFound.status_code(), 404);
    assert_eq!(AuthError::Database("x".to_string()).status_code(), 500);
    assert_eq!(AuthError::Internal("x".to_string()).status_code(), 500);

    assert_eq!(AuthError::InvalidCredentials.message(), "Invalid credentials");
    assert_eq!(
        AuthError::WeakPassword("too short".to_string()).message(),
        "Password too weak: too short"
    );
    assert_eq!(AuthError::Internal("boom".to_string()).message(), "Internal error: boom");
}

#[test]
fn oauth_state_nonce_is_fresh() {
    let a = OAuthState::new(Some("/".to_string()));
    let b = OAuthState::new(None);
    assert_eq!(a.nonce.len(), 32);
    assert_eq!(b.nonce.len(), 32);
    assert_ne!(a.nonce, b.nonce);
    assert_eq!(a.redirect_to.as_deref(), Some("/"));
    assert!(b.redirect_to.is_none());
}

#[test]
fn weak_password_messages_are_specific() {
    match validate_password_strength("a1") {
        Err(AuthError::WeakPassword(m)) => {
            assert_eq!(m, "Password must be at least 8 characters long")
        }
        _ => panic!("short password must be refused"),
    }
    let long = "a1".repeat(65);
    match validate_password_strength(&long) {
        Err(AuthError::WeakPassword(m)) => {
            assert_eq!(m, "Password must be at most 128 characters long")
        }
        _ => panic!("long password must be refused"),
    }
    match validate_password_strength("abcdefgh") {
        Err(AuthError::WeakPassword(m)) => {
            assert_eq!(m, "Password must contain at least one letter and one number")
        }
        _ => panic!("a password without digits must be refused"),
    }
}
