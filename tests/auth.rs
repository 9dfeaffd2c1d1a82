use auth_service::auth::{
    check_token, generate_auth_token, issue_token, validate_token, GenerateTokenError, TokenError,
    TOKEN_TTL_SECONDS,
};
use auth_service::data_stores::BannedTokenStore;
use auth_service::domain::Email;
use auth_service::hashset_banned_store::HashsetBannedTokenStore;

const SECRET: &str = "secret";

#[test]
fn test_generate_auth_token() {
    let email = Email::new("test@example.com".into()).unwrap();
    let result = generate_auth_token(&email, SECRET).unwrap();
    assert_eq!(result.split('.').count(), 3);
}

#[test]
fn test_validate_token_with_valid_token() {
    let email = Email::new("test@example.com".into()).unwrap();
    let token = generate_auth_token(&email, SECRET).unwrap();

    let banned_token_store = HashsetBannedTokenStore::new();
    let result = validate_token(&token, &banned_token_store, SECRET).unwrap();
    assert_eq!(result.sub, "test@example.com");

    let exp = chrono::Utc::now()
        .checked_add_signed(chrono::Duration::try_minutes(9).expect("valid duration"))
        .expect("valid timestamp")
        .timestamp();

    assert!(result.exp > exp as u64);
}

#[test]
fn test_validate_token_with_invalid_token() {
    let token = "invalid_token".to_owned();
    let banned_token_store = HashsetBannedTokenStore::new();
    let result = validate_token(&token, &banned_token_store, SECRET);
    assert!(result.is_err());
}

#[test]
fn test_validate_token_with_banned_token() {
    let email = Email::new("test@example.com".into()).unwrap();
    let token = generate_auth_token(&email, SECRET).unwrap();

    let mut banned_token_store = HashsetBannedTokenStore::new();
    banned_token_store.ban_token(&token).unwrap();

    let result = validate_token(&token, &banned_token_store, SECRET);
    assert!(result.is_err());
}

#[test]
fn issued_token_carries_address_and_lapse() {
    let email = Email::new("user@example.com".to_string()).unwrap();
    let store = HashsetBannedTokenStore::new();
    let token = issue_token(&email, 1000, SECRET).unwrap();
    assert_ne!(token, "user@example.com");
    let claims = check_token(&token, &store, SECRET, 1000).unwrap();
    assert_eq!(claims.sub, "user@example.com");
    assert_eq!(claims.exp, 1000 + TOKEN_TTL_SECONDS);
    assert_eq!(claims.exp, 1600);
    assert!(check_token(&token, &store, SECRET, 1599).is_ok());
    assert_eq!(check_token(&token, &store, SECRET, 1600).err(), Some(TokenError::Expired));
    assert_eq!(check_token(&token, &store, "other", 1000).err(), Some(TokenError::Malformed));
    assert_eq!(check_token("a.b.c", &store, SECRET, 1000).err(), Some(TokenError::Malformed));
}

#[test]
fn revoked_token_is_refused_before_its_signature() {
    let mut store = HashsetBannedTokenStore::new();
    store.ban_token("garbage").unwrap();
    assert_eq!(check_token("garbage", &store, SECRET, 0).err(), Some(TokenError::Revoked));
    let email = Email::new("user@example.com".to_string()).unwrap();
    let token = issue_token(&email, 0, SECRET).unwrap();
    store.ban_token(&token).unwrap();
    assert_eq!(check_token(&token, &store, SECRET, 0).err(), Some(TokenError::Revoked));
}

#[test]
fn issuing_at_the_end_of_time_fails() {
    let email = Email::new("user@example.com".to_string()).unwrap();
    assert!(matches!(
        issue_token(&email, u64::MAX - 599, SECRET),
        Err(GenerateTokenError::UnexpectedError)
    ));
    assert!(issue_token(&email, u64::MAX - 600, SECRET).is_ok());
}
