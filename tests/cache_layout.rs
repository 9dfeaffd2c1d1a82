use auth_service::data_stores::{LoginAttemptId, TwoFACode, TwoFACodeStoreError};
use auth_service::domain::Email;
use auth_service::{redis_banned_token_store, redis_two_fa_code_store};

#[test]
fn cache_keys_carry_their_prefixes() {
    assert_eq!(redis_banned_token_store::get_key("abc"), "banned_token:abc");
    let email = Email::new("user@example.com".to_string()).unwrap();
    assert_eq!(redis_two_fa_code_store::get_key(&email), "two_fa_code:user@example.com");
}

#[test]
fn code_entry_round_trips() {
    let id = LoginAttemptId::new("550e8400-e29b-41d4-a716-446655440000".to_string()).unwrap();
    let code = TwoFACode::new("123456".to_string()).unwrap();
    let text = redis_two_fa_code_store::encode_code_entry(&id, &code).unwrap();
    assert_eq!(text, r#"["550e8400-e29b-41d4-a716-446655440000","123456"]"#);
    let (id2, code2) = redis_two_fa_code_store::decode_code_entry(&text).unwrap();
    assert_eq!(id2, id);
    assert_eq!(code2, code);
}

#[test]
fn malformed_code_entries_are_unexpected() {
    for text in ["", "[1,2]", r#"["not-a-uuid","123456"]"#, r#"["550e8400-e29b-41d4-a716-446655440000","12345"]"#] {
        assert_eq!(
            redis_two_fa_code_store::decode_code_entry(text).err(),
            Some(TwoFACodeStoreError::UnexpectedError)
        );
    }
}
