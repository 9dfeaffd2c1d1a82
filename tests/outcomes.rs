use auth_service::data_stores::{LoginAttemptId, TwoFACode, TwoFACodeStoreError, UserStoreError};
use auth_service::domain::{AuthAPIError, Email, Failure, UserRecord};
use auth_service::routes::{challenge_outcome, credentials_outcome, second_factor_required};

fn id(text: &str) -> LoginAttemptId {
    LoginAttemptId::new(text.to_string()).unwrap()
}

fn code(text: &str) -> TwoFACode {
    TwoFACode::new(text.to_string()).unwrap()
}

#[test]
fn directory_answers_map_to_login_outcomes() {
    assert_eq!(credentials_outcome(Ok(())), Ok(()));
    assert_eq!(
        credentials_outcome(Err(UserStoreError::UserNotFound)),
        Err(AuthAPIError::IncorrectCredentials)
    );
    assert_eq!(
        credentials_outcome(Err(UserStoreError::InvalidCredentials)),
        Err(AuthAPIError::IncorrectCredentials)
    );
    assert_eq!(
        credentials_outcome(Err(UserStoreError::UnexpectedError)),
        Err(AuthAPIError::UnexpectedError(Failure::UserStore))
    );
}

#[test]
fn returned_account_decides_the_second_factor() {
    let record = UserRecord {
        email: Email::new("user@example.com".to_string()).unwrap(),
        password_hash: "hash".to_string(),
        requires_2fa: true,
    };
    assert_eq!(second_factor_required(Ok(record)), Ok(true));
    assert_eq!(
        second_factor_required(Err(UserStoreError::UserNotFound)),
        Err(AuthAPIError::UnexpectedError(Failure::UserStore))
    );
}

#[test]
fn challenge_answers_map_to_verification_outcomes() {
    let a = "550e8400-e29b-41d4-a716-446655440000";
    let b = "650e8400-e29b-41d4-a716-446655440000";
    assert_eq!(challenge_outcome(Ok((id(a), code("123456"))), &id(a), &code("123456")), Ok(()));
    assert_eq!(
        challenge_outcome(Ok((id(a), code("123456"))), &id(b), &code("123456")),
        Err(AuthAPIError::IncorrectCredentials)
    );
    assert_eq!(
        challenge_outcome(Ok((id(a), code("123456"))), &id(a), &code("123457")),
        Err(AuthAPIError::IncorrectCredentials)
    );
    assert_eq!(
        challenge_outcome(Err(TwoFACodeStoreError::LoginAttemptIdNotFound), &id(a), &code("123456")),
        Err(AuthAPIError::IncorrectCredentials)
    );
    assert_eq!(
        challenge_outcome(Err(TwoFACodeStoreError::UnexpectedError), &id(a), &code("123456")),
        Err(AuthAPIError::UnexpectedError(Failure::ChallengeStore))
    );
}
