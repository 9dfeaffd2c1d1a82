use auth_service::data_stores::{BannedTokenStore, TwoFACodeStore, UserStore};
use auth_service::domain::{AuthAPIError, Email, Password, User};
use auth_service::hashmap_two_fa_code_store::HashmapTwoFACodeStore;
use auth_service::hashmap_user_store::HashMapUserStore;
use auth_service::hashset_banned_store::HashsetBannedTokenStore;
use auth_service::auth::issue_token;
use auth_service::routes::{
    AppState, LoginOutcome, LoginRequest, LoginResponse, SignupRequest, Verify2FARequest,
    VerifyTokenRequest,
};

type State = AppState<HashMapUserStore, HashsetBannedTokenStore, HashmapTwoFACodeStore>;

const NOW: u64 = 1_700_000_000;

fn new_app() -> State {
    AppState::new(
        HashMapUserStore::new(),
        HashsetBannedTokenStore::new(),
        HashmapTwoFACodeStore::new(),
        "secret".to_string(),
    )
}

fn status<T>(r: &Result<T, AuthAPIError>, ok: u16) -> u16 {
    match r {
        Ok(_) => ok,
        Err(e) => e.error_response().0,
    }
}

fn signup(app: &mut State, email: &str, password: &str, requires_2fa: bool) -> u16 {
    let r = app.signup(SignupRequest {
        email: email.to_string(),
        password: password.to_string(),
        requires_2fa,
    });
    status(&r, 201)
}

fn login(app: &mut State, email: &str, password: &str) -> Result<LoginOutcome, AuthAPIError> {
    app.login(
        LoginRequest { email: email.to_string(), password: password.to_string() },
        NOW,
    )
}

fn login_status(r: &Result<LoginOutcome, AuthAPIError>) -> u16 {
    match r {
        Ok(outcome) => outcome.status_code(),
        Err(e) => e.error_response().0,
    }
}

fn verify_2fa(app: &mut State, email: &str, id: &str, code: &str) -> Result<String, AuthAPIError> {
    let (token, r) = app.verify_2fa(
        Verify2FARequest {
            email: email.to_string(),
            login_attempt_id: id.to_string(),
            two_fa_code: code.to_string(),
        },
        NOW + 5,
    );
    match (token, r) {
        (Some(token), Ok(())) => Ok(token),
        (None, Err(e)) => Err(e),
        _ => panic!("a token comes back exactly with success on the in-memory stores"),
    }
}

fn attempt_id(outcome: &LoginOutcome) -> String {
    match outcome {
        LoginOutcome::TwoFactorAuth(body, _) => body.login_attempt_id.clone(),
        LoginOutcome::RegularAuth(_) => panic!("no challenge was issued"),
    }
}

fn stored_code(app: &State, email: &str) -> String {
    let email = Email::new(email.to_string()).unwrap();
    let (_id, code) = app.two_fa_code_store.get_code(&email, NOW).unwrap();
    code.as_str().to_string()
}

fn random_email() -> String {
    "user".to_string() + &uuid::Uuid::new_v4().to_string() + "@example.com"
}

fn add_two_factor_user(app: &mut State) {
    app.user_store
        .insert(User::new(
            Email::new("user@example.com".to_string()).unwrap(),
            Password::new("correct_password".to_string()).unwrap(),
            true,
        ))
        .unwrap();
}

#[test]
fn should_return_201_for_valid_signup() {
    let mut app = new_app();
    let email = random_email();
    assert_eq!(signup(&mut app, &email, "anotherPassword!", false), 201);
}

#[test]
fn should_return_409_for_duplicate_signup() {
    let mut app = new_app();
    let email = random_email();
    assert_eq!(signup(&mut app, &email, "anotherPassword!", false), 201);
    assert_eq!(signup(&mut app, &email, "anotherPassword!", false), 409);
}

#[test]
fn signup_with_malformed_input_is_refused() {
    let mut app = new_app();
    assert_eq!(signup(&mut app, "invalid-email", "anotherPassword!", false), 400);
    assert_eq!(signup(&mut app, "user@example.com", "short", false), 400);
    assert_eq!(signup(&mut app, "user@example.com", "anotherPassword!", false), 201);
}

#[test]
fn login_should_return_400_if_invalid_input() {
    let mut app = new_app();
    let r = login(&mut app, "invalid-email", "short");
    assert_eq!(login_status(&r), 400);
}

#[test]
fn login_should_return_401_if_incorrect_credentials() {
    let mut app = new_app();
    let r = login(&mut app, "user@example.com", "wrong-password");
    assert_eq!(login_status(&r), 401);
}

#[test]
fn unknown_account_and_wrong_password_fail_alike() {
    let mut app = new_app();
    assert_eq!(signup(&mut app, "user@example.com", "password123", false), 201);
    let unknown = login(&mut app, "nobody@example.com", "password123");
    let wrong = login(&mut app, "user@example.com", "password124");
    assert_eq!(unknown.err(), Some(AuthAPIError::IncorrectCredentials));
    assert_eq!(wrong.err(), Some(AuthAPIError::IncorrectCredentials));
}

#[test]
fn should_return_200_if_valid_credentials_and_2fa_disabled() {
    let mut app = new_app();
    let random_email = random_email();
    assert_eq!(signup(&mut app, &random_email, "password123", false), 201);
    let r = login(&mut app, &random_email, "password123");
    assert_eq!(login_status(&r), 200);
    match r.unwrap() {
        LoginOutcome::RegularAuth(token) => assert!(!token.is_empty()),
        LoginOutcome::TwoFactorAuth(_, _) => panic!("No auth cookie found"),
    }
}

#[test]
fn session_token_claims_name_the_account() {
    let mut app = new_app();
    assert_eq!(signup(&mut app, "user@example.com", "password123", false), 201);
    let token = match login(&mut app, "user@example.com", "password123").unwrap() {
        LoginOutcome::RegularAuth(token) => token,
        LoginOutcome::TwoFactorAuth(_, _) => panic!("a session was expected"),
    };
    let claims = app.verify_token(VerifyTokenRequest { token }, NOW).unwrap();
    assert_eq!(claims.sub, "user@example.com");
    assert_eq!(claims.exp, NOW + 600);
    assert!(app.two_fa_code_store.get_code(&Email::new("user@example.com".to_string()).unwrap(), NOW).is_err());
}

#[test]
fn should_return_206_if_valid_credentials_and_2fa_enabled() {
    let mut app = new_app();
    let random_email = random_email();
    assert_eq!(signup(&mut app, &random_email, "password123", true), 201);
    let r = login(&mut app, &random_email, "password123");
    assert_eq!(login_status(&r), 206);
    let outcome = r.unwrap();
    let response = match outcome.response() {
        LoginResponse::TwoFactorAuth(body) => body,
        LoginResponse::RegularAuth => panic!("2FA required"),
    };
    assert_eq!(response.message, "2FA required".to_owned());
    let login_attempt_id = response.login_attempt_id;
    let result = app
        .two_fa_code_store
        .get_code(&Email::new(random_email).unwrap(), NOW);
    assert!(result.is_ok());
    let (stored_login_attempt_id, _) = result.unwrap();
    assert_eq!(stored_login_attempt_id.as_str(), login_attempt_id.as_str());
}

#[test]
fn challenge_message_carries_the_stored_code() {
    let mut app = new_app();
    add_two_factor_user(&mut app);
    let outcome = login(&mut app, "user@example.com", "correct_password").unwrap();
    let code = stored_code(&app, "user@example.com");
    match outcome {
        LoginOutcome::TwoFactorAuth(body, message) => {
            assert_eq!(message.recipient.as_str(), "user@example.com");
            assert_eq!(message.subject, "Your 2FA Code");
            assert_eq!(message.content, format!("Your 2FA code is: {}", code));
            assert!(!body.login_attempt_id.contains(&code));
        }
        LoginOutcome::RegularAuth(_) => panic!("a challenge was expected"),
    }
}

#[test]
fn should_return_400_if_jwt_cookie_missing() {
    let mut app = new_app();
    let r = app.logout(None, NOW);
    assert_eq!(status(&r, 200), 400);
}

#[test]
fn logout_should_return_401_if_invalid_token() {
    let mut app = new_app();
    let r = app.logout(Some("invalid".to_string()), NOW);
    assert_eq!(status(&r, 200), 401);
}

#[test]
fn should_return_200_if_valid_jwt_cookie() {
    let mut app = new_app();
    let random_email = random_email();
    assert_eq!(signup(&mut app, &random_email, "password123", false), 201);
    let r = login(&mut app, &random_email, "password123");
    assert_eq!(login_status(&r), 200);
    let token = match r.unwrap() {
        LoginOutcome::RegularAuth(token) => token,
        LoginOutcome::TwoFactorAuth(_, _) => panic!("No auth cookie found"),
    };
    assert!(!token.is_empty());
    let response = app.logout(Some(token.clone()), NOW);
    assert!(app.banned_token_store.is_token_banned(&token));
    assert_eq!(status(&response, 200), 200);
}

#[test]
fn should_return_400_if_logout_called_twice_in_a_row() {
    let mut app = new_app();
    let email = Email::new("email@example.com".to_string()).unwrap();
    let token = issue_token(&email, NOW, "secret").unwrap();
    let response = app.logout(Some(token), NOW);
    assert_eq!(status(&response, 200), 200);
    let response = app.logout(None, NOW);
    assert_eq!(status(&response, 200), 400);
}

#[test]
fn logged_out_token_no_longer_checks_out() {
    let mut app = new_app();
    let email = Email::new("email@example.com".to_string()).unwrap();
    let token = issue_token(&email, NOW, "secret").unwrap();
    assert!(app.verify_token(VerifyTokenRequest { token: token.clone() }, NOW).is_ok());
    assert_eq!(app.logout(Some(token.clone()), NOW), Ok(()));
    assert_eq!(
        app.verify_token(VerifyTokenRequest { token: token.clone() }, NOW).err(),
        Some(AuthAPIError::InvalidToken)
    );
    assert_eq!(app.logout(Some(token), NOW), Err(AuthAPIError::InvalidToken));
}

#[test]
fn verify_2fa_should_return_400_if_invalid_input() {
    let mut app = new_app();
    let r = verify_2fa(&mut app, "userm", "string", "string");
    assert_eq!(status(&r, 200), 400);
}

#[test]
fn verify_2fa_should_return_401_if_incorrect_credentials() {
    let mut app = new_app();
    add_two_factor_user(&mut app);
    let r = login(&mut app, "user@example.com", "correct_password");
    assert_eq!(login_status(&r), 206);
    let response = verify_2fa(
        &mut app,
        "ur@example.com",
        &uuid::Uuid::new_v4().to_string(),
        "123456",
    );
    assert_eq!(status(&response, 200), 401);
}

#[test]
fn should_return_401_if_old_code() {
    let mut app = new_app();
    add_two_factor_user(&mut app);
    let r = login(&mut app, "user@example.com", "correct_password");
    assert_eq!(login_status(&r), 206);
    let r = login(&mut app, "user@example.com", "correct_password");
    assert_eq!(login_status(&r), 206);
    let response = verify_2fa(
        &mut app,
        "user@example.com",
        &uuid::Uuid::new_v4().to_string(),
        "123456",
    );
    assert_eq!(status(&response, 200), 401);
}

#[test]
fn superseded_challenge_no_longer_answers() {
    let mut app = new_app();
    add_two_factor_user(&mut app);
    let first = login(&mut app, "user@example.com", "correct_password").unwrap();
    let first_id = attempt_id(&first);
    let first_code = stored_code(&app, "user@example.com");
    let second = login(&mut app, "user@example.com", "correct_password").unwrap();
    let second_id = attempt_id(&second);
    let second_code = stored_code(&app, "user@example.com");
    assert_ne!(first_id, second_id);
    let r = verify_2fa(&mut app, "user@example.com", &first_id, &first_code);
    assert_eq!(r.err(), Some(AuthAPIError::IncorrectCredentials));
    let r = verify_2fa(&mut app, "user@example.com", &second_id, &second_code);
    assert!(r.is_ok());
}

#[test]
fn should_return_200_if_correct_code() {
    let mut app = new_app();
    add_two_factor_user(&mut app);
    let r = login(&mut app, "user@example.com", "correct_password");
    assert_eq!(login_status(&r), 206);
    let code = stored_code(&app, "user@example.com");
    let id = attempt_id(&r.unwrap());
    let response = verify_2fa(&mut app, "user@example.com", &id, &code);
    assert_eq!(status(&response, 200), 200);
    assert!(response.is_ok());
}

#[test]
fn should_return_401_if_same_code_twice() {
    let mut app = new_app();
    add_two_factor_user(&mut app);
    let r = login(&mut app, "user@example.com", "correct_password");
    assert_eq!(login_status(&r), 206);
    let code = stored_code(&app, "user@example.com");
    let id = attempt_id(&r.unwrap());
    let response = verify_2fa(&mut app, "user@example.com", &id, &code);
    assert_eq!(status(&response, 200), 200);
    let response = verify_2fa(&mut app, "user@example.com", &id, &code);
    assert_eq!(status(&response, 200), 401);
}

#[test]
fn wrong_code_leaves_the_challenge_for_a_retry() {
    let mut app = new_app();
    add_two_factor_user(&mut app);
    let outcome = login(&mut app, "user@example.com", "correct_password").unwrap();
    let id = attempt_id(&outcome);
    let code = stored_code(&app, "user@example.com");
    let wrong = if code == "000000" { "000001" } else { "000000" };
    let r = verify_2fa(&mut app, "user@example.com", &id, wrong);
    assert_eq!(r.err(), Some(AuthAPIError::IncorrectCredentials));
    assert!(verify_2fa(&mut app, "user@example.com", &id, &code).is_ok());
}

#[test]
fn lapsed_challenge_fails() {
    let mut app = new_app();
    add_two_factor_user(&mut app);
    let outcome = login(&mut app, "user@example.com", "correct_password").unwrap();
    let id = attempt_id(&outcome);
    let code = stored_code(&app, "user@example.com");
    let (token, r) = app.verify_2fa(
        Verify2FARequest {
            email: "user@example.com".to_string(),
            login_attempt_id: id,
            two_fa_code: code,
        },
        NOW + 600,
    );
    assert!(token.is_none());
    assert_eq!(r, Err(AuthAPIError::IncorrectCredentials));
}

#[test]
fn should_return_200_valid_token() {
    let app = new_app();
    let email = Email::new("email@example.com".to_string()).unwrap();
    let token = issue_token(&email, NOW, "secret").unwrap();
    let r = app.verify_token(VerifyTokenRequest { token }, NOW);
    assert_eq!(status(&r, 200), 200);
}

#[test]
fn verify_token_should_return_401_if_invalid_token() {
    let app = new_app();
    let r = app.verify_token(VerifyTokenRequest { token: "invalid.token.here".to_string() }, NOW);
    assert_eq!(status(&r, 200), 401);
}

#[test]
fn blank_token_is_malformed_input() {
    let app = new_app();
    let r = app.verify_token(VerifyTokenRequest { token: "  ".to_string() }, NOW);
    assert_eq!(status(&r, 200), 422);
    let r = app.verify_token(VerifyTokenRequest { token: String::new() }, NOW);
    assert_eq!(r.err(), Some(AuthAPIError::MalformedInput));
}

#[test]
fn expired_token_is_invalid() {
    let app = new_app();
    let email = Email::new("email@example.com".to_string()).unwrap();
    let token = issue_token(&email, NOW, "secret").unwrap();
    let r = app.verify_token(VerifyTokenRequest { token }, NOW + 600);
    assert_eq!(r.err(), Some(AuthAPIError::InvalidToken));
}

#[test]
fn end_to_end_sessions_with_and_without_second_factor() {
    let mut app = new_app();
    assert_eq!(signup(&mut app, "first@example.com", "password123", false), 201);
    let r = login(&mut app, "first@example.com", "password123");
    assert_eq!(login_status(&r), 200);
    let token = match r.unwrap() {
        LoginOutcome::RegularAuth(token) => token,
        LoginOutcome::TwoFactorAuth(_, _) => panic!("a session was expected"),
    };
    assert!(app.verify_token(VerifyTokenRequest { token }, NOW).is_ok());

    assert_eq!(signup(&mut app, "second@example.com", "password123", true), 201);
    let r = login(&mut app, "second@example.com", "password123");
    assert_eq!(login_status(&r), 206);
    let id = attempt_id(&r.unwrap());
    let code = stored_code(&app, "second@example.com");
    let first = verify_2fa(&mut app, "second@example.com", &id, &code);
    assert_eq!(status(&first, 200), 200);
    let claims = app.verify_token(VerifyTokenRequest { token: first.unwrap() }, NOW + 5).unwrap();
    assert_eq!(claims.sub, "second@example.com");
    let replay = verify_2fa(&mut app, "second@example.com", &id, &code);
    assert_eq!(status(&replay, 200), 401);
}
