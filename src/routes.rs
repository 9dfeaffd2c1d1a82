use vstd::prelude::*;

use crate::auth::{check_token, issue_token, jwt_decoded, jwt_encoded, token_expiry, token_verdict, Claims};
use crate::data_stores::{
    challenge_expiry, is_two_fa_code, uuid_parses, BannedTokenStore, LoginAttemptId, TwoFACode,
    TwoFACodeStore, TwoFACodeStoreError, UserStore, UserStoreError,
};
use crate::domain::{
    trimmed, trimmed_len, valid_email_address, AuthAPIError, Email, Failure, Password, User,
    UserRecord, MIN_PASSWORD_LEN,
};
use crate::password_hash::{argon2_accepts, password_fits};

verus! {

/// A signup request.
pub struct SignupRequest {
    pub email: String,
    pub password: String,
    pub requires_2fa: bool,
}

/// The body of a successful signup.
pub struct SignupResponse {
    pub message: String,
}

/// A login request.
pub struct LoginRequest {
    pub email: String,
    pub password: String,
}

/// The body sent back when a login awaits its second factor.
#[derive(Debug)]
pub struct TwoFactorAuthResponse {
    pub message: String,
    pub login_attempt_id: String,
}

/// The body of a successful login.
#[derive(Debug)]
pub enum LoginResponse {
    RegularAuth,
    TwoFactorAuth(TwoFactorAuthResponse),
}

/// A message for the notifier to deliver.
pub struct EmailMessage {
    pub recipient: Email,
    pub subject: String,
    pub content: String,
}

/// What a login achieved.
pub enum LoginOutcome {
    /// The session token to hand to the client.
    RegularAuth(String),
    /// A challenge was stored: the client gets the body, the user gets the
    /// message with the code.
    TwoFactorAuth(TwoFactorAuthResponse, EmailMessage),
}

impl LoginOutcome {
    /// The HTTP status of the outcome: 200 for a session, 206 for a challenge.
    pub fn status_code(&self) -> (r: u16)
        ensures
            r == (if self is RegularAuth { 200u16 } else { 206u16 }),
    {
        match self {
            LoginOutcome::RegularAuth(_) => 200,
            LoginOutcome::TwoFactorAuth(_, _) => 206,
        }
    }

    /// The body sent to the client; it never holds the code.
    pub fn response(&self) -> (r: LoginResponse)
        ensures
            self is RegularAuth ==> r is RegularAuth,
            self matches LoginOutcome::TwoFactorAuth(body, _) ==> r matches LoginResponse::TwoFactorAuth(b)
                && b.message@ == body.message@ && b.login_attempt_id@ == body.login_attempt_id@,
    {
        match self {
            LoginOutcome::RegularAuth(_) => LoginResponse::RegularAuth,
            LoginOutcome::TwoFactorAuth(body, _) => LoginResponse::TwoFactorAuth(
                TwoFactorAuthResponse {
                    message: body.message.clone(),
                    login_attempt_id: body.login_attempt_id.clone(),
                },
            ),
        }
    }
}

/// A second-factor verification request.
pub struct Verify2FARequest {
    pub email: String,
    pub login_attempt_id: String,
    pub two_fa_code: String,
}

/// A token introspection request.
pub struct VerifyTokenRequest {
    pub token: String,
}

/// Whether an e-mail address and a password have the accepted shapes.
pub open spec fn credentials_well_formed(email: Seq<char>, password: Seq<char>) -> bool {
    valid_email_address(email) && trimmed(password).len() >= MIN_PASSWORD_LEN
}

/// Whether the directory holds `email` with a hash that accepts `password`.
pub open spec fn credentials_match(
    users: Map<Seq<char>, (Seq<char>, bool)>,
    email: Seq<char>,
    password: Seq<char>,
) -> bool {
    users.contains_key(email) && argon2_accepts(password, users[email].0)
}

/// Whether the challenge of `email` is live at `now` and is `(id, code)`.
pub open spec fn challenge_matches(
    codes: Map<Seq<char>, (Seq<char>, Seq<char>, u64)>,
    email: Seq<char>,
    id: Seq<char>,
    code: Seq<char>,
    now: u64,
) -> bool {
    &&& codes.contains_key(email)
    &&& now < codes[email].2
    &&& codes[email].0 == id
    &&& codes[email].1 == code
}

/// The text of the message that carries a code.
pub open spec fn code_message(code: Seq<char>) -> Seq<char> {
    "Your 2FA code is: "@ + code
}

/// E-mail address to (password hash, second factor required).
pub type UserMap = Map<Seq<char>, (Seq<char>, bool)>;

/// E-mail address to (attempt id, code, moment it lapses).
pub type ChallengeMap = Map<Seq<char>, (Seq<char>, Seq<char>, u64)>;

/// Whether `r` reports a failed collaborator.
pub open spec fn unexpected<T>(r: Result<T, AuthAPIError>) -> bool {
    r matches Err(AuthAPIError::UnexpectedError(_))
}

/// What a signup of (`email`, `password`, `requires_2fa`) returns against the
/// directory `before`, which answers when `available`, leaving the directory
/// `after`.
pub open spec fn signup_relation(
    before: UserMap,
    available: bool,
    email: Seq<char>,
    password: Seq<char>,
    requires_2fa: bool,
    r: Result<SignupResponse, AuthAPIError>,
    after: UserMap,
) -> bool {
    &&& !credentials_well_formed(email, password) <==> r == Err::<SignupResponse, AuthAPIError>(
        AuthAPIError::InvalidCredentials,
    )
    &&& credentials_well_formed(email, password) && before.contains_key(email) ==> r == Err::<
        SignupResponse,
        AuthAPIError,
    >(AuthAPIError::UserAlreadyExists)
    &&& credentials_well_formed(email, password) && !before.contains_key(email) && available
        && password_fits(password) ==> r is Ok
    &&& r is Err ==> after == before
    &&& r matches Err(e) ==> e == AuthAPIError::InvalidCredentials || e
        == AuthAPIError::UserAlreadyExists || e == AuthAPIError::UnexpectedError(Failure::UserStore)
    &&& r matches Ok(body) ==> {
        &&& body.message@ == "User created successfully!"@
        &&& !before.contains_key(email)
        &&& after == before.insert(email, after[email])
        &&& after[email].1 == requires_2fa
        &&& argon2_accepts(password, after[email].0)
    }
}

/// What a login with `email` and `password` at `now` returns, against the
/// directory `users` and the challenges `before`, whose stores answer when
/// `available`, leaving the challenges `after`.
pub open spec fn login_relation(
    users: UserMap,
    before: ChallengeMap,
    available: bool,
    secret: Seq<char>,
    email: Seq<char>,
    password: Seq<char>,
    now: u64,
    r: Result<LoginOutcome, AuthAPIError>,
    after: ChallengeMap,
) -> bool {
    &&& !credentials_well_formed(email, password) <==> r == Err::<LoginOutcome, AuthAPIError>(
        AuthAPIError::InvalidCredentials,
    )
    &&& credentials_well_formed(email, password) && !credentials_match(users, email, password)
        ==> r == Err::<LoginOutcome, AuthAPIError>(AuthAPIError::IncorrectCredentials) || r
        == Err::<LoginOutcome, AuthAPIError>(AuthAPIError::UnexpectedError(Failure::UserStore))
    &&& credentials_well_formed(email, password) && !credentials_match(users, email, password)
        && available ==> r == Err::<LoginOutcome, AuthAPIError>(AuthAPIError::IncorrectCredentials)
    &&& credentials_well_formed(email, password) && credentials_match(users, email, password)
        && available && (users[email].1 || token_expiry(now) is Some) ==> r is Ok
    &&& r matches Err(e) ==> e == AuthAPIError::InvalidCredentials || e
        == AuthAPIError::IncorrectCredentials || e is UnexpectedError
    &&& unexpected(r) ==> !available || (credentials_match(users, email, password)
        && !users[email].1 && token_expiry(now) is None)
    &&& r is Err ==> after == before
    &&& r is Ok ==> credentials_well_formed(email, password) && credentials_match(users, email, password)
    &&& r matches Ok(LoginOutcome::RegularAuth(token)) ==> {
        &&& !users[email].1
        &&& token_expiry(now) matches Some(exp)
        &&& token@ == jwt_encoded(email, exp, secret)
        &&& jwt_decoded(token@, secret) == Some((email, exp))
        &&& after == before
    }
    &&& r matches Ok(LoginOutcome::TwoFactorAuth(body, message)) ==> {
        &&& users[email].1
        &&& body.message@ == "2FA required"@
        &&& uuid_parses(body.login_attempt_id@)
        &&& after == before.insert(email, after[email])
        &&& after[email].0 == body.login_attempt_id@
        &&& is_two_fa_code(after[email].1)
        &&& after[email].2 == challenge_expiry(now)
        &&& message.recipient@ == email
        &&& message.subject@ == "Your 2FA Code"@
        &&& message.content@ == code_message(after[email].1)
    }
}

/// What a second-factor verification of (`email`, `id`, `code`) at `now`
/// returns, against the challenges `before`, whose store answers when
/// `available`, leaving the challenges `after`. `token` is the session token
/// issued, which comes back also where dropping the challenge failed.
pub open spec fn verify_2fa_relation(
    before: ChallengeMap,
    available: bool,
    secret: Seq<char>,
    email: Seq<char>,
    id: Seq<char>,
    code: Seq<char>,
    now: u64,
    token: Option<String>,
    r: Result<(), AuthAPIError>,
    after: ChallengeMap,
) -> bool {
    let well_formed = valid_email_address(email) && uuid_parses(id) && is_two_fa_code(code);
    &&& !well_formed <==> r == Err::<(), AuthAPIError>(AuthAPIError::InvalidCredentials)
    &&& well_formed && !challenge_matches(before, email, id, code, now) ==> r == Err::<
        (),
        AuthAPIError,
    >(AuthAPIError::IncorrectCredentials) || r == Err::<(), AuthAPIError>(
        AuthAPIError::UnexpectedError(Failure::ChallengeStore),
    )
    &&& well_formed && !challenge_matches(before, email, id, code, now) && available ==> r
        == Err::<(), AuthAPIError>(AuthAPIError::IncorrectCredentials)
    &&& well_formed && challenge_matches(before, email, id, code, now) && available && token_expiry(
        now,
    ) is Some ==> r is Ok
    &&& r matches Err(e) ==> e == AuthAPIError::InvalidCredentials || e
        == AuthAPIError::IncorrectCredentials || e is UnexpectedError
    &&& unexpected(r) ==> !available || token_expiry(now) is None
    &&& r is Err ==> after == before
    &&& r is Ok ==> token is Some && after == before.remove(email)
    &&& token is Some && r is Err ==> r == Err::<(), AuthAPIError>(
        AuthAPIError::UnexpectedError(Failure::ChallengeStore),
    )
    &&& token matches Some(t) ==> {
        &&& well_formed
        &&& challenge_matches(before, email, id, code, now)
        &&& token_expiry(now) matches Some(exp)
        &&& t@ == jwt_encoded(email, exp, secret)
        &&& jwt_decoded(t@, secret) == Some((email, exp))
    }
}

/// What a logout with `token` at `now` returns, against the revocation list
/// `before`, which answers when `available`, leaving the list `after`.
pub open spec fn logout_relation(
    before: Set<Seq<char>>,
    available: bool,
    secret: Seq<char>,
    token: Option<String>,
    now: u64,
    r: Result<(), AuthAPIError>,
    after: Set<Seq<char>>,
) -> bool {
    &&& token is None <==> r == Err::<(), AuthAPIError>(AuthAPIError::MissingToken)
    &&& token matches Some(t) ==> (token_verdict(before, t@, secret, now) is Err <==> r == Err::<
        (),
        AuthAPIError,
    >(AuthAPIError::InvalidToken))
    &&& available ==> !unexpected(r)
    &&& r matches Err(e) ==> e == AuthAPIError::MissingToken || e == AuthAPIError::InvalidToken
        || e == AuthAPIError::UnexpectedError(Failure::RevocationList)
    &&& r is Err ==> after == before
    &&& r is Ok ==> (token matches Some(t) && token_verdict(before, t@, secret, now) is Ok && after
        == before.insert(t@))
}

/// What an inspection of `token` at `now` returns against the revocation
/// list `banned`.
pub open spec fn verify_token_relation(
    banned: Set<Seq<char>>,
    secret: Seq<char>,
    token: Seq<char>,
    now: u64,
    r: Result<Claims, AuthAPIError>,
) -> bool {
    &&& trimmed(token).len() == 0 <==> r == Err::<Claims, AuthAPIError>(
        AuthAPIError::MalformedInput,
    )
    &&& trimmed(token).len() > 0 ==> match token_verdict(banned, token, secret, now) {
        Ok((sub, exp)) => r matches Ok(c) && c.sub@ == sub && c.exp == exp,
        Err(_) => r == Err::<Claims, AuthAPIError>(AuthAPIError::InvalidToken),
    }
}

/// What the directory's answer on a password means for a login: an unknown
/// address and a wrong password alike are incorrect credentials; a failed
/// directory is a failure.
pub fn credentials_outcome(validated: Result<(), UserStoreError>) -> (r: Result<(), AuthAPIError>)
    ensures
        validated is Ok <==> r is Ok,
        validated == Err::<(), UserStoreError>(UserStoreError::UnexpectedError) <==> r == Err::<
            (),
            AuthAPIError,
        >(AuthAPIError::UnexpectedError(Failure::UserStore)),
        validated is Err && validated != Err::<(), UserStoreError>(UserStoreError::UnexpectedError)
            ==> r == Err::<(), AuthAPIError>(AuthAPIError::IncorrectCredentials),
{
    match validated {
        Ok(()) => Ok(()),
        Err(UserStoreError::UnexpectedError) => Err(AuthAPIError::UnexpectedError(Failure::UserStore)),
        Err(_) => Err(AuthAPIError::IncorrectCredentials),
    }
}

/// Whether the account that the directory returned asks for a second factor;
/// any failure to return it is a failure of the directory.
pub fn second_factor_required(found: Result<UserRecord, UserStoreError>) -> (r: Result<bool, AuthAPIError>)
    ensures
        found matches Ok(u) ==> r == Ok::<bool, AuthAPIError>(u.requires_2fa),
        found is Err ==> r == Err::<bool, AuthAPIError>(AuthAPIError::UnexpectedError(Failure::UserStore)),
{
    match found {
        Ok(user) => Ok(user.requires_2fa),
        Err(_) => Err(AuthAPIError::UnexpectedError(Failure::UserStore)),
    }
}

/// What the challenge store's answer means for a verification of (`id`,
/// `code`): only the same attempt id and code pass; a missing or lapsed
/// challenge and a different one alike are incorrect credentials; a failed
/// store is a failure.
pub fn challenge_outcome(
    stored: Result<(LoginAttemptId, TwoFACode), TwoFACodeStoreError>,
    id: &LoginAttemptId,
    code: &TwoFACode,
) -> (r: Result<(), AuthAPIError>)
    ensures
        stored matches Ok((a, c)) ==> (r is Ok <==> a@ == id@ && c@ == code@),
        stored is Ok && r is Err ==> r == Err::<(), AuthAPIError>(AuthAPIError::IncorrectCredentials),
        stored == Err::<(LoginAttemptId, TwoFACode), TwoFACodeStoreError>(
            TwoFACodeStoreError::LoginAttemptIdNotFound,
        ) ==> r == Err::<(), AuthAPIError>(AuthAPIError::IncorrectCredentials),
        stored == Err::<(LoginAttemptId, TwoFACode), TwoFACodeStoreError>(
            TwoFACodeStoreError::UnexpectedError,
        ) <==> r == Err::<(), AuthAPIError>(AuthAPIError::UnexpectedError(Failure::ChallengeStore)),
        r matches Err(e) ==> e == AuthAPIError::IncorrectCredentials || e
            == AuthAPIError::UnexpectedError(Failure::ChallengeStore),
        r is Ok ==> (stored matches Ok((a, c)) && a@ == id@ && c@ == code@),
{
    match stored {
        Ok((stored_id, stored_code)) => {
            if stored_id.same_as(id) && stored_code.same_as(code) {
                Ok(())
            } else {
                Err(AuthAPIError::IncorrectCredentials)
            }
        },
        Err(TwoFACodeStoreError::LoginAttemptIdNotFound) => Err(AuthAPIError::IncorrectCredentials),
        Err(TwoFACodeStoreError::UnexpectedError) => Err(
            AuthAPIError::UnexpectedError(Failure::ChallengeStore),
        ),
    }
}

/// The state of the service: the three stores and the signing secret. Each
/// request runs to completion against it; callers serialise access.
pub struct AppState<T: UserStore, U: BannedTokenStore, V: TwoFACodeStore> {
    pub user_store: T,
    pub banned_token_store: U,
    pub two_fa_code_store: V,
    pub jwt_secret: String,
}

impl<T: UserStore, U: BannedTokenStore, V: TwoFACodeStore> AppState<T, U, V> {
    pub open spec fn wf(&self) -> bool {
        self.user_store.wf() && self.banned_token_store.wf() && self.two_fa_code_store.wf()
    }

    pub fn new(user_store: T, banned_token_store: U, two_fa_code_store: V, jwt_secret: String) -> (r: Self)
        ensures
            r.user_store == user_store,
            r.banned_token_store == banned_token_store,
            r.two_fa_code_store == two_fa_code_store,
            r.jwt_secret@ == jwt_secret@,
    {
        AppState { user_store, banned_token_store, two_fa_code_store, jwt_secret }
    }

    /// Creates an account. Input of the wrong shape is refused before any
    /// store is touched; a taken address is refused; otherwise the account is
    /// stored, unless the directory fails.
    pub fn signup(&mut self, request: SignupRequest) -> (r: Result<SignupResponse, AuthAPIError>)
        requires
            old(self).wf(),
        ensures
            final(self).wf(),
            final(self).user_store.available() == old(self).user_store.available(),
            final(self).banned_token_store == old(self).banned_token_store,
            final(self).two_fa_code_store == old(self).two_fa_code_store,
            final(self).jwt_secret == old(self).jwt_secret,
            signup_relation(
                old(self).user_store.users(),
                old(self).user_store.available(),
                request.email@,
                request.password@,
                request.requires_2fa,
                r,
                final(self).user_store.users(),
            ),
    {
        let email = Email::new(request.email);
        let password = Password::new(request.password);
        let (email, password) = match (email, password) {
            (Ok(e), Ok(p)) => (e, p),
            _ => return Err(AuthAPIError::InvalidCredentials),
        };
        let user = User::new(email, password, request.requires_2fa);
        match self.user_store.insert(user) {
            Ok(()) => Ok(SignupResponse { message: String::from_str("User created successfully!") }),
            Err(UserStoreError::UserAlreadyExists) => Err(AuthAPIError::UserAlreadyExists),
            Err(_) => Err(AuthAPIError::UnexpectedError(Failure::UserStore)),
        }
    }

    /// Checks the credentials. An account without a second factor gets a
    /// session token; one with a second factor gets a fresh challenge, which
    /// replaces any earlier one, and the message that carries its code.
    pub fn login(&mut self, request: LoginRequest, now: u64) -> (r: Result<LoginOutcome, AuthAPIError>)
        requires
            old(self).wf(),
        ensures
            final(self).wf(),
            final(self).user_store == old(self).user_store,
            final(self).banned_token_store == old(self).banned_token_store,
            final(self).two_fa_code_store.available() == old(self).two_fa_code_store.available(),
            final(self).jwt_secret == old(self).jwt_secret,
            login_relation(
                old(self).user_store.users(),
                old(self).two_fa_code_store.codes(),
                old(self).user_store.available() && old(self).two_fa_code_store.available(),
                old(self).jwt_secret@,
                request.email@,
                request.password@,
                now,
                r,
                final(self).two_fa_code_store.codes(),
            ),
    {
        let email = Email::new(request.email);
        let password = Password::new(request.password);
        let (email, password) = match (email, password) {
            (Ok(e), Ok(p)) => (e, p),
            _ => return Err(AuthAPIError::InvalidCredentials),
        };
        if let Err(e) = credentials_outcome(self.user_store.validate(&email, password.as_str())) {
            return Err(e);
        }
        let requires_2fa = match second_factor_required(self.user_store.get(&email)) {
            Ok(flag) => flag,
            Err(e) => return Err(e),
        };
        if requires_2fa {
            self.handle_2fa(email, now)
        } else {
            match issue_token(&email, now, self.jwt_secret.as_str()) {
                Ok(token) => Ok(LoginOutcome::RegularAuth(token)),
                Err(_) => Err(AuthAPIError::UnexpectedError(Failure::Token)),
            }
        }
    }

    /// Stores a fresh challenge for `email` and prepares the message with its
    /// code.
    fn handle_2fa(&mut self, email: Email, now: u64) -> (r: Result<LoginOutcome, AuthAPIError>)
        requires
            old(self).wf(),
        ensures
            final(self).wf(),
            final(self).user_store == old(self).user_store,
            final(self).banned_token_store == old(self).banned_token_store,
            final(self).two_fa_code_store.available() == old(self).two_fa_code_store.available(),
            final(self).jwt_secret == old(self).jwt_secret,
            old(self).two_fa_code_store.available() ==> r is Ok,
            r matches Err(e) ==> e == AuthAPIError::UnexpectedError(Failure::ChallengeStore),
            r is Err ==> final(self).two_fa_code_store.codes() == old(
                self,
            ).two_fa_code_store.codes(),
            r matches Ok(LoginOutcome::TwoFactorAuth(body, message)) ==> {
                &&& body.message@ == "2FA required"@
                &&& uuid_parses(body.login_attempt_id@)
                &&& final(self).two_fa_code_store.codes() == old(
                    self,
                ).two_fa_code_store.codes().insert(
                    email@,
                    final(self).two_fa_code_store.codes()[email@],
                )
                &&& final(self).two_fa_code_store.codes()[email@].0 == body.login_attempt_id@
                &&& is_two_fa_code(final(self).two_fa_code_store.codes()[email@].1)
                &&& final(self).two_fa_code_store.codes()[email@].2 == challenge_expiry(now)
                &&& message.recipient@ == email@
                &&& message.subject@ == "Your 2FA Code"@
                &&& message.content@ == code_message(final(self).two_fa_code_store.codes()[email@].1)
            },
            r is Ok ==> r matches Ok(LoginOutcome::TwoFactorAuth(_, _)),
    {
        let login_attempt_id = LoginAttemptId::generate();
        let code = TwoFACode::generate();
        let stored = self.two_fa_code_store.add_code(
            email.clone(),
            login_attempt_id.clone(),
            code.clone(),
            now,
        );
        if stored.is_err() {
            return Err(AuthAPIError::UnexpectedError(Failure::ChallengeStore));
        }
        let mut content = String::from_str("Your 2FA code is: ");
        content.append(code.as_str());
        let body = TwoFactorAuthResponse {
            message: String::from_str("2FA required"),
            login_attempt_id: login_attempt_id.as_str().to_string(),
        };
        let message = EmailMessage {
            recipient: email,
            subject: String::from_str("Your 2FA Code"),
            content,
        };
        proof {
            assert(self.two_fa_code_store.codes()[message.recipient@] == (
                login_attempt_id@,
                code@,
                challenge_expiry(now),
            ));
        }
        Ok(LoginOutcome::TwoFactorAuth(body, message))
    }

    /// Completes a login that awaits its second factor. Input of the wrong
    /// shape is refused before any store is touched; a missing, lapsed or
    /// different challenge is refused and left in place; the matching
    /// challenge yields a session token and is consumed. Where consuming it
    /// fails, the token that was issued comes back beside the failure.
    pub fn verify_2fa(&mut self, request: Verify2FARequest, now: u64) -> (r: (
        Option<String>,
        Result<(), AuthAPIError>,
    ))
        requires
            old(self).wf(),
        ensures
            final(self).wf(),
            final(self).user_store == old(self).user_store,
            final(self).banned_token_store == old(self).banned_token_store,
            final(self).two_fa_code_store.available() == old(self).two_fa_code_store.available(),
            final(self).jwt_secret == old(self).jwt_secret,
            verify_2fa_relation(
                old(self).two_fa_code_store.codes(),
                old(self).two_fa_code_store.available(),
                old(self).jwt_secret@,
                request.email@,
                request.login_attempt_id@,
                request.two_fa_code@,
                now,
                r.0,
                r.1,
                final(self).two_fa_code_store.codes(),
            ),
    {
        let email = Email::new(request.email);
        let login_attempt_id = LoginAttemptId::new(request.login_attempt_id);
        let two_fa_code = TwoFACode::new(request.two_fa_code);
        let (email, login_attempt_id, two_fa_code) = match (email, login_attempt_id, two_fa_code) {
            (Ok(e), Ok(a), Ok(c)) => (e, a, c),
            _ => return (None, Err(AuthAPIError::InvalidCredentials)),
        };
        let stored = self.two_fa_code_store.get_code(&email, now);
        if let Err(e) = challenge_outcome(stored, &login_attempt_id, &two_fa_code) {
            return (None, Err(e));
        }
        assert(challenge_matches(
            old(self).two_fa_code_store.codes(),
            email@,
            login_attempt_id@,
            two_fa_code@,
            now,
        ));
        let token = match issue_token(&email, now, self.jwt_secret.as_str()) {
            Ok(t) => t,
            Err(_) => return (None, Err(AuthAPIError::UnexpectedError(Failure::Token))),
        };
        match self.two_fa_code_store.remove_code(&email) {
            Ok(()) => (Some(token), Ok(())),
            Err(_) => (Some(token), Err(AuthAPIError::UnexpectedError(Failure::ChallengeStore))),
        }
    }

    /// Ends a session: a missing token is refused; a token that does not
    /// check out is refused; otherwise it is revoked, unless the revocation
    /// list fails.
    pub fn logout(&mut self, token: Option<String>, now: u64) -> (r: Result<(), AuthAPIError>)
        requires
            old(self).wf(),
        ensures
            final(self).wf(),
            final(self).user_store == old(self).user_store,
            final(self).two_fa_code_store == old(self).two_fa_code_store,
            final(self).banned_token_store.available() == old(self).banned_token_store.available(),
            final(self).jwt_secret == old(self).jwt_secret,
            logout_relation(
                old(self).banned_token_store.banned(),
                old(self).banned_token_store.available(),
                old(self).jwt_secret@,
                token,
                now,
                r,
                final(self).banned_token_store.banned(),
            ),
    {
        let token = match token {
            Some(t) => t,
            None => return Err(AuthAPIError::MissingToken),
        };
        if check_token(token.as_str(), &self.banned_token_store, self.jwt_secret.as_str(), now).is_err() {
            return Err(AuthAPIError::InvalidToken);
        }
        match self.banned_token_store.ban_token(token.as_str()) {
            Ok(()) => Ok(()),
            Err(_) => Err(AuthAPIError::UnexpectedError(Failure::RevocationList)),
        }
    }

    /// Inspects a token: an empty or blank one is malformed input; otherwise
    /// its claims come back exactly when it is unrevoked, well signed and
    /// unexpired at `now`.
    pub fn verify_token(&self, request: VerifyTokenRequest, now: u64) -> (r: Result<Claims, AuthAPIError>)
        requires
            self.wf(),
        ensures
            verify_token_relation(
                self.banned_token_store.banned(),
                self.jwt_secret@,
                request.token@,
                now,
                r,
            ),
    {
        if trimmed_len(request.token.as_str()) == 0 {
            return Err(AuthAPIError::MalformedInput);
        }
        match check_token(request.token.as_str(), &self.banned_token_store, self.jwt_secret.as_str(), now) {
            Ok(claims) => Ok(claims),
            Err(_) => Err(AuthAPIError::InvalidToken),
        }
    }
}

} // verus!
