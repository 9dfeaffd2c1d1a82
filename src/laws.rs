//! Properties of the session lifecycle that span several requests, proved
//! from the contracts of the orchestrator. `available` says that the stores
//! involved answer their calls.
use vstd::prelude::*;

use crate::auth::{jwt_decoded, token_expiry, token_verdict, Claims, TokenError};
use crate::data_stores::challenge_expiry;
use crate::domain::{trimmed, AuthAPIError};
use crate::password_hash::password_fits;
use crate::routes::{
    code_message, credentials_match, credentials_well_formed, login_relation, logout_relation,
    signup_relation, verify_2fa_relation, verify_token_relation, ChallengeMap, LoginOutcome,
    SignupResponse, UserMap,
};

verus! {

proof fn lemma_code_message_injective(a: Seq<char>, b: Seq<char>)
    requires
        code_message(a) == code_message(b),
    ensures
        a == b,
{
    let prefix = "Your 2FA code is: "@;
    assert(code_message(a) == prefix + a);
    assert(code_message(b) == prefix + b);
    assert((prefix + a).len() == prefix.len() + a.len());
    assert((prefix + b).len() == prefix.len() + b.len());
    assert(a.len() == b.len());
    assert forall|i: int| 0 <= i < a.len() implies a[i] == b[i] by {
        assert(code_message(a)[prefix.len() + i] == a[i]);
        assert(code_message(b)[prefix.len() + i] == b[i]);
    }
    assert(a =~= b);
}

/// An address holds one account: a signup with a well-formed, free address
/// succeeds, and another signup with the same address is then refused as a
/// conflict and changes nothing.
pub proof fn lemma_second_signup_conflicts(
    u0: UserMap,
    u1: UserMap,
    u2: UserMap,
    available: bool,
    email: Seq<char>,
    first_password: Seq<char>,
    first_flag: bool,
    first: Result<SignupResponse, AuthAPIError>,
    second_password: Seq<char>,
    second_flag: bool,
    second: Result<SignupResponse, AuthAPIError>,
)
    requires
        signup_relation(u0, available, email, first_password, first_flag, first, u1),
        credentials_well_formed(email, first_password),
        !u0.contains_key(email),
        available,
        password_fits(first_password),
        credentials_well_formed(email, second_password),
        signup_relation(u1, available, email, second_password, second_flag, second, u2),
    ensures
        first is Ok,
        u1.contains_key(email) && u1[email].1 == first_flag,
        second == Err::<SignupResponse, AuthAPIError>(AuthAPIError::UserAlreadyExists),
        u2 == u1,
{
    assert(u1.contains_key(email));
}

/// An unknown address and a wrong password fail alike: with well-formed
/// input that the directory does not accept, login reports incorrect
/// credentials while the stores answer, and leaves the challenges as they
/// were.
pub proof fn lemma_login_failure_is_undistinguished(
    users: UserMap,
    before: ChallengeMap,
    available: bool,
    secret: Seq<char>,
    email: Seq<char>,
    password: Seq<char>,
    now: u64,
    r: Result<LoginOutcome, AuthAPIError>,
    after: ChallengeMap,
)
    requires
        credentials_well_formed(email, password),
        !credentials_match(users, email, password),
        available,
        login_relation(users, before, available, secret, email, password, now, r, after),
    ensures
        r == Err::<LoginOutcome, AuthAPIError>(AuthAPIError::IncorrectCredentials),
        after == before,
{
}

/// Login to an account without a second factor, with correct credentials,
/// yields a session token whose claims decode to the account's address and a
/// lapse ten minutes after the login.
pub proof fn lemma_login_without_second_factor_issues_session(
    users: UserMap,
    before: ChallengeMap,
    available: bool,
    secret: Seq<char>,
    email: Seq<char>,
    password: Seq<char>,
    now: u64,
    r: Result<LoginOutcome, AuthAPIError>,
    after: ChallengeMap,
)
    requires
        credentials_well_formed(email, password),
        credentials_match(users, email, password),
        !users[email].1,
        available,
        token_expiry(now) is Some,
        login_relation(users, before, available, secret, email, password, now, r, after),
    ensures
        r matches Ok(LoginOutcome::RegularAuth(token)) && jwt_decoded(token@, secret) == Some(
            (email, (now + 600) as u64),
        ),
        after == before,
{
}

/// Login to an account with a second factor, with correct credentials, never
/// hands out a session token: it stores a challenge under the account's
/// address whose attempt id is the one returned.
pub proof fn lemma_login_with_second_factor_issues_challenge(
    users: UserMap,
    before: ChallengeMap,
    available: bool,
    secret: Seq<char>,
    email: Seq<char>,
    password: Seq<char>,
    now: u64,
    r: Result<LoginOutcome, AuthAPIError>,
    after: ChallengeMap,
)
    requires
        credentials_well_formed(email, password),
        credentials_match(users, email, password),
        users[email].1,
        available,
        login_relation(users, before, available, secret, email, password, now, r, after),
    ensures
        r matches Ok(LoginOutcome::TwoFactorAuth(body, _)) && after.contains_key(email)
            && after[email].0 == body.login_attempt_id@,
{
}

/// The challenge of the latest login answers: verifying with the attempt id
/// it returned and the code it sent, before the challenge lapses, yields a
/// session token for the address and consumes the challenge.
pub proof fn lemma_latest_challenge_answers(
    users: UserMap,
    before: ChallengeMap,
    mid: ChallengeMap,
    after: ChallengeMap,
    available: bool,
    secret: Seq<char>,
    email: Seq<char>,
    password: Seq<char>,
    login_time: u64,
    login: Result<LoginOutcome, AuthAPIError>,
    attempt_id: Seq<char>,
    code: Seq<char>,
    verify_time: u64,
    token: Option<String>,
    r: Result<(), AuthAPIError>,
)
    requires
        login_relation(users, before, available, secret, email, password, login_time, login, mid),
        login matches Ok(LoginOutcome::TwoFactorAuth(body, message)) && body.login_attempt_id@
            == attempt_id && message.content@ == code_message(code),
        verify_time < challenge_expiry(login_time),
        available,
        token_expiry(verify_time) is Some,
        verify_2fa_relation(mid, available, secret, email, attempt_id, code, verify_time, token, r, after),
    ensures
        r is Ok,
        token matches Some(t) && jwt_decoded(t@, secret) matches Some((sub, _)) && sub == email,
        !after.contains_key(email),
{
    lemma_code_message_injective(code, mid[email].1);
}

/// A challenge answers once: after a verification has returned a session
/// token, the same request fails as incorrect credentials, issues no token,
/// and leaves the challenges as they were.
pub proof fn lemma_challenge_is_single_use(
    before: ChallengeMap,
    mid: ChallengeMap,
    after: ChallengeMap,
    available: bool,
    secret: Seq<char>,
    email: Seq<char>,
    attempt_id: Seq<char>,
    code: Seq<char>,
    first_time: u64,
    first_token: Option<String>,
    first: Result<(), AuthAPIError>,
    second_time: u64,
    second_token: Option<String>,
    second: Result<(), AuthAPIError>,
)
    requires
        verify_2fa_relation(before, available, secret, email, attempt_id, code, first_time, first_token, first, mid),
        first is Ok,
        available,
        verify_2fa_relation(mid, available, secret, email, attempt_id, code, second_time, second_token, second, after),
    ensures
        second == Err::<(), AuthAPIError>(AuthAPIError::IncorrectCredentials),
        second_token is None,
        after == mid,
{
}

/// A later login supersedes an earlier challenge: where the later login drew
/// a different pair, the earlier attempt id and code fail as incorrect
/// credentials and leave the later challenge in place, which still answers.
pub proof fn lemma_superseded_challenge_fails(
    users: UserMap,
    c0: ChallengeMap,
    c1: ChallengeMap,
    c2: ChallengeMap,
    c3: ChallengeMap,
    c4: ChallengeMap,
    available: bool,
    secret: Seq<char>,
    email: Seq<char>,
    password: Seq<char>,
    first_time: u64,
    first: Result<LoginOutcome, AuthAPIError>,
    attempt_id: Seq<char>,
    code: Seq<char>,
    second_time: u64,
    second: Result<LoginOutcome, AuthAPIError>,
    verify_time: u64,
    token: Option<String>,
    r: Result<(), AuthAPIError>,
    later_time: u64,
    later_token: Option<String>,
    later: Result<(), AuthAPIError>,
)
    requires
        available,
        login_relation(users, c0, available, secret, email, password, first_time, first, c1),
        first matches Ok(LoginOutcome::TwoFactorAuth(body, message)) && body.login_attempt_id@
            == attempt_id && message.content@ == code_message(code),
        login_relation(users, c1, available, secret, email, password, second_time, second, c2),
        second is Ok,
        (c2[email].0, c2[email].1) != (attempt_id, code),
        verify_2fa_relation(c2, available, secret, email, attempt_id, code, verify_time, token, r, c3),
        later_time < challenge_expiry(second_time),
        token_expiry(later_time) is Some,
        verify_2fa_relation(c3, available, secret, email, c2[email].0, c2[email].1, later_time, later_token, later, c4),
    ensures
        r == Err::<(), AuthAPIError>(AuthAPIError::IncorrectCredentials),
        token is None,
        c3 == c2,
        later is Ok,
{
    lemma_code_message_injective(code, c1[email].1);
}

/// A token that a logout accepted is revoked: inspecting it afterwards
/// fails, its verdict being `Revoked`.
pub proof fn lemma_logged_out_token_is_refused(
    before: Set<Seq<char>>,
    after: Set<Seq<char>>,
    available: bool,
    secret: Seq<char>,
    token: String,
    logout_time: u64,
    r: Result<(), AuthAPIError>,
    inspect_time: u64,
    inspected: Result<Claims, AuthAPIError>,
)
    requires
        logout_relation(before, available, secret, Some(token), logout_time, r, after),
        r is Ok,
        verify_token_relation(after, secret, token@, inspect_time, inspected),
    ensures
        token_verdict(after, token@, secret, inspect_time) == Err::<(Seq<char>, u64), TokenError>(
            TokenError::Revoked,
        ),
        inspected is Err,
        trimmed(token@).len() > 0 ==> inspected == Err::<Claims, AuthAPIError>(
            AuthAPIError::InvalidToken,
        ),
{
}

/// A logout with a token that checks out succeeds while the revocation list
/// answers; after it, logging out with the same token fails as an invalid
/// token, and logging out with no token fails as a missing one.
pub proof fn lemma_second_logout_fails(
    before: Set<Seq<char>>,
    mid: Set<Seq<char>>,
    after: Set<Seq<char>>,
    available: bool,
    secret: Seq<char>,
    token: String,
    first_time: u64,
    first: Result<(), AuthAPIError>,
    second_token: Option<String>,
    second_time: u64,
    second: Result<(), AuthAPIError>,
)
    requires
        available,
        token_verdict(before, token@, secret, first_time) is Ok,
        logout_relation(before, available, secret, Some(token), first_time, first, mid),
        second_token is None || second_token == Some(token),
        logout_relation(mid, available, secret, second_token, second_time, second, after),
    ensures
        first is Ok,
        second_token is None ==> second == Err::<(), AuthAPIError>(AuthAPIError::MissingToken),
        second_token is Some ==> second == Err::<(), AuthAPIError>(AuthAPIError::InvalidToken),
        after == mid,
{
}

/// End to end without a second factor: a signup that succeeds makes the next
/// login with the same credentials issue a session token for the address,
/// which passes inspection while it is unrevoked and before it lapses.
pub proof fn lemma_signup_then_login_issues_session(
    u0: UserMap,
    u1: UserMap,
    c0: ChallengeMap,
    c1: ChallengeMap,
    banned: Set<Seq<char>>,
    available: bool,
    secret: Seq<char>,
    email: Seq<char>,
    password: Seq<char>,
    signed_up: Result<SignupResponse, AuthAPIError>,
    now: u64,
    login: Result<LoginOutcome, AuthAPIError>,
    later: u64,
)
    requires
        available,
        signup_relation(u0, available, email, password, false, signed_up, u1),
        signed_up is Ok,
        token_expiry(now) is Some,
        login_relation(u1, c0, available, secret, email, password, now, login, c1),
        later < now + 600,
    ensures
        login matches Ok(LoginOutcome::RegularAuth(token)) && (!banned.contains(token@)
            ==> token_verdict(banned, token@, secret, later) == Ok::<(Seq<char>, u64), TokenError>(
            (email, (now + 600) as u64),
        )),
{
    assert(credentials_well_formed(email, password));
    assert(credentials_match(u1, email, password));
}

/// End to end with a second factor: after a successful signup, login issues
/// a challenge; answering it with the returned attempt id and the sent code
/// yields a session token, and the same answer again fails as incorrect
/// credentials.
pub proof fn lemma_signup_then_second_factor_login(
    u0: UserMap,
    u1: UserMap,
    c0: ChallengeMap,
    c1: ChallengeMap,
    c2: ChallengeMap,
    c3: ChallengeMap,
    available: bool,
    secret: Seq<char>,
    email: Seq<char>,
    password: Seq<char>,
    signed_up: Result<SignupResponse, AuthAPIError>,
    now: u64,
    login: Result<LoginOutcome, AuthAPIError>,
    attempt_id: Seq<char>,
    code: Seq<char>,
    first_token: Option<String>,
    first: Result<(), AuthAPIError>,
    second_token: Option<String>,
    second: Result<(), AuthAPIError>,
)
    requires
        available,
        signup_relation(u0, available, email, password, true, signed_up, u1),
        signed_up is Ok,
        token_expiry(now) is Some,
        login_relation(u1, c0, available, secret, email, password, now, login, c1),
        login matches Ok(LoginOutcome::TwoFactorAuth(body, message)) ==> body.login_attempt_id@
            == attempt_id && message.content@ == code_message(code),
        verify_2fa_relation(c1, available, secret, email, attempt_id, code, now, first_token, first, c2),
        verify_2fa_relation(c2, available, secret, email, attempt_id, code, now, second_token, second, c3),
    ensures
        login is Ok && login->Ok_0 is TwoFactorAuth,
        first is Ok,
        first_token matches Some(t) && jwt_decoded(t@, secret) matches Some((sub, _)) && sub == email,
        second == Err::<(), AuthAPIError>(AuthAPIError::IncorrectCredentials),
{
    assert(credentials_well_formed(email, password));
    assert(credentials_match(u1, email, password));
    assert(now < challenge_expiry(now));
    lemma_latest_challenge_answers(
        u1, c0, c1, c2, available, secret, email, password, now, login, attempt_id, code, now,
        first_token, first,
    );
    lemma_challenge_is_single_use(
        c1, c2, c3, available, secret, email, attempt_id, code, now, first_token, first, now,
        second_token, second,
    );
}

/// Revoking a token again changes nothing, and dropping a challenge that
/// is already gone changes nothing.
pub proof fn lemma_repeated_revocation_and_removal(
    banned: Set<Seq<char>>,
    token: Seq<char>,
    codes: ChallengeMap,
    email: Seq<char>,
)
    ensures
        banned.insert(token).insert(token) == banned.insert(token),
        codes.remove(email).remove(email) == codes.remove(email),
{
    assert(banned.insert(token).insert(token) =~= banned.insert(token));
    assert(codes.remove(email).remove(email) =~= codes.remove(email));
}

} // verus!
