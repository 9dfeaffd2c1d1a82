use vstd::prelude::*;

use crate::domain::{Email, User, UserRecord};

verus! {

/// The strings that `uuid::Uuid::parse_str` accepts.
pub uninterp spec fn uuid_parses(s: Seq<char>) -> bool;

/// Relies on `uuid::Uuid::parse_str`: whether the text is a UUID depends on
/// its characters alone.
#[verifier::external_body]
fn parse_uuid(s: &str) -> (r: bool)
    ensures
        r == uuid_parses(s@),
{
    uuid::Uuid::parse_str(s).is_ok()
}

/// Relies on `uuid::Uuid::new_v4` and its hyphenated `Display` form, which
/// `uuid::Uuid::parse_str` accepts back.
#[verifier::external_body]
fn fresh_uuid() -> (r: String)
    ensures
        uuid_parses(r@),
{
    uuid::Uuid::new_v4().to_string()
}

/// Identifies one login attempt that awaits its second factor.
#[derive(Debug, PartialEq, Eq)]
pub struct LoginAttemptId(String);

impl View for LoginAttemptId {
    type V = Seq<char>;

    closed spec fn view(&self) -> Seq<char> {
        self.0@
    }
}

impl Clone for LoginAttemptId {
    fn clone(&self) -> (r: LoginAttemptId)
        ensures
            r@ == self@,
    {
        LoginAttemptId(self.0.clone())
    }
}

impl LoginAttemptId {
    /// Whether both hold the same text.
    pub fn same_as(&self, other: &LoginAttemptId) -> (r: bool)
        ensures
            r == (self@ == other@),
    {
        self.0 == other.0
    }

    /// Accepts `id` exactly when it is a UUID.
    pub fn new(id: String) -> (r: Result<LoginAttemptId, String>)
        ensures
            r is Ok <==> uuid_parses(id@),
            r matches Ok(a) ==> a@ == id@,
    {
        if parse_uuid(id.as_str()) {
            Ok(LoginAttemptId(id))
        } else {
            Err(String::from_str("Invalid UUID format"))
        }
    }

    /// A fresh random (version 4) attempt id.
    pub fn generate() -> (r: LoginAttemptId)
        ensures
            uuid_parses(r@),
    {
        LoginAttemptId(fresh_uuid())
    }

    pub fn as_str(&self) -> (r: &str)
        ensures
            r@ == self@,
    {
        self.0.as_str()
    }
}

impl Default for LoginAttemptId {
    fn default() -> (r: LoginAttemptId)
        ensures
            uuid_parses(r@),
    {
        LoginAttemptId::generate()
    }
}

/// Whether `c` is one of the ASCII digits `0` to `9`.
pub open spec fn is_ascii_digit(c: char) -> bool {
    48 <= c as u32 <= 57
}

/// A second-factor code: exactly six ASCII digits.
pub open spec fn is_two_fa_code(s: Seq<char>) -> bool {
    s.len() == 6 && forall|i: int| 0 <= i < 6 ==> is_ascii_digit(#[trigger] s[i])
}

/// Ten to the power `k`.
pub open spec fn pow10(k: nat) -> nat
    decreases k,
{
    if k == 0 {
        1
    } else {
        10 * pow10((k - 1) as nat)
    }
}

proof fn lemma_pow10_positive(k: nat)
    ensures
        pow10(k) >= 1,
    decreases k,
{
    if k > 0 {
        lemma_pow10_positive((k - 1) as nat);
    }
}

/// The six decimal digits of `n`, most significant first, zero-padded.
pub open spec fn six_digits(n: nat) -> Seq<char> {
    Seq::new(6, |i: int| (48 + (n / pow10((5 - i) as nat)) % 10) as char)
}

/// The least code that is drawn.
pub const CODE_LOW: u32 = 100000;

/// One past the greatest code that is drawn.
pub const CODE_HIGH: u32 = 999999;

/// Relies on `rand::Rng::gen_range` on the thread-local generator: the number
/// lies in the half-open range.
#[verifier::external_body]
fn random_in_range(low: u32, high: u32) -> (r: u32)
    requires
        low < high,
    ensures
        low <= r < high,
{
    rand::Rng::gen_range(&mut rand::thread_rng(), low..high)
}

/// A second-factor code sent to the user.
#[derive(Debug, PartialEq, Eq)]
pub struct TwoFACode(String);

impl View for TwoFACode {
    type V = Seq<char>;

    closed spec fn view(&self) -> Seq<char> {
        self.0@
    }
}

impl Clone for TwoFACode {
    fn clone(&self) -> (r: TwoFACode)
        ensures
            r@ == self@,
    {
        TwoFACode(self.0.clone())
    }
}

impl TwoFACode {
    /// Whether both hold the same text.
    pub fn same_as(&self, other: &TwoFACode) -> (r: bool)
        ensures
            r == (self@ == other@),
    {
        self.0 == other.0
    }

    /// Accepts `code` exactly when it is six ASCII digits.
    pub fn new(code: String) -> (r: Result<TwoFACode, String>)
        ensures
            r is Ok <==> is_two_fa_code(code@),
            r matches Ok(c) ==> c@ == code@,
    {
        let n = code.as_str().unicode_len();
        if n != 6 {
            return Err(String::from_str("Invalid 2FA code"));
        }
        let mut i: usize = 0;
        while i < 6
            invariant
                code@.len() == 6,
                i <= 6,
                forall|k: int| 0 <= k < i ==> is_ascii_digit(#[trigger] code@[k]),
            decreases 6 - i,
        {
            let c = code.as_str().get_char(i);
            if !(48 <= c as u32 && c as u32 <= 57) {
                return Err(String::from_str("Invalid 2FA code"));
            }
            i = i + 1;
        }
        Ok(TwoFACode(code))
    }

    /// The code that writes `n` in six decimal digits.
    pub fn from_number(n: u32) -> (r: TwoFACode)
        requires
            n <= 999999,
        ensures
            r@ == six_digits(n as nat),
            is_two_fa_code(r@),
    {
        let digits: &str = "0123456789";
        proof {
            reveal_strlit("0123456789");
            assert(digits@ =~= seq!['0', '1', '2', '3', '4', '5', '6', '7', '8', '9']);
            assert forall|k: int| 0 <= k < 10 implies #[trigger] digits@[k] == (48 + k) as char by {
                if k == 0 {} else if k == 1 {} else if k == 2 {} else if k == 3 {} else if k == 4 {
                } else if k == 5 {} else if k == 6 {} else if k == 7 {} else if k == 8 {} else {}
            }
        }
        let mut s = String::new();
        let mut divisor: u32 = 100000;
        proof {
            reveal_with_fuel(pow10, 6);
        }
        let mut i: usize = 0;
        while i < 6
            invariant
                i <= 6,
                digits@.len() == 10,
                forall|k: int| 0 <= k < 10 ==> #[trigger] digits@[k] == (48 + k) as char,
                i < 6 ==> divisor as nat == pow10((5 - i) as nat),
                divisor >= 1,
                s@.len() == i,
                forall|k: int| 0 <= k < i ==> s@[k] == #[trigger] six_digits(n as nat)[k],
            decreases 6 - i,
        {
            let d = ((n / divisor) % 10) as usize;
            let ghost before = s@;
            s.append(digits.substring_char(d, d + 1));
            proof {
                assert(digits@[d as int] == (48 + d) as char);
                assert(s@ =~= before.push((48 + d) as char));
            }
            if i < 5 {
                proof {
                    assert(pow10((5 - i) as nat) == 10 * pow10((4 - i) as nat));
                    lemma_pow10_positive((4 - i) as nat);
                }
                divisor = divisor / 10;
            }
            i = i + 1;
        }
        assert(s@ =~= six_digits(n as nat));
        TwoFACode(s)
    }

    /// A fresh random code.
    pub fn generate() -> (r: TwoFACode)
        ensures
            is_two_fa_code(r@),
    {
        TwoFACode::from_number(random_in_range(CODE_LOW, CODE_HIGH))
    }

    pub fn as_str(&self) -> (r: &str)
        ensures
            r@ == self@,
    {
        self.0.as_str()
    }
}

impl Default for TwoFACode {
    fn default() -> (r: TwoFACode)
        ensures
            is_two_fa_code(r@),
    {
        TwoFACode::generate()
    }
}


/// What the user directory reports.
#[derive(Clone, Copy, Debug, PartialEq, Eq, Structural)]
pub enum UserStoreError {
    UserAlreadyExists,
    UserNotFound,
    InvalidCredentials,
    UnexpectedError,
}

/// What the revocation list reports.
#[derive(Clone, Copy, Debug, PartialEq, Eq, Structural)]
pub enum BannedTokenStoreError {
    UnexpectedError,
}

/// What the challenge store reports.
#[derive(Clone, Copy, Debug, PartialEq, Eq, Structural)]
pub enum TwoFACodeStoreError {
    LoginAttemptIdNotFound,
    UnexpectedError,
}

/// How long a second-factor challenge stays live, in seconds.
pub const TWO_FA_CODE_TTL_SECONDS: u64 = 600;

/// The moment a challenge stored at `now` lapses.
pub open spec fn challenge_expiry(now: u64) -> u64 {
    if now as int + TWO_FA_CODE_TTL_SECONDS as int <= u64::MAX as int {
        (now + TWO_FA_CODE_TTL_SECONDS) as u64
    } else {
        u64::MAX
    }
}

/// The moment a challenge stored at `now` lapses.
pub fn challenge_expiry_at(now: u64) -> (r: u64)
    ensures
        r == challenge_expiry(now),
{
    if now > u64::MAX - TWO_FA_CODE_TTL_SECONDS {
        u64::MAX
    } else {
        now + TWO_FA_CODE_TTL_SECONDS
    }
}

/// The user directory: accounts keyed by e-mail address, each with its
/// password hash and whether it asks for a second factor. A backend that is
/// not available may fail any call with `UnexpectedError`, and then changes
/// nothing; an available one answers every call.
pub trait UserStore {
    spec fn wf(&self) -> bool;

    /// Whether the backend answers calls.
    spec fn available(&self) -> bool;

    /// E-mail address to (password hash, second factor required).
    spec fn users(&self) -> Map<Seq<char>, (Seq<char>, bool)>;

    /// Adds the account, storing a hash of its password; an address that is
    /// taken is refused.
    fn insert(&mut self, user: User) -> (r: Result<(), UserStoreError>)
        requires
            old(self).wf(),
        ensures
            final(self).wf(),
            final(self).available() == old(self).available(),
            old(self).available() && crate::password_hash::password_fits(user.password@) ==> r
                != Err::<(), UserStoreError>(UserStoreError::UnexpectedError),
            r == Err::<(), UserStoreError>(UserStoreError::UserAlreadyExists) <==> old(
                self,
            ).users().contains_key(user.email@),
            r matches Err(e) ==> e == UserStoreError::UserAlreadyExists || e
                == UserStoreError::UnexpectedError,
            r is Err ==> final(self).users() == old(self).users(),
            r is Ok ==> {
                &&& final(self).users() == old(self).users().insert(
                    user.email@,
                    final(self).users()[user.email@],
                )
                &&& final(self).users()[user.email@].1 == user.requires_2fa
                &&& crate::password_hash::argon2_accepts(
                    user.password@,
                    final(self).users()[user.email@].0,
                )
            },
    ;

    /// The account of `email`.
    fn get(&self, email: &Email) -> (r: Result<UserRecord, UserStoreError>)
        requires
            self.wf(),
        ensures
            r matches Ok(u) ==> {
                &&& self.users().contains_key(email@)
                &&& u.email@ == email@
                &&& u.password_hash@ == self.users()[email@].0
                &&& u.requires_2fa == self.users()[email@].1
            },
            r matches Err(e) ==> e == UserStoreError::UserNotFound || e
                == UserStoreError::UnexpectedError,
            r == Err::<UserRecord, UserStoreError>(UserStoreError::UserNotFound) ==> !self.users().contains_key(email@),
            self.users().contains_key(email@) ==> r is Ok || r == Err::<UserRecord, UserStoreError>(
                UserStoreError::UnexpectedError,
            ),
            self.available() ==> r != Err::<UserRecord, UserStoreError>(UserStoreError::UnexpectedError),
    ;

    /// Checks `password` against the stored hash of `email`'s account.
    fn validate(&self, email: &Email, password: &str) -> (r: Result<(), UserStoreError>)
        requires
            self.wf(),
        ensures
            r is Ok ==> self.users().contains_key(email@)
                && crate::password_hash::argon2_accepts(password@, self.users()[email@].0),
            r == Err::<(), UserStoreError>(UserStoreError::UserNotFound) ==> !self.users().contains_key(email@),
            r == Err::<(), UserStoreError>(UserStoreError::InvalidCredentials) ==> self.users().contains_key(email@)
                && !crate::password_hash::argon2_accepts(password@, self.users()[email@].0),
            r != Err::<(), UserStoreError>(UserStoreError::UserAlreadyExists),
            self.users().contains_key(email@) && crate::password_hash::argon2_accepts(
                password@,
                self.users()[email@].0,
            ) ==> r is Ok || r == Err::<(), UserStoreError>(UserStoreError::UnexpectedError),
            self.available() ==> r != Err::<(), UserStoreError>(UserStoreError::UnexpectedError),
    ;
}

/// The revocation list: session tokens that may no longer be used. A backend
/// that is not available may fail a ban with `UnexpectedError`, and then
/// changes nothing.
pub trait BannedTokenStore {
    spec fn wf(&self) -> bool;

    /// Whether the backend answers calls.
    spec fn available(&self) -> bool;

    spec fn banned(&self) -> Set<Seq<char>>;

    /// Revokes `token`; revoking it again is no error.
    fn ban_token(&mut self, token: &str) -> (r: Result<(), BannedTokenStoreError>)
        requires
            old(self).wf(),
        ensures
            final(self).wf(),
            final(self).available() == old(self).available(),
            old(self).available() ==> r is Ok,
            r is Ok ==> final(self).banned() == old(self).banned().insert(token@),
            r is Err ==> final(self).banned() == old(self).banned(),
    ;

    /// Whether `token` is revoked; changes nothing.
    fn is_token_banned(&self, token: &str) -> (r: bool)
        requires
            self.wf(),
        ensures
            r == self.banned().contains(token@),
    ;
}

/// The challenge store: at most one pending second-factor challenge per
/// e-mail address, as (attempt id, code, moment it lapses). A backend that is
/// not available may fail any call with `UnexpectedError`, and then changes
/// nothing.
pub trait TwoFACodeStore {
    spec fn wf(&self) -> bool;

    /// Whether the backend answers calls.
    spec fn available(&self) -> bool;

    spec fn codes(&self) -> Map<Seq<char>, (Seq<char>, Seq<char>, u64)>;

    /// Stores the challenge for `email` at time `now`, replacing any earlier one.
    fn add_code(
        &mut self,
        email: Email,
        login_attempt_id: LoginAttemptId,
        code: TwoFACode,
        now: u64,
    ) -> (r: Result<(), TwoFACodeStoreError>)
        requires
            old(self).wf(),
        ensures
            final(self).wf(),
            final(self).available() == old(self).available(),
            old(self).available() ==> r is Ok,
            r is Ok ==> final(self).codes() == old(self).codes().insert(
                email@,
                (login_attempt_id@, code@, challenge_expiry(now)),
            ),
            r is Err ==> final(self).codes() == old(self).codes(),
            r != Err::<(), TwoFACodeStoreError>(TwoFACodeStoreError::LoginAttemptIdNotFound),
    ;

    /// Drops the challenge of `email`; where there is none, nothing changes
    /// and the call succeeds.
    fn remove_code(&mut self, email: &Email) -> (r: Result<(), TwoFACodeStoreError>)
        requires
            old(self).wf(),
        ensures
            final(self).wf(),
            final(self).available() == old(self).available(),
            old(self).available() ==> r is Ok,
            r is Ok ==> final(self).codes() == old(self).codes().remove(email@),
            r is Err ==> final(self).codes() == old(self).codes(),
            r != Err::<(), TwoFACodeStoreError>(TwoFACodeStoreError::LoginAttemptIdNotFound),
    ;

    /// The challenge of `email` if it is live at `now`.
    fn get_code(&self, email: &Email, now: u64) -> (r: Result<
        (LoginAttemptId, TwoFACode),
        TwoFACodeStoreError,
    >)
        requires
            self.wf(),
        ensures
            r matches Ok((id, code)) ==> {
                &&& self.codes().contains_key(email@)
                &&& self.codes()[email@].0 == id@
                &&& self.codes()[email@].1 == code@
                &&& now < self.codes()[email@].2
            },
            r == Err::<(LoginAttemptId, TwoFACode), TwoFACodeStoreError>(
                TwoFACodeStoreError::LoginAttemptIdNotFound,
            ) ==> !(self.codes().contains_key(email@) && now < self.codes()[email@].2),
            self.codes().contains_key(email@) && now < self.codes()[email@].2 ==> r is Ok || r
                == Err::<(LoginAttemptId, TwoFACode), TwoFACodeStoreError>(
                TwoFACodeStoreError::UnexpectedError,
            ),
            self.available() ==> r != Err::<(LoginAttemptId, TwoFACode), TwoFACodeStoreError>(
                TwoFACodeStoreError::UnexpectedError,
            ),
    ;
}

} // verus!
