use vstd::prelude::*;

verus! {

/// The Unicode `White_Space` property, which `str::trim` strips.
pub open spec fn is_white_space(c: char) -> bool {
    let u = c as u32;
    (0x09 <= u && u <= 0x0d) || u == 0x20 || u == 0x85 || u == 0xa0 || u == 0x1680 || (0x2000
        <= u && u <= 0x200a) || u == 0x2028 || u == 0x2029 || u == 0x202f || u == 0x205f || u
        == 0x3000
}

/// `s` without its leading white space.
pub open spec fn trim_start(s: Seq<char>) -> Seq<char>
    decreases s.len(),
{
    if s.len() > 0 && is_white_space(s[0]) {
        trim_start(s.drop_first())
    } else {
        s
    }
}

/// `s` without its trailing white space.
pub open spec fn trim_end(s: Seq<char>) -> Seq<char>
    decreases s.len(),
{
    if s.len() > 0 && is_white_space(s.last()) {
        trim_end(s.drop_last())
    } else {
        s
    }
}

/// `s` without leading and trailing white space, as `str::trim` gives it.
pub open spec fn trimmed(s: Seq<char>) -> Seq<char> {
    trim_end(trim_start(s))
}

/// Whether `c` is white space.
pub fn char_is_white_space(c: char) -> (r: bool)
    ensures
        r == is_white_space(c),
{
    let u = c as u32;
    (0x09 <= u && u <= 0x0d) || u == 0x20 || u == 0x85 || u == 0xa0 || u == 0x1680 || (0x2000
        <= u && u <= 0x200a) || u == 0x2028 || u == 0x2029 || u == 0x202f || u == 0x205f || u
        == 0x3000
}

/// The number of characters of `s` once leading and trailing white space is
/// removed.
pub fn trimmed_len(s: &str) -> (r: usize)
    ensures
        r == trimmed(s@).len(),
{
    let n = s.unicode_len();
    let mut i: usize = 0;
    assert(s@.subrange(0, n as int) =~= s@);
    while i < n && char_is_white_space(s.get_char(i))
        invariant
            n == s@.len(),
            i <= n,
            trim_start(s@) == trim_start(s@.subrange(i as int, n as int)),
        decreases n - i,
    {
        assert(s@.subrange(i as int, n as int).drop_first() =~= s@.subrange(i + 1, n as int));
        i = i + 1;
    }
    let ghost t = s@.subrange(i as int, n as int);
    assert(trim_start(s@) == t);
    let mut j: usize = n;
    assert(t.subrange(0, n - i) =~= t);
    while j > i && char_is_white_space(s.get_char(j - 1))
        invariant
            n == s@.len(),
            i <= j <= n,
            t == s@.subrange(i as int, n as int),
            trim_end(t) == trim_end(t.subrange(0, j - i)),
        decreases j,
    {
        assert(t.subrange(0, j - i).drop_last() =~= t.subrange(0, j - 1 - i));
        j = j - 1;
    }
    assert(trim_end(t) == t.subrange(0, j - i));
    j - i
}

/// The shape of an e-mail address that the `validator` crate accepts: a local
/// part and a domain (or an address literal) around the last `@`.
pub uninterp spec fn valid_email_address(s: Seq<char>) -> bool;

/// Relies on `validator::ValidateEmail::validate_email` for `&str`: it accepts
/// or rejects the address by its characters alone, and rejects a string
/// without `@`.
#[verifier::external_body]
fn validate_email_address(s: &str) -> (r: bool)
    ensures
        r == valid_email_address(s@),
{
    validator::ValidateEmail::validate_email(&s)
}

/// A validated e-mail address, the key of a user account.
#[derive(Debug, PartialEq, Eq)]
pub struct Email(String);

impl View for Email {
    type V = Seq<char>;

    closed spec fn view(&self) -> Seq<char> {
        self.0@
    }
}

impl Clone for Email {
    fn clone(&self) -> (r: Email)
        ensures
            r@ == self@,
    {
        Email(self.0.clone())
    }
}

impl Email {
    /// Whether both hold the same text.
    pub fn same_as(&self, other: &Email) -> (r: bool)
        ensures
            r == (self@ == other@),
    {
        self.0 == other.0
    }

    /// Accepts `email` exactly when it has the shape of an e-mail address.
    pub fn new(email: String) -> (r: Result<Email, String>)
        ensures
            r is Ok <==> valid_email_address(email@),
            r matches Ok(e) ==> e@ == email@,
    {
        if validate_email_address(email.as_str()) {
            Ok(Email(email))
        } else {
            Err(String::from_str("Invalid email format"))
        }
    }

    /// The address.
    pub fn as_str(&self) -> (r: &str)
        ensures
            r@ == self@,
    {
        self.0.as_str()
    }
}

/// The least number of characters of a password once trimmed.
pub const MIN_PASSWORD_LEN: usize = 8;

/// A candidate password of acceptable length.
#[derive(Debug, PartialEq, Eq)]
pub struct Password(String);

impl View for Password {
    type V = Seq<char>;

    closed spec fn view(&self) -> Seq<char> {
        self.0@
    }
}

impl Clone for Password {
    fn clone(&self) -> (r: Password)
        ensures
            r@ == self@,
    {
        Password(self.0.clone())
    }
}

impl Password {
    /// Whether both hold the same text.
    pub fn same_as(&self, other: &Password) -> (r: bool)
        ensures
            r == (self@ == other@),
    {
        self.0 == other.0
    }

    /// Accepts `password` exactly when it holds at least eight characters
    /// besides leading and trailing white space; the password is kept as given.
    pub fn new(password: String) -> (r: Result<Password, String>)
        ensures
            r is Ok <==> trimmed(password@).len() >= MIN_PASSWORD_LEN,
            r matches Ok(p) ==> p@ == password@,
    {
        if trimmed_len(password.as_str()) < MIN_PASSWORD_LEN {
            Err(String::from_str("Invalid password"))
        } else {
            Ok(Password(password))
        }
    }

    /// The password as given.
    pub fn as_str(&self) -> (r: &str)
        ensures
            r@ == self@,
    {
        self.0.as_str()
    }
}


/// A user account as it arrives at signup: the password is kept until the
/// directory stores its hash.
#[derive(Clone, Debug)]
pub struct User {
    pub email: Email,
    pub password: Password,
    pub requires_2fa: bool,
}

impl User {
    pub fn new(email: Email, password: Password, requires_2fa: bool) -> (r: User)
        ensures
            r.email@ == email@,
            r.password@ == password@,
            r.requires_2fa == requires_2fa,
    {
        User { email, password, requires_2fa }
    }
}

/// A user account as the directory holds it.
#[derive(Clone, Debug)]
pub struct UserRecord {
    pub email: Email,
    pub password_hash: String,
    pub requires_2fa: bool,
}

/// The collaborator whose failure a request could not get past.
#[derive(Clone, Copy, Debug, PartialEq, Eq, Structural)]
pub enum Failure {
    /// The user directory did not answer, or could not hash the password.
    UserStore,
    /// The challenge store did not answer.
    ChallengeStore,
    /// The revocation list did not answer.
    RevocationList,
    /// The session token could not be made: its lapse does not fit.
    Token,
    /// The notifier could not deliver the code.
    Notifier,
}

/// The failures that the service reports to its callers.
#[derive(Clone, Copy, Debug, PartialEq, Eq, Structural)]
pub enum AuthAPIError {
    /// Signup for an e-mail address that already has an account.
    UserAlreadyExists,
    /// Input of the wrong shape: an e-mail address, password, attempt id or code.
    InvalidCredentials,
    /// A collaborator failed; the cause is kept for diagnostics.
    UnexpectedError(Failure),
    /// Unknown account, wrong password, or a missing, expired or wrong challenge.
    IncorrectCredentials,
    /// Logout without a session token.
    MissingToken,
    /// A session token that is malformed, badly signed, expired or revoked.
    InvalidToken,
    /// A token to inspect that is empty or white space.
    MalformedInput,
}

/// The body of an error response.
#[derive(Clone, Debug)]
pub struct ErrorResponse {
    pub error: String,
}

/// The HTTP status of each failure.
pub open spec fn status_of(e: AuthAPIError) -> u16 {
    match e {
        AuthAPIError::UserAlreadyExists => 409,
        AuthAPIError::InvalidCredentials => 400,
        AuthAPIError::UnexpectedError(_) => 500,
        AuthAPIError::IncorrectCredentials => 401,
        AuthAPIError::MissingToken => 400,
        AuthAPIError::InvalidToken => 401,
        AuthAPIError::MalformedInput => 422,
    }
}

/// The message shown for each failure.
pub open spec fn message_of(e: AuthAPIError) -> Seq<char> {
    match e {
        AuthAPIError::UserAlreadyExists => "User already exists"@,
        AuthAPIError::InvalidCredentials => "Invalid credentials"@,
        AuthAPIError::UnexpectedError(_) => "Unexpected error"@,
        AuthAPIError::IncorrectCredentials => "Incorrect credentials"@,
        AuthAPIError::MissingToken => "Missing token"@,
        AuthAPIError::InvalidToken => "Invalid token"@,
        AuthAPIError::MalformedInput => "Malformed input"@,
    }
}

impl AuthAPIError {
    /// The HTTP status and the body that report this failure.
    pub fn error_response(&self) -> (r: (u16, ErrorResponse))
        ensures
            r.0 == status_of(*self),
            r.1.error@ == message_of(*self),
    {
        match self {
            AuthAPIError::UserAlreadyExists => (
                409,
                ErrorResponse { error: String::from_str("User already exists") },
            ),
            AuthAPIError::InvalidCredentials => (
                400,
                ErrorResponse { error: String::from_str("Invalid credentials") },
            ),
            AuthAPIError::UnexpectedError(_) => (
                500,
                ErrorResponse { error: String::from_str("Unexpected error") },
            ),
            AuthAPIError::IncorrectCredentials => (
                401,
                ErrorResponse { error: String::from_str("Incorrect credentials") },
            ),
            AuthAPIError::MissingToken => (
                400,
                ErrorResponse { error: String::from_str("Missing token") },
            ),
            AuthAPIError::InvalidToken => (
                401,
                ErrorResponse { error: String::from_str("Invalid token") },
            ),
            AuthAPIError::MalformedInput => (
                422,
                ErrorResponse { error: String::from_str("Malformed input") },
            ),
        }
    }
}


/// The rule that frames an error report.
pub const REPORT_SEPARATOR: &'static str =
    "\n-----------------------------------------------------------------------------------\n";

/// The causes of an error, each on its own paragraph, in order.
pub open spec fn causes_text(causes: Seq<Seq<char>>) -> Seq<char>
    decreases causes.len(),
{
    if causes.len() == 0 {
        Seq::empty()
    } else {
        causes_text(causes.drop_last()) + "\nCaused by:\n\n"@ + causes.last()
    }
}

/// The report of an error and its chain of causes, framed by separators.
pub open spec fn error_report(error: Seq<char>, causes: Seq<Seq<char>>) -> Seq<char> {
    REPORT_SEPARATOR@ + error + "\n"@ + causes_text(causes) + "\n"@ + REPORT_SEPARATOR@
}

/// The text of the report that is logged for a failure: its description,
/// then each cause in turn.
pub fn error_chain_report(error: &str, causes: &Vec<String>) -> (r: String)
    ensures
        r@ == error_report(error@, causes@.map_values(|c: String| c@)),
{
    let ghost texts = causes@.map_values(|c: String| c@);
    let mut report = String::from_str(REPORT_SEPARATOR);
    report.append(error);
    report.append("\n");
    let ghost head = report@;
    let mut i: usize = 0;
    assert(texts.subrange(0, 0) =~= Seq::<Seq<char>>::empty());
    while i < causes.len()
        invariant
            i <= causes@.len(),
            texts == causes@.map_values(|c: String| c@),
            head == REPORT_SEPARATOR@ + error@ + "\n"@,
            report@ == head + causes_text(texts.subrange(0, i as int)),
        decreases causes@.len() - i,
    {
        let ghost before = report@;
        report.append("\nCaused by:\n\n");
        report.append(causes[i].as_str());
        assert(texts.subrange(0, i + 1).drop_last() =~= texts.subrange(0, i as int));
        assert(report@ =~= head + causes_text(texts.subrange(0, i + 1)));
        i = i + 1;
    }
    assert(texts.subrange(0, causes@.len() as int) =~= texts);
    report.append("\n");
    report.append(REPORT_SEPARATOR);
    report
}

} // verus!
