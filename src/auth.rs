use vstd::prelude::*;

use crate::data_stores::BannedTokenStore;
use crate::domain::Email;

verus! {

/// How long a session token lives, in seconds.
pub const TOKEN_TTL_SECONDS: u64 = 600;

/// The name under which transports carry the session token.
pub const JWT_COOKIE_NAME: &'static str = "jwt";

/// The claims of a session token: the account's e-mail address and the
/// moment, in seconds since the Unix epoch, at which the token lapses.
#[derive(Clone, Debug)]
pub struct Claims {
    pub sub: String,
    pub exp: u64,
}

/// The token that `jsonwebtoken::encode` signs with HS256 under `secret` for
/// the claims `{"sub": sub, "exp": exp}`.
pub uninterp spec fn jwt_encoded(sub: Seq<char>, exp: u64, secret: Seq<char>) -> Seq<char>;

/// The claims `(sub, exp)` that `jsonwebtoken::decode` finds in `token` when
/// its HS256 signature under `secret` holds and it carries a string `sub` and
/// an unsigned `exp`; `None` otherwise. Whether the token has lapsed is not
/// part of this.
pub uninterp spec fn jwt_decoded(token: Seq<char>, secret: Seq<char>) -> Option<(Seq<char>, u64)>;

#[verifier::external_type_specification]
#[verifier::external_body]
pub struct ExJwtError(jsonwebtoken::errors::Error);

/// Relies on `jsonwebtoken::encode` with the default header (HS256) and an
/// HMAC key made from `secret`: the token depends on its arguments alone, and
/// `jsonwebtoken::decode` under the same key gives the same claims back. An
/// HMAC key matches the HS256 header and HMAC signing does not fail, so the
/// call succeeds.
#[verifier::external_body]
fn jwt_encode(sub: &str, exp: u64, secret: &str) -> (r: Result<String, jsonwebtoken::errors::Error>)
    ensures
        r is Ok,
        r matches Ok(t) ==> t@ == jwt_encoded(sub@, exp, secret@) && jwt_decoded(t@, secret@)
            == Some((sub@, exp)),
{
    let mut claims = serde_json::Map::new();
    claims.insert("sub".to_string(), serde_json::Value::from(sub));
    claims.insert("exp".to_string(), serde_json::Value::from(exp));
    let key = jsonwebtoken::EncodingKey::from_secret(secret.as_bytes());
    jsonwebtoken::encode(&jsonwebtoken::Header::default(), &claims, &key)
}

/// Relies on `jsonwebtoken::decode` for HS256 under an HMAC key made from
/// `secret`, with the lapse check switched off so that the answer depends on
/// the token and the key alone.
#[verifier::external_body]
fn jwt_decode(token: &str, secret: &str) -> (r: Option<(String, u64)>)
    ensures
        r matches Some((sub, exp)) ==> jwt_decoded(token@, secret@) == Some((sub@, exp)),
        r is None ==> jwt_decoded(token@, secret@) is None,
{
    let mut validation = jsonwebtoken::Validation::new(jsonwebtoken::Algorithm::HS256);
    validation.validate_exp = false;
    let key = jsonwebtoken::DecodingKey::from_secret(secret.as_bytes());
    let data = jsonwebtoken::decode::<serde_json::Map<String, serde_json::Value>>(
        token,
        &key,
        &validation,
    ).ok()?;
    let sub = data.claims.get("sub")?.as_str()?.to_string();
    let exp = data.claims.get("exp")?.as_u64()?;
    Some((sub, exp))
}

/// Relies on `chrono::Utc::now` and `DateTime::timestamp`: the current time in
/// seconds since the Unix epoch. `Utc::now` panics on a clock set before the
/// epoch, so a value that comes back is not negative.
#[verifier::external_body]
fn unix_timestamp() -> (r: i64)
    ensures
        r >= 0,
{
    chrono::Utc::now().timestamp()
}

/// The current time in seconds since the Unix epoch.
fn clock_now() -> (r: u64)
    ensures
        r <= i64::MAX,
{
    unix_timestamp() as u64
}

/// Why a session token could not be made.
#[derive(Debug)]
pub enum GenerateTokenError {
    /// The signer failed; with an HMAC key it does not.
    TokenError(jsonwebtoken::errors::Error),
    /// The lapse moment does not fit in a timestamp.
    UnexpectedError,
}

/// The moment a token issued at `now` lapses, where it fits.
pub open spec fn token_expiry(now: u64) -> Option<u64> {
    if now as int + TOKEN_TTL_SECONDS as int <= u64::MAX as int {
        Some((now + TOKEN_TTL_SECONDS) as u64)
    } else {
        None
    }
}

/// Signs a session token for `email` issued at `now`, which lapses ten minutes
/// later. Fails, with `UnexpectedError`, exactly when that moment does not fit.
pub fn issue_token(email: &Email, now: u64, secret: &str) -> (r: Result<String, GenerateTokenError>)
    ensures
        r matches Err(GenerateTokenError::UnexpectedError) <==> token_expiry(now) is None,
        token_expiry(now) is Some <==> r is Ok,
        r matches Ok(t) ==> {
            &&& token_expiry(now) matches Some(exp)
            &&& t@ == jwt_encoded(email@, exp, secret@)
            &&& jwt_decoded(t@, secret@) == Some((email@, exp))
        },
{
    if now > u64::MAX - TOKEN_TTL_SECONDS {
        return Err(GenerateTokenError::UnexpectedError);
    }
    let exp = now + TOKEN_TTL_SECONDS;
    match jwt_encode(email.as_str(), exp, secret) {
        Ok(t) => Ok(t),
        Err(e) => Err(GenerateTokenError::TokenError(e)),
    }
}

/// Signs a session token for `email` that lapses ten minutes from now.
pub fn generate_auth_token(email: &Email, secret: &str) -> (r: Result<String, GenerateTokenError>)
    ensures
        r matches Ok(t) && jwt_decoded(t@, secret@) matches Some((sub, exp)) && sub == email@ && exp
            >= TOKEN_TTL_SECONDS,
{
    issue_token(email, clock_now(), secret)
}

/// Why a session token is refused.
#[derive(Clone, Copy, Debug, PartialEq, Eq, Structural)]
pub enum TokenError {
    /// The token is on the revocation list.
    Revoked,
    /// The token does not decode, or its signature does not hold.
    Malformed,
    /// The token has lapsed.
    Expired,
}

/// The verdict on `token` at `now`: revoked tokens are refused whatever their
/// signature; then the signature and claims are checked; then the lapse.
pub open spec fn token_verdict(
    banned: Set<Seq<char>>,
    token: Seq<char>,
    secret: Seq<char>,
    now: u64,
) -> Result<(Seq<char>, u64), TokenError> {
    if banned.contains(token) {
        Err(TokenError::Revoked)
    } else {
        match jwt_decoded(token, secret) {
            None => Err(TokenError::Malformed),
            Some((sub, exp)) => if exp <= now {
                Err(TokenError::Expired)
            } else {
                Ok((sub, exp))
            },
        }
    }
}

/// Checks `token` against the revocation list, its signature under `secret`,
/// and its lapse at `now`.
pub fn check_token<B: BannedTokenStore>(token: &str, banned_token_store: &B, secret: &str, now: u64) -> (r: Result<Claims, TokenError>)
    requires
        banned_token_store.wf(),
    ensures
        match token_verdict(banned_token_store.banned(), token@, secret@, now) {
            Ok((sub, exp)) => r matches Ok(c) && c.sub@ == sub && c.exp == exp,
            Err(e) => r == Err::<Claims, TokenError>(e),
        },
{
    if banned_token_store.is_token_banned(token) {
        return Err(TokenError::Revoked);
    }
    match jwt_decode(token, secret) {
        None => Err(TokenError::Malformed),
        Some((sub, exp)) => {
            if exp <= now {
                Err(TokenError::Expired)
            } else {
                Ok(Claims { sub, exp })
            }
        },
    }
}

/// Checks `token` against the revocation list, its signature under `secret`,
/// and its lapse now.
pub fn validate_token<B: BannedTokenStore>(token: &str, banned_token_store: &B, secret: &str) -> (r: Result<Claims, TokenError>)
    requires
        banned_token_store.wf(),
    ensures
        banned_token_store.banned().contains(token@) ==> r == Err::<Claims, TokenError>(TokenError::Revoked),
        !banned_token_store.banned().contains(token@) && jwt_decoded(token@, secret@) is None
            ==> r == Err::<Claims, TokenError>(TokenError::Malformed),
        r matches Ok(c) ==> jwt_decoded(token@, secret@) == Some((c.sub@, c.exp)),
        r == Err::<Claims, TokenError>(TokenError::Revoked) <==> banned_token_store.banned().contains(token@),
        !banned_token_store.banned().contains(token@) && jwt_decoded(token@, secret@) is Some ==> (r is Ok
            || r == Err::<Claims, TokenError>(TokenError::Expired)),
{
    check_token(token, banned_token_store, secret, clock_now())
}

} // verus!
