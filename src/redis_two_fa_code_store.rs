//! The key layout and the value format of the challenge store in a key-value
//! cache: each challenge is kept as the JSON array `[attempt id, code]`.
use vstd::prelude::*;

use crate::data_stores::{is_two_fa_code, uuid_parses, LoginAttemptId, TwoFACode, TwoFACodeStoreError};
use crate::domain::Email;

verus! {

/// The prefix that keeps challenge keys apart from other keys.
pub const TWO_FA_CODE_PREFIX: &'static str = "two_fa_code:";

/// The cache key of `email`'s challenge.
pub fn get_key(email: &Email) -> (r: String)
    ensures
        r@ == TWO_FA_CODE_PREFIX@ + email@,
{
    let mut key = String::from_str(TWO_FA_CODE_PREFIX);
    key.append(email.as_str());
    key
}

/// The JSON text that `serde_json::to_string` writes for the pair of strings
/// `(first, second)`.
pub uninterp spec fn json_pair(first: Seq<char>, second: Seq<char>) -> Seq<char>;

/// The pair of strings that `serde_json::from_str` reads from `text`, if it is
/// a JSON array of two strings.
pub uninterp spec fn json_pair_parsed(text: Seq<char>) -> Option<(Seq<char>, Seq<char>)>;

#[verifier::external_type_specification]
#[verifier::external_body]
pub struct ExJsonError(serde_json::Error);

/// Relies on `serde_json::to_string` for a pair of strings: a JSON array of
/// two strings, which `serde_json::from_str` reads back as the same pair.
/// Strings serialise without error.
#[verifier::external_body]
fn write_json_pair(first: &str, second: &str) -> (r: Result<String, serde_json::Error>)
    ensures
        r is Ok,
        r matches Ok(text) ==> text@ == json_pair(first@, second@) && json_pair_parsed(text@)
            == Some((first@, second@)),
{
    serde_json::to_string(&(first, second))
}

/// Relies on `serde_json::from_str` for a pair of strings: the result depends
/// on the text alone.
#[verifier::external_body]
fn read_json_pair(text: &str) -> (r: Option<(String, String)>)
    ensures
        r matches Some((first, second)) ==> json_pair_parsed(text@) == Some((first@, second@)),
        r is None ==> json_pair_parsed(text@) is None,
{
    serde_json::from_str::<(String, String)>(text).ok()
}

/// The stored form of a challenge.
pub fn encode_code_entry(login_attempt_id: &LoginAttemptId, code: &TwoFACode) -> (r: Result<
    String,
    TwoFACodeStoreError,
>)
    ensures
        r matches Ok(text) ==> text@ == json_pair(login_attempt_id@, code@) && json_pair_parsed(
            text@,
        ) == Some((login_attempt_id@, code@)),
        r is Ok,
{
    match write_json_pair(login_attempt_id.as_str(), code.as_str()) {
        Ok(text) => Ok(text),
        Err(_) => Err(TwoFACodeStoreError::UnexpectedError),
    }
}

/// Reads a stored challenge back; text that is not a pair of an attempt id
/// and a code is reported as unexpected.
pub fn decode_code_entry(text: &str) -> (r: Result<(LoginAttemptId, TwoFACode), TwoFACodeStoreError>)
    ensures
        r is Ok <==> (json_pair_parsed(text@) matches Some((id, code)) && uuid_parses(id)
            && is_two_fa_code(code)),
        r matches Ok((id, code)) ==> json_pair_parsed(text@) == Some((id@, code@)),
        r matches Err(e) ==> e == TwoFACodeStoreError::UnexpectedError,
{
    let (id, code) = match read_json_pair(text) {
        Some(pair) => pair,
        None => return Err(TwoFACodeStoreError::UnexpectedError),
    };
    match (LoginAttemptId::new(id), TwoFACode::new(code)) {
        (Ok(id), Ok(code)) => Ok((id, code)),
        _ => Err(TwoFACodeStoreError::UnexpectedError),
    }
}

} // verus!
