//! The key layout of the revocation list in a key-value cache.
use vstd::prelude::*;

verus! {

/// The prefix that keeps revocation keys apart from other keys.
pub const BANNED_TOKEN_KEY_PREFIX: &'static str = "banned_token:";

/// The cache key that marks `token` as revoked.
pub fn get_key(token: &str) -> (r: String)
    ensures
        r@ == BANNED_TOKEN_KEY_PREFIX@ + token@,
{
    let mut key = String::from_str(BANNED_TOKEN_KEY_PREFIX);
    key.append(token);
    key
}

} // verus!
