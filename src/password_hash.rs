use vstd::prelude::*;

use crate::domain::Password;
use vstd::utf8::encode_utf8;

verus! {

/// Whether the argon2 verifier accepts `candidate` against the PHC string
/// `hash`: false where `hash` does not parse.
pub uninterp spec fn argon2_accepts(candidate: Seq<char>, hash: Seq<char>) -> bool;

/// The longest password, in UTF-8 bytes, that argon2 hashes.
pub const MAX_PASSWORD_BYTES: u64 = 0xFFFF_FFFF;

/// Whether the hasher takes `password`: its UTF-8 form is not too long.
pub open spec fn password_fits(password: Seq<char>) -> bool {
    encode_utf8(password).len() <= MAX_PASSWORD_BYTES
}

/// Argon2id memory cost, in KiB.
pub const HASH_MEMORY_KIB: u32 = 15000;

/// Argon2id number of passes.
pub const HASH_ITERATIONS: u32 = 2;

/// Argon2id degree of parallelism.
pub const HASH_PARALLELISM: u32 = 1;

/// Relies on `argon2::PasswordHasher::hash_password` (Argon2id, version 0x13)
/// with a fresh salt from `password_hash::SaltString::generate`: the PHC
/// string records algorithm, version, parameters and salt, from which
/// `argon2::PasswordVerifier::verify_password` recomputes the same output for
/// the same password. `argon2::Params::new` accepts the parameters that
/// `requires` admits, and hashing fails only for a password over
/// `argon2::MAX_PWD_LEN` bytes.
#[verifier::external_body]
fn argon2_hash(password: &str, memory_kib: u32, iterations: u32, parallelism: u32) -> (r: Option<
    String,
>)
    requires
        1 <= parallelism <= 0xFF_FFFF,
        1 <= iterations,
        8 <= memory_kib,
        8 * parallelism <= memory_kib,
    ensures
        r matches Some(h) ==> argon2_accepts(password@, h@),
        r is Some <==> password_fits(password@),
{
    let params = argon2::Params::new(memory_kib, iterations, parallelism, None).ok()?;
    let hasher = argon2::Argon2::new(argon2::Algorithm::Argon2id, argon2::Version::V0x13, params);
    let salt = argon2::password_hash::SaltString::generate(&mut rand::thread_rng());
    argon2::PasswordHasher::hash_password(&hasher, password.as_bytes(), &salt).ok().map(
        |h| h.to_string(),
    )
}

/// Relies on `argon2::password_hash::PasswordHash::new` and
/// `argon2::PasswordVerifier::verify_password`: the answer depends on the
/// candidate and the PHC string alone.
#[verifier::external_body]
fn argon2_verify(hash: &str, candidate: &str) -> (r: bool)
    ensures
        r == argon2_accepts(candidate@, hash@),
{
    match argon2::password_hash::PasswordHash::new(hash) {
        Ok(parsed) => argon2::PasswordVerifier::verify_password(
            &argon2::Argon2::default(),
            candidate.as_bytes(),
            &parsed,
        ).is_ok(),
        Err(_) => false,
    }
}

/// Hashes the password with Argon2id under a fresh salt; `None` where the
/// password is too long to hash. A hash that comes back accepts the password.
pub fn compute_password_hash(password: &Password) -> (r: Option<String>)
    ensures
        r matches Some(h) ==> argon2_accepts(password@, h@),
        r is Some <==> password_fits(password@),
{
    argon2_hash(password.as_str(), HASH_MEMORY_KIB, HASH_ITERATIONS, HASH_PARALLELISM)
}

/// Whether `candidate` matches the stored hash.
pub fn verify_password_hash(expected_password_hash: &str, password_candidate: &str) -> (r: bool)
    ensures
        r == argon2_accepts(password_candidate@, expected_password_hash@),
{
    argon2_verify(expected_password_hash, password_candidate)
}

} // verus!
