//! Authentication and session lifecycle: validated identity values, the user
//! directory, the one-time second-factor challenge store, the token
//! revocation list, signed session tokens, and the orchestration of signup,
//! login, second-factor verification, logout and token introspection.

pub mod auth;
pub mod data_stores;
pub mod domain;
pub mod hashmap_two_fa_code_store;
pub mod hashmap_user_store;
pub mod hashset_banned_store;
pub mod laws;
pub mod password_hash;
pub mod redis_banned_token_store;
pub mod redis_two_fa_code_store;
pub mod routes;
