//! Authentication core of a small user service: password credentials, signed
//! session tokens, the bearer-token guard in front of protected handlers, and
//! the decisions the user routes take around them.
//!
//! Every function here carries a contract that Verus proves. The two
//! cryptographic back ends (Argon2 password hashing and HS512 token signing)
//! are reached through the small trusted layer in [`primitives`].

pub mod auth;
pub mod primitives;
pub mod result;
pub mod routes;
