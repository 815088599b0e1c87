//! The trusted layer: names for what the Argon2 and JSON Web Token back ends
//! compute, and the wrappers that call them.
//!
//! Nothing in this file is proved. Each contract records what the named
//! outside function does, and every proof elsewhere in the crate rests on
//! these statements.

use argon2::PasswordHasher;
use argon2::PasswordVerifier;
use vstd::prelude::*;
use vstd::string::StringSliceAdditionalSpecFns;

verus! {

/// The error type of the `password-hash` traits that `argon2` implements.
#[verifier::external_type_specification]
#[verifier::external_body]
pub struct ExPasswordHashError(argon2::password_hash::Error);

/// The error type of `jsonwebtoken`.
#[verifier::external_type_specification]
#[verifier::external_body]
pub struct ExTokenError(jsonwebtoken::errors::Error);

/// Whether `byte` is an ASCII decimal digit.
pub open spec fn is_digit(byte: u8) -> bool {
    0x30 <= byte <= 0x39
}

/// Whether `text` holds, at index `at`, the two bytes `p=` followed by nine
/// decimal digits.
pub open spec fn oversized_lanes_at(text: Seq<u8>, at: int) -> bool {
    &&& 0 <= at
    &&& at + 11 <= text.len()
    &&& text[at] == 0x70
    &&& text[at + 1] == 0x3d
    &&& is_digit(text[at + 2])
    &&& is_digit(text[at + 3])
    &&& is_digit(text[at + 4])
    &&& is_digit(text[at + 5])
    &&& is_digit(text[at + 6])
    &&& is_digit(text[at + 7])
    &&& is_digit(text[at + 8])
    &&& is_digit(text[at + 9])
    &&& is_digit(text[at + 10])
}

/// Whether `text` holds `p=` followed by nine or more decimal digits
/// anywhere.
///
/// In a PHC string `p` is Argon2's number of lanes, written without leading
/// zeros and at most 16777215. A number of nine digits or more is therefore
/// never a lane count that Argon2 admits, and from 536870912 on its
/// parameter check multiplies past `u32`. A stored hash that holds such a
/// number is kept away from the Argon2 back end altogether.
pub open spec fn has_oversized_lanes(text: Seq<u8>) -> bool {
    exists|at: int| oversized_lanes_at(text, at)
}

/// Whether `argon2::PasswordHash::new` accepts `hash` as a PHC string.
pub uninterp spec fn phc_parses(hash: Seq<char>) -> bool;

/// Whether `Argon2::default().verify_password` returns `Ok` for the UTF-8
/// bytes of `password` and the parsed form of `hash`. Meaningful only where
/// `phc_parses(hash)`.
pub uninterp spec fn argon2_accepts(hash: Seq<char>, password: Seq<char>) -> bool;

/// The compact token that `jsonwebtoken::encode` returns for an HS512 header,
/// the claims object `{"uid": uid, "exp": exp}` and an HMAC key made of the
/// UTF-8 bytes of `secret`.
pub uninterp spec fn hs512_encoding(uid: i64, exp: u64, secret: Seq<char>) -> Seq<char>;

/// The claims `(uid, exp)` that `jsonwebtoken::decode` recovers from `token`
/// when it accepts only HS512, checks the signature against an HMAC key made
/// of the UTF-8 bytes of `secret`, and leaves the expiry check to its caller;
/// `None` where it rejects the token or where the claims lack an integer
/// `uid` in `i64` or `exp` in `u64`.
pub uninterp spec fn hs512_claims(token: Seq<char>, secret: Seq<char>) -> Option<(i64, u64)>;

/// Calls `SaltString::generate` on the operating system's random source, then
/// `Argon2::default().hash_password` with that salt, and renders the result
/// as a PHC string.
///
/// The salt is random, so the string itself is not determined. Claimed of
/// every string that comes back: it parses as a PHC string, and verifying
/// `password` against it succeeds, because verification recomputes the digest
/// from the salt and parameters that the string itself carries; and it holds
/// no oversized lane count, because the default parameters are written as
/// `m=19456,t=2,p=1` and neither the salt nor the digest, both in unpadded
/// Base64, can hold a `=`.
///
/// Claimed of success: with the default parameters and a salt of its own
/// making, Argon2 refuses a password only for its length, above 4294967295
/// bytes.
#[verifier::external_body]
pub(crate) fn argon2_hash(password: &str) -> (r: Result<String, argon2::password_hash::Error>)
    ensures
        r matches Ok(hash) ==> phc_parses(hash@) && argon2_accepts(hash@, password@),
        r matches Ok(hash) ==> !has_oversized_lanes(vstd::utf8::encode_utf8(hash@)),
        password.spec_bytes().len() <= 0xFFFF_FFFF ==> r is Ok,
{
    let salt = argon2::password_hash::SaltString::generate(
        &mut argon2::password_hash::rand_core::OsRng,
    );
    match argon2::Argon2::default().hash_password(password.as_bytes(), &salt) {
        Ok(hash) => Ok(hash.to_string()),
        Err(e) => Err(e),
    }
}

/// Calls `PasswordHash::new` on `hash` and, where that parses,
/// `Argon2::default().verify_password` on the bytes of `password`.
///
/// Both are functions of their arguments alone; the contract names their
/// results and claims nothing else. The call costs the time and memory that
/// the parameters inside `hash` ask for.
///
/// Argon2's parameter check multiplies the lane count by eight in `u32`
/// before it tests the count against its maximum, so a hash with an
/// oversized lane count is left out.
#[verifier::external_body]
pub(crate) fn argon2_verify(hash: &str, password: &str) -> (r: Option<bool>)
    requires
        !has_oversized_lanes(hash.spec_bytes()),
    ensures
        r == (if phc_parses(hash@) {
            Some(argon2_accepts(hash@, password@))
        } else {
            None
        }),
{
    match argon2::PasswordHash::new(hash) {
        Ok(parsed) => Some(
            argon2::Argon2::default().verify_password(password.as_bytes(), &parsed).is_ok(),
        ),
        Err(_) => None,
    }
}

/// Calls `jsonwebtoken::encode` with an HS512 header, the claims object
/// `{"uid": uid, "exp": exp}` and `EncodingKey::from_secret` on the bytes of
/// `secret`.
///
/// Signing is deterministic, so the result is named. Claimed of success: with
/// an HMAC key under an HS512 header the call has no way to fail, since the
/// header and an object of two integers always serialise and HMAC signing
/// returns no error. Claimed beside the name: the token decodes under the
/// same secret to the claims it was made from, because decoding recomputes
/// the HMAC over the same bytes.
#[verifier::external_body]
pub(crate) fn hs512_encode(uid: i64, exp: u64, secret: &str) -> (r: Result<
    String,
    jsonwebtoken::errors::Error,
>)
    ensures
        r is Ok,
        r matches Ok(token) ==> {
            &&& token@ == hs512_encoding(uid, exp, secret@)
            &&& hs512_claims(token@, secret@) == Some((uid, exp))
        },
{
    let mut claims = serde_json::Map::new();
    claims.insert("uid".to_string(), serde_json::Value::from(uid));
    claims.insert("exp".to_string(), serde_json::Value::from(exp));
    jsonwebtoken::encode(
        &jsonwebtoken::Header::new(jsonwebtoken::Algorithm::HS512),
        &claims,
        &jsonwebtoken::EncodingKey::from_secret(secret.as_bytes()),
    )
}

/// Calls `jsonwebtoken::decode` with `DecodingKey::from_secret` on the bytes
/// of `secret` and a validation that admits HS512 only and does not look at
/// the clock, then picks the integer claims `uid` and `exp`.
///
/// With the expiry check switched off the call is a function of its
/// arguments alone; the contract names its result and claims nothing else.
#[verifier::external_body]
pub(crate) fn hs512_decode(token: &str, secret: &str) -> (r: Option<(i64, u64)>)
    ensures
        r == hs512_claims(token@, secret@),
{
    let mut validation = jsonwebtoken::Validation::new(jsonwebtoken::Algorithm::HS512);
    validation.validate_exp = false;
    let key = jsonwebtoken::DecodingKey::from_secret(secret.as_bytes());
    match jsonwebtoken::decode::<serde_json::Value>(token, &key, &validation) {
        Ok(data) => match (data.claims["uid"].as_i64(), data.claims["exp"].as_u64()) {
            (Some(uid), Some(exp)) => Some((uid, exp)),
            _ => None,
        },
        Err(_) => None,
    }
}

/// Calls `core::str::from_utf8`: the bytes as text where they are valid UTF-8,
/// `None` where they are not. The text is the same bytes, read as `str`.
#[verifier::external_body]
pub(crate) fn utf8_text(bytes: &[u8]) -> (r: Option<&str>)
    ensures
        r is Some <==> vstd::utf8::valid_utf8(bytes@),
        r matches Some(text) ==> text.spec_bytes() == bytes@,
{
    match core::str::from_utf8(bytes) {
        Ok(text) => Some(text),
        Err(_) => None,
    }
}

} // verus!
