//! Password credentials, session tokens, and the bearer-token guard.
//!
//! The process secret and the clock are read by the caller and handed in:
//! every function here is a function of its arguments, apart from the random
//! salt that [`hash_password`] draws.

use crate::primitives::{
    argon2_accepts, argon2_hash, argon2_verify, has_oversized_lanes, hs512_claims, hs512_decode,
    hs512_encode, hs512_encoding, is_digit, oversized_lanes_at, phc_parses, utf8_text,
};
use crate::result::{ApiError, ErrorType};
use vstd::prelude::*;
use vstd::string::StrSliceExecFns;
use vstd::string::StringSliceAdditionalSpecFns;
use vstd::utf8::{
    encode_utf8, encode_utf8_decode_utf8, encode_utf8_valid_utf8, is_ascii_chars,
    is_ascii_chars_encode_utf8,
};

verus! {

/// How long a token stays valid after it was issued: 365 days, in seconds.
pub const TOKEN_VALIDITY_SECS: u64 = 31_536_000;

// ---------------------------------------------------------------------------
// Password credentials
// ---------------------------------------------------------------------------

/// Whether `password` is the password that the stored `hash` was made from:
/// the hash asks for no oversized lane count, it is a well-formed PHC string,
/// and Argon2, run with the salt and parameters it carries, reproduces its
/// digest.
pub open spec fn hash_matches(hash: Seq<char>, password: Seq<char>) -> bool {
    &&& !has_oversized_lanes(encode_utf8(hash))
    &&& phc_parses(hash)
    &&& argon2_accepts(hash, password)
}

/// Whether `byte` is an ASCII decimal digit.
pub fn is_ascii_digit(byte: u8) -> (r: bool)
    ensures
        r == is_digit(byte),
{
    0x30 <= byte && byte <= 0x39
}

/// Whether `text` holds `p=` followed by nine or more decimal digits
/// anywhere: a lane count beyond anything Argon2 admits.
pub fn oversized_lanes(text: &[u8]) -> (r: bool)
    ensures
        r == has_oversized_lanes(text@),
{
    let len = text.len();
    if len < 11 {
        return false;
    }
    let last = len - 11;
    let mut at: usize = 0;
    while at <= last
        invariant
            len == text@.len(),
            last == len - 11,
            at <= last + 1,
            forall|k: int| 0 <= k < at ==> !oversized_lanes_at(text@, k),
        decreases last + 1 - at,
    {
        if text[at] == 0x70 && text[at + 1] == 0x3d && is_ascii_digit(text[at + 2])
            && is_ascii_digit(text[at + 3]) && is_ascii_digit(text[at + 4]) && is_ascii_digit(
            text[at + 5],
        ) && is_ascii_digit(text[at + 6]) && is_ascii_digit(text[at + 7]) && is_ascii_digit(
            text[at + 8],
        ) && is_ascii_digit(text[at + 9]) && is_ascii_digit(text[at + 10]) {
            assert(oversized_lanes_at(text@, at as int));
            return true;
        }
        at = at + 1;
    }
    false
}

/// What a caller sees of the hasher's outcome: the hash on success, and a
/// hashing failure that names no cause otherwise.
pub fn hash_outcome(outcome: Result<String, argon2::password_hash::Error>) -> (r: Result<
    String,
    ApiError,
>)
    ensures
        outcome matches Ok(hash) ==> r == Ok::<String, ApiError>(hash),
        outcome is Err ==> r == Err::<String, ApiError>(ApiError { cause: ErrorType::HashingFailure }),
{
    match outcome {
        Ok(hash) => Ok(hash),
        Err(e) => Err(ApiError::from(e)),
    }
}

/// Hashes `password` with Argon2 under a fresh random salt and returns the
/// self-describing PHC string.
///
/// Whatever salt was drawn, a hash that comes back verifies against the
/// password it was made from. Hashing succeeds for every password of up to
/// 4294967295 bytes; beyond that the hasher's refusal is passed on as
/// [`ErrorType::HashingFailure`].
pub fn hash_password(password: &String) -> (r: Result<String, ApiError>)
    ensures
        r matches Ok(hash) ==> hash_matches(hash@, password@),
        r matches Err(e) ==> e.cause == ErrorType::HashingFailure,
        encode_utf8(password@).len() <= 0xFFFF_FFFF ==> r is Ok,
{
    hash_outcome(argon2_hash(password.as_str()))
}

/// Whether the back end's verdict lets the candidate in: only a hash that
/// parsed and matched does.
pub fn verdict_admits(verdict: Option<bool>) -> (r: bool)
    ensures
        r == (verdict == Some(true)),
{
    match verdict {
        Some(matched) => matched,
        None => false,
    }
}

/// Checks `password` against a stored `hash`.
///
/// A stored hash that does not parse is answered with `false`, like a wrong
/// password: corrupt stored data denies the login and nothing more. So is a
/// stored hash that asks for an oversized lane count, which is never handed
/// to Argon2.
pub fn verify_hash(hash: &str, password: &String) -> (r: bool)
    ensures
        r == hash_matches(hash@, password@),
        !phc_parses(hash@) ==> !r,
        has_oversized_lanes(encode_utf8(hash@)) ==> !r,
{
    if oversized_lanes(hash.as_bytes()) {
        return false;
    }
    verdict_admits(argon2_verify(hash, password.as_str()))
}

// ---------------------------------------------------------------------------
// Session tokens
// ---------------------------------------------------------------------------

/// The text behind an optional string slice, for use in contracts.
pub open spec fn slice_text(s: Option<&str>) -> Option<Seq<char>> {
    match s {
        Some(s) => Some(s@),
        None => None,
    }
}

/// The instant, in seconds since the epoch, at which a token issued at `now`
/// expires.
pub open spec fn expiry_of(now: u64) -> int {
    now + TOKEN_VALIDITY_SECS
}

/// Whether `token` is a token issued for `uid` under `secret` at `now`: it is
/// the HS512 encoding of `uid` and the expiry that belongs to `now`, and it
/// decodes under `secret` to those very claims.
pub open spec fn is_issued_token(token: Seq<char>, uid: i64, secret: Seq<char>, now: u64) -> bool {
    &&& expiry_of(now) <= u64::MAX
    &&& hs512_encoding(uid, expiry_of(now) as u64, secret) == token
    &&& hs512_claims(token, secret) == Some((uid, expiry_of(now) as u64))
}

/// The user a set of recovered claims speaks for at `now`: the subject of
/// claims that were recovered and have not expired. A token is good up to and
/// including the second of its expiry; there is no leeway beyond it.
pub open spec fn current_subject(claims: Option<(i64, u64)>, now: u64) -> Option<i64> {
    match claims {
        Some((uid, exp)) => if now <= exp {
            Some(uid)
        } else {
            None
        },
        None => None,
    }
}

/// The user that `token` speaks for at `now` under the configured secret.
///
/// `None` stands for every way a token can fail: no secret configured, a
/// malformed token, a signature that does not match, an algorithm other
/// than HS512, or an expiry in the past.
pub open spec fn token_subject(token: Seq<char>, secret: Option<Seq<char>>, now: u64) -> Option<
    i64,
> {
    match secret {
        Some(secret) => current_subject(hs512_claims(token, secret), now),
        None => None,
    }
}

/// What a caller sees of the signer's outcome: the token on success, and an
/// internal error that names no cause otherwise.
pub fn token_outcome(outcome: Result<String, jsonwebtoken::errors::Error>) -> (r: Result<
    String,
    ApiError,
>)
    ensures
        outcome matches Ok(token) ==> r == Ok::<String, ApiError>(token),
        outcome is Err ==> r == Err::<String, ApiError>(ApiError { cause: ErrorType::Internal }),
{
    match outcome {
        Ok(token) => Ok(token),
        Err(e) => Err(ApiError::from(e)),
    }
}

/// Issues a token for `uid`, signed with `secret` and valid for
/// [`TOKEN_VALIDITY_SECS`] from `now`.
///
/// Without a secret nothing is signed and the call fails with
/// [`ErrorType::ConfigurationMissing`]; that is the only way it fails. With a
/// secret it returns the token, which speaks for `uid` at every instant up to
/// its expiry and for nobody after it.
pub fn create_jwt(uid: i64, secret: Option<&str>, now: u64) -> (r: Result<String, ApiError>)
    requires
        expiry_of(now) <= u64::MAX,
    ensures
        secret is None ==> r == Err::<String, ApiError>(
            ApiError { cause: ErrorType::ConfigurationMissing },
        ),
        secret is Some ==> r is Ok,
        r matches Ok(token) ==> {
            &&& secret matches Some(s)
            &&& is_issued_token(token@, uid, s@, now)
            &&& token_subject(token@, slice_text(secret), now) == Some(uid)
        },
{
    match secret {
        None => Err(ApiError { cause: ErrorType::ConfigurationMissing }),
        Some(secret) => {
            let exp: u64 = now + TOKEN_VALIDITY_SECS;
            token_outcome(hs512_encode(uid, exp, secret))
        },
    }
}

/// The subject of recovered claims, unless they have expired by `now`.
pub fn unexpired_subject(claims: Option<(i64, u64)>, now: u64) -> (r: Option<i64>)
    ensures
        r == current_subject(claims, now),
        claims matches Some((_, exp)) && exp < now ==> r is None,
{
    match claims {
        Some((uid, exp)) => if now <= exp {
            Some(uid)
        } else {
            None
        },
        None => None,
    }
}

/// Recovers the user that `jwt` speaks for at `now`.
///
/// Every failure gives the same `None`: a missing secret, a malformed token,
/// a wrong signature or algorithm, and an expired token cannot be told apart
/// by the caller.
pub fn decode_jwt(jwt: &str, secret: Option<&str>, now: u64) -> (r: Option<i64>)
    ensures
        r == token_subject(jwt@, slice_text(secret), now),
        secret is None ==> r is None,
        secret matches Some(s) && hs512_claims(jwt@, s@) matches Some((_, exp)) && exp < now
            ==> r is None,
{
    match secret {
        None => None,
        Some(secret) => unexpired_subject(hs512_decode(jwt, secret), now),
    }
}

/// A token issued at `now` speaks for its user at every instant from then up
/// to its expiry, and for nobody once the expiry has passed, under the secret
/// it was issued with.
pub proof fn lemma_issued_token_lifetime(
    token: Seq<char>,
    uid: i64,
    secret: Seq<char>,
    now: u64,
    at: u64,
)
    requires
        is_issued_token(token, uid, secret, now),
    ensures
        at <= expiry_of(now) ==> token_subject(token, Some(secret), at) == Some(uid),
        at > expiry_of(now) ==> token_subject(token, Some(secret), at) is None,
        token_subject(token, Some(secret), now) == Some(uid),
        token_subject(token, None, at) is None,
{
}

// ---------------------------------------------------------------------------
// Request authentication
// ---------------------------------------------------------------------------

/// The identity that request authentication vouches for: a bare user id.
/// Whether such a user still exists is for the handler to find out.
#[derive(Debug, Clone, Copy, PartialEq, Eq, Structural)]
pub struct UserClaims {
    pub uid: i64,
}

/// Why a request was turned away.
///
/// The distinction is for the server's own use; towards the client all three
/// are answered alike, see [`Rejection::as_error`].
#[derive(Debug, Clone, Copy, PartialEq, Eq, Structural)]
pub enum Rejection {
    /// The request has no authorization header.
    MissingCredential,
    /// The authorization header does not start with `"Bearer "`.
    MalformedHeader,
    /// The bearer token did not verify, for whatever reason.
    InvalidCredential,
}

impl Rejection {
    /// The error a client gets to see for this rejection: the same for all.
    pub open spec fn spec_as_error(self) -> ApiError {
        ApiError { cause: ErrorType::BadRequest }
    }

    /// The error a client gets to see for this rejection: the same for all.
    #[verifier::when_used_as_spec(spec_as_error)]
    pub fn as_error(self) -> (r: ApiError)
        ensures
            r == self.spec_as_error(),
            r.cause == ErrorType::BadRequest,
    {
        ApiError { cause: ErrorType::BadRequest }
    }
}

/// The scheme prefix of a bearer credential, `"Bearer "`: case-sensitive, with
/// the one space.
pub open spec fn bearer_prefix() -> Seq<char> {
    seq!['B', 'e', 'a', 'r', 'e', 'r', ' ']
}

/// The token that an authorization header carries: what follows the prefix
/// `"Bearer "`, or `None` where the header does not start with it.
pub open spec fn bearer_token_of(header: Seq<char>) -> Option<Seq<char>> {
    if bearer_prefix().is_prefix_of(header) {
        Some(header.skip(7))
    } else {
        None
    }
}

/// Whether `byte` may stand in a header value that is read as text: a
/// visible ASCII character, a space or a tab.
pub open spec fn is_text_byte(byte: u8) -> bool {
    32 <= byte < 127 || byte == 9
}

/// Whether every byte of a header value may stand in text.
pub open spec fn is_text(value: Seq<u8>) -> bool {
    forall|i: int| 0 <= i < value.len() ==> is_text_byte(#[trigger] value[i])
}

/// The characters that the bytes of an ASCII text stand for, one for one.
pub open spec fn ascii_chars(value: Seq<u8>) -> Seq<char> {
    Seq::new(value.len(), |i: int| value[i] as char)
}

/// A header value read as text: its bytes as characters where all of them may
/// stand in text, `None` where one may not.
pub open spec fn header_text_of(value: Seq<u8>) -> Option<Seq<char>> {
    if is_text(value) {
        Some(ascii_chars(value))
    } else {
        None
    }
}

/// The bytes behind an optional byte slice, for use in contracts.
pub open spec fn slice_bytes(s: Option<&[u8]>) -> Option<Seq<u8>> {
    match s {
        Some(s) => Some(s@),
        None => None,
    }
}

/// How a request with the given authorization header value fares at `now`.
pub open spec fn authentication_of(
    header: Option<Seq<u8>>,
    secret: Option<Seq<char>>,
    now: u64,
) -> Result<UserClaims, Rejection> {
    match header {
        None => Err(Rejection::MissingCredential),
        Some(value) => match header_text_of(value) {
            None => Err(Rejection::MalformedHeader),
            Some(text) => match bearer_token_of(text) {
                None => Err(Rejection::MalformedHeader),
                Some(token) => match token_subject(token, secret, now) {
                    None => Err(Rejection::InvalidCredential),
                    Some(uid) => Ok(UserClaims { uid }),
                },
            },
        },
    }
}

/// The UTF-8 encoding of ASCII text is the text's own bytes.
pub proof fn lemma_ascii_chars_encode(value: Seq<u8>)
    requires
        is_text(value),
    ensures
        is_ascii_chars(ascii_chars(value)),
        encode_utf8(ascii_chars(value)) == value,
{
    let chars = ascii_chars(value);
    assert forall|i: int| 0 <= i < chars.len() implies '\0' <= #[trigger] chars[i] <= '\u{7f}' by {
        assert(is_text_byte(value[i]));
    }
    is_ascii_chars_encode_utf8(chars);
    assert forall|i: int| 0 <= i < value.len() implies encode_utf8(chars)[i] == value[i] by {
        assert(is_text_byte(value[i]));
        assert(chars[i] as u8 == encode_utf8(chars)[i]);
    }
    assert(encode_utf8(chars) =~= value);
}

/// Reads a header value as text.
///
/// A value with a byte that is no visible ASCII character, space or tab is no
/// text, and gives `None`.
pub fn header_text(value: &[u8]) -> (r: Option<&str>)
    ensures
        slice_text(r) == header_text_of(value@),
        r is Some <==> is_text(value@),
{
    let len = value.len();
    let mut i: usize = 0;
    while i < len
        invariant
            len == value@.len(),
            i <= len,
            forall|k: int| 0 <= k < i ==> is_text_byte(#[trigger] value@[k]),
        decreases len - i,
    {
        let byte = value[i];
        if !((32 <= byte && byte < 127) || byte == 9) {
            assert(!is_text_byte(value@[i as int]));
            return None;
        }
        i = i + 1;
    }
    proof {
        lemma_ascii_chars_encode(value@);
        encode_utf8_valid_utf8(ascii_chars(value@));
    }
    match utf8_text(value) {
        Some(text) => {
            proof {
                encode_utf8_decode_utf8(text@);
                encode_utf8_decode_utf8(ascii_chars(value@));
            }
            Some(text)
        },
        None => None,
    }
}

/// Whether `text` begins with `prefix`, character for character.
pub fn starts_with(text: &str, prefix: &str) -> (r: bool)
    ensures
        r == prefix@.is_prefix_of(text@),
{
    let text_len = text.unicode_len();
    let prefix_len = prefix.unicode_len();
    if prefix_len > text_len {
        return false;
    }
    let mut i: usize = 0;
    while i < prefix_len
        invariant
            i <= prefix_len <= text_len,
            prefix_len == prefix@.len(),
            text_len == text@.len(),
            forall|k: int| 0 <= k < i ==> text@[k] == prefix@[k],
        decreases prefix_len - i,
    {
        if text.get_char(i) != prefix.get_char(i) {
            assert(text@.subrange(0, prefix@.len() as int)[i as int] != prefix@[i as int]);
            return false;
        }
        i = i + 1;
    }
    assert(text@.subrange(0, prefix@.len() as int) =~= prefix@);
    true
}

/// Takes the bearer token out of an authorization header.
pub fn bearer_token(header: &str) -> (r: Option<&str>)
    ensures
        slice_text(r) == bearer_token_of(header@),
{
    proof {
        reveal_strlit("Bearer ");
        assert("Bearer "@ =~= bearer_prefix());
    }
    if starts_with(header, "Bearer ") {
        let len = header.unicode_len();
        let token = header.substring_char(7, len);
        assert(token@ =~= header@.skip(7));
        Some(token)
    } else {
        None
    }
}

/// The authenticated identity, or the rejection, that a bearer token's
/// verification amounts to.
pub fn token_verdict(subject: Option<i64>) -> (r: Result<UserClaims, Rejection>)
    ensures
        r == match subject {
            Some(uid) => Ok::<UserClaims, Rejection>(UserClaims { uid }),
            None => Err::<UserClaims, Rejection>(Rejection::InvalidCredential),
        },
{
    match subject {
        Some(uid) => Ok(UserClaims { uid }),
        None => Err(Rejection::InvalidCredential),
    }
}

/// Authenticates a request from the value of its authorization header, if it
/// has one.
///
/// A request without the header is rejected as missing its credential; a
/// header that is no text or does not start with `"Bearer "` as malformed; a
/// token that does not verify as invalid, whatever made it fail. Otherwise
/// the request is authenticated as the user the token speaks for.
pub fn authenticate(auth_header: Option<&[u8]>, secret: Option<&str>, now: u64) -> (r: Result<
    UserClaims,
    Rejection,
>)
    ensures
        r == authentication_of(slice_bytes(auth_header), slice_text(secret), now),
        auth_header is None ==> r == Err::<UserClaims, Rejection>(Rejection::MissingCredential),
        auth_header matches Some(value) && !is_text(value@) ==> r == Err::<UserClaims, Rejection>(
            Rejection::MalformedHeader,
        ),
{
    match auth_header {
        None => Err(Rejection::MissingCredential),
        Some(value) => match header_text(value) {
            None => Err(Rejection::MalformedHeader),
            Some(header) => match bearer_token(header) {
                None => Err(Rejection::MalformedHeader),
                Some(token) => token_verdict(decode_jwt(token, secret, now)),
            },
        },
    }
}

impl UserClaims {
    /// What a protected handler gets in place of the request: the
    /// authenticated identity, or the one error that every rejection is
    /// answered with.
    pub open spec fn request_outcome(
        header: Option<Seq<u8>>,
        secret: Option<Seq<char>>,
        now: u64,
    ) -> Result<UserClaims, ApiError> {
        match authentication_of(header, secret, now) {
            Ok(claims) => Ok(claims),
            Err(rejection) => Err(rejection.spec_as_error()),
        }
    }

    /// The guard in front of every protected handler.
    ///
    /// Runs [`authenticate`] and hides the reason of a rejection: a missing
    /// header, a malformed one and an invalid token all come back as the same
    /// [`ErrorType::BadRequest`].
    pub fn from_request(auth_header: Option<&[u8]>, secret: Option<&str>, now: u64) -> (r: Result<
        UserClaims,
        ApiError,
    >)
        ensures
            r == Self::request_outcome(slice_bytes(auth_header), slice_text(secret), now),
            r is Ok <==> authentication_of(slice_bytes(auth_header), slice_text(secret), now) is Ok,
            r is Err ==> r == Err::<UserClaims, ApiError>(
                ApiError { cause: ErrorType::BadRequest },
            ),
    {
        match authenticate(auth_header, secret, now) {
            Ok(claims) => Ok(claims),
            Err(rejection) => Err(rejection.as_error()),
        }
    }
}

/// Two rejected requests cannot be told apart by what the guard returns,
/// whatever made each of them fail.
pub proof fn lemma_rejections_are_uniform(
    header_a: Option<Seq<u8>>,
    header_b: Option<Seq<u8>>,
    secret: Option<Seq<char>>,
    now: u64,
)
    requires
        UserClaims::request_outcome(header_a, secret, now) is Err,
        UserClaims::request_outcome(header_b, secret, now) is Err,
    ensures
        UserClaims::request_outcome(header_a, secret, now) == UserClaims::request_outcome(
            header_b,
            secret,
            now,
        ),
{
}

/// A request that bears a token issued for `uid` is authenticated as `uid`
/// for as long as the token has not expired.
pub proof fn lemma_issued_token_authenticates(
    header: Seq<u8>,
    token: Seq<char>,
    uid: i64,
    secret: Seq<char>,
    now: u64,
    at: u64,
)
    requires
        is_issued_token(token, uid, secret, now),
        header_text_of(header) == Some(bearer_prefix() + token),
        at <= expiry_of(now),
    ensures
        authentication_of(Some(header), Some(secret), at) == Ok::<UserClaims, Rejection>(
            UserClaims { uid },
        ),
{
    let text = bearer_prefix() + token;
    assert(text.subrange(0, 7) =~= bearer_prefix());
    assert(text.skip(7) =~= token);
}

} // verus!
