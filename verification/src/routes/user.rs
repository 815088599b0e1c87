//! The user routes: registration, login, the authentication probe and the
//! change of password.
//!
//! Each handler talks to the store in between its decisions. The talking is
//! the caller's; the functions here take what the store answered and decide
//! what happens next: an envelope to answer with, a hash to store, or an
//! error to give up with.

use crate::auth::{
    create_jwt, expiry_of, hash_matches, hash_password, is_issued_token, verify_hash, UserClaims,
};
use crate::result::{
    text_of, ApiError, ApiResult, ErrorType, BAD_REQUEST, CREATED, NOT_FOUND, OK,
};
use vstd::prelude::*;
use vstd::utf8::encode_utf8;

verus! {

/// The credentials a client presents to register or to log in.
#[derive(Debug, Clone)]
pub struct UnauthorizedUserData {
    pub username: String,
    pub password: String,
}

/// What the store holds for a user name: the owning user's id and the stored
/// password hash.
#[derive(Debug, Clone)]
pub struct StoredCredential {
    pub id: i64,
    pub password: String,
}

/// The body of a successful registration.
#[derive(Debug, Clone)]
pub struct NewUserResponse {
    pub id: i64,
    pub jwt: String,
}

/// The body of a successful login.
#[derive(Debug, Clone)]
pub struct UserLoginResponse {
    pub jwt: String,
}

/// The body of a successful authentication probe.
#[derive(Debug, Clone)]
pub struct UserAuthTestResponse {
    pub uid: i64,
    pub username: String,
}

/// The passwords a client presents to change its password.
#[derive(Debug, Clone)]
pub struct UserPasswordChangeData {
    pub current_password: String,
    pub new_password: String,
}

/// What a handler does once it has checked a request against the store.
#[derive(Debug, Clone)]
pub enum Step<T> {
    /// Answer with this envelope and touch nothing.
    Respond(ApiResult<T>),
    /// Store this password hash for the user, then go on.
    StoreHash(String),
}

/// Whether `response` is a refusal with the given status and message: no
/// success, no data.
pub open spec fn is_refusal<T>(response: ApiResult<T>, code: u16, message: Seq<char>) -> bool {
    &&& response.code == code
    &&& !response.success
    &&& text_of(response.error) == Some(message)
    &&& response.data is None
}

/// Whether `response` carries data under the given status and no message.
/// Its `success` is still unset: it is derived from the status when the
/// envelope is sent.
pub open spec fn is_delivery<T>(response: ApiResult<T>, code: u16) -> bool {
    &&& response.code == code
    &&& !response.success
    &&& response.error is None
    &&& response.data is Some
}

/// Registration, first half: the store has counted `users_with_name` users
/// that already hold the requested name.
///
/// A taken name is refused with 400. For a free name the password is hashed,
/// and the hash is handed back to be stored; it verifies against the
/// password it was made from. Hashing fails only for a password of more than
/// 4294967295 bytes.
pub fn user_create(new_user: &UnauthorizedUserData, users_with_name: i64) -> (r: Result<
    Step<NewUserResponse>,
    ApiError,
>)
    ensures
        users_with_name > 0 ==> (r matches Ok(Step::Respond(response)) && is_refusal(
            response,
            BAD_REQUEST,
            "Username already taken"@,
        )),
        users_with_name <= 0 ==> match r {
            Ok(Step::StoreHash(hash)) => hash_matches(hash@, new_user.password@),
            Ok(Step::Respond(_)) => false,
            Err(e) => e.cause == ErrorType::HashingFailure,
        },
        users_with_name <= 0 && encode_utf8(new_user.password@).len() <= 0xFFFF_FFFF ==> r is Ok,
{
    if users_with_name > 0 {
        return Ok(Step::Respond(ApiResult::error(BAD_REQUEST, "Username already taken")));
    }
    match hash_password(&new_user.password) {
        Ok(hash) => Ok(Step::StoreHash(hash)),
        Err(e) => Err(e),
    }
}

/// Registration, second half: the store has kept the new user under `id`.
///
/// With a secret configured, answers 201 with the id and a token issued for
/// it at `now`; without one, fails with [`ErrorType::ConfigurationMissing`].
pub fn user_created(id: i64, secret: Option<&str>, now: u64) -> (r: Result<
    ApiResult<NewUserResponse>,
    ApiError,
>)
    requires
        expiry_of(now) <= u64::MAX,
    ensures
        secret is None ==> (r matches Err(e) && e.cause == ErrorType::ConfigurationMissing),
        secret is Some ==> r is Ok,
        r matches Ok(response) ==> {
            &&& is_delivery(response, CREATED)
            &&& response.data matches Some(body)
            &&& body.id == id
            &&& secret matches Some(s)
            &&& is_issued_token(body.jwt@, id, s@, now)
        },
{
    match create_jwt(id, secret, now) {
        Ok(jwt) => Ok(ApiResult::data(CREATED, NewUserResponse { id, jwt })),
        Err(e) => Err(e),
    }
}

/// Whether a login is let in: the store knows the user name and the password
/// matches the stored hash.
pub open spec fn login_admitted(password: Seq<char>, stored: Option<StoredCredential>) -> bool {
    stored matches Some(credential) && hash_matches(credential.password@, password)
}

/// Login: the store has looked the user name up and found `stored`.
///
/// An unknown name and a wrong password get the same refusal, 400 with one
/// fixed message, and no token is issued for either. A login that is let in
/// is answered 200 with a token issued for the stored id at `now`, or fails
/// with [`ErrorType::ConfigurationMissing`] where no secret is configured.
pub fn user_login(
    user_data: &UnauthorizedUserData,
    stored: Option<&StoredCredential>,
    secret: Option<&str>,
    now: u64,
) -> (r: Result<ApiResult<UserLoginResponse>, ApiError>)
    requires
        expiry_of(now) <= u64::MAX,
    ensures
        !login_admitted(user_data.password@, deref_of(stored)) ==> (r matches Ok(response)
            && is_refusal(response, BAD_REQUEST, "Invalid username or password"@)),
        login_admitted(user_data.password@, deref_of(stored)) ==> {
            &&& secret is None ==> (r matches Err(e) && e.cause
                == ErrorType::ConfigurationMissing)
            &&& secret is Some ==> r is Ok
            &&& r matches Ok(response) ==> {
                &&& is_delivery(response, OK)
                &&& response.data matches Some(body)
                &&& stored matches Some(credential)
                &&& secret matches Some(s)
                &&& is_issued_token(body.jwt@, credential.id, s@, now)
            }
        },
{
    let admitted = match stored {
        Some(credential) => verify_hash(credential.password.as_str(), &user_data.password),
        None => false,
    };
    if !admitted {
        return Ok(ApiResult::error(BAD_REQUEST, "Invalid username or password"));
    }
    let id = match stored {
        Some(credential) => credential.id,
        None => 0,
    };
    match create_jwt(id, secret, now) {
        Ok(jwt) => Ok(ApiResult::data(OK, UserLoginResponse { jwt })),
        Err(e) => Err(e),
    }
}

/// The value behind an optional reference, for use in contracts.
pub open spec fn deref_of<T>(o: Option<&T>) -> Option<T> {
    match o {
        Some(value) => Some(*value),
        None => None,
    }
}

/// The authentication probe: the store has looked the authenticated id up
/// and found `username`.
///
/// Answers 200 with the id and the name, or 404 where the store has no such
/// user any more.
pub fn user_auth_test(user_claims: UserClaims, username: Option<String>) -> (r: ApiResult<
    UserAuthTestResponse,
>)
    ensures
        username is None ==> is_refusal(r, NOT_FOUND, "User not found"@),
        username matches Some(name) ==> {
            &&& is_delivery(r, OK)
            &&& r.data matches Some(body)
            &&& body.uid == user_claims.uid
            &&& body.username == name
        },
{
    match username {
        None => ApiResult::error(NOT_FOUND, "User not found"),
        Some(username) => ApiResult::data(
            OK,
            UserAuthTestResponse { uid: user_claims.uid, username },
        ),
    }
}

/// Change of password: the store has looked the authenticated user's hash up
/// and found `saved_hash`.
///
/// A user the store no longer has is answered 404, a wrong current password
/// 400. Otherwise the new password is hashed and the hash handed back to be
/// stored; it verifies against the new password.
pub fn user_change_password(data: &UserPasswordChangeData, saved_hash: Option<&str>) -> (r: Result<
    Step<String>,
    ApiError,
>)
    ensures
        saved_hash is None ==> (r matches Ok(Step::Respond(response)) && is_refusal(
            response,
            NOT_FOUND,
            "User not founed"@,
        )),
        saved_hash matches Some(saved) && !hash_matches(saved@, data.current_password@) ==> (r matches Ok(
            Step::Respond(response),
        ) && is_refusal(response, BAD_REQUEST, "Invalid password"@)),
        saved_hash matches Some(saved) && hash_matches(saved@, data.current_password@) ==> match r {
            Ok(Step::StoreHash(hash)) => hash_matches(hash@, data.new_password@),
            Ok(Step::Respond(_)) => false,
            Err(e) => e.cause == ErrorType::HashingFailure,
        },
        encode_utf8(data.new_password@).len() <= 0xFFFF_FFFF ==> r is Ok,
{
    let saved = match saved_hash {
        None => {
            return Ok(Step::Respond(ApiResult::error(NOT_FOUND, "User not founed")));
        },
        Some(saved) => saved,
    };
    if !verify_hash(saved, &data.current_password) {
        return Ok(Step::Respond(ApiResult::error(BAD_REQUEST, "Invalid password")));
    }
    match hash_password(&data.new_password) {
        Ok(hash) => Ok(Step::StoreHash(hash)),
        Err(e) => Err(e),
    }
}

} // verus!
