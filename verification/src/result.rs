//! The response envelope shared by all handlers, and the error that a handler
//! gives up with.

use vstd::prelude::*;

verus! {

/// 200 OK.
pub const OK: u16 = 200;

/// 201 Created.
pub const CREATED: u16 = 201;

/// 400 Bad Request.
pub const BAD_REQUEST: u16 = 400;

/// 404 Not Found.
pub const NOT_FOUND: u16 = 404;

/// 500 Internal Server Error.
pub const INTERNAL_SERVER_ERROR: u16 = 500;

/// Whether `code` is a number that HTTP admits as a status code (three digits).
pub open spec fn is_status_code(code: u16) -> bool {
    100 <= code <= 999
}

/// Whether `code` is in the 2xx class.
pub open spec fn is_success_code(code: u16) -> bool {
    200 <= code < 300
}

/// The envelope every handler answers with.
///
/// `code` travels as the HTTP status line and is not part of the body;
/// `error` is rendered under the key `cause`; absent `error` and `data` are
/// left out of the body.
#[derive(Debug, Clone)]
pub struct ApiResult<T = ()> {
    pub code: u16,
    pub success: bool,
    pub error: Option<String>,
    pub data: Option<T>,
}

/// The text of an optional string, for use in contracts.
pub open spec fn text_of(s: Option<String>) -> Option<Seq<char>> {
    match s {
        Some(s) => Some(s@),
        None => None,
    }
}

impl<T> ApiResult<T> {
    /// An envelope is ready to be sent when its status code is one HTTP admits
    /// and `success` says whether that code is in the 2xx class.
    pub open spec fn is_sendable(&self) -> bool {
        &&& is_status_code(self.code)
        &&& self.success == is_success_code(self.code)
    }

    /// A bare 200 envelope.
    pub fn new() -> (r: Self)
        ensures
            r.code == OK,
            r.success,
            r.error is None,
            r.data is None,
            r.is_sendable(),
    {
        Self { code: OK, success: true, error: None, data: None }
    }

    /// A bare 200 envelope.
    pub fn ok() -> (r: Self)
        ensures
            r.code == OK,
            r.success,
            r.error is None,
            r.data is None,
            r.is_sendable(),
    {
        Self { code: OK, success: true, error: None, data: None }
    }

    /// A bare 500 envelope.
    pub fn internal_error() -> (r: Self)
        ensures
            r.code == INTERNAL_SERVER_ERROR,
            !r.success,
            r.error is None,
            r.data is None,
            r.is_sendable(),
    {
        Self { code: INTERNAL_SERVER_ERROR, success: false, error: None, data: None }
    }

    /// A failed envelope with the given status and message.
    pub fn error(code: u16, error_msg: &str) -> (r: Self)
        ensures
            r.code == code,
            !r.success,
            text_of(r.error) == Some(error_msg@),
            r.data is None,
    {
        Self { code, success: false, error: Some(error_msg.to_owned()), data: None }
    }

    /// An envelope that carries `data` under the given status.
    ///
    /// `success` is left unset here; [`ApiResult::convert_to_response`] derives
    /// it from the status when the envelope is sent.
    pub fn data(code: u16, data: T) -> (r: Self)
        ensures
            r.code == code,
            !r.success,
            r.error is None,
            r.data == Some(data),
    {
        Self { code, success: false, error: None, data: Some(data) }
    }

    /// The same envelope with its message replaced by `msg`.
    pub fn add_error(self, msg: &str) -> (r: Self)
        ensures
            r.code == self.code,
            r.success == self.success,
            text_of(r.error) == Some(msg@),
            r.data == self.data,
    {
        let mut result = self;
        result.error = Some(msg.to_owned());
        result
    }

    /// The envelope as it goes on the wire: `success` is recomputed from the
    /// status code, everything else is kept.
    pub fn convert_to_response(self) -> (r: Self)
        requires
            is_status_code(self.code),
        ensures
            r.code == self.code,
            r.success == is_success_code(self.code),
            r.error == self.error,
            r.data == self.data,
            r.is_sendable(),
    {
        let mut result = self;
        result.success = result.code >= 200 && result.code < 300;
        result
    }
}

/// Why a handler gave up.
#[derive(Debug, Clone, Copy, PartialEq, Eq, Structural)]
pub enum ErrorType {
    /// The request carried no credential that could be accepted. Expected in
    /// normal operation; the only cause that is the client's doing.
    BadRequest,
    /// The password hasher failed.
    HashingFailure,
    /// The process secret for signing tokens is not configured.
    ConfigurationMissing,
    /// The data layer or the token signer failed.
    Internal,
}

/// The error a handler gives up with.
#[derive(Debug, Clone, Copy, PartialEq, Eq, Structural)]
pub struct ApiError {
    pub cause: ErrorType,
}

impl ApiError {
    /// Fatal errors are the server's own; they are answered with a generic
    /// 500 that names no cause.
    pub open spec fn is_fatal(&self) -> bool {
        self.cause != ErrorType::BadRequest
    }

    /// The envelope a client sees for this error.
    ///
    /// A rejected credential is answered with 400 and a fixed message; every
    /// fatal cause is answered with 500 and one fixed message, so that the
    /// answer never tells which of them occurred.
    pub fn error_response(&self) -> (r: ApiResult<String>)
        ensures
            r.is_sendable(),
            r.data is None,
            !self.is_fatal() ==> r.code == BAD_REQUEST && text_of(r.error) == Some(
                "Bad request"@,
            ),
            self.is_fatal() ==> r.code == INTERNAL_SERVER_ERROR && text_of(r.error) == Some(
                "Internal Server error"@,
            ),
    {
        match self.cause {
            ErrorType::BadRequest => ApiResult::error(
                BAD_REQUEST,
                "Bad request",
            ).convert_to_response(),
            _ => ApiResult::internal_error().add_error(
                "Internal Server error",
            ).convert_to_response(),
        }
    }
}

impl From<argon2::password_hash::Error> for ApiError {
    /// A failure of the password hasher, with its detail dropped.
    fn from(_value: argon2::password_hash::Error) -> (r: Self) {
        ApiError { cause: ErrorType::HashingFailure }
    }
}

impl vstd::std_specs::convert::FromSpecImpl<argon2::password_hash::Error> for ApiError {
    open spec fn obeys_from_spec() -> bool {
        true
    }

    open spec fn from_spec(_value: argon2::password_hash::Error) -> Self {
        ApiError { cause: ErrorType::HashingFailure }
    }
}

impl From<jsonwebtoken::errors::Error> for ApiError {
    /// A failure of the token signer, with its detail dropped.
    fn from(_value: jsonwebtoken::errors::Error) -> (r: Self) {
        ApiError { cause: ErrorType::Internal }
    }
}

impl vstd::std_specs::convert::FromSpecImpl<jsonwebtoken::errors::Error> for ApiError {
    open spec fn obeys_from_spec() -> bool {
        true
    }

    open spec fn from_spec(_value: jsonwebtoken::errors::Error) -> Self {
        ApiError { cause: ErrorType::Internal }
    }
}

} // verus!
