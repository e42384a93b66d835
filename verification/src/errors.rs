//! The errors that clients see, and how they are answered.
//!
//! Every error is answered with the body
//! `{ "error": { "code": .., "message": .., "detail": .. } }`. The message of an
//! internal error never tells its cause.

use crate::json::{json_text, option_view, put, Json, JsonView};
use crate::text::{decimal, decimal_text};
use vstd::prelude::*;

verus! {

/// Stable machine-readable error codes.
#[derive(Debug, Clone, Copy, PartialEq, Eq, Structural)]
pub enum ErrorCode {
    BadRequest,
    Validation,
    Unauthorized,
    Forbidden,
    NotFound,
    Conflict,
    PayloadTooLarge,
    RateLimited,
    Internal,
}

/// The name of a code on the wire.
pub open spec fn code_name(code: ErrorCode) -> Seq<char> {
    match code {
        ErrorCode::BadRequest => "bad_request"@,
        ErrorCode::Validation => "validation"@,
        ErrorCode::Unauthorized => "unauthorized"@,
        ErrorCode::Forbidden => "forbidden"@,
        ErrorCode::NotFound => "not_found"@,
        ErrorCode::Conflict => "conflict"@,
        ErrorCode::PayloadTooLarge => "payload_too_large"@,
        ErrorCode::RateLimited => "rate_limited"@,
        ErrorCode::Internal => "internal"@,
    }
}

/// The HTTP status of a code.
pub open spec fn code_status(code: ErrorCode) -> u16 {
    match code {
        ErrorCode::BadRequest => 400,
        ErrorCode::Validation => 400,
        ErrorCode::Unauthorized => 401,
        ErrorCode::Forbidden => 403,
        ErrorCode::NotFound => 404,
        ErrorCode::Conflict => 409,
        ErrorCode::PayloadTooLarge => 413,
        ErrorCode::RateLimited => 429,
        ErrorCode::Internal => 500,
    }
}

impl ErrorCode {
    /// The name of the code on the wire.
    pub fn as_str(self) -> (r: &'static str)
        ensures
            r@ == code_name(self),
    {
        match self {
            ErrorCode::BadRequest => "bad_request",
            ErrorCode::Validation => "validation",
            ErrorCode::Unauthorized => "unauthorized",
            ErrorCode::Forbidden => "forbidden",
            ErrorCode::NotFound => "not_found",
            ErrorCode::Conflict => "conflict",
            ErrorCode::PayloadTooLarge => "payload_too_large",
            ErrorCode::RateLimited => "rate_limited",
            ErrorCode::Internal => "internal",
        }
    }

    /// The HTTP status of the code.
    pub fn status(self) -> (r: u16)
        ensures
            r == code_status(self),
    {
        match self {
            ErrorCode::BadRequest | ErrorCode::Validation => 400,
            ErrorCode::Unauthorized => 401,
            ErrorCode::Forbidden => 403,
            ErrorCode::NotFound => 404,
            ErrorCode::Conflict => 409,
            ErrorCode::PayloadTooLarge => 413,
            ErrorCode::RateLimited => 429,
            ErrorCode::Internal => 500,
        }
    }
}

/// A client-facing error, with an optional `detail` value and an optional
/// `Retry-After` header value.
#[derive(Debug)]
pub struct ApiError {
    pub code: ErrorCode,
    pub message: String,
    pub detail: Option<Json>,
    pub retry_after_secs: Option<u64>,
}

pub type ApiResult<T> = Result<T, ApiError>;

/// What an error says.
#[verifier::ext_equal]
pub struct ErrorView {
    pub code: ErrorCode,
    pub message: Seq<char>,
    pub detail: Option<JsonView>,
    pub retry_after_secs: Option<u64>,
}

impl View for ApiError {
    type V = ErrorView;

    open spec fn view(&self) -> ErrorView {
        ErrorView {
            code: self.code,
            message: self.message@,
            detail: option_view(self.detail),
            retry_after_secs: self.retry_after_secs,
        }
    }
}

/// An error with a code and a message and nothing else.
pub open spec fn plain_error(code: ErrorCode, message: Seq<char>) -> ErrorView {
    ErrorView { code, message, detail: None, retry_after_secs: None }
}

pub open spec fn bad_request_error(message: Seq<char>) -> ErrorView {
    plain_error(ErrorCode::BadRequest, message)
}

pub open spec fn validation_error(message: Seq<char>) -> ErrorView {
    plain_error(ErrorCode::Validation, message)
}

pub open spec fn unauthorized_error(message: Seq<char>) -> ErrorView {
    plain_error(ErrorCode::Unauthorized, message)
}

pub open spec fn forbidden_error(message: Seq<char>) -> ErrorView {
    plain_error(ErrorCode::Forbidden, message)
}

pub open spec fn not_found_error(message: Seq<char>) -> ErrorView {
    plain_error(ErrorCode::NotFound, message)
}

pub open spec fn conflict_error(message: Seq<char>) -> ErrorView {
    plain_error(ErrorCode::Conflict, message)
}

pub open spec fn too_large_error(message: Seq<char>) -> ErrorView {
    plain_error(ErrorCode::PayloadTooLarge, message)
}

/// The one internal error: it says nothing of its cause.
pub open spec fn internal_error() -> ErrorView {
    plain_error(ErrorCode::Internal, "internal error"@)
}

impl ApiError {
    pub fn new(code: ErrorCode, message: &str) -> (r: ApiError)
        ensures
            r@ == plain_error(code, message@),
    {
        ApiError { code, message: message.to_string(), detail: None, retry_after_secs: None }
    }

    /// The same error with `detail` attached.
    pub fn with_detail(self, detail: Json) -> (r: ApiError)
        ensures
            r@ == (ErrorView { detail: Some(detail@), ..self@ }),
    {
        ApiError {
            code: self.code,
            message: self.message,
            detail: Some(detail),
            retry_after_secs: self.retry_after_secs,
        }
    }

    /// The same error with a number of seconds to wait.
    pub fn with_retry_after(self, secs: u64) -> (r: ApiError)
        ensures
            r@ == (ErrorView { retry_after_secs: Some(secs), ..self@ }),
    {
        ApiError {
            code: self.code,
            message: self.message,
            detail: self.detail,
            retry_after_secs: Some(secs),
        }
    }

    pub fn bad_request(msg: &str) -> (r: ApiError)
        ensures
            r@ == bad_request_error(msg@),
    {
        ApiError::new(ErrorCode::BadRequest, msg)
    }

    pub fn validation(msg: &str) -> (r: ApiError)
        ensures
            r@ == validation_error(msg@),
    {
        ApiError::new(ErrorCode::Validation, msg)
    }

    pub fn unauthorized(msg: &str) -> (r: ApiError)
        ensures
            r@ == unauthorized_error(msg@),
    {
        ApiError::new(ErrorCode::Unauthorized, msg)
    }

    pub fn forbidden(msg: &str) -> (r: ApiError)
        ensures
            r@ == forbidden_error(msg@),
    {
        ApiError::new(ErrorCode::Forbidden, msg)
    }

    pub fn not_found(msg: &str) -> (r: ApiError)
        ensures
            r@ == not_found_error(msg@),
    {
        ApiError::new(ErrorCode::NotFound, msg)
    }

    pub fn conflict(msg: &str) -> (r: ApiError)
        ensures
            r@ == conflict_error(msg@),
    {
        ApiError::new(ErrorCode::Conflict, msg)
    }

    pub fn payload_too_large(msg: &str) -> (r: ApiError)
        ensures
            r@ == too_large_error(msg@),
    {
        ApiError::new(ErrorCode::PayloadTooLarge, msg)
    }

    pub fn rate_limited(msg: &str) -> (r: ApiError)
        ensures
            r@ == plain_error(ErrorCode::RateLimited, msg@),
    {
        ApiError::new(ErrorCode::RateLimited, msg)
    }

    /// An internal error. The cause is for the log of the caller: the error is
    /// the same whatever it is.
    pub fn internal() -> (r: ApiError)
        ensures
            r@ == internal_error(),
    {
        ApiError::new(ErrorCode::Internal, "internal error")
    }

    /// What the client is answered.
    pub fn into_response(self) -> (r: ErrorResponse)
        ensures
            r.status == code_status(self.code),
            r.body@ == error_body(self@),
            match self.retry_after_secs {
                Some(secs) => r.retry_after matches Some(t) && t@ == decimal(secs as nat),
                None => r.retry_after is None,
            },
    {
        let status = self.code.status();
        let mut inner: Vec<(String, Json)> = Vec::new();
        put(&mut inner, "code", json_text(self.code.as_str()));
        put(&mut inner, "message", Json::Text(self.message));
        let detail = match self.detail {
            Some(d) => d,
            None => Json::Null,
        };
        put(&mut inner, "detail", detail);
        let mut outer: Vec<(String, Json)> = Vec::new();
        put(&mut outer, "error", Json::Object(inner));
        let retry_after = match self.retry_after_secs {
            Some(secs) => Some(decimal_text(secs)),
            None => None,
        };
        ErrorResponse { status, body: Json::Object(outer), retry_after }
    }
}

/// An HTTP answer to a request that failed.
pub struct ErrorResponse {
    pub status: u16,
    pub body: Json,
    /// The value of the `Retry-After` header, where there is one.
    pub retry_after: Option<String>,
}

/// The body that an error is answered with.
pub open spec fn error_body(e: ErrorView) -> JsonView {
    JsonView::Object(
        map![
            "error"@ => JsonView::Object(
                map![
                    "code"@ => JsonView::Text(code_name(e.code)),
                    "message"@ => JsonView::Text(e.message),
                    "detail"@ => match e.detail {
                        Some(d) => d,
                        None => JsonView::Null,
                    },
                ],
            ),
        ],
    )
}

/// Why the database refused a statement.
#[derive(Debug)]
pub struct SqlFailure {
    /// A row with the same key, or with the same value under a unique index, is there
    /// already.
    pub unique: bool,
    /// The engine's own words, for the log.
    pub message: String,
}

/// The error that a refused statement is reported as. The engine's own words do
/// not enter it.
pub open spec fn sql_error(unique: bool) -> ErrorView {
    if unique {
        conflict_error("unique constraint violation"@)
    } else {
        internal_error()
    }
}

/// Reports a violated unique constraint as a conflict and anything else, other
/// constraints among it, as internal.
pub fn map_sqlite_err(e: &SqlFailure) -> (r: ApiError)
    ensures
        r@ == sql_error(e.unique),
{
    if e.unique {
        ApiError::conflict("unique constraint violation")
    } else {
        ApiError::internal()
    }
}

} // verus!
