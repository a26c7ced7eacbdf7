//! Errors of the public `/v1` API: the variant, its HTTP status, its stable
//! machine-readable code and the message shown to clients, and how internal
//! application errors are presented through the public surface.

use vstd::prelude::*;
use vstd::string::*;

verus! {

/// Internal application error, as raised by handlers and the data layer.
#[derive(Debug)]
pub enum AppError {
    BadRequest(String),
    Unauthorized(String),
    Forbidden(String),
    NotFound(String),
    Conflict(String),
    Gone(String),
    TooManyRequests(String),
    Internal(String),
    Database(String),
    /// An error with an explicit HTTP status and message, such as 413.
    Http(u16, String),
}

/// What an internal error says: its kind and its message.
pub ghost enum AppErrorView {
    BadRequest(Seq<char>),
    Unauthorized(Seq<char>),
    Forbidden(Seq<char>),
    NotFound(Seq<char>),
    Conflict(Seq<char>),
    Gone(Seq<char>),
    TooManyRequests(Seq<char>),
    Internal(Seq<char>),
    Database(Seq<char>),
    Http(u16, Seq<char>),
}

impl View for AppError {
    type V = AppErrorView;

    open spec fn view(&self) -> AppErrorView {
        match self {
            AppError::BadRequest(m) => AppErrorView::BadRequest(m@),
            AppError::Unauthorized(m) => AppErrorView::Unauthorized(m@),
            AppError::Forbidden(m) => AppErrorView::Forbidden(m@),
            AppError::NotFound(m) => AppErrorView::NotFound(m@),
            AppError::Conflict(m) => AppErrorView::Conflict(m@),
            AppError::Gone(m) => AppErrorView::Gone(m@),
            AppError::TooManyRequests(m) => AppErrorView::TooManyRequests(m@),
            AppError::Internal(m) => AppErrorView::Internal(m@),
            AppError::Database(m) => AppErrorView::Database(m@),
            AppError::Http(s, m) => AppErrorView::Http(*s, m@),
        }
    }
}

/// The error of a result, as it reads; `None` for success.
pub open spec fn err_view<T>(r: Result<T, AppError>) -> Option<AppErrorView> {
    match r {
        Ok(_) => None,
        Err(e) => Some(e@),
    }
}

/// A result as it reads: the value, or what the error says.
pub open spec fn res_view<T>(r: Result<T, AppError>) -> Result<T, AppErrorView> {
    match r {
        Ok(v) => Ok(v),
        Err(e) => Err(e@),
    }
}

/// Error returned by the public `/v1` API.
#[derive(Debug)]
pub enum PublicApiError {
    BadRequest(String),
    Unauthorized(String),
    Forbidden(String),
    NotFound(String),
    Conflict(String),
    Gone(String),
    TooManyRequests,
    InsufficientScope(&'static str),
    Internal,
}

/// The `error` member of a public error response.
#[derive(Debug)]
pub struct PublicErrorBody {
    pub code: &'static str,
    pub message: String,
    pub request_id: Option<String>,
}

/// The JSON envelope of a public error response: `{ "error": ... }`.
#[derive(Debug)]
pub struct PublicErrorEnvelope {
    pub error: PublicErrorBody,
}

pub open spec fn missing_token_message() -> Seq<char> {
    "Missing or invalid Personal Token. Set the 'X-Personal-Token' header."@
}

/// HTTP status of each public error.
pub open spec fn spec_status(e: PublicApiError) -> u16 {
    match e {
        PublicApiError::BadRequest(_) => 400,
        PublicApiError::Unauthorized(_) => 401,
        PublicApiError::Forbidden(_) => 403,
        PublicApiError::NotFound(_) => 404,
        PublicApiError::Conflict(_) => 409,
        PublicApiError::Gone(_) => 410,
        PublicApiError::TooManyRequests => 429,
        PublicApiError::InsufficientScope(_) => 403,
        PublicApiError::Internal => 500,
    }
}

/// Stable machine-readable code of each public error.
pub open spec fn spec_code(e: PublicApiError) -> Seq<char> {
    match e {
        PublicApiError::BadRequest(_) => "bad_request"@,
        PublicApiError::Unauthorized(_) => "unauthorized"@,
        PublicApiError::Forbidden(_) => "forbidden"@,
        PublicApiError::NotFound(_) => "not_found"@,
        PublicApiError::Conflict(_) => "conflict"@,
        PublicApiError::Gone(_) => "gone"@,
        PublicApiError::TooManyRequests => "too_many_requests"@,
        PublicApiError::InsufficientScope(_) => "insufficient_scope"@,
        PublicApiError::Internal => "internal_error"@,
    }
}

/// Human-readable message of each public error.
pub open spec fn spec_message(e: PublicApiError) -> Seq<char> {
    match e {
        PublicApiError::BadRequest(m) => m@,
        PublicApiError::Unauthorized(m) => m@,
        PublicApiError::Forbidden(m) => m@,
        PublicApiError::NotFound(m) => m@,
        PublicApiError::Conflict(m) => m@,
        PublicApiError::Gone(m) => m@,
        PublicApiError::TooManyRequests => "Rate limit exceeded."@,
        PublicApiError::InsufficientScope(s) => "This endpoint requires the '"@ + s@ + "' scope."@,
        PublicApiError::Internal => "An internal error occurred."@,
    }
}

impl PublicApiError {
    /// HTTP status and stable error code.
    pub fn status_and_code(&self) -> (r: (u16, &'static str))
        ensures
            r.0 == spec_status(*self),
            r.1@ == spec_code(*self),
    {
        proof {
            reveal_strlit("bad_request");
            reveal_strlit("unauthorized");
            reveal_strlit("forbidden");
            reveal_strlit("not_found");
            reveal_strlit("conflict");
            reveal_strlit("gone");
            reveal_strlit("too_many_requests");
            reveal_strlit("insufficient_scope");
            reveal_strlit("internal_error");
        }
        match self {
            PublicApiError::BadRequest(_) => (400, "bad_request"),
            PublicApiError::Unauthorized(_) => (401, "unauthorized"),
            PublicApiError::Forbidden(_) => (403, "forbidden"),
            PublicApiError::NotFound(_) => (404, "not_found"),
            PublicApiError::Conflict(_) => (409, "conflict"),
            PublicApiError::Gone(_) => (410, "gone"),
            PublicApiError::TooManyRequests => (429, "too_many_requests"),
            PublicApiError::InsufficientScope(_) => (403, "insufficient_scope"),
            PublicApiError::Internal => (500, "internal_error"),
        }
    }

    /// The message shown to the client.
    pub fn message(&self) -> (r: String)
        ensures
            r@ == spec_message(*self),
    {
        match self {
            PublicApiError::BadRequest(m) => m.clone(),
            PublicApiError::Unauthorized(m) => m.clone(),
            PublicApiError::Forbidden(m) => m.clone(),
            PublicApiError::NotFound(m) => m.clone(),
            PublicApiError::Conflict(m) => m.clone(),
            PublicApiError::Gone(m) => m.clone(),
            PublicApiError::TooManyRequests => "Rate limit exceeded.".to_string(),
            PublicApiError::InsufficientScope(s) => {
                let mut r = "This endpoint requires the '".to_string();
                r.append(s);
                r.append("' scope.");
                r
            },
            PublicApiError::Internal => "An internal error occurred.".to_string(),
        }
    }

    /// The JSON body of the error response; no request id is attached.
    pub fn envelope(&self) -> (r: PublicErrorEnvelope)
        ensures
            r.error.code@ == spec_code(*self),
            r.error.message@ == spec_message(*self),
            r.error.request_id is None,
    {
        let (_status, code) = self.status_and_code();
        PublicErrorEnvelope {
            error: PublicErrorBody { code, message: self.message(), request_id: None },
        }
    }
}

/// How an internal error is presented through the public API: client errors
/// keep their kind with a generic message, everything else is `Internal`.
pub open spec fn spec_from_app_error(e: AppError) -> PublicApiError {
    match e {
        AppError::BadRequest(_) => PublicApiError::BadRequest(arbitrary()),
        AppError::Unauthorized(_) => PublicApiError::Unauthorized(arbitrary()),
        AppError::Forbidden(_) => PublicApiError::Forbidden(arbitrary()),
        AppError::NotFound(_) => PublicApiError::NotFound(arbitrary()),
        AppError::Conflict(_) => PublicApiError::Conflict(arbitrary()),
        AppError::Gone(_) => PublicApiError::Gone(arbitrary()),
        AppError::TooManyRequests(_) => PublicApiError::TooManyRequests,
        _ => PublicApiError::Internal,
    }
}

/// The generic message that replaces an internal error's own text.
pub open spec fn app_error_public_message(e: AppError) -> Seq<char> {
    match e {
        AppError::BadRequest(_) => "Bad request."@,
        AppError::Unauthorized(_) => "Authentication required."@,
        AppError::Forbidden(_) => "Forbidden."@,
        AppError::NotFound(_) => "Resource not found."@,
        AppError::Conflict(_) => "Conflict."@,
        AppError::Gone(_) => "Resource is no longer available."@,
        AppError::TooManyRequests(_) => "Rate limit exceeded."@,
        _ => "An internal error occurred."@,
    }
}

/// Same variant of `PublicApiError` (payloads aside).
pub open spec fn same_kind(a: PublicApiError, b: PublicApiError) -> bool {
    spec_status(a) == spec_status(b) && spec_code(a) == spec_code(b)
}

impl PublicApiError {
    /// Converts an internal error for the public API.
    pub fn from(e: AppError) -> (r: Self)
        ensures
            same_kind(r, spec_from_app_error(e)),
            spec_message(r) == app_error_public_message(e),
    {
        match e {
            AppError::BadRequest(_) => PublicApiError::BadRequest("Bad request.".to_string()),
            AppError::Unauthorized(_) => PublicApiError::Unauthorized("Authentication required.".to_string()),
            AppError::Forbidden(_) => PublicApiError::Forbidden("Forbidden.".to_string()),
            AppError::NotFound(_) => PublicApiError::NotFound("Resource not found.".to_string()),
            AppError::Conflict(_) => PublicApiError::Conflict("Conflict.".to_string()),
            AppError::Gone(_) => PublicApiError::Gone("Resource is no longer available.".to_string()),
            AppError::TooManyRequests(_) => PublicApiError::TooManyRequests,
            _ => PublicApiError::Internal,
        }
    }
}

/// The status, code and message with which an internal error is answered
/// on a surface that hides foreign resources: `Forbidden` is answered as a
/// missing resource; every other error converts as usual.
pub open spec fn hidden_answer(e: AppError) -> (u16, Seq<char>, Seq<char>) {
    let shown = if e is Forbidden { AppError::NotFound(arbitrary()) } else { e };
    (spec_status(spec_from_app_error(shown)), spec_code(spec_from_app_error(shown)), app_error_public_message(shown))
}

/// The answer a public error is sent with.
pub open spec fn answer_of(r: PublicApiError) -> (u16, Seq<char>, Seq<char>) {
    (spec_status(r), spec_code(r), spec_message(r))
}

/// Presents `Forbidden` as `NotFound`, so that a caller cannot learn that a
/// resource it may not see exists: it gets the very answer of a missing
/// resource. Every other error converts as usual.
pub fn hide_forbidden_as_not_found(e: AppError) -> (r: PublicApiError)
    ensures
        answer_of(r) == hidden_answer(e),
{
    match e {
        AppError::Forbidden(_) => PublicApiError::NotFound("Resource not found.".to_string()),
        other => PublicApiError::from(other),
    }
}

/// Law: a resource that exists but belongs to someone else and a resource
/// that does not exist get the same answer (`404`, `not_found`, the same
/// message), whatever their internal messages.
pub proof fn lemma_foreign_looks_missing(m1: String, m2: String)
    ensures
        hidden_answer(AppError::Forbidden(m1)) == hidden_answer(AppError::NotFound(m2)),
        hidden_answer(AppError::NotFound(m2)).0 == 404,
{
}

} // verus!
