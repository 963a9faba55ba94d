//! The errors of the client: invalid requests, transport and decoding
//! failures, and the structured reject bodies of the OANDA endpoints.
use crate::account::ConfigureAccountErrorResponse;
use crate::order::{
    OrderCancelErrorResponse, OrderCreateErrorResponse, UpdateOrderClientExtensionsErrorResponse,
};
use crate::position::ClosePositionErrorResponse;
use crate::text::{concat, copy_string, decimal, decimal_string};
use crate::trade::{CloseTradeErrorResponse, UpdateTradeClientExtensionsErrorResponse};
use vstd::prelude::*;
use vstd::std_specs::convert::FromSpecImpl;

verus! {

/// `reqwest::Error`, carried through unchanged.
#[verifier::external_type_specification]
#[verifier::external_body]
pub struct ExReqwestError(reqwest::Error);

/// `serde_json::Error`, carried through unchanged.
#[verifier::external_type_specification]
#[verifier::external_body]
pub struct ExJsonError(serde_json::Error);

/// Top-level error type returned by all service methods.
///
/// Includes request, transport, decoding, and structured API failures.
/// Response failures retain HTTP status and the server request ID.
#[derive(Debug)]
pub enum APIError {
    /// A response failure with HTTP status and request ID context.
    Response(Box<HttpResponseError>),
    /// The request could not be constructed (e.g. a required field is missing).
    InvalidRequest(String),
    /// The underlying HTTP request failed (connection error, timeout, etc.).
    HTTPError(reqwest::Error),
    /// The response body could not be deserialised as the expected JSON type.
    JSONError(serde_json::Error),
    /// The OANDA API returned a non-success response with a structured error body.
    ///
    /// Boxed to keep `APIError` (and every `Result` carrying it) small.
    ErrorResponse(Box<ErrorResponse>),
}

/// A generic OANDA error response body containing only a human-readable message.
///
/// Used for endpoints that return a plain `{"errorMessage": "..."}` payload on
/// failure (e.g. authentication errors, rate-limit rejections).
#[derive(Debug)]
pub struct CommonErrorResponse {
    /// Human-readable description of the error returned by the OANDA API.
    pub error_message: String,
}

/// A structured error body returned by one of the OANDA API endpoints.
///
/// Each variant corresponds to a specific endpoint's reject/error schema.
/// Constructed by the response decoder when the server returns a
/// non-success status code with a recognised error payload.
#[derive(Debug)]
pub enum ErrorResponse {
    /// A generic error with only an `errorMessage` field.
    CommonError(CommonErrorResponse),
    /// An order-create request was rejected by the OANDA risk engine.
    OrderCreateError(OrderCreateErrorResponse),
    /// An order-cancel request was rejected.
    OrderCancelError(OrderCancelErrorResponse),
    /// An order client-extensions update was rejected.
    UpdateOrderClientExtensionsError(UpdateOrderClientExtensionsErrorResponse),
    /// A trade client-extensions update was rejected.
    UpdateTradeClientExtensionsError(UpdateTradeClientExtensionsErrorResponse),
    /// An account configuration update was rejected.
    ConfigureAccountError(ConfigureAccountErrorResponse),
    /// A request to close a trade was rejected.
    CloseTradeError(CloseTradeErrorResponse),
    /// A request to close a position was rejected.
    ClosePositionError(ClosePositionErrorResponse),
}

/// HTTP context retained when reading or decoding a response fails.
#[derive(Debug)]
pub struct HttpResponseError {
    /// The HTTP status code of the response (`reqwest::StatusCode::as_u16`).
    pub status: u16,
    /// The `RequestID` header of the response, when it was present and text.
    pub request_id: Option<String>,
    /// What went wrong while reading or decoding the body.
    pub source: APIError,
}


impl From<ErrorResponse> for APIError {
    fn from(err: ErrorResponse) -> (r: Self) {
        APIError::ErrorResponse(Box::new(err))
    }
}

impl FromSpecImpl<ErrorResponse> for APIError {
    open spec fn obeys_from_spec() -> bool {
        true
    }

    open spec fn from_spec(v: ErrorResponse) -> Self {
        APIError::ErrorResponse(Box::new(v))
    }
}

impl From<reqwest::Error> for APIError {
    fn from(err: reqwest::Error) -> (r: Self) {
        APIError::HTTPError(err)
    }
}

impl FromSpecImpl<reqwest::Error> for APIError {
    open spec fn obeys_from_spec() -> bool {
        true
    }

    open spec fn from_spec(v: reqwest::Error) -> Self {
        APIError::HTTPError(v)
    }
}

impl From<serde_json::Error> for APIError {
    fn from(err: serde_json::Error) -> (r: Self) {
        APIError::JSONError(err)
    }
}

impl FromSpecImpl<serde_json::Error> for APIError {
    open spec fn obeys_from_spec() -> bool {
        true
    }

    open spec fn from_spec(v: serde_json::Error) -> Self {
        APIError::JSONError(v)
    }
}

impl From<UpdateOrderClientExtensionsErrorResponse> for ErrorResponse {
    fn from(err: UpdateOrderClientExtensionsErrorResponse) -> (r: Self) {
        ErrorResponse::UpdateOrderClientExtensionsError(err)
    }
}

impl FromSpecImpl<UpdateOrderClientExtensionsErrorResponse> for ErrorResponse {
    open spec fn obeys_from_spec() -> bool {
        true
    }

    open spec fn from_spec(v: UpdateOrderClientExtensionsErrorResponse) -> Self {
        ErrorResponse::UpdateOrderClientExtensionsError(v)
    }
}

impl From<UpdateTradeClientExtensionsErrorResponse> for ErrorResponse {
    fn from(err: UpdateTradeClientExtensionsErrorResponse) -> (r: Self) {
        ErrorResponse::UpdateTradeClientExtensionsError(err)
    }
}

impl FromSpecImpl<UpdateTradeClientExtensionsErrorResponse> for ErrorResponse {
    open spec fn obeys_from_spec() -> bool {
        true
    }

    open spec fn from_spec(v: UpdateTradeClientExtensionsErrorResponse) -> Self {
        ErrorResponse::UpdateTradeClientExtensionsError(v)
    }
}

impl From<ConfigureAccountErrorResponse> for ErrorResponse {
    fn from(err: ConfigureAccountErrorResponse) -> (r: Self) {
        ErrorResponse::ConfigureAccountError(err)
    }
}

impl FromSpecImpl<ConfigureAccountErrorResponse> for ErrorResponse {
    open spec fn obeys_from_spec() -> bool {
        true
    }

    open spec fn from_spec(v: ConfigureAccountErrorResponse) -> Self {
        ErrorResponse::ConfigureAccountError(v)
    }
}

/// The error of a response that could not be read or that reported a
/// failure: its HTTP status, its `RequestID` header and what went wrong.
pub fn response_error(status: u16, request_id: Option<String>, source: APIError) -> (e:
    APIError)
    ensures
        e matches APIError::Response(ctx) && ctx.status == status && ctx.request_id.deep_view()
            == request_id.deep_view() && ctx.source == source,
{
    APIError::Response(Box::new(HttpResponseError { status, request_id, source }))
}

/// The error of a failure response read as a common error: the common
/// error when its body decoded, the decoding error otherwise.
pub fn common_error(decoded: Result<CommonErrorResponse, serde_json::Error>) -> (e: APIError)
    ensures
        match decoded {
            Ok(c) => e == APIError::ErrorResponse(Box::new(ErrorResponse::CommonError(c))),
            Err(j) => e == APIError::JSONError(j),
        },
{
    match decoded {
        Ok(c) => APIError::from(ErrorResponse::CommonError(c)),
        Err(j) => APIError::from(j),
    }
}

/// What was read of a response's body, as the class of its status
/// directs (see `Endpoint::classify`).
pub enum ResponseBody<T> {
    /// The body could not be read.
    Unread(reqwest::Error),
    /// The success status: the body decoded as the endpoint's response, or
    /// the decoding error.
    Success(Result<T, serde_json::Error>),
    /// A documented failure status whose body decoded as the endpoint's
    /// reject body.
    Rejected(ErrorResponse),
    /// Any other failure status, or a reject body that did not decode: the
    /// body read as a common error, or the decoding error.
    Common(Result<CommonErrorResponse, serde_json::Error>),
}

/// `r` is the failure of a response with `status` and `request_id`
/// whose cause is `source`.
pub open spec fn is_response_failure<T>(
    r: Result<T, APIError>,
    status: u16,
    request_id: Option<Seq<char>>,
    source: APIError,
) -> bool {
    r matches Err(APIError::Response(ctx)) && ctx.status == status && ctx.request_id.deep_view()
        == request_id && ctx.source == source
}

/// The result of a call, from what was read of its response: the decoded
/// response on success; otherwise an error that keeps the HTTP status and
/// the `RequestID` header around the cause: the read failure, the decoding
/// failure, the reject body, or the common error.
pub fn response_result<T>(
    status: u16,
    request_id: Option<String>,
    body: ResponseBody<T>,
) -> (r: Result<T, APIError>)
    ensures
        match body {
            ResponseBody::Success(Ok(v)) => r == Ok::<T, APIError>(v),
            ResponseBody::Success(Err(j)) => is_response_failure(
                r,
                status,
                request_id.deep_view(),
                APIError::JSONError(j),
            ),
            ResponseBody::Unread(e) => is_response_failure(
                r,
                status,
                request_id.deep_view(),
                APIError::HTTPError(e),
            ),
            ResponseBody::Rejected(e) => is_response_failure(
                r,
                status,
                request_id.deep_view(),
                APIError::ErrorResponse(Box::new(e)),
            ),
            ResponseBody::Common(Ok(c)) => is_response_failure(
                r,
                status,
                request_id.deep_view(),
                APIError::ErrorResponse(Box::new(ErrorResponse::CommonError(c))),
            ),
            ResponseBody::Common(Err(j)) => is_response_failure(
                r,
                status,
                request_id.deep_view(),
                APIError::JSONError(j),
            ),
        },
{
    let source = match body {
        ResponseBody::Success(Ok(v)) => {
            return Ok(v);
        },
        ResponseBody::Success(Err(j)) => APIError::JSONError(j),
        ResponseBody::Unread(e) => APIError::HTTPError(e),
        ResponseBody::Rejected(e) => APIError::ErrorResponse(Box::new(e)),
        ResponseBody::Common(c) => common_error(c),
    };
    Err(response_error(status, request_id, source))
}

/// `" {code}"` when OANDA sent an error code, nothing otherwise.
pub open spec fn code_suffix(code: Option<Seq<char>>) -> Seq<char> {
    match code {
        Some(c) => " "@ + c,
        None => Seq::<char>::empty(),
    }
}

fn code_suffix_text(code: &Option<String>) -> (s: String)
    ensures
        s@ == code_suffix(code.deep_view()),
{
    match code {
        Some(c) => concat(" ", c.as_str()),
        None => String::new(),
    }
}

/// `head`, the code suffix, `": "` and `message`.
pub open spec fn reject_text(head: Seq<char>, code: Option<Seq<char>>, message: Seq<char>) -> Seq<char> {
    head + code_suffix(code) + ": "@ + message
}

fn reject_message(head: &str, code: &Option<String>, message: &String) -> (s: String)
    ensures
        s@ == reject_text(head@, code.deep_view(), message@),
{
    let mut s = String::from_str(head);
    let suffix = code_suffix_text(code);
    s.append(suffix.as_str());
    s.append(": ");
    s.append(message.as_str());
    s
}

/// The text of a structured error, as the client shows it.
pub open spec fn error_response_text(e: ErrorResponse) -> Seq<char> {
    match e {
        ErrorResponse::CommonError(c) => c.error_message@,
        ErrorResponse::OrderCreateError(r) => reject_text(
            "Order creation was rejected"@,
            r.error_code.deep_view(),
            r.error_message@,
        ),
        ErrorResponse::OrderCancelError(r) => reject_text(
            "Order cancellation was rejected"@,
            r.error_code.deep_view(),
            r.error_message@,
        ),
        ErrorResponse::UpdateOrderClientExtensionsError(r) => reject_text(
            "Order client extensions update error"@,
            r.error_code.deep_view(),
            r.error_message@,
        ),
        ErrorResponse::UpdateTradeClientExtensionsError(r) => reject_text(
            "Trade client extensions update error"@,
            r.error_code.deep_view(),
            r.error_message@,
        ),
        ErrorResponse::ConfigureAccountError(r) => "Configure account error: "@ + r.error_message@,
        ErrorResponse::CloseTradeError(r) => reject_text(
            "Trade close was rejected"@,
            r.error_code.deep_view(),
            r.error_message@,
        ),
        ErrorResponse::ClosePositionError(r) => reject_text(
            "Position close was rejected"@,
            r.error_code.deep_view(),
            r.error_message@,
        ),
    }
}

impl ErrorResponse {
    /// The text of the error: what OANDA said, after a few words on what
    /// was rejected and the error code when OANDA sent one.
    pub fn to_string(&self) -> (s: String)
        ensures
            s@ == error_response_text(*self),
    {
        match self {
            ErrorResponse::CommonError(c) => copy_string(&c.error_message),
            ErrorResponse::OrderCreateError(r) => reject_message(
                "Order creation was rejected",
                &r.error_code,
                &r.error_message,
            ),
            ErrorResponse::OrderCancelError(r) => reject_message(
                "Order cancellation was rejected",
                &r.error_code,
                &r.error_message,
            ),
            ErrorResponse::UpdateOrderClientExtensionsError(r) => reject_message(
                "Order client extensions update error",
                &r.error_code,
                &r.error_message,
            ),
            ErrorResponse::UpdateTradeClientExtensionsError(r) => reject_message(
                "Trade client extensions update error",
                &r.error_code,
                &r.error_message,
            ),
            ErrorResponse::ConfigureAccountError(r) => concat(
                "Configure account error: ",
                r.error_message.as_str(),
            ),
            ErrorResponse::CloseTradeError(r) => reject_message(
                "Trade close was rejected",
                &r.error_code,
                &r.error_message,
            ),
            ErrorResponse::ClosePositionError(r) => reject_message(
                "Position close was rejected",
                &r.error_code,
                &r.error_message,
            ),
        }
    }
}

/// What `Debug` writes for an optional string (`Some("..")` with the text
/// escaped, or `None`).
pub uninterp spec fn debug_text(value: Option<Seq<char>>) -> Seq<char>;

/// Formats `value` with `{:?}`; the text is `debug_text` of the value.
#[verifier::external_body]
fn format_debug(value: &Option<String>) -> (s: String)
    ensures
        s@ == debug_text(value.deep_view()),
{
    format!("{:?}", value)
}

/// The canonical reason phrase that `http` gives a status code
/// (`StatusCode::canonical_reason`), or `<unknown status code>` when it has
/// none.
pub uninterp spec fn status_reason(code: u16) -> Seq<char>;

/// Makes the `reqwest::StatusCode` of `code` with `StatusCode::from_u16`
/// and formats it with `Display`, which writes the number, a space and the
/// reason phrase (`status_reason` of the code).
#[verifier::external_body]
fn format_status(code: u16) -> (s: String)
    requires
        100 <= code <= 999,
    ensures
        s@ == decimal(code as nat) + " "@ + status_reason(code),
{
    match reqwest::StatusCode::from_u16(code) {
        Ok(status) => status.to_string(),
        Err(_) => String::new(),
    }
}

/// How an HTTP status code is written in an error's text: as `reqwest`
/// writes a status code, the number and its reason phrase; a number outside
/// 100 to 999, which no status code holds, is written alone.
pub open spec fn status_text(code: u16) -> Seq<char> {
    if 100 <= code <= 999 {
        decimal(code as nat) + " "@ + status_reason(code)
    } else {
        decimal(code as nat)
    }
}

fn status_string(code: u16) -> (s: String)
    ensures
        s@ == status_text(code),
{
    if 100 <= code && code <= 999 {
        format_status(code)
    } else {
        decimal_string(code as u64)
    }
}

/// Formats a `reqwest::Error` with `Display`. Nothing is stated of the
/// text, which depends on what failed inside `reqwest`.
#[verifier::external_body]
fn format_http_error(err: &reqwest::Error) -> (s: String) {
    err.to_string()
}

/// Formats a `serde_json::Error` with `Display`. Nothing is stated of the
/// text, which depends on what failed inside `serde_json`.
#[verifier::external_body]
fn format_json_error(err: &serde_json::Error) -> (s: String) {
    err.to_string()
}

/// Whether `s` is a text of the error `e`: the fixed words of each
/// variant around the texts of what it holds; the texts of transport and
/// decoding errors are whatever `reqwest` and `serde_json` write.
pub open spec fn describes(e: APIError, s: Seq<char>) -> bool
    decreases e,
{
    match e {
        APIError::InvalidRequest(m) => s == "Invalid request: "@ + m@,
        APIError::ErrorResponse(b) => s == error_response_text(*b),
        APIError::HTTPError(_) => exists|t: Seq<char>| s == "HTTP request failed: "@ + t,
        APIError::JSONError(_) => exists|t: Seq<char>| s == "JSON error: "@ + t,
        APIError::Response(ctx) => exists|rest: Seq<char>|
            #![trigger "HTTP "@ + status_text(ctx.status) + " (request ID "@ + debug_text(
                ctx.request_id.deep_view(),
            ) + "): "@ + rest]
            {
                &&& s == "HTTP "@ + status_text(ctx.status) + " (request ID "@ + debug_text(
                    ctx.request_id.deep_view(),
                ) + "): "@ + rest
                &&& describes(ctx.source, rest)
            },
    }
}

impl APIError {
    /// The text of the error, as `Display` would write it.
    pub fn to_string(&self) -> (s: String)
        ensures
            describes(*self, s@),
        decreases self,
    {
        match self {
            APIError::InvalidRequest(m) => concat("Invalid request: ", m.as_str()),
            APIError::ErrorResponse(b) => b.to_string(),
            APIError::HTTPError(err) => {
                let t = format_http_error(err);
                concat("HTTP request failed: ", t.as_str())
            },
            APIError::JSONError(err) => {
                let t = format_json_error(err);
                concat("JSON error: ", t.as_str())
            },
            APIError::Response(ctx) => {
                let status = status_string(ctx.status);
                let id = format_debug(&ctx.request_id);
                let rest = ctx.source.to_string();
                let mut s = String::from_str("HTTP ");
                s.append(status.as_str());
                s.append(" (request ID ");
                s.append(id.as_str());
                s.append("): ");
                s.append(rest.as_str());
                proof {
                    assert(s@ =~= "HTTP "@ + status_text(ctx.status) + " (request ID "@
                        + debug_text(ctx.request_id.deep_view()) + "): "@ + rest@);
                    assert(describes(ctx.source, rest@));
                }
                s
            },
        }
    }
}

} // verus!
