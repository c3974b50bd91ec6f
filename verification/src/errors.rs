//! The errors of the limiter and the responses that stand for them by default.

use crate::decimal::{append_decimal, decimal_bytes, decimal_text};
use crate::headers::{clone_map, entries, insert, value_from_u64};
use crate::response::{body_of, code_of, headers_of, new_response, set_headers, set_status, status_of};
use http::header::HeaderMap;
use http::{Response, StatusCode};
use vstd::prelude::*;
use vstd::string::*;

verus! {

/// What can keep a request from being passed on.
#[derive(Debug)]
pub enum GovernorError {
    /// The key's quota is used up; a token is due after `wait_time` whole seconds.
    TooManyRequests { wait_time: u64, headers: Option<HeaderMap> },
    /// The extractor found no key in the request.
    UnableToExtractKey,
    /// An error of a custom key extractor.
    Other { code: StatusCode, msg: Option<String>, headers: Option<HeaderMap> },
}

/// An error as plain values: numbers, texts, and what its header map holds.
pub enum ErrorModel {
    TooManyRequests { wait_time: u64, headers: Option<Map<Seq<char>, Seq<Seq<u8>>>> },
    UnableToExtractKey,
    Other { code: u16, msg: Option<Seq<char>>, headers: Option<Map<Seq<char>, Seq<Seq<u8>>>> },
}

/// What a header map holds, where there is one.
pub open spec fn entries_of(headers: Option<HeaderMap>) -> Option<Map<Seq<char>, Seq<Seq<u8>>>> {
    match headers {
        Some(h) => Some(entries(h)),
        None => None,
    }
}

/// The text of a message, where there is one.
pub open spec fn text_of(msg: Option<String>) -> Option<Seq<char>> {
    match msg {
        Some(m) => Some(m@),
        None => None,
    }
}

/// The header that says how long to wait: `x-ratelimit-after` with the seconds.
pub open spec fn wait_header(wait_time: u64) -> Map<Seq<char>, Seq<Seq<u8>>> {
    Map::<Seq<char>, Seq<Seq<u8>>>::empty().insert(
        "x-ratelimit-after"@,
        seq![decimal_bytes(wait_time as nat)],
    )
}

/// The given headers, or none at all.
pub open spec fn headers_or_none(headers: Option<Map<Seq<char>, Seq<Seq<u8>>>>) -> Map<
    Seq<char>,
    Seq<Seq<u8>>,
> {
    match headers {
        Some(h) => h,
        None => Map::empty(),
    }
}

impl View for GovernorError {
    type V = ErrorModel;

    open spec fn view(&self) -> ErrorModel {
        match *self {
            GovernorError::TooManyRequests { wait_time, headers } => ErrorModel::TooManyRequests {
                wait_time,
                headers: entries_of(headers),
            },
            GovernorError::UnableToExtractKey => ErrorModel::UnableToExtractKey,
            GovernorError::Other { code, msg, headers } => ErrorModel::Other {
                code: code_of(code),
                msg: text_of(msg),
                headers: entries_of(headers),
            },
        }
    }
}

impl ErrorModel {
    /// The status of the default response.
    pub open spec fn default_status(self) -> u16 {
        match self {
            ErrorModel::TooManyRequests { .. } => 429,
            ErrorModel::UnableToExtractKey => 500,
            ErrorModel::Other { code, .. } => code,
        }
    }

    /// The body of the default response.
    pub open spec fn default_body(self) -> Seq<char> {
        match self {
            ErrorModel::TooManyRequests { wait_time, .. } => "Too Many Requests! Wait for "@
                + decimal_text(wait_time as nat) + "s"@,
            ErrorModel::UnableToExtractKey => "Unable To Extract Key!"@,
            ErrorModel::Other { msg: Some(m), .. } => m,
            ErrorModel::Other { msg: None, .. } => "Other Error!"@,
        }
    }

    /// The headers of the default response: the headers that the error carries, where
    /// it carries any. A used-up quota that carries none still says how long to wait,
    /// in `x-ratelimit-after`.
    pub open spec fn default_headers(self) -> Map<Seq<char>, Seq<Seq<u8>>> {
        match self {
            ErrorModel::TooManyRequests { wait_time, headers: None } => wait_header(wait_time),
            ErrorModel::TooManyRequests { headers: Some(carried), .. } => carried,
            ErrorModel::UnableToExtractKey => Map::empty(),
            ErrorModel::Other { headers, .. } => headers_or_none(headers),
        }
    }

    /// The one-line description of the error.
    pub open spec fn description(self) -> Seq<char> {
        match self {
            ErrorModel::TooManyRequests { wait_time, .. } => "Too Many Requests! Wait for "@
                + decimal_text(wait_time as nat) + "s"@,
            ErrorModel::UnableToExtractKey => "Unable to extract key!"@,
            ErrorModel::Other { .. } => "Other Error"@,
        }
    }
}

impl Clone for GovernorError {
    fn clone(&self) -> (r: Self)
        ensures
            r@ == self@,
    {
        match self {
            GovernorError::TooManyRequests { wait_time, headers } => GovernorError::TooManyRequests {
                wait_time: *wait_time,
                headers: clone_headers(headers),
            },
            GovernorError::UnableToExtractKey => GovernorError::UnableToExtractKey,
            GovernorError::Other { code, msg, headers } => GovernorError::Other {
                code: *code,
                msg: msg.clone(),
                headers: clone_headers(headers),
            },
        }
    }
}

/// A copy of the header map, where there is one.
pub fn clone_headers(headers: &Option<HeaderMap>) -> (r: Option<HeaderMap>)
    ensures
        entries_of(r) == entries_of(*headers),
{
    match headers {
        Some(h) => Some(clone_map(h)),
        None => None,
    }
}

impl GovernorError {
    /// Convert self into a "default response": 429 with the wait in the body and in
    /// `x-ratelimit-after` for a used-up quota, 500 for a missing key, and a custom
    /// error's own status and message. The error's headers, where it has any, are the
    /// response's, and no other.
    pub fn into_response(self) -> (r: Response<String>)
        ensures
            status_of(r) == self@.default_status(),
            body_of(r) == self@.default_body(),
            headers_of(r) == self@.default_headers(),
    {
        match self {
            GovernorError::TooManyRequests { wait_time, headers } => {
                let mut body = String::from_str("Too Many Requests! Wait for ");
                append_decimal(&mut body, wait_time);
                body.append("s");
                let mut response = new_response(body);
                set_status(&mut response, too_many_requests());
                match headers {
                    Some(headers) => {
                        set_headers(&mut response, headers);
                    },
                    None => {
                        let mut headers = HeaderMap::new();
                        proof {
                            reveal_strlit("x-ratelimit-after");
                        }
                        insert(&mut headers, "x-ratelimit-after", value_from_u64(wait_time));
                        set_headers(&mut response, headers);
                    },
                }
                response
            },
            GovernorError::UnableToExtractKey => {
                let mut response = new_response(String::from_str("Unable To Extract Key!"));
                set_status(&mut response, internal_server_error());
                response
            },
            GovernorError::Other { msg, code, headers } => {
                let body = match msg {
                    Some(m) => m,
                    None => String::from_str("Other Error!"),
                };
                let mut response = new_response(body);
                set_status(&mut response, code);
                if let Some(headers) = headers {
                    set_headers(&mut response, headers);
                }
                response
            },
        }
    }

    /// The error in one line, as it is logged and displayed.
    pub fn to_string(&self) -> (s: String)
        ensures
            s@ == self@.description(),
    {
        match self {
            GovernorError::TooManyRequests { wait_time, .. } => {
                let mut s = String::from_str("Too Many Requests! Wait for ");
                append_decimal(&mut s, *wait_time);
                s.append("s");
                s
            },
            GovernorError::UnableToExtractKey => String::from_str("Unable to extract key!"),
            GovernorError::Other { .. } => String::from_str("Other Error"),
        }
    }
}

/// The status 429.
pub fn too_many_requests() -> (s: StatusCode)
    ensures
        code_of(s) == 429,
{
    StatusCode::from_u16(429).unwrap()
}

/// The status 500.
pub fn internal_server_error() -> (s: StatusCode)
    ensures
        code_of(s) == 500,
{
    StatusCode::from_u16(500).unwrap()
}

/// The default response to a used-up quota always says how long to wait: where the
/// error carries no headers of its own, the response has the header
/// `x-ratelimit-after` with the wait in seconds, and no other.
pub proof fn default_denial_says_wait(wait_time: u64)
    ensures
        (ErrorModel::TooManyRequests { wait_time, headers: None }).default_status() == 429,
        (ErrorModel::TooManyRequests { wait_time, headers: None }).default_headers().dom()
            =~= set!["x-ratelimit-after"@],
        (ErrorModel::TooManyRequests { wait_time, headers: None }).default_headers()[
            "x-ratelimit-after"@
        ] == seq![decimal_bytes(wait_time as nat)],
{
}

/// The gRPC status codes that stand for the errors of the limiter.
#[derive(Clone, Copy, Debug, PartialEq, Eq, Structural)]
pub enum GrpcCode {
    /// The quota is used up.
    ResourceExhausted,
    /// Anything else.
    Internal,
}

/// The gRPC code for an HTTP status number.
pub open spec fn grpc_code_of(status: u16) -> GrpcCode {
    if status == 429 {
        GrpcCode::ResourceExhausted
    } else {
        GrpcCode::Internal
    }
}

/// The gRPC code that takes the place of an HTTP status where the answer is a gRPC
/// status: a used-up quota is a resource exhausted, every other error is internal.
pub fn grpc_code(status: &StatusCode) -> (code: GrpcCode)
    ensures
        code == grpc_code_of(code_of(*status)),
{
    if status.as_u16() == 429 {
        GrpcCode::ResourceExhausted
    } else {
        GrpcCode::Internal
    }
}

} // verus!
