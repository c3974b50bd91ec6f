//! Status codes and responses of the `http` crate, as the library's contracts see them.
//!
//! Nothing in this file is proved: it states what the functions of `http` that build
//! a response do to its status, its headers and its body.

use crate::headers::entries;
use http::header::HeaderMap;
use http::status::InvalidStatusCode;
use http::{Response, StatusCode};
use vstd::prelude::*;

verus! {

/// `http::StatusCode`, seen through `code_of`.
#[verifier::external_type_specification]
#[verifier::external_body]
pub struct ExStatusCode(StatusCode);

/// `http::status::InvalidStatusCode`: a number is no status code. It holds nothing.
#[verifier::external_type_specification]
#[verifier::external_body]
pub struct ExInvalidStatusCode(InvalidStatusCode);

/// `http::Response`. One with a text body is seen through `status_of`, `headers_of`
/// and `body_of`.
#[verifier::external_type_specification]
#[verifier::external_body]
#[verifier::reject_recursive_types(T)]
pub struct ExResponse<T>(Response<T>);

/// The number of a status code.
pub uninterp spec fn code_of(s: StatusCode) -> u16;

/// The number of the status that a response carries.
pub uninterp spec fn status_of(r: Response<String>) -> u16;

/// What the header map of a response holds.
pub uninterp spec fn headers_of(r: Response<String>) -> Map<Seq<char>, Seq<Seq<u8>>>;

/// The body of a response.
pub uninterp spec fn body_of(r: Response<String>) -> Seq<char>;

/// `StatusCode::from_u16`: the status with that number, which `http` grants for the
/// numbers from 100 to 999 and for no other.
pub assume_specification[ StatusCode::from_u16 ](src: u16) -> (r: Result<
    StatusCode,
    InvalidStatusCode,
>)
    ensures
        r is Ok <==> 100 <= src <= 999,
        r matches Ok(s) ==> code_of(s) == src,
;

/// `StatusCode::as_u16`: the status code's number.
pub assume_specification[ StatusCode::as_u16 ](s: &StatusCode) -> (n: u16)
    ensures
        n == code_of(*s),
        100 <= n <= 999,
;

/// `Response::new` for a text body: status 200, no headers, the body as given.
#[verifier::external_body]
pub(crate) fn new_response(body: String) -> (r: Response<String>)
    ensures
        status_of(r) == 200,
        headers_of(r) =~= Map::empty(),
        body_of(r) == body@,
{
    Response::new(body)
}

/// `Response::status_mut`, written through: the response carries the new status, its
/// headers and body stay.
#[verifier::external_body]
pub(crate) fn set_status(r: &mut Response<String>, status: StatusCode)
    ensures
        status_of(*final(r)) == code_of(status),
        headers_of(*final(r)) == headers_of(*old(r)),
        body_of(*final(r)) == body_of(*old(r)),
{
    *r.status_mut() = status;
}

/// `Response::headers_mut`, written through: the response carries the new header map
/// in place of its own, its status and body stay.
#[verifier::external_body]
pub(crate) fn set_headers(r: &mut Response<String>, headers: HeaderMap)
    ensures
        headers_of(*final(r)) == entries(headers),
        status_of(*final(r)) == status_of(*old(r)),
        body_of(*final(r)) == body_of(*old(r)),
{
    *r.headers_mut() = headers;
}

} // verus!
