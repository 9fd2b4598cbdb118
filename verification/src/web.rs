//! The HTTP boundary: reading the `Depth` request header and producing
//! the response status, through the `http` crate.

use vstd::prelude::*;

use crate::depth::DepthSpec;
use crate::depth::parse_depth;
use crate::depth::parse_depth_spec;
use crate::handler::DeleteResponse;
use crate::handler::ResponseModel;
use crate::status::STATUS_BAD_REQUEST;
use crate::status::STATUS_MULTI_STATUS;

verus! {

/// `http`'s status-code type, declared so verified signatures can carry it.
#[verifier::external_type_specification]
#[verifier::external_body]
pub struct ExStatusCode(http::StatusCode);

/// `http`'s rejection of an out-of-range status code.
#[verifier::external_type_specification]
#[verifier::external_body]
pub struct ExInvalidStatusCode(http::status::InvalidStatusCode);

/// `http`'s header map.
#[verifier::external_type_specification]
#[verifier::external_body]
#[verifier::reject_recursive_types(T)]
pub struct ExHeaderMap<T>(http::HeaderMap<T>);

/// `http`'s header value.
#[verifier::external_type_specification]
#[verifier::external_body]
pub struct ExHeaderValue(http::HeaderValue);

/// Relies on http::StatusCode::from_u16: a numeric code is accepted
/// exactly when it lies in 100..=999.
pub assume_specification[ http::StatusCode::from_u16 ](src: u16) -> (r: Result<
    http::StatusCode,
    http::status::InvalidStatusCode,
>)
    ensures
        r is Ok <==> (100 <= src && src <= 999),
;

/// The `Depth` entry a header map holds: `None` when the header is
/// absent, `Some(None)` when its value is not readable as a string,
/// `Some(Some(s))` for its string value. A fixed map always yields the
/// same entry; only the trusted lookup below says anything about it.
pub uninterp spec fn depth_header_of(headers: http::HeaderMap) -> Option<Option<Seq<char>>>;

/// Relies on http::HeaderMap::get and http::HeaderValue::to_str: fetches
/// the `Depth` header. The outer `None` means the header is absent, the
/// inner `None` that its value is not readable as a string.
#[verifier::external_body]
fn depth_header_value(headers: &http::HeaderMap) -> (r: Option<Option<String>>)
    ensures
        (match r {
            Option::None => depth_header_of(*headers) == Option::<Option<Seq<char>>>::None,
            Option::Some(Option::None) => depth_header_of(*headers) == Option::Some(
                Option::<Seq<char>>::None,
            ),
            Option::Some(Option::Some(s)) => depth_header_of(*headers) == Option::Some(
                Option::Some(s@),
            ),
        }),
{
    match headers.get("depth") {
        Option::None => Option::None,
        Option::Some(v) => Option::Some(v.to_str().ok().map(|s| s.to_string())),
    }
}

/// Reads and parses the `Depth` header out of a request's header map:
/// an absent header means recursive, `0` and `infinity` parse, an
/// unreadable value is rejected like any other unsupported value, with
/// 400 Bad Request.
pub fn depth_from_headers(headers: &http::HeaderMap) -> (r: Result<DepthSpec, u16>)
    ensures
        r == (match depth_header_of(*headers) {
            Option::None => parse_depth_spec(Option::None),
            Option::Some(Option::None) => Result::<DepthSpec, u16>::Err(STATUS_BAD_REQUEST),
            Option::Some(Option::Some(s)) => parse_depth_spec(Option::Some(s)),
        }),
        r == Result::<DepthSpec, u16>::Ok(DepthSpec::Zero) || r == Result::<DepthSpec, u16>::Ok(
            DepthSpec::Infinity,
        ) || r == Result::<DepthSpec, u16>::Err(STATUS_BAD_REQUEST),
{
    match depth_header_value(headers) {
        Option::None => parse_depth(Option::None),
        Option::Some(Option::None) => Result::Err(STATUS_BAD_REQUEST),
        Option::Some(Option::Some(s)) => parse_depth(Option::Some(&s)),
    }
}

/// The numeric response status owed for a finished delete: the plain
/// status itself, or 207 Multi-Status for a partial-failure report.
pub open spec fn response_code_spec(r: ResponseModel) -> u16 {
    match r {
        ResponseModel::Plain(s) => s,
        ResponseModel::MultiStatus(_) => STATUS_MULTI_STATUS,
    }
}

/// Whether every status a response carries is a legal HTTP status code.
pub open spec fn response_code_valid(r: ResponseModel) -> bool {
    100 <= response_code_spec(r) <= 999
}

/// The numeric status line of a finished delete response.
pub fn response_code(r: &DeleteResponse) -> (c: u16)
    ensures
        c == response_code_spec(r@),
{
    match r {
        DeleteResponse::Plain(s) => *s,
        DeleteResponse::MultiStatus(_) => STATUS_MULTI_STATUS,
    }
}

/// The status line of a finished delete response, as `http`'s own type.
pub fn response_status(r: &DeleteResponse) -> (s: http::StatusCode)
    requires
        response_code_valid(r@),
{
    let c = response_code(r);
    match http::StatusCode::from_u16(c) {
        Result::Ok(s) => s,
        Result::Err(_) => vstd::pervasive::unreached(),
    }
}

} // verus!
