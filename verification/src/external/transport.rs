//! Transport errors and responses, from the `reqwest` crate.

use http::{HeaderMap, HeaderValue};
use vstd::prelude::*;

verus! {

/// `reqwest::Error`: what went wrong with an HTTP request.
#[verifier::external_type_specification]
#[verifier::external_body]
pub struct ExReqwestError(reqwest::Error);

/// `reqwest::Response`: a response whose headers have arrived.
#[verifier::external_type_specification]
#[verifier::external_body]
pub struct ExReqwestResponse(reqwest::Response);

/// The HTTP status code of a response, as `reqwest::Response::status` gives it.
pub uninterp spec fn response_status(response: reqwest::Response) -> u16;

/// The length of its body, as `reqwest::Response::content_length` gives it.
pub uninterp spec fn response_length(response: reqwest::Response) -> Option<u64>;

/// Its headers, as `reqwest::Response::headers` gives them.
pub uninterp spec fn response_headers(response: reqwest::Response) -> HeaderMap<HeaderValue>;

/// A status code that tells of an error, of the client or of the server.
pub open spec fn error_status_code(status: u16) -> bool {
    400 <= status < 600
}

/// What `reqwest::Error::is_timeout` answers.
pub uninterp spec fn error_is_timeout(e: reqwest::Error) -> bool;

/// What `reqwest::Error::is_connect` answers.
pub uninterp spec fn error_is_connect(e: reqwest::Error) -> bool;

/// What `reqwest::Error::is_request` answers.
pub uninterp spec fn error_is_request(e: reqwest::Error) -> bool;

/// The HTTP status code that `reqwest::Error::status` gives.
pub uninterp spec fn error_status(e: reqwest::Error) -> Option<u16>;

/// The text that the `Display` of `reqwest::Error` writes.
pub uninterp spec fn error_text(e: reqwest::Error) -> Seq<char>;

/// `reqwest::Error::is_timeout`: a fixed answer for each error.
pub assume_specification[ reqwest::Error::is_timeout ](e: &reqwest::Error) -> (answer: bool)
    ensures
        answer == error_is_timeout(*e),
;

/// `reqwest::Error::is_connect`: a fixed answer for each error.
pub assume_specification[ reqwest::Error::is_connect ](e: &reqwest::Error) -> (answer: bool)
    ensures
        answer == error_is_connect(*e),
;

/// `reqwest::Error::is_request`: a fixed answer for each error.
pub assume_specification[ reqwest::Error::is_request ](e: &reqwest::Error) -> (answer: bool)
    ensures
        answer == error_is_request(*e),
;

/// `reqwest::Error::status`, as the number of the status code: a fixed answer
/// for each error.
#[verifier::external_body]
pub(crate) fn status_of(e: &reqwest::Error) -> (status: Option<u16>)
    ensures
        status == error_status(*e),
{
    e.status().map(|code| code.as_u16())
}

/// `reqwest::Response::error_for_status`: the same response, unless its status
/// tells of an error; then an error with that status, which is no timeout,
/// connection or request failure.
#[verifier::external_body]
pub(crate) fn refuse_errors(response: reqwest::Response) -> (checked: Result<
    reqwest::Response,
    reqwest::Error,
>)
    ensures
        match checked {
            Ok(same) => same == response && !error_status_code(response_status(response)),
            Err(e) => {
                &&& error_status_code(response_status(response))
                &&& error_status(e) == Some(response_status(response))
                &&& !error_is_timeout(e)
                &&& !error_is_connect(e)
                &&& !error_is_request(e)
            },
        },
{
    response.error_for_status()
}

/// `reqwest::Response::content_length`: a fixed answer for each response.
pub assume_specification[ reqwest::Response::content_length ](
    response: &reqwest::Response,
) -> (length: Option<u64>)
    ensures
        length == response_length(*response),
;

/// `reqwest::Response::headers`: the headers of the response.
pub assume_specification[ reqwest::Response::headers ](
    response: &reqwest::Response,
) -> (headers: &HeaderMap<HeaderValue>)
    ensures
        *headers == response_headers(*response),
;

/// `reqwest::Error`'s `to_string`: a fixed text for each error.
#[verifier::external_body]
pub(crate) fn text_of(e: &reqwest::Error) -> (text: String)
    ensures
        text@ == error_text(*e),
{
    e.to_string()
}

} // verus!
