//! What a download yields and what is known of the remote resource.

use crate::backend::{server_error_status, BackendError, TransportFailure};
use crate::error::DownloadError;
use crate::external::headers::{
    first_value, header_contents, header_value_text, is_name_char, is_visible_ascii,
};
use crate::external::transport::{
    error_status, error_status_code, refuse_errors, response_headers, response_length,
    response_status,
};
use http::{HeaderMap, HeaderName, HeaderValue};
use std::path::PathBuf;
use vstd::prelude::*;

verus! {

/// A completed download.
#[derive(Debug)]
pub struct DownloadResult {
    pub path: PathBuf,
    pub bytes_downloaded: u64,
}

/// What the handle of a download resolves to.
pub type Outcome = Result<DownloadResult, DownloadError>;

/// What a download's handle resolves to once its result channel is settled: the
/// result that was sent, or the news that the manager has shut down where the
/// channel closed without one.
pub fn settle(received: Option<Outcome>) -> (outcome: Outcome)
    ensures
        outcome == match received {
            Some(sent) => sent,
            None => Err(DownloadError::ManagerShutdown),
        },
{
    match received {
        Some(sent) => sent,
        None => Err(DownloadError::ManagerShutdown),
    }
}

/// Remote metadata obtained by a best-effort `HEAD` probe before downloading.
/// A field is `None` where the server did not provide it.
#[derive(Debug, Clone)]
pub struct RemoteInfo {
    pub content_length: Option<u64>,
    pub accept_ranges: Option<String>,
    pub etag: Option<String>,
    pub last_modified: Option<String>,
    pub content_type: Option<String>,
}

/// The characters of an optional text.
pub open spec fn chars_of(text: Option<String>) -> Option<Seq<char>> {
    match text {
        Some(text) => Some(text@),
        None => None,
    }
}

/// The first value of a header as text, where it has a value and that value is
/// visible ASCII throughout.
pub open spec fn header_text(headers: Map<Seq<char>, Seq<Seq<u8>>>, name: Seq<char>) -> Option<
    Seq<char>,
> {
    if headers.contains_key(name) && headers[name][0].all(|b: u8| is_visible_ascii(b)) {
        Some(headers[name][0].map_values(|b: u8| b as char))
    } else {
        None
    }
}

/// The first value of a header as text.
fn read_header(headers: &HeaderMap<HeaderValue>, name: &'static str) -> (text: Option<String>)
    requires
        0 < name@.len() <= 65535,
        forall|i: int| 0 <= i < name@.len() ==> is_name_char(#[trigger] name@[i]),
    ensures
        chars_of(text) == header_text(header_contents(*headers), name@),
{
    let name: HeaderName = HeaderName::from_static(name);
    match first_value(headers, &name) {
        Some(value) => header_value_text(value),
        None => None,
    }
}

impl RemoteInfo {
    /// The metadata holds what these headers say.
    pub open spec fn reflects(
        self,
        content_length: Option<u64>,
        headers: Map<Seq<char>, Seq<Seq<u8>>>,
    ) -> bool {
        &&& self.content_length == content_length
        &&& chars_of(self.accept_ranges) == header_text(headers, "accept-ranges"@)
        &&& chars_of(self.etag) == header_text(headers, "etag"@)
        &&& chars_of(self.last_modified) == header_text(headers, "last-modified"@)
        &&& chars_of(self.content_type) == header_text(headers, "content-type"@)
    }

    /// Collect the metadata from a response's length and headers.
    pub fn from_headers(content_length: Option<u64>, headers: &HeaderMap<HeaderValue>) -> (info:
        RemoteInfo)
        ensures
            info.reflects(content_length, header_contents(*headers)),
    {
        proof {
            reveal_strlit("accept-ranges");
            reveal_strlit("etag");
            reveal_strlit("last-modified");
            reveal_strlit("content-type");
        }
        RemoteInfo {
            content_length,
            accept_ranges: read_header(headers, "accept-ranges"),
            etag: read_header(headers, "etag"),
            last_modified: read_header(headers, "last-modified"),
            content_type: read_header(headers, "content-type"),
        }
    }
}

/// How a `HEAD` probe ended.
pub enum ProbeReply {
    /// The cancellation token fired before the server answered.
    Cancelled,
    /// The request could not be completed.
    Failed,
    /// The server answered.
    Answered(reqwest::Response),
}

/// The metadata that a probe yields: none unless the server answered, and with a
/// status that tells of no error.
pub fn probe_outcome(reply: ProbeReply) -> (info: Option<RemoteInfo>)
    ensures
        match reply {
            ProbeReply::Answered(response) => if error_status_code(response_status(response)) {
                info is None
            } else {
                info matches Some(info) && info.reflects(
                    response_length(response),
                    header_contents(response_headers(response)),
                )
            },
            _ => info is None,
        },
{
    match reply {
        ProbeReply::Answered(response) => match refuse_errors(response) {
            Ok(response) => Some(
                RemoteInfo::from_headers(response.content_length(), response.headers()),
            ),
            Err(_) => None,
        },
        _ => None,
    }
}

/// How far a `GET` request came.
pub enum FetchReply {
    /// The cancellation token fired before the response headers arrived.
    Cancelled,
    /// The request could not be completed.
    Failed(reqwest::Error),
    /// The response headers arrived.
    Answered(reqwest::Response),
}

/// A response to read the download from.
pub struct Accepted {
    /// The size that the server announced.
    pub content_length: Option<u64>,
    pub response: reqwest::Response,
}

/// This is the backend error for an answer with this status: a server error of
/// this status, or any other error.
pub open spec fn refusal(status: u16, error: BackendError) -> bool {
    if server_error_status(status) {
        error matches BackendError::ServerError { status: s, .. } && s == status
    } else {
        error is Other
    }
}

/// This is the backend error that a transport error is classified as.
pub open spec fn classified(e: reqwest::Error, error: BackendError) -> bool {
    exists|facts: TransportFailure| #[trigger]
        facts.observed_in(e) && error == facts.backend_error()
}

/// This is the backend error that an error of the HTTP client with this status is
/// classified as.
pub open spec fn worded(status: u16, error: BackendError) -> bool {
    exists|e: reqwest::Error|
        error_status(e) == Some(status) && #[trigger] classified(e, error)
}

/// The response to read the download from, or the backend error of the request.
/// An answer with an error status is an error, in the words of the HTTP client.
pub fn fetch_outcome(reply: FetchReply) -> (outcome: Result<Accepted, BackendError>)
    ensures
        match reply {
            FetchReply::Cancelled => outcome == Err::<Accepted, _>(BackendError::Cancelled),
            FetchReply::Failed(e) => outcome matches Err(error) && classified(e, error),
            FetchReply::Answered(response) => {
                if error_status_code(response_status(response)) {
                    outcome matches Err(error) && refusal(response_status(response), error)
                        && worded(response_status(response), error)
                } else {
                    outcome == Ok::<_, BackendError>(
                        Accepted { content_length: response_length(response), response },
                    )
                }
            },
        },
{
    match reply {
        FetchReply::Cancelled => Err(BackendError::Cancelled),
        FetchReply::Failed(e) => Err(BackendError::from(e)),
        FetchReply::Answered(response) => match refuse_errors(response) {
            Ok(response) => {
                let content_length: Option<u64> = response.content_length();
                Ok(Accepted { content_length, response })
            },
            Err(e) => {
                let error: BackendError = BackendError::from(e);
                assert(classified(e, error));
                Err(error)
            },
        },
    }
}

} // verus!
