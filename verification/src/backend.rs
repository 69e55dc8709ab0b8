//! Errors of the transport layer and how they are classified.

use crate::external::transport::{
    error_is_connect, error_is_request, error_is_timeout, error_status, error_text, status_of,
    text_of,
};
use crate::text::{decimal, decimal_text, joined};
use vstd::prelude::*;
use vstd::string::StringExecFns;

verus! {

/// Transport-agnostic error that a download backend reports.
#[derive(Debug)]
pub enum BackendError {
    /// The connection to the remote host failed.
    Connect(String),
    /// The request or response exceeded a time limit.
    Timeout(String),
    /// A well-formed request was sent but could not be completed.
    Request(String),
    /// The server returned an HTTP 5xx status code.
    ServerError { status: u16, message: String },
    /// The operation was aborted through the download's cancellation token.
    Cancelled,
    /// Any other transport-layer error.
    Other(String),
}

impl BackendError {
    /// A transient failure, which has a reasonable chance of succeeding on a
    /// later attempt.
    pub open spec fn retryable(self) -> bool {
        ||| self is Connect
        ||| self is Timeout
        ||| self is Request
        ||| self is ServerError
    }

    /// Whether the scheduler should schedule a retry after this error: exactly
    /// for failed connections, timeouts, uncompleted requests and server errors.
    pub fn is_retryable(&self) -> (answer: bool)
        ensures
            answer == self.retryable(),
    {
        matches!(
            self,
            BackendError::Connect(_)
                | BackendError::Timeout(_)
                | BackendError::Request(_)
                | BackendError::ServerError { .. }
        )
    }

    /// The error in words.
    pub open spec fn text(self) -> Seq<char> {
        match self {
            BackendError::Connect(detail) => "Connection failed: "@ + detail@,
            BackendError::Timeout(detail) => "Request timed out: "@ + detail@,
            BackendError::Request(detail) => "Request error: "@ + detail@,
            BackendError::ServerError { status, message } => "HTTP server error "@ + decimal(
                status as nat,
            ) + ": "@ + message@,
            BackendError::Cancelled => "Cancelled"@,
            BackendError::Other(detail) => "Network error: "@ + detail@,
        }
    }

    /// The error in words.
    pub fn message(&self) -> (text: String)
        ensures
            text@ == self.text(),
    {
        match self {
            BackendError::Connect(detail) => joined("Connection failed: ", detail.as_str()),
            BackendError::Timeout(detail) => joined("Request timed out: ", detail.as_str()),
            BackendError::Request(detail) => joined("Request error: ", detail.as_str()),
            BackendError::ServerError { status, message } => joined(
                "HTTP server error ",
                decimal_text(*status).as_str(),
            ).concat(": ").concat(message.as_str()),
            BackendError::Cancelled => "Cancelled".to_owned(),
            BackendError::Other(detail) => joined("Network error: ", detail.as_str()),
        }
    }
}

/// A status code of the server-error class.
pub open spec fn server_error_status(status: u16) -> bool {
    500 <= status < 600
}

/// A failure of the connection, or a server error, or one that carries no
/// status at all.
pub open spec fn transient(
    timeout: bool,
    connect: bool,
    request: bool,
    status: Option<u16>,
) -> bool {
    timeout || connect || request || match status {
        Some(status) => server_error_status(status),
        None => true,
    }
}

/// Whether a later attempt may succeed after a failure with these marks. A
/// failure without a status counts as one that may.
pub fn is_transient(timeout: bool, connect: bool, request: bool, status: Option<u16>) -> (answer:
    bool)
    ensures
        answer == transient(timeout, connect, request, status),
{
    timeout || connect || request || match status {
        Some(status) => 500 <= status && status < 600,
        None => true,
    }
}

/// What there is to know of a failed HTTP request.
#[derive(Debug)]
pub struct TransportFailure {
    /// A time limit was exceeded.
    pub timeout: bool,
    /// The connection could not be made.
    pub connect: bool,
    /// The request could not be sent.
    pub request: bool,
    /// The status of the response that the failure was made from.
    pub status: Option<u16>,
    /// The failure in words.
    pub text: String,
}

impl TransportFailure {
    /// These are the facts of that error.
    pub open spec fn observed_in(self, e: reqwest::Error) -> bool {
        &&& self.timeout == error_is_timeout(e)
        &&& self.connect == error_is_connect(e)
        &&& self.request == error_is_request(e)
        &&& self.status == error_status(e)
        &&& self.text@ == error_text(e)
    }

    /// Read the facts off an error.
    pub fn observe(e: &reqwest::Error) -> (facts: TransportFailure)
        ensures
            facts.observed_in(*e),
    {
        TransportFailure {
            timeout: e.is_timeout(),
            connect: e.is_connect(),
            request: e.is_request(),
            status: status_of(e),
            text: text_of(e),
        }
    }

    /// The server answered with a server-error status.
    pub open spec fn server_error(self) -> bool {
        self.status matches Some(status) && server_error_status(status)
    }

    /// The backend error for these facts: the first of timeout, connection and
    /// request that applies, then a server-error status, then anything else.
    pub open spec fn backend_error(self) -> BackendError {
        if self.timeout {
            BackendError::Timeout(self.text)
        } else if self.connect {
            BackendError::Connect(self.text)
        } else if self.request {
            BackendError::Request(self.text)
        } else if self.server_error() {
            BackendError::ServerError { status: self.status->0, message: self.text }
        } else {
            BackendError::Other(self.text)
        }
    }

    /// Classify the failure as a backend error.
    pub fn into_backend(self) -> (e: BackendError)
        ensures
            e == self.backend_error(),
    {
        if self.timeout {
            BackendError::Timeout(self.text)
        } else if self.connect {
            BackendError::Connect(self.text)
        } else if self.request {
            BackendError::Request(self.text)
        } else {
            match self.status {
                Some(status) => if 500 <= status && status < 600 {
                    BackendError::ServerError { status, message: self.text }
                } else {
                    BackendError::Other(self.text)
                },
                None => BackendError::Other(self.text),
            }
        }
    }
}

// A `String` is known here by its characters only, so what `from` returns is
// said by its own `ensures`, not by an equation.
impl vstd::std_specs::convert::FromSpecImpl<reqwest::Error> for BackendError {
    open spec fn obeys_from_spec() -> bool {
        false
    }

    open spec fn from_spec(e: reqwest::Error) -> BackendError {
        arbitrary()
    }
}

impl From<reqwest::Error> for BackendError {
    /// Classify a transport error: the backend error of its facts.
    fn from(e: reqwest::Error) -> (r: BackendError)
        ensures
            exists|facts: TransportFailure| #[trigger]
                facts.observed_in(e) && r == facts.backend_error(),
    {
        TransportFailure::observe(&e).into_backend()
    }
}

} // verus!
