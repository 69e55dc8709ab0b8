//! The error of a download.

use crate::backend::{is_transient, transient, BackendError, TransportFailure};
use crate::external::transport::{
    error_is_connect, error_is_request, error_is_timeout, error_status, error_text, status_of,
    text_of,
};
use crate::external::values::{display_path, io_error_text, path_text};
use crate::text::joined;
use std::path::PathBuf;
use vstd::prelude::*;

verus! {

/// What the network reported.
#[derive(Debug)]
pub enum NetworkError {
    /// An error of the HTTP client itself.
    Http(reqwest::Error),
    /// An error that a download backend classified.
    Backend(BackendError),
}

impl NetworkError {
    /// A later attempt may succeed.
    pub open spec fn retryable(self) -> bool {
        match self {
            NetworkError::Http(e) => transient(
                error_is_timeout(e),
                error_is_connect(e),
                error_is_request(e),
                error_status(e),
            ),
            NetworkError::Backend(e) => e.retryable(),
        }
    }

    /// Whether a later attempt may succeed.
    pub fn is_retryable(&self) -> (answer: bool)
        ensures
            answer == self.retryable(),
    {
        match self {
            NetworkError::Http(e) => is_transient(
                e.is_timeout(),
                e.is_connect(),
                e.is_request(),
                status_of(e),
            ),
            NetworkError::Backend(e) => e.is_retryable(),
        }
    }

    /// The error in words.
    pub open spec fn text(self) -> Seq<char> {
        match self {
            NetworkError::Http(e) => error_text(e),
            NetworkError::Backend(e) => e.text(),
        }
    }

    /// The error in words.
    pub fn message(&self) -> (text: String)
        ensures
            text@ == self.text(),
    {
        match self {
            NetworkError::Http(e) => text_of(e),
            NetworkError::Backend(e) => e.message(),
        }
    }
}

/// Why a download did not complete.
#[derive(Debug)]
pub enum DownloadError {
    /// The transfer failed.
    Network(NetworkError),
    /// The destination could not be written.
    Io(std::io::Error),
    /// The download was cancelled.
    Cancelled,
    /// The last permitted attempt failed.
    RetriesExhausted { last_error: Box<DownloadError> },
    /// The manager no longer runs.
    ManagerShutdown,
    /// The destination exists and may not be overwritten.
    FileExists { path: PathBuf },
    /// The address is not a URL.
    InvalidUrl(String),
    /// Anything else.
    Unknown(String),
}

impl DownloadError {
    /// The scheduler tries again after this error.
    pub open spec fn retryable(self) -> bool {
        self matches DownloadError::Network(e) && e.retryable()
    }

    /// Whether the scheduler tries again after this error: only after a network
    /// error, and then as the network error says.
    pub fn is_retryable(&self) -> (answer: bool)
        ensures
            answer == self.retryable(),
    {
        match self {
            DownloadError::Network(e) => e.is_retryable(),
            _ => false,
        }
    }

    /// The error in words, where `io_words` are the words of the I/O error in it.
    pub open spec fn words(self, io_words: Seq<char>) -> Seq<char>
        decreases self,
    {
        match self {
            DownloadError::Network(e) => "Network error: "@ + e.text(),
            DownloadError::Io(_) => "I/O error: "@ + io_words,
            DownloadError::Cancelled => "Download was cancelled"@,
            DownloadError::RetriesExhausted { last_error } => "Retry limit exceeded: "@
                + last_error.words(io_words),
            DownloadError::ManagerShutdown => "Download manager has been shut down"@,
            DownloadError::FileExists { path } => "File already exists: "@ + path_text(path),
            DownloadError::InvalidUrl(detail) => "Invalid URL: "@ + detail@,
            DownloadError::Unknown(detail) => "Unknown error: "@ + detail@,
        }
    }

    /// The text describes this error. The words of an I/O error are left to the
    /// operating system.
    pub open spec fn described_by(self, text: Seq<char>) -> bool {
        exists|io_words: Seq<char>| text == #[trigger] self.words(io_words)
    }

    /// This error is an I/O error, or the last error of exhausted retries is one.
    pub open spec fn holds_io(self) -> bool
        decreases self,
    {
        match self {
            DownloadError::Io(_) => true,
            DownloadError::RetriesExhausted { last_error } => last_error.holds_io(),
            _ => false,
        }
    }

    /// The words of the I/O error in this error, none where it holds no such. What
    /// the words of an I/O error are is left to the operating system.
    fn io_words(&self) -> (words: String)
        ensures
            !self.holds_io() ==> words@ == Seq::<char>::empty(),
        decreases self,
    {
        match self {
            DownloadError::Io(e) => io_error_text(e),
            DownloadError::RetriesExhausted { last_error } => last_error.io_words(),
            _ => String::new(),
        }
    }

    /// The error in words, given the words of the I/O error in it.
    pub fn message_with(&self, io_words: &str) -> (text: String)
        ensures
            text@ == self.words(io_words@),
        decreases self,
    {
        match self {
            DownloadError::Network(e) => joined("Network error: ", e.message().as_str()),
            DownloadError::Io(_) => joined("I/O error: ", io_words),
            DownloadError::Cancelled => "Download was cancelled".to_owned(),
            DownloadError::RetriesExhausted { last_error } => joined(
                "Retry limit exceeded: ",
                last_error.message_with(io_words).as_str(),
            ),
            DownloadError::ManagerShutdown => "Download manager has been shut down".to_owned(),
            DownloadError::FileExists { path } => joined(
                "File already exists: ",
                display_path(path).as_str(),
            ),
            DownloadError::InvalidUrl(detail) => joined("Invalid URL: ", detail.as_str()),
            DownloadError::Unknown(detail) => joined("Unknown error: ", detail.as_str()),
        }
    }

    /// The error in words.
    pub fn message(&self) -> (text: String)
        ensures
            self.described_by(text@),
    {
        self.message_with(self.io_words().as_str())
    }
}

impl vstd::std_specs::convert::FromSpecImpl<reqwest::Error> for DownloadError {
    open spec fn obeys_from_spec() -> bool {
        true
    }

    open spec fn from_spec(e: reqwest::Error) -> DownloadError {
        DownloadError::Network(NetworkError::Http(e))
    }
}

impl From<reqwest::Error> for DownloadError {
    fn from(e: reqwest::Error) -> (r: DownloadError) {
        DownloadError::Network(NetworkError::Http(e))
    }
}

impl vstd::std_specs::convert::FromSpecImpl<std::io::Error> for DownloadError {
    open spec fn obeys_from_spec() -> bool {
        true
    }

    open spec fn from_spec(e: std::io::Error) -> DownloadError {
        DownloadError::Io(e)
    }
}

impl From<std::io::Error> for DownloadError {
    fn from(e: std::io::Error) -> (r: DownloadError) {
        DownloadError::Io(e)
    }
}

/// Whatever is retried as the error of a backend is also retried as the error of
/// the HTTP client that the backend made it from. The other way round there is
/// one exception: an error that is no timeout, connection or request failure and
/// carries no status.
pub proof fn law_classifications_agree(e: reqwest::Error, facts: TransportFailure)
    requires
        facts.observed_in(e),
    ensures
        facts.backend_error().retryable() ==> NetworkError::Http(e).retryable(),
        NetworkError::Http(e).retryable() && !facts.backend_error().retryable() <==> {
            &&& !facts.timeout
            &&& !facts.connect
            &&& !facts.request
            &&& facts.status is None
        },
{
}

} // verus!
