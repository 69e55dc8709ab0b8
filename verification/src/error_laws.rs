//! Which errors are retried, what transport errors and answers are taken for, and
//! how errors read, told by what the functions are given and what they return.

use crate::backend::{is_transient, BackendError, TransportFailure};
use crate::download::{fetch_outcome, Accepted, FetchReply};
use crate::error::{DownloadError, NetworkError};
use crate::external::transport::{
    error_is_connect, error_is_request, error_is_timeout, error_status, error_text,
    response_length, response_status,
};
use crate::external::values::path_text;
use crate::text::decimal_text;
use vstd::prelude::*;

verus! {

/// A backend error is retried exactly if it is a failed connection, a timeout, an
/// uncompleted request or a server error.
pub proof fn law_backend_errors_are_retried(e: BackendError, answer: bool)
    requires
        call_ensures(BackendError::is_retryable, (&e,), answer),
    ensures
        answer <==> match e {
            BackendError::Connect(_) => true,
            BackendError::Timeout(_) => true,
            BackendError::Request(_) => true,
            BackendError::ServerError { .. } => true,
            BackendError::Cancelled => false,
            BackendError::Other(_) => false,
        },
{
}

/// A network error is retried exactly if the backend error in it is one of those
/// four, or the error of the HTTP client in it is a timeout, a connection or
/// request failure, or carries a status from 500 to 599, or none.
pub proof fn law_network_errors_are_retried(e: NetworkError, answer: bool)
    requires
        call_ensures(NetworkError::is_retryable, (&e,), answer),
    ensures
        e matches NetworkError::Backend(b) ==> (answer <==> {
            ||| b is Connect
            ||| b is Timeout
            ||| b is Request
            ||| b is ServerError
        }),
        e matches NetworkError::Http(h) ==> (answer <==> {
            ||| error_is_timeout(h)
            ||| error_is_connect(h)
            ||| error_is_request(h)
            ||| error_status(h) is None
            ||| 500 <= error_status(h)->Some_0 < 600
        }),
{
}

/// A download error is retried exactly if it is a network error that is.
pub proof fn law_download_errors_are_retried(e: DownloadError, answer: bool)
    requires
        call_ensures(DownloadError::is_retryable, (&e,), answer),
    ensures
        e matches DownloadError::Network(NetworkError::Backend(b)) ==> (answer <==> {
            ||| b is Connect
            ||| b is Timeout
            ||| b is Request
            ||| b is ServerError
        }),
        e matches DownloadError::Network(NetworkError::Http(h)) ==> (answer <==> {
            ||| error_is_timeout(h)
            ||| error_is_connect(h)
            ||| error_is_request(h)
            ||| error_status(h) is None
            ||| 500 <= error_status(h)->Some_0 < 600
        }),
        !(e is Network) ==> !answer,
        answer == e.retryable(),
{
}

/// Marks and status decide whether a failure is transient.
pub proof fn law_marks_decide(
    timeout: bool,
    connect: bool,
    request: bool,
    status: Option<u16>,
    answer: bool,
)
    requires
        call_ensures(is_transient, (timeout, connect, request, status), answer),
    ensures
        timeout || connect || request ==> answer,
        status is None ==> answer,
        !timeout && !connect && !request && status is Some ==> (answer <==> 500
            <= status->Some_0 <= 599),
{
}

/// A transport error is taken for what it is, in its own words: a timeout first,
/// then a failed connection, then an uncompleted request, then a server error of
/// its status, and otherwise any other error.
pub proof fn law_transport_errors_are_classified(e: reqwest::Error, error: BackendError)
    requires
        call_ensures(<BackendError as From<reqwest::Error>>::from, (e,), error),
    ensures
        error_is_timeout(e) ==> (error matches BackendError::Timeout(text) && text@ == error_text(
            e,
        )),
        !error_is_timeout(e) && error_is_connect(e) ==> (error matches BackendError::Connect(text)
            && text@ == error_text(e)),
        !error_is_timeout(e) && !error_is_connect(e) && error_is_request(e) ==> (
        error matches BackendError::Request(text) && text@ == error_text(e)),
        !error_is_timeout(e) && !error_is_connect(e) && !error_is_request(e) ==> {
            if error_status(e) is Some && 500 <= error_status(e)->Some_0 < 600 {
                error matches BackendError::ServerError { status, message } && status
                    == error_status(e)->Some_0 && message@ == error_text(e)
            } else {
                error matches BackendError::Other(text) && text@ == error_text(e)
            }
        },
{
}

/// The facts of a failure decide in the same way.
pub proof fn law_failures_are_classified(facts: TransportFailure, error: BackendError)
    requires
        call_ensures(TransportFailure::into_backend, (facts,), error),
    ensures
        error is Timeout <==> facts.timeout,
        error is Connect <==> facts.connect && !facts.timeout,
        error is Request <==> facts.request && !facts.timeout && !facts.connect,
        error is ServerError <==> !facts.timeout && !facts.connect && !facts.request
            && facts.status is Some && 500 <= facts.status->Some_0 < 600,
        !(error is Cancelled),
        error matches BackendError::Timeout(text) ==> text == facts.text,
        error matches BackendError::Connect(text) ==> text == facts.text,
        error matches BackendError::Request(text) ==> text == facts.text,
        error matches BackendError::Other(text) ==> text == facts.text,
        error matches BackendError::ServerError { status, message } ==> message == facts.text
            && Some(status) == facts.status,
{
}

/// The facts that are observed are those of the error.
pub proof fn law_facts_are_observed(e: reqwest::Error, facts: TransportFailure)
    requires
        call_ensures(TransportFailure::observe, (&e,), facts),
    ensures
        facts.timeout == error_is_timeout(e),
        facts.connect == error_is_connect(e),
        facts.request == error_is_request(e),
        facts.status == error_status(e),
        facts.text@ == error_text(e),
{
}

/// A download is read from an answer exactly if its status is below 400 or above
/// 599. An answer from 500 to 599 is a server error of that status and is retried;
/// one from 400 to 499 is not.
pub proof fn law_answers_are_judged_by_status(
    response: reqwest::Response,
    outcome: Result<Accepted, BackendError>,
    answer: bool,
)
    requires
        call_ensures(fetch_outcome, (FetchReply::Answered(response),), outcome),
        outcome matches Err(error) ==> call_ensures(
            DownloadError::is_retryable,
            (&DownloadError::Network(NetworkError::Backend(error)),),
            answer,
        ),
    ensures
        outcome is Ok <==> response_status(response) < 400 || response_status(response) > 599,
        outcome matches Ok(accepted) ==> accepted.response == response && accepted.content_length
            == response_length(response),
        500 <= response_status(response) < 600 ==> {
            &&& outcome matches Err(BackendError::ServerError { status, .. }) && status
                == response_status(response)
            &&& answer
        },
        400 <= response_status(response) < 500 ==> {
            &&& outcome matches Err(BackendError::Other(_))
            &&& !answer
        },
{
}

/// A request that was cancelled is reported as cancelled, and one that failed as
/// its error is classified.
pub proof fn law_failed_requests_are_reported(
    e: reqwest::Error,
    cancelled: Result<Accepted, BackendError>,
    failed: Result<Accepted, BackendError>,
)
    requires
        call_ensures(fetch_outcome, (FetchReply::Cancelled,), cancelled),
        call_ensures(fetch_outcome, (FetchReply::Failed(e),), failed),
    ensures
        cancelled matches Err(BackendError::Cancelled),
        failed is Err,
        failed->Err_0 is Timeout <==> error_is_timeout(e),
        failed->Err_0 is Connect <==> error_is_connect(e) && !error_is_timeout(e),
        failed->Err_0 is Request <==> error_is_request(e) && !error_is_timeout(e)
            && !error_is_connect(e),
        failed->Err_0 is ServerError <==> !error_is_timeout(e) && !error_is_connect(e)
            && !error_is_request(e) && error_status(e) is Some && 500 <= error_status(e)->Some_0
            < 600,
        !(failed->Err_0 is Cancelled),
{
}

/// Every error reads as its kind followed by its details.
pub proof fn law_backend_errors_in_words(e: BackendError, text: String, digits: String)
    requires
        call_ensures(BackendError::message, (&e,), text),
        e matches BackendError::ServerError { status, .. } ==> call_ensures(
            decimal_text,
            (status,),
            digits,
        ),
    ensures
        text@ == match e {
            BackendError::Connect(detail) => "Connection failed: "@ + detail@,
            BackendError::Timeout(detail) => "Request timed out: "@ + detail@,
            BackendError::Request(detail) => "Request error: "@ + detail@,
            BackendError::ServerError { message, .. } => "HTTP server error "@ + digits@ + ": "@
                + message@,
            BackendError::Cancelled => "Cancelled"@,
            BackendError::Other(detail) => "Network error: "@ + detail@,
        },
{
}

/// A network error reads as the error in it.
pub proof fn law_network_errors_in_words(e: NetworkError, text: String, inner: String)
    requires
        call_ensures(NetworkError::message, (&e,), text),
        e matches NetworkError::Backend(b) ==> call_ensures(BackendError::message, (&b,), inner),
    ensures
        text@ == match e {
            NetworkError::Http(h) => error_text(h),
            NetworkError::Backend(_) => inner@,
        },
{
}

/// Every download error reads as its kind followed by its details, and one of
/// exhausted retries by the last error.
pub proof fn law_download_errors_in_words(
    e: DownloadError,
    io_words: &str,
    text: String,
    inner: String,
    last: String,
)
    requires
        call_ensures(DownloadError::message_with, (&e, io_words), text),
        e matches DownloadError::Network(n) ==> call_ensures(NetworkError::message, (&n,), inner),
        e matches DownloadError::RetriesExhausted { last_error } ==> call_ensures(
            DownloadError::message_with,
            (&*last_error, io_words),
            last,
        ),
    ensures
        text@ == match e {
            DownloadError::Network(_) => "Network error: "@ + inner@,
            DownloadError::Io(_) => "I/O error: "@ + io_words@,
            DownloadError::Cancelled => "Download was cancelled"@,
            DownloadError::RetriesExhausted { .. } => "Retry limit exceeded: "@ + last@,
            DownloadError::ManagerShutdown => "Download manager has been shut down"@,
            DownloadError::FileExists { path } => "File already exists: "@ + path_text(path),
            DownloadError::InvalidUrl(detail) => "Invalid URL: "@ + detail@,
            DownloadError::Unknown(detail) => "Unknown error: "@ + detail@,
        },
{
}

/// The message of a download error is what it reads with some words for the I/O
/// error in it.
pub proof fn law_message_is_worded(e: DownloadError, text: String)
    requires
        call_ensures(DownloadError::message, (&e,), text),
    ensures
        e.described_by(text@),
        e matches DownloadError::Cancelled ==> text@ == "Download was cancelled"@,
        e matches DownloadError::ManagerShutdown ==> text@
            == "Download manager has been shut down"@,
        e matches DownloadError::FileExists { path } ==> text@ == "File already exists: "@
            + path_text(path),
        e matches DownloadError::Network(NetworkError::Backend(b)) ==> text@ == "Network error: "@
            + b.text(),
        e matches DownloadError::Network(NetworkError::Http(h)) ==> text@ == "Network error: "@
            + error_text(h),
        e is Io ==> "I/O error: "@.is_prefix_of(text@),
{
    let words = choose|io_words: Seq<char>| text@ == #[trigger] e.words(io_words);
    if e is Io {
        assert("I/O error: "@.is_prefix_of("I/O error: "@ + words));
    }
}

/// Errors of the HTTP client and of files become download errors that hold them.
pub proof fn law_errors_are_kept(
    h: reqwest::Error,
    i: std::io::Error,
    network: DownloadError,
    io: DownloadError,
)
    requires
        call_ensures(<DownloadError as From<reqwest::Error>>::from, (h,), network),
        call_ensures(<DownloadError as From<std::io::Error>>::from, (i,), io),
    ensures
        network == DownloadError::Network(NetworkError::Http(h)),
        io == DownloadError::Io(i),
{
}

} // verus!
