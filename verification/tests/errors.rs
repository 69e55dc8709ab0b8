use download_manager::backend::{is_transient, BackendError, TransportFailure};
use download_manager::error::{DownloadError, NetworkError};
use reqwest::dns::{Name, Resolve, Resolving};
use std::future::{pending, Future};
use std::path::PathBuf;
use std::sync::Arc;
use std::time::Duration;

/// A resolver that never finds a host.
struct Stuck;

impl Resolve for Stuck {
    fn resolve(&self, _name: Name) -> Resolving {
        Box::pin(pending())
    }
}

fn block_on<F: Future>(future: F) -> F::Output {
    tokio::runtime::Builder::new_current_thread().enable_all().build().unwrap().block_on(future)
}

fn status_error(status: u16) -> reqwest::Error {
    let response = http::Response::builder().status(status).body("").unwrap();
    reqwest::Response::from(response).error_for_status().unwrap_err()
}

fn timeout_error() -> reqwest::Error {
    block_on(async {
        let client = reqwest::Client::builder()
            .no_proxy()
            .dns_resolver(Arc::new(Stuck))
            .timeout(Duration::from_millis(50))
            .build()
            .unwrap();
        client.get("http://stuck.invalid/").send().await.unwrap_err()
    })
}

fn connect_error() -> reqwest::Error {
    block_on(async {
        let client = reqwest::Client::builder().no_proxy().build().unwrap();
        client.get("http://127.0.0.1:1/").send().await.unwrap_err()
    })
}

fn builder_error() -> reqwest::Error {
    reqwest::Client::new().get("no url").build().unwrap_err()
}

fn facts(timeout: bool, connect: bool, request: bool, status: Option<u16>) -> TransportFailure {
    TransportFailure { timeout, connect, request, status, text: "why".to_owned() }
}

#[test]
fn transient_backend_errors_are_retryable() {
    let why = || "why".to_owned();
    assert!(BackendError::Connect(why()).is_retryable());
    assert!(BackendError::Timeout(why()).is_retryable());
    assert!(BackendError::Request(why()).is_retryable());
    assert!(BackendError::ServerError { status: 503, message: why() }.is_retryable());
    assert!(!BackendError::Cancelled.is_retryable());
    assert!(!BackendError::Other(why()).is_retryable());
}

#[test]
fn backend_errors_in_words() {
    let why = || "why".to_owned();
    assert_eq!(BackendError::Connect(why()).message(), "Connection failed: why");
    assert_eq!(BackendError::Timeout(why()).message(), "Request timed out: why");
    assert_eq!(BackendError::Request(why()).message(), "Request error: why");
    assert_eq!(
        BackendError::ServerError { status: 503, message: why() }.message(),
        "HTTP server error 503: why"
    );
    assert_eq!(
        BackendError::ServerError { status: 0, message: String::new() }.message(),
        "HTTP server error 0: "
    );
    assert_eq!(
        BackendError::ServerError { status: 65_535, message: why() }.message(),
        "HTTP server error 65535: why"
    );
    assert_eq!(BackendError::Cancelled.message(), "Cancelled");
    assert_eq!(BackendError::Other(why()).message(), "Network error: why");
}

#[test]
fn a_failure_is_named_after_its_first_mark() {
    let all = facts(true, true, true, Some(500)).into_backend();
    assert!(matches!(all, BackendError::Timeout(text) if text == "why"));
    let connect = facts(false, true, true, Some(500)).into_backend();
    assert!(matches!(connect, BackendError::Connect(text) if text == "why"));
    let request = facts(false, false, true, Some(500)).into_backend();
    assert!(matches!(request, BackendError::Request(text) if text == "why"));
}

#[test]
fn server_errors_are_those_from_500_to_599() {
    for (status, server) in [(499, false), (500, true), (599, true), (600, false), (404, false)] {
        let error = facts(false, false, false, Some(status)).into_backend();
        assert_eq!(error.is_retryable(), server);
        assert_eq!(is_transient(false, false, false, Some(status)), server);
        if server {
            assert!(matches!(
                error,
                BackendError::ServerError { status: s, message } if s == status && message == "why"
            ));
        } else {
            assert!(matches!(error, BackendError::Other(text) if text == "why"));
        }
    }
}

#[test]
fn any_mark_makes_a_failure_transient() {
    assert!(is_transient(true, false, false, Some(404)));
    assert!(is_transient(false, true, false, Some(404)));
    assert!(is_transient(false, false, true, Some(404)));
    assert!(is_transient(false, false, false, None));
}

#[test]
fn statuses_of_the_server_are_classified() {
    let server = status_error(503);
    let text = server.to_string();
    let observed = TransportFailure::observe(&server);
    assert_eq!(observed.status, Some(503));
    assert!(!observed.timeout && !observed.connect && !observed.request);
    assert_eq!(observed.text, text);
    assert!(matches!(
        BackendError::from(server),
        BackendError::ServerError { status: 503, message } if message == text
    ));
    let client = status_error(404);
    let text = client.to_string();
    assert!(matches!(BackendError::from(client), BackendError::Other(t) if t == text));
}

#[test]
fn a_timeout_is_classified() {
    let error = timeout_error();
    let text = error.to_string();
    let observed = TransportFailure::observe(&error);
    assert!(observed.timeout);
    assert_eq!(observed.status, None);
    assert!(DownloadError::Network(NetworkError::Http(timeout_error())).is_retryable());
    assert!(matches!(BackendError::from(error), BackendError::Timeout(t) if t == text));
}

#[test]
fn a_failed_connection_is_classified() {
    let error = connect_error();
    let text = error.to_string();
    let observed = TransportFailure::observe(&error);
    assert!(observed.connect && observed.request && !observed.timeout);
    assert!(matches!(BackendError::from(error), BackendError::Connect(t) if t == text));
}

#[test]
fn only_network_errors_are_retryable() {
    let retryable = |error: DownloadError| error.is_retryable();
    assert!(retryable(DownloadError::from(status_error(500))));
    assert!(!retryable(DownloadError::from(status_error(403))));
    assert!(retryable(DownloadError::Network(NetworkError::Backend(BackendError::Connect(
        String::new()
    )))));
    assert!(!retryable(DownloadError::Network(NetworkError::Backend(BackendError::Other(
        String::new()
    )))));
    assert!(!retryable(DownloadError::from(std::io::Error::other("disk"))));
    assert!(!retryable(DownloadError::Cancelled));
    assert!(!retryable(DownloadError::ManagerShutdown));
    assert!(!retryable(DownloadError::FileExists { path: PathBuf::from("x") }));
    assert!(!retryable(DownloadError::InvalidUrl(String::new())));
    assert!(!retryable(DownloadError::Unknown(String::new())));
    assert!(!retryable(DownloadError::RetriesExhausted {
        last_error: Box::new(DownloadError::from(status_error(500)))
    }));
}

#[test]
fn an_error_without_a_status_is_retryable_unless_a_backend_reports_it() {
    assert_eq!(TransportFailure::observe(&builder_error()).status, None);
    assert!(DownloadError::from(builder_error()).is_retryable());
    let reported = BackendError::from(builder_error());
    assert!(matches!(reported, BackendError::Other(_)));
    assert!(!DownloadError::Network(NetworkError::Backend(reported)).is_retryable());
}

#[test]
fn download_errors_in_words() {
    let http = status_error(500);
    let text = http.to_string();
    assert_eq!(DownloadError::from(http).message(), format!("Network error: {text}"));
    assert_eq!(
        DownloadError::Network(NetworkError::Backend(BackendError::Cancelled)).message(),
        "Network error: Cancelled"
    );
    assert_eq!(DownloadError::from(std::io::Error::other("disk")).message(), "I/O error: disk");
    assert_eq!(DownloadError::Cancelled.message(), "Download was cancelled");
    assert_eq!(
        DownloadError::RetriesExhausted {
            last_error: Box::new(DownloadError::from(std::io::Error::other("disk")))
        }
        .message(),
        "Retry limit exceeded: I/O error: disk"
    );
    assert_eq!(DownloadError::ManagerShutdown.message(), "Download manager has been shut down");
    assert_eq!(
        DownloadError::FileExists { path: PathBuf::from("/tmp/a.zip") }.message(),
        "File already exists: /tmp/a.zip"
    );
    assert_eq!(DownloadError::InvalidUrl("x".to_owned()).message(), "Invalid URL: x");
    assert_eq!(DownloadError::Unknown("x".to_owned()).message(), "Unknown error: x");
}

#[test]
fn the_words_of_an_io_error_can_be_given() {
    let error = DownloadError::from(std::io::Error::other("disk"));
    assert_eq!(error.message_with("full"), "I/O error: full");
    assert_eq!(DownloadError::Cancelled.message_with("full"), "Download was cancelled");
}
