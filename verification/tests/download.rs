use download_manager::backend::BackendError;
use download_manager::download::{
    fetch_outcome, probe_outcome, settle, Accepted, DownloadResult, FetchReply, ProbeReply,
    RemoteInfo,
};
use download_manager::error::DownloadError;
use http::{HeaderMap, HeaderValue};
use std::path::PathBuf;

fn headers() -> HeaderMap<HeaderValue> {
    let mut headers = HeaderMap::new();
    headers.insert("accept-ranges", HeaderValue::from_static("bytes"));
    headers.insert("etag", HeaderValue::from_static("\"v1\""));
    headers.append("etag", HeaderValue::from_static("\"v2\""));
    headers.insert("last-modified", HeaderValue::from_bytes(b"caf\xc3\xa9").unwrap());
    headers.insert("server", HeaderValue::from_static("x"));
    headers
}

#[test]
fn metadata_is_read_off_the_headers() {
    let info = RemoteInfo::from_headers(Some(12), &headers());
    assert_eq!(info.content_length, Some(12));
    assert_eq!(info.accept_ranges.as_deref(), Some("bytes"));
    assert_eq!(info.etag.as_deref(), Some("\"v1\""));
    assert_eq!(info.last_modified, None);
    assert_eq!(info.content_type, None);
}

#[test]
fn metadata_may_hold_tabs_and_nothing_at_all() {
    let mut headers = HeaderMap::new();
    headers.insert("content-type", HeaderValue::from_static("text/plain;\tq"));
    headers.insert("etag", HeaderValue::from_static(""));
    let info = RemoteInfo::from_headers(None, &headers);
    assert_eq!(info.content_length, None);
    assert_eq!(info.content_type.as_deref(), Some("text/plain;\tq"));
    assert_eq!(info.etag.as_deref(), Some(""));
}

fn response(status: u16) -> reqwest::Response {
    let mut response = http::Response::builder().status(status).body("hello").unwrap();
    *response.headers_mut() = headers();
    reqwest::Response::from(response)
}

#[test]
fn a_probe_yields_metadata_only_if_answered() {
    assert!(probe_outcome(ProbeReply::Cancelled).is_none());
    assert!(probe_outcome(ProbeReply::Failed).is_none());
    for status in [400, 404, 499, 500, 503, 599] {
        assert!(probe_outcome(ProbeReply::Answered(response(status))).is_none());
    }
    for status in [204, 304, 399, 600] {
        assert!(probe_outcome(ProbeReply::Answered(response(status))).is_some());
    }
    let info = probe_outcome(ProbeReply::Answered(response(200))).unwrap();
    assert_eq!(info.content_length, Some(5));
    assert_eq!(info.accept_ranges.as_deref(), Some("bytes"));
}

#[test]
fn a_request_yields_its_length_or_its_error() {
    let cancelled = fetch_outcome(FetchReply::Cancelled);
    assert!(matches!(cancelled, Err(BackendError::Cancelled)));
    for status in [200, 206, 399, 600] {
        let accepted = fetch_outcome(FetchReply::Answered(response(status)));
        assert!(matches!(
            accepted,
            Ok(Accepted { content_length: Some(5), response }) if response.status() == status
        ));
    }
    let error = response(502).error_for_status().unwrap_err();
    let failed = fetch_outcome(FetchReply::Failed(error));
    assert!(matches!(failed, Err(BackendError::ServerError { status: 502, .. })));
}

#[test]
fn an_answer_with_an_error_status_is_an_error() {
    for status in [500, 503, 599] {
        let words = response(status).error_for_status().unwrap_err().to_string();
        let refused = fetch_outcome(FetchReply::Answered(response(status)));
        assert!(matches!(
            refused,
            Err(BackendError::ServerError { status: s, message }) if s == status && message == words
        ));
    }
    for status in [400, 404, 499] {
        let refused = fetch_outcome(FetchReply::Answered(response(status)));
        assert!(matches!(refused, Err(BackendError::Other(_))));
    }
}

#[test]
fn a_handle_resolves_to_what_was_sent() {
    let path = PathBuf::from("x");
    let sent = settle(Some(Ok(DownloadResult { path, bytes_downloaded: 3 }))).unwrap();
    assert_eq!((sent.path, sent.bytes_downloaded), (PathBuf::from("x"), 3));
    assert!(matches!(settle(Some(Err(DownloadError::Cancelled))), Err(DownloadError::Cancelled)));
}

#[test]
fn a_handle_whose_manager_is_gone_says_so() {
    assert!(matches!(settle(None), Err(DownloadError::ManagerShutdown)));
}
