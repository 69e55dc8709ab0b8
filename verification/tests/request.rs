use download_manager::config::DownloadManagerConfig;
use download_manager::context::Context;
use download_manager::request::{
    is_header_value, DownloadConfig, DownloadConfigBuilder, HeaderRefused, Request, RequestBuilder,
    StartError,
};
use http::HeaderName;
use reqwest::Url;
use std::path::PathBuf;
use tokio_util::sync::CancellationToken;

fn context() -> Context {
    Context::new(DownloadManagerConfig::default(), CancellationToken::new())
}

fn url() -> Url {
    Url::parse("https://example.com/file.bin?x=1").unwrap()
}

fn builder() -> RequestBuilder {
    Request::<()>::builder(&mut context())
}

fn complete() -> RequestBuilder {
    builder().url(url()).destination(PathBuf::from("out/file.bin"))
}

#[test]
fn settings_default_to_three_retries_without_overwriting() {
    let config = DownloadConfig::default();
    assert_eq!(config.retries(), 3);
    assert!(!config.overwrite());
    assert!(config.headers().is_empty());
}

#[test]
fn chosen_settings_are_kept() {
    let config = DownloadConfigBuilder::default()
        .retries(0)
        .overwrite(true)
        .header(HeaderName::from_static("range"), "bytes=0-9")
        .build();
    assert_eq!(config.retries(), 0);
    assert!(config.overwrite());
    assert_eq!(config.headers().get("range").unwrap(), "bytes=0-9");
    assert_eq!(config.headers().len(), 1);
}

#[test]
fn the_last_value_of_a_header_counts() {
    let accept = HeaderName::from_static("accept");
    let config = DownloadConfigBuilder::default()
        .header(accept.clone(), "text/html")
        .header(HeaderName::from_static("etag"), "\"abc\"")
        .header(accept, "*/*")
        .build();
    let accepted: Vec<_> = config.headers().get_all("accept").iter().collect();
    assert_eq!(accepted, vec!["*/*"]);
    assert_eq!(config.headers().get("etag").unwrap(), "\"abc\"");
    assert_eq!(config.headers().keys_len(), 2);
}

#[test]
fn header_values_may_hold_tabs_and_other_text() {
    let config = DownloadConfigBuilder::default()
        .header(HeaderName::from_static("x-note"), "a\tb \u{e4}")
        .build();
    assert_eq!(config.headers().get("x-note").unwrap().as_bytes(), "a\tb \u{e4}".as_bytes());
}

#[test]
fn control_characters_are_no_header_values() {
    assert!(is_header_value(""));
    assert!(is_header_value("a b\t\u{e4}"));
    assert!(!is_header_value("a\nb"));
    assert!(!is_header_value("a\u{7f}"));
    assert!(!is_header_value("\0"));
}

#[test]
fn there_is_room_for_headers_up_to_a_limit() {
    let mut builder = DownloadConfigBuilder::default();
    let mut count = 0;
    while builder.takes_header() {
        let name = HeaderName::from_bytes(format!("x-{count}").as_bytes()).unwrap();
        builder = builder.header(name, "v");
        count += 1;
    }
    assert_eq!(count, 6554);
    assert_eq!(builder.build().headers().keys_len(), 6554);
}

#[test]
fn headers_are_refused_when_invalid_or_too_many() {
    let name = |n: usize| HeaderName::from_bytes(format!("x-{n}").as_bytes()).unwrap();
    let invalid = DownloadConfigBuilder::default().try_header(name(0), "a\nb").unwrap_err();
    assert_eq!(invalid, HeaderRefused::InvalidValue);
    let mut builder = complete();
    for n in 0..8_000 {
        builder = builder.try_header(name(n), "v").unwrap();
    }
    assert_eq!(builder.config.headers.keys_len(), 8_000);
    let mut builder = builder.config;
    let refused = loop {
        let n = builder.headers.keys_len();
        builder = match builder.try_header(name(n), "v") {
            Ok(builder) => builder,
            Err(refused) => break refused,
        };
    };
    assert_eq!(refused, HeaderRefused::TooMany);
    let request = complete().try_header(name(1), "v").unwrap().start(()).unwrap();
    assert_eq!(request.config().headers().get("x-1").unwrap(), "v");
    assert_eq!(complete().try_header(name(1), "\0").unwrap_err(), HeaderRefused::InvalidValue);
}

#[test]
fn a_request_takes_the_next_identifier() {
    let mut ctx = context();
    let first = Request::<()>::builder(&mut ctx);
    let second = Request::<()>::builder(&mut ctx);
    assert_eq!((first.id, second.id), (1, 2));
    assert_eq!(ctx.id_counter, 3);
}

#[test]
fn a_started_request_is_what_was_asked_for() {
    let request = complete()
        .retries(5)
        .overwrite(true)
        .user_agent("agent/1.0")
        .header(HeaderName::from_static("authorization"), "Basic abc")
        .start("hooks")
        .unwrap();
    assert_eq!(request.id(), 1);
    assert_eq!(request.url(), &url());
    assert_eq!(request.destination(), &PathBuf::from("out/file.bin"));
    assert_eq!(request.config().retries(), 5);
    assert!(request.config().overwrite());
    assert_eq!(request.config().headers().get("user-agent").unwrap(), "agent/1.0");
    assert_eq!(request.config().headers().get("authorization").unwrap(), "Basic abc");
    assert_eq!(request.hooks, "hooks");
    assert!(!request.cancel_token.is_cancelled());
}

#[test]
fn a_copied_request_asks_for_the_same() {
    let request = complete()
        .retries(5)
        .overwrite(true)
        .header(HeaderName::from_static("accept"), "*/*")
        .start("hooks")
        .unwrap();
    let copy = request.clone();
    assert_eq!(copy.id(), request.id());
    assert_eq!(copy.url(), request.url());
    assert_eq!(copy.destination(), request.destination());
    assert_eq!(copy.config().retries(), 5);
    assert!(copy.config().overwrite());
    assert_eq!(copy.config().headers(), request.config().headers());
    assert_eq!(copy.config().headers().len(), 1);
    assert_eq!(copy.hooks, "hooks");
    request.cancel_token.cancel();
    assert!(copy.cancel_token.is_cancelled());
    let settings = request.config().clone();
    assert_eq!(settings.retries(), 5);
    assert_eq!(settings.headers().get("accept").unwrap(), "*/*");
}

#[test]
fn calls_are_made_with_what_was_asked_for() {
    let request = complete().header(HeaderName::from_static("accept"), "*/*").start(()).unwrap();
    let call = request.call();
    assert_eq!(call.url, &url());
    assert_eq!(call.headers.get("accept").unwrap(), "*/*");
    request.cancel_token.cancel();
    assert!(call.cancel.is_cancelled());
}

#[test]
fn a_request_needs_a_url_and_a_destination() {
    let no_url = builder().destination(PathBuf::from("x")).start(()).unwrap_err();
    assert_eq!(no_url, StartError::UrlNotSet);
    assert_eq!(no_url.message(), "URL must be set");
    let no_destination = builder().url(url()).start(()).unwrap_err();
    assert_eq!(no_destination, StartError::DestinationNotSet);
    assert_eq!(no_destination.message(), "Destination must be set");
    assert_eq!(builder().start(()).unwrap_err(), StartError::UrlNotSet);
}

#[test]
fn a_cancelled_request_does_not_start() {
    let token = CancellationToken::new();
    token.cancel();
    let refused = complete().cancel_token(token).start(()).unwrap_err();
    assert_eq!(refused, StartError::ManagerShutdown);
    assert_eq!(refused.message(), "Download manager has been shut down");
    assert_eq!(builder().finish(true, ()).unwrap_err(), StartError::ManagerShutdown);
}

#[test]
fn the_token_of_the_manager_reaches_its_requests() {
    let mut ctx = context();
    let request = Request::<()>::builder(&mut ctx)
        .url(url())
        .destination(PathBuf::from("x"))
        .start(())
        .unwrap();
    ctx.cancel_root.cancel();
    assert!(request.cancel_token.is_cancelled());
}
