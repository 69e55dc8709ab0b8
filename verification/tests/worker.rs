use download_manager::backend::BackendError;
use download_manager::config::DownloadManagerConfig;
use download_manager::context::Context;
use download_manager::download::{DownloadResult, Outcome, RemoteInfo};
use download_manager::error::{DownloadError, NetworkError};
use download_manager::events::{Event, Progress};
use download_manager::request::Request;
use download_manager::worker::{Action, Attempt, Input, Phase, Step};
use reqwest::Url;
use std::io::Error;
use std::path::PathBuf;
use std::sync::Arc;
use tokio_util::sync::CancellationToken;

fn request(destination: &str, overwrite: bool) -> Arc<Request<()>> {
    let mut ctx = Context::new(DownloadManagerConfig::default(), CancellationToken::new());
    let request = Request::<()>::builder(&mut ctx)
        .url(Url::parse("http://example.com/a").unwrap())
        .destination(PathBuf::from(destination))
        .overwrite(overwrite)
        .start(())
        .unwrap();
    Arc::new(request)
}

/// Hand in the results one after the other; all of them have to be awaited.
fn steps(request: Arc<Request<()>>, inputs: Vec<Input>) -> Vec<Step<()>> {
    let (mut attempt, _) = Attempt::begin(request);
    let mut steps = Vec::new();
    for input in inputs {
        assert!(attempt.is_awaiting(&input));
        let (next, step) = attempt.step(input);
        attempt = next;
        steps.push(step);
    }
    steps
}

fn last(request: Arc<Request<()>>, inputs: Vec<Input>) -> Action<()> {
    steps(request, inputs).pop().unwrap().next
}

fn outcome(request: Arc<Request<()>>, inputs: Vec<Input>) -> Outcome {
    match last(request, inputs) {
        Action::Finish(outcome) => outcome,
        _ => panic!("the attempt goes on"),
    }
}

fn disk() -> Error {
    Error::other("disk")
}

/// The results up to the creation of the file.
fn opened(total_bytes: Option<u64>) -> Vec<Input> {
    vec![
        Input::Probed(None),
        Input::DirMade(Ok(())),
        Input::Exists(false),
        Input::Fetched(Ok(total_bytes)),
        Input::Created(Ok(())),
    ]
}

fn then(mut inputs: Vec<Input>, more: Vec<Input>) -> Vec<Input> {
    inputs.extend(more);
    inputs
}

fn written(due: bool) -> Input {
    Input::Written { result: Ok(()), due }
}

#[test]
fn a_download_runs_through_its_steps() {
    let inputs = then(
        opened(Some(30)),
        vec![
            Input::Chunk(10),
            written(true),
            Input::Chunk(20),
            written(false),
            Input::EndOfStream,
            Input::Synced(Ok(())),
        ],
    );
    let mut steps = steps(request("dir/a", false), inputs).into_iter();
    let mut next = || steps.next().unwrap();
    assert!(matches!(next().next, Action::MakeDir(dir) if dir == PathBuf::from("dir")));
    let file = PathBuf::from("dir/a");
    assert!(matches!(next().next, Action::CheckExists(path) if path == file));
    assert!(matches!(next().next, Action::Fetch(request) if request.id() == 1));
    assert!(matches!(next().next, Action::CreateFile(path) if path == file));
    let started = next();
    assert!(matches!(
        started.emit,
        Some(Event::Started { id: 1, destination, total_bytes: Some(30), url })
            if destination == PathBuf::from("dir/a") && url.as_str() == "http://example.com/a"
    ));
    assert!(started.publish.is_none());
    assert!(matches!(started.next, Action::NextChunk));
    assert!(matches!(next().next, Action::Write));
    let first = next();
    assert_eq!(first.publish, Some(Progress { bytes_downloaded: 10, total_bytes: Some(30) }));
    assert!(matches!(first.next, Action::NextChunk));
    assert!(matches!(next().next, Action::Write));
    assert_eq!(next().publish, None);
    let end = next();
    assert_eq!(end.publish, Some(Progress { bytes_downloaded: 30, total_bytes: Some(30) }));
    assert!(matches!(end.next, Action::Sync));
    assert!(matches!(
        next().next,
        Action::Finish(Ok(DownloadResult { path, bytes_downloaded: 30 }))
            if path == PathBuf::from("dir/a")
    ));
    assert!(steps.next().is_none());
}

#[test]
fn metadata_of_the_probe_is_announced() {
    let info = RemoteInfo {
        content_length: Some(7),
        accept_ranges: None,
        etag: Some("e".to_owned()),
        last_modified: None,
        content_type: None,
    };
    let step = steps(request("dir/a", false), vec![Input::Probed(Some(info))]).pop().unwrap();
    assert!(matches!(
        step.emit,
        Some(Event::Probed { id: 1, info })
            if info.content_length == Some(7) && info.etag.as_deref() == Some("e")
    ));
    let silent = steps(request("dir/a", false), vec![Input::Probed(None)]).pop().unwrap();
    assert!(silent.emit.is_none());
}

#[test]
fn a_destination_without_a_directory_needs_none_made() {
    assert!(matches!(
        last(request("/", false), vec![Input::Probed(None)]),
        Action::CheckExists(path) if path == PathBuf::from("/")
    ));
    assert!(matches!(
        last(request("a", false), vec![Input::Probed(None)]),
        Action::MakeDir(dir) if dir == PathBuf::from("")
    ));
}

#[test]
fn an_existing_file_is_refused_unless_it_may_be_overwritten() {
    let inputs =
        || vec![Input::Probed(None), Input::DirMade(Ok(())), Input::Exists(true)];
    assert!(matches!(
        outcome(request("dir/a", false), inputs()),
        Err(DownloadError::FileExists { path }) if path == PathBuf::from("dir/a")
    ));
    assert!(matches!(last(request("dir/a", true), inputs()), Action::Fetch(_)));
}

#[test]
fn a_directory_that_cannot_be_made_ends_the_attempt() {
    let inputs = vec![Input::Probed(None), Input::DirMade(Err(disk()))];
    assert!(matches!(outcome(request("dir/a", false), inputs), Err(DownloadError::Io(_))));
}

#[test]
fn a_cancelled_request_is_a_cancelled_download() {
    let fetched = |error| {
        outcome(
            request("dir/a", false),
            vec![
                Input::Probed(None),
                Input::DirMade(Ok(())),
                Input::Exists(false),
                Input::Fetched(Err(error)),
            ],
        )
    };
    let cancelled = fetched(BackendError::Cancelled).unwrap_err();
    assert!(matches!(cancelled, DownloadError::Cancelled));
    assert!(!cancelled.is_retryable());
    let failed = fetched(BackendError::Timeout("t".to_owned())).unwrap_err();
    assert!(matches!(
        &failed,
        DownloadError::Network(NetworkError::Backend(BackendError::Timeout(t))) if t == "t"
    ));
    assert!(failed.is_retryable());
}

#[test]
fn a_file_that_cannot_be_created_ends_the_attempt() {
    let mut inputs = opened(None);
    inputs.pop();
    inputs.push(Input::Created(Err(disk())));
    assert!(matches!(outcome(request("dir/a", false), inputs), Err(DownloadError::Io(_))));
}

#[test]
fn a_partial_file_is_removed_on_cancellation() {
    let inputs = || then(opened(None), vec![Input::Chunk(3), written(true), Input::Cancelled]);
    assert!(matches!(
        last(request("dir/a", false), inputs()),
        Action::RemoveFile(path) if path == PathBuf::from("dir/a")
    ));
    let removed = then(inputs(), vec![Input::Removed(Ok(()))]);
    assert!(matches!(outcome(request("dir/a", false), removed), Err(DownloadError::Cancelled)));
    let stuck = then(inputs(), vec![Input::Removed(Err(disk()))]);
    let error = outcome(request("dir/a", false), stuck).unwrap_err();
    assert!(matches!(error, DownloadError::Io(_)));
    assert!(!error.is_retryable());
}

#[test]
fn a_partial_file_is_removed_on_every_failure() {
    let failures = vec![
        vec![Input::ChunkFailed(BackendError::Connect("c".to_owned()))],
        vec![Input::Chunk(3), Input::Written { result: Err(disk()), due: true }],
        vec![Input::EndOfStream, Input::Synced(Err(disk()))],
    ];
    for failure in failures {
        let inputs = then(opened(Some(9)), failure);
        assert!(matches!(last(request("dir/a", false), inputs), Action::RemoveFile(_)));
    }
}

#[test]
fn the_error_behind_a_removal_is_reported() {
    let network = then(
        opened(Some(9)),
        vec![
            Input::ChunkFailed(BackendError::Connect("c".to_owned())),
            Input::Removed(Ok(())),
        ],
    );
    let error = outcome(request("dir/a", false), network).unwrap_err();
    assert!(matches!(
        &error,
        DownloadError::Network(NetworkError::Backend(BackendError::Connect(c))) if c == "c"
    ));
    assert!(error.is_retryable());
    let write = then(
        opened(Some(9)),
        vec![
            Input::Chunk(3),
            Input::Written { result: Err(disk()), due: true },
            Input::Removed(Ok(())),
        ],
    );
    let error = outcome(request("dir/a", false), write).unwrap_err();
    assert_eq!(error.message(), "I/O error: disk");
    assert!(!error.is_retryable());
}

#[test]
fn the_first_io_error_is_reported_where_the_file_will_not_go() {
    let failures = vec![
        vec![Input::Chunk(3), Input::Written { result: Err(Error::other("first")), due: true }],
        vec![Input::EndOfStream, Input::Synced(Err(Error::other("first")))],
    ];
    for failure in failures {
        let inputs = then(opened(Some(9)), then(failure, vec![Input::Removed(Err(disk()))]));
        let error = outcome(request("dir/a", false), inputs).unwrap_err();
        assert_eq!(error.message(), "I/O error: first");
    }
    let network = then(
        opened(Some(9)),
        vec![
            Input::ChunkFailed(BackendError::Connect("c".to_owned())),
            Input::Removed(Err(disk())),
        ],
    );
    let error = outcome(request("dir/a", false), network).unwrap_err();
    assert_eq!(error.message(), "I/O error: disk");
}

#[test]
fn an_attempt_begins_with_a_probe_of_its_request() {
    let request = request("dir/a", false);
    let (_, step) = Attempt::begin(request.clone());
    assert!(step.emit.is_none() && step.publish.is_none());
    match step.next {
        Action::Probe(target) => assert!(Arc::ptr_eq(&target, &request)),
        _ => panic!("the probe comes first"),
    }
}

#[test]
fn a_request_is_made_once_and_for_the_request() {
    let inputs = then(opened(Some(0)), vec![Input::EndOfStream, Input::Synced(Ok(()))]);
    let request = request("dir/a", false);
    let mut fetched = 0;
    for step in steps(request.clone(), inputs) {
        assert!(!matches!(step.next, Action::Probe(_)));
        if let Action::Fetch(target) = step.next {
            assert!(Arc::ptr_eq(&target, &request));
            fetched += 1;
        }
    }
    assert_eq!(fetched, 1);
}

#[test]
fn a_request_that_is_cancelled_never_starts() {
    let inputs = vec![
        Input::Probed(None),
        Input::DirMade(Ok(())),
        Input::Exists(false),
        Input::Fetched(Err(BackendError::Cancelled)),
    ];
    let steps = steps(request("dir/a", false), inputs);
    assert!(steps.iter().all(|step| step.emit.is_none()));
    assert!(steps.iter().all(|step| !matches!(step.next, Action::CreateFile(_))));
}

#[test]
fn an_empty_resource_is_complete_at_once() {
    let inputs = then(opened(Some(0)), vec![Input::EndOfStream, Input::Synced(Ok(()))]);
    let result = outcome(request("dir/a", false), inputs).unwrap();
    assert_eq!(result.bytes_downloaded, 0);
}

#[test]
fn only_the_result_of_the_current_step_is_awaited() {
    let (fresh, _) = Attempt::begin(request("dir/a", false));
    assert!(matches!(fresh.phase, Phase::Probing));
    assert!(fresh.is_awaiting(&Input::Probed(None)));
    for other in [
        Input::DirMade(Ok(())),
        Input::Exists(true),
        Input::Fetched(Ok(None)),
        Input::Created(Ok(())),
        Input::Chunk(1),
        Input::ChunkFailed(BackendError::Cancelled),
        Input::EndOfStream,
        Input::Cancelled,
        written(true),
        Input::Synced(Ok(())),
        Input::Removed(Ok(())),
    ] {
        assert!(!fresh.is_awaiting(&other));
    }
}

#[test]
fn nothing_is_awaited_once_the_attempt_is_over() {
    let (fresh, _) = Attempt::begin(request("dir/a", false));
    let (attempt, _) = fresh.step(Input::Probed(None));
    let (over, _) = attempt.step(Input::DirMade(Err(disk())));
    assert!(matches!(over.phase, Phase::Over));
    assert!(!over.is_awaiting(&Input::Probed(None)));
    assert!(!over.is_awaiting(&Input::Removed(Ok(()))));
}

#[test]
fn the_byte_count_never_goes_back() {
    let chunks = [5, 0, u64::MAX, 7];
    let mut inputs = opened(None);
    for bytes in chunks {
        inputs.push(Input::Chunk(bytes));
        inputs.push(written(true));
    }
    let counts: Vec<u64> = steps(request("dir/a", false), inputs)
        .into_iter()
        .filter_map(|step| step.publish)
        .map(|progress| progress.bytes_downloaded())
        .collect();
    assert_eq!(counts, vec![5, 5, u64::MAX, u64::MAX]);
}
