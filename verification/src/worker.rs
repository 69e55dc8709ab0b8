//! One attempt at a download.
//!
//! An attempt is a sequence of steps outside this library (a probe, a request,
//! reading and writing) with a decision after each of them. The decisions are
//! made here: each result of a step is handed in, and what comes back says what
//! to publish and which step is next.

use crate::backend::BackendError;
use crate::download::{DownloadResult, Outcome, RemoteInfo};
use crate::error::{DownloadError, NetworkError};
use crate::events::{Event, Progress};
use crate::external::values::{parent_of, path_parent};
use crate::request::Request;
use std::path::PathBuf;
use std::sync::Arc;
use vstd::pervasive::unreached;
use vstd::prelude::*;

verus! {

/// How far an attempt has come.
#[derive(Debug)]
pub enum Phase {
    /// The remote resource is being probed.
    Probing,
    /// The directory of the destination is being created.
    MakingDir,
    /// The destination is being looked for.
    Checking,
    /// The download is being requested.
    Fetching,
    /// The destination file is being created.
    Creating { total_bytes: Option<u64> },
    /// The next chunk is awaited.
    Streaming { progress: Progress },
    /// A chunk of so many bytes is being written.
    Writing { progress: Progress, bytes: u64 },
    /// The complete file is being flushed.
    Syncing { progress: Progress },
    /// The partial file is being removed because of this error.
    Removing { error: DownloadError },
    /// The attempt is over.
    Over,
}

/// The result of a step.
#[derive(Debug)]
pub enum Input {
    /// The probe ended, with metadata where there was any.
    Probed(Option<RemoteInfo>),
    /// The directory was created, or not.
    DirMade(Result<(), std::io::Error>),
    /// The destination exists, or not.
    Exists(bool),
    /// The response headers arrived with this length, or the request failed.
    Fetched(Result<Option<u64>, BackendError>),
    /// The destination file was created, or not.
    Created(Result<(), std::io::Error>),
    /// A chunk of so many bytes arrived.
    Chunk(u64),
    /// The next chunk could not be read.
    ChunkFailed(BackendError),
    /// There are no more chunks.
    EndOfStream,
    /// The download was cancelled while a chunk was awaited.
    Cancelled,
    /// The chunk was written, or not; `due` tells whether progress is to be
    /// published now.
    Written { result: Result<(), std::io::Error>, due: bool },
    /// The file was flushed, or not.
    Synced(Result<(), std::io::Error>),
    /// The partial file was removed, or not.
    Removed(Result<(), std::io::Error>),
}

/// The next step of an attempt.
#[derive(Debug)]
pub enum Action<C> {
    /// Probe the remote resource with the call of this request.
    Probe(Arc<Request<C>>),
    /// Create this directory and those above it.
    MakeDir(PathBuf),
    /// Look for this file.
    CheckExists(PathBuf),
    /// Make the call of this request.
    Fetch(Arc<Request<C>>),
    /// Create this file.
    CreateFile(PathBuf),
    /// Await the next chunk, or cancellation.
    NextChunk,
    /// Write the chunk that arrived.
    Write,
    /// Flush the file.
    Sync,
    /// Close the file and remove it, by its path.
    RemoveFile(PathBuf),
    /// Report the outcome of the attempt.
    Finish(Outcome),
}

/// What follows from the result of a step, or from the decision to begin: first
/// the event, then the progress, then the next step.
#[derive(Debug)]
pub struct Step<C> {
    pub emit: Option<Event>,
    pub publish: Option<Progress>,
    pub next: Action<C>,
}

/// An attempt at a download.
#[derive(Debug)]
pub struct Attempt<C> {
    pub request: Arc<Request<C>>,
    pub phase: Phase,
}

/// Only a next step.
pub open spec fn quiet<C>(next: Action<C>) -> Step<C> {
    Step { emit: None, publish: None, next }
}

/// The next step.
fn quietly<C>(next: Action<C>) -> (step: Step<C>)
    ensures
        step == quiet(next),
{
    Step { emit: None, publish: None, next }
}

impl<C> Attempt<C> {
    /// The result belongs to the step that the attempt is at.
    pub open spec fn awaits(self, input: Input) -> bool {
        match self.phase {
            Phase::Probing => input is Probed,
            Phase::MakingDir => input is DirMade,
            Phase::Checking => input is Exists,
            Phase::Fetching => input is Fetched,
            Phase::Creating { .. } => input is Created,
            Phase::Streaming { .. } => {
                input is Chunk || input is ChunkFailed || input is EndOfStream || input is Cancelled
            },
            Phase::Writing { .. } => input is Written,
            Phase::Syncing { .. } => input is Synced,
            Phase::Removing { .. } => input is Removed,
            Phase::Over => false,
        }
    }

    /// The attempt in another phase.
    pub open spec fn at(self, phase: Phase) -> Self {
        Attempt { request: self.request, phase }
    }

    /// The attempt is over with this outcome.
    pub open spec fn over(self, outcome: Outcome) -> (Self, Step<C>) {
        (self.at(Phase::Over), quiet(Action::Finish(outcome)))
    }

    /// The attempt has failed with a file in place, which has to go first.
    pub open spec fn removing(self, error: DownloadError) -> (Self, Step<C>) {
        (self.at(Phase::Removing { error }), quiet(Action::RemoveFile(self.request.destination)))
    }

    /// The transfer goes on, at this progress.
    pub open spec fn streaming(self, progress: Progress) -> Self {
        self.at(Phase::Streaming { progress })
    }

    /// The event that the metadata of a probe gives rise to.
    pub open spec fn probed_event(self, info: Option<RemoteInfo>) -> Option<Event> {
        match info {
            Some(info) => Some(Event::Probed { id: self.request.id, info }),
            None => None,
        }
    }

    /// The attempt and the step that follow from the result of the current step.
    pub open spec fn after(self, input: Input) -> (Self, Step<C>) {
        match (self.phase, input) {
            // The probe is best effort. Then the directory is made, if there is one.
            (Phase::Probing, Input::Probed(info)) => match path_parent(self.request.destination) {
                Some(dir) => (
                    self.at(Phase::MakingDir),
                    Step {
                        emit: self.probed_event(info),
                        publish: None,
                        next: Action::MakeDir(dir),
                    },
                ),
                None => (
                    self.at(Phase::Checking),
                    Step {
                        emit: self.probed_event(info),
                        publish: None,
                        next: Action::CheckExists(self.request.destination),
                    },
                ),
            },
            (Phase::MakingDir, Input::DirMade(Ok(_))) => (
                self.at(Phase::Checking),
                quiet(Action::CheckExists(self.request.destination)),
            ),
            (Phase::MakingDir, Input::DirMade(Err(e))) => self.over(Err(DownloadError::Io(e))),
            // An existing destination is refused unless it may be overwritten.
            (Phase::Checking, Input::Exists(exists)) => if exists
                && !self.request.config.overwrite {
                self.over(
                    Err(DownloadError::FileExists { path: self.request.destination }),
                )
            } else {
                (self.at(Phase::Fetching), quiet(Action::Fetch(self.request)))
            },
            // A cancelled request is a cancelled download, not a network error.
            (Phase::Fetching, Input::Fetched(Ok(total_bytes))) => (
                self.at(Phase::Creating { total_bytes }),
                quiet(Action::CreateFile(self.request.destination)),
            ),
            (Phase::Fetching, Input::Fetched(Err(BackendError::Cancelled))) => self.over(
                Err(DownloadError::Cancelled),
            ),
            (Phase::Fetching, Input::Fetched(Err(e))) => self.over(
                Err(DownloadError::Network(NetworkError::Backend(e))),
            ),
            // The download has started once its file is there.
            (Phase::Creating { total_bytes }, Input::Created(Ok(_))) => (
                self.streaming(Progress { bytes_downloaded: 0, total_bytes }),
                Step {
                    emit: Some(
                        Event::Started {
                            id: self.request.id,
                            url: self.request.url,
                            destination: self.request.destination,
                            total_bytes,
                        },
                    ),
                    publish: None,
                    next: Action::NextChunk,
                },
            ),
            (Phase::Creating { .. }, Input::Created(Err(e))) => self.over(
                Err(DownloadError::Io(e)),
            ),
            // Chunks are written and counted until the stream ends.
            (Phase::Streaming { progress }, Input::Chunk(bytes)) => (
                self.at(Phase::Writing { progress, bytes }),
                quiet(Action::Write),
            ),
            (Phase::Streaming { .. }, Input::ChunkFailed(e)) => self.removing(
                DownloadError::Network(NetworkError::Backend(e)),
            ),
            (Phase::Streaming { .. }, Input::Cancelled) => self.removing(DownloadError::Cancelled),
            (Phase::Streaming { progress }, Input::EndOfStream) => (
                self.at(Phase::Syncing { progress }),
                Step { emit: None, publish: Some(progress), next: Action::Sync },
            ),
            (Phase::Writing { progress, bytes }, Input::Written { result: Ok(_), due }) => (
                self.streaming(progress.advanced(bytes)),
                Step {
                    emit: None,
                    publish: if due {
                        Some(progress.advanced(bytes))
                    } else {
                        None
                    },
                    next: Action::NextChunk,
                },
            ),
            (Phase::Writing { .. }, Input::Written { result: Err(e), .. }) => self.removing(
                DownloadError::Io(e),
            ),
            (Phase::Syncing { progress }, Input::Synced(Ok(_))) => self.over(
                Ok(
                    DownloadResult {
                        path: self.request.destination,
                        bytes_downloaded: progress.bytes_downloaded,
                    },
                ),
            ),
            (Phase::Syncing { .. }, Input::Synced(Err(e))) => self.removing(DownloadError::Io(e)),
            // The error that made the file go is reported, unless it would not go and
            // no I/O error came before.
            (Phase::Removing { error }, Input::Removed(Ok(_))) => self.over(Err(error)),
            (Phase::Removing { error: DownloadError::Io(e) }, Input::Removed(Err(_))) => self.over(
                Err(DownloadError::Io(e)),
            ),
            (Phase::Removing { .. }, Input::Removed(Err(e))) => self.over(
                Err(DownloadError::Io(e)),
            ),
            _ => arbitrary(),
        }
    }

    /// An attempt at this request, which begins with a probe.
    pub open spec fn begun(request: Arc<Request<C>>) -> (Self, Step<C>) {
        (Attempt { request, phase: Phase::Probing }, quiet(Action::Probe(request)))
    }

    /// Begin an attempt with a probe.
    pub fn begin(request: Arc<Request<C>>) -> (r: (Self, Step<C>))
        ensures
            r == Self::begun(request),
    {
        let next: Action<C> = Action::Probe(request.clone());
        (Attempt { request, phase: Phase::Probing }, quietly(next))
    }

    /// Whether the result belongs to the step that the attempt is at.
    pub fn is_awaiting(&self, input: &Input) -> (answer: bool)
        ensures
            answer == self.awaits(*input),
    {
        match (&self.phase, input) {
            (Phase::Probing, Input::Probed(_)) => true,
            (Phase::MakingDir, Input::DirMade(_)) => true,
            (Phase::Checking, Input::Exists(_)) => true,
            (Phase::Fetching, Input::Fetched(_)) => true,
            (Phase::Creating { .. }, Input::Created(_)) => true,
            (Phase::Streaming { .. }, Input::Chunk(_)) => true,
            (Phase::Streaming { .. }, Input::ChunkFailed(_)) => true,
            (Phase::Streaming { .. }, Input::EndOfStream) => true,
            (Phase::Streaming { .. }, Input::Cancelled) => true,
            (Phase::Writing { .. }, Input::Written { .. }) => true,
            (Phase::Syncing { .. }, Input::Synced(_)) => true,
            (Phase::Removing { .. }, Input::Removed(_)) => true,
            _ => false,
        }
    }

    fn into_over(self, outcome: Outcome) -> (r: (Self, Step<C>))
        ensures
            r == self.over(outcome),
    {
        (Attempt { request: self.request, phase: Phase::Over }, quietly(Action::Finish(outcome)))
    }

    fn into_removing(self, error: DownloadError) -> (r: (Self, Step<C>))
        ensures
            r == self.removing(error),
    {
        let path: PathBuf = self.request.destination().clone();
        (
            Attempt { request: self.request, phase: Phase::Removing { error } },
            quietly(Action::RemoveFile(path)),
        )
    }

    /// Take in the result of the current step and decide on the next one.
    pub fn step(self, input: Input) -> (r: (Self, Step<C>))
        requires
            self.awaits(input),
        ensures
            r == self.after(input),
    {
        let request: Arc<Request<C>> = self.request;
        let ended: Attempt<C> = Attempt { request: request.clone(), phase: Phase::Over };
        match (self.phase, input) {
            (Phase::Probing, Input::Probed(info)) => {
                let emit: Option<Event> = match info {
                    Some(info) => Some(Event::Probed { id: request.id(), info }),
                    None => None,
                };
                match parent_of(request.destination()) {
                    Some(dir) => (
                        Attempt { request, phase: Phase::MakingDir },
                        Step { emit, publish: None, next: Action::MakeDir(dir) },
                    ),
                    None => {
                        let next: Action<C> = Action::CheckExists(request.destination().clone());
                        (
                            Attempt { request, phase: Phase::Checking },
                            Step { emit, publish: None, next },
                        )
                    },
                }
            },
            (Phase::MakingDir, Input::DirMade(result)) => match result {
                Ok(_) => {
                    let path: PathBuf = request.destination().clone();
                    (
                        Attempt { request, phase: Phase::Checking },
                        quietly(Action::CheckExists(path)),
                    )
                },
                Err(e) => ended.into_over(Err(DownloadError::Io(e))),
            },
            (Phase::Checking, Input::Exists(exists)) => {
                if exists && !request.config().overwrite() {
                    let path: PathBuf = request.destination().clone();
                    return ended.into_over(Err(DownloadError::FileExists { path }));
                }
                let next: Action<C> = Action::Fetch(request.clone());
                (Attempt { request, phase: Phase::Fetching }, quietly(next))
            },
            (Phase::Fetching, Input::Fetched(result)) => match result {
                Ok(total_bytes) => {
                    let path: PathBuf = request.destination().clone();
                    (
                        Attempt { request, phase: Phase::Creating { total_bytes } },
                        quietly(Action::CreateFile(path)),
                    )
                },
                Err(BackendError::Cancelled) => ended.into_over(Err(DownloadError::Cancelled)),
                Err(e) => ended.into_over(Err(DownloadError::Network(NetworkError::Backend(e)))),
            },
            (Phase::Creating { total_bytes }, Input::Created(result)) => match result {
                Ok(_) => {
                    let event: Event = Event::Started {
                        id: request.id(),
                        url: request.url().clone(),
                        destination: request.destination().clone(),
                        total_bytes,
                    };
                    let progress: Progress = Progress::new(total_bytes);
                    (
                        Attempt { request, phase: Phase::Streaming { progress } },
                        Step { emit: Some(event), publish: None, next: Action::NextChunk },
                    )
                },
                Err(e) => ended.into_over(Err(DownloadError::Io(e))),
            },
            (Phase::Streaming { progress }, Input::Chunk(bytes)) => (
                Attempt { request, phase: Phase::Writing { progress, bytes } },
                quietly(Action::Write),
            ),
            (Phase::Streaming { .. }, Input::ChunkFailed(e)) => ended.into_removing(
                DownloadError::Network(NetworkError::Backend(e)),
            ),
            (Phase::Streaming { .. }, Input::Cancelled) => ended.into_removing(
                DownloadError::Cancelled,
            ),
            (Phase::Streaming { progress }, Input::EndOfStream) => (
                Attempt { request, phase: Phase::Syncing { progress } },
                Step { emit: None, publish: Some(progress), next: Action::Sync },
            ),
            (Phase::Writing { progress, bytes }, Input::Written { result, due }) => match result {
                Ok(_) => {
                    let mut progress: Progress = progress;
                    progress.update(bytes);
                    let publish: Option<Progress> = if due {
                        Some(progress)
                    } else {
                        None
                    };
                    (
                        Attempt { request, phase: Phase::Streaming { progress } },
                        Step { emit: None, publish, next: Action::NextChunk },
                    )
                },
                Err(e) => ended.into_removing(DownloadError::Io(e)),
            },
            (Phase::Syncing { progress }, Input::Synced(result)) => match result {
                Ok(_) => {
                    let path: PathBuf = request.destination().clone();
                    ended.into_over(
                        Ok(DownloadResult { path, bytes_downloaded: progress.bytes_downloaded() }),
                    )
                },
                Err(e) => ended.into_removing(DownloadError::Io(e)),
            },
            (Phase::Removing { error }, Input::Removed(result)) => match result {
                Ok(_) => ended.into_over(Err(error)),
                Err(e) => match error {
                    DownloadError::Io(first) => ended.into_over(Err(DownloadError::Io(first))),
                    _ => ended.into_over(Err(DownloadError::Io(e))),
                },
            },
            _ => unreached(),
        }
    }
}

} // verus!
