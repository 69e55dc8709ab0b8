//! Lifecycle events and the progress of a transfer.

use crate::context::DownloadID;
use crate::download::RemoteInfo;
use reqwest::Url;
use std::path::PathBuf;
use vstd::prelude::*;

verus! {

/// A step in the life of a download.
#[derive(Debug, Clone)]
pub enum Event {
    Queued { id: DownloadID, url: Url, destination: PathBuf },
    Probed { id: DownloadID, info: RemoteInfo },
    Started { id: DownloadID, url: Url, destination: PathBuf, total_bytes: Option<u64> },
    Retrying { id: DownloadID, attempt: u32, next_delay_ms: u64 },
    Completed { id: DownloadID, path: PathBuf, bytes_downloaded: u64 },
    Failed { id: DownloadID, error: String },
    Cancelled { id: DownloadID },
}

impl Event {
    /// The download that the event is about.
    pub open spec fn subject(self) -> DownloadID {
        match self {
            Event::Queued { id, .. } => id,
            Event::Probed { id, .. } => id,
            Event::Started { id, .. } => id,
            Event::Retrying { id, .. } => id,
            Event::Completed { id, .. } => id,
            Event::Failed { id, .. } => id,
            Event::Cancelled { id } => id,
        }
    }

    /// The download that the event is about.
    pub fn id(&self) -> (id: DownloadID)
        ensures
            id == self.subject(),
    {
        match self {
            Event::Queued { id, .. } => *id,
            Event::Probed { id, .. } => *id,
            Event::Started { id, .. } => *id,
            Event::Retrying { id, .. } => *id,
            Event::Completed { id, .. } => *id,
            Event::Failed { id, .. } => *id,
            Event::Cancelled { id } => *id,
        }
    }

    /// Whether the event belongs on the event stream of this download's handle:
    /// exactly when the download is its subject.
    pub fn concerns(&self, download: DownloadID) -> (answer: bool)
        ensures
            answer == (self.subject() == download),
    {
        self.id() == download
    }
}

/// How far a transfer has come.
#[derive(Debug, Clone, Copy, PartialEq, Eq, Structural)]
pub struct Progress {
    pub bytes_downloaded: u64,
    pub total_bytes: Option<u64>,
}

impl Progress {
    /// A transfer that has not moved a byte yet, of the size that the server
    /// announced.
    pub fn new(total_bytes: Option<u64>) -> (progress: Progress)
        ensures
            progress == (Progress { bytes_downloaded: 0, total_bytes }),
    {
        Progress { bytes_downloaded: 0, total_bytes }
    }

    /// The progress after so many more bytes. The count stays at its maximum
    /// once it gets there.
    pub open spec fn advanced(self, bytes: u64) -> Progress {
        Progress {
            bytes_downloaded: if self.bytes_downloaded + bytes > u64::MAX {
                u64::MAX
            } else {
                (self.bytes_downloaded + bytes) as u64
            },
            total_bytes: self.total_bytes,
        }
    }

    /// Count so many more bytes.
    pub fn update(&mut self, bytes: u64)
        ensures
            *final(self) == old(self).advanced(bytes),
    {
        self.bytes_downloaded = self.bytes_downloaded.saturating_add(bytes);
    }

    /// The bytes received so far.
    pub fn bytes_downloaded(&self) -> (bytes: u64)
        ensures
            bytes == self.bytes_downloaded,
    {
        self.bytes_downloaded
    }

    /// The size that the server announced.
    pub fn total_bytes(&self) -> (bytes: Option<u64>)
        ensures
            bytes == self.total_bytes,
    {
        self.total_bytes
    }
}

} // verus!
