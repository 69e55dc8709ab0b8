use download_manager::download::RemoteInfo;
use download_manager::events::{Event, Progress};
use reqwest::Url;
use std::path::PathBuf;

fn events_of(id: u64) -> Vec<Event> {
    let url = Url::parse("http://example.com/a.zip").unwrap();
    let path = PathBuf::from("/tmp/a.zip");
    let info = RemoteInfo {
        content_length: None,
        accept_ranges: None,
        etag: None,
        last_modified: None,
        content_type: None,
    };
    vec![
        Event::Queued { id, url: url.clone(), destination: path.clone() },
        Event::Probed { id, info },
        Event::Started { id, url, destination: path.clone(), total_bytes: Some(9) },
        Event::Retrying { id, attempt: 1, next_delay_ms: 1_000 },
        Event::Completed { id, path, bytes_downloaded: 9 },
        Event::Failed { id, error: "no".to_owned() },
        Event::Cancelled { id },
    ]
}

#[test]
fn every_event_names_its_download() {
    for event in events_of(17) {
        assert_eq!(event.id(), 17);
    }
}

#[test]
fn events_belong_to_their_own_download_only() {
    for event in events_of(17) {
        assert!(event.concerns(17));
        assert!(!event.concerns(18));
    }
}

#[test]
fn progress_counts_bytes() {
    let mut progress = Progress::new(Some(100));
    assert_eq!(progress.bytes_downloaded(), 0);
    assert_eq!(progress.total_bytes(), Some(100));
    progress.update(40);
    progress.update(2);
    assert_eq!(progress, Progress { bytes_downloaded: 42, total_bytes: Some(100) });
}

#[test]
fn progress_stays_at_its_largest_count() {
    let mut progress = Progress::new(None);
    progress.update(u64::MAX - 1);
    progress.update(5);
    assert_eq!(progress.bytes_downloaded(), u64::MAX);
    assert_eq!(progress.total_bytes(), None);
}
