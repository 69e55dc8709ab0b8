use download_manager::backend::BackendError;
use download_manager::config::DownloadManagerConfig;
use download_manager::context::Context;
use download_manager::download::{DownloadResult, Outcome};
use download_manager::error::{DownloadError, NetworkError};
use download_manager::events::Event;
use download_manager::request::Request;
use download_manager::scheduler::{
    Dispatch, Effect, Round, Scheduler, SchedulerCmd, SchedulerInput, Start, Stop, Turn, WorkerMsg,
};
use reqwest::Url;
use std::path::PathBuf;
use std::sync::Arc;
use std::time::Duration;
use tokio_util::sync::CancellationToken;

/// A scheduler, the context of its manager and the token that shuts it down.
/// The result of the download with a given identifier goes to ten times that.
struct Setup {
    ctx: Context,
    shutdown: CancellationToken,
    scheduler: Scheduler<(), u64>,
}

impl Setup {
    fn new(limit: usize) -> Setup {
        let mut builder = DownloadManagerConfig::builder();
        let shutdown = CancellationToken::new();
        let config = builder.max_concurrent(limit).unwrap().build();
        let ctx = Context::new(config, shutdown.child_token());
        let scheduler = Scheduler::new(shutdown.clone(), ctx.semaphore.clone());
        Setup { ctx, shutdown, scheduler }
    }

    fn request(&mut self, retries: u32) -> Request<()> {
        Request::<()>::builder(&mut self.ctx)
            .url(Url::parse("http://example.com/a").unwrap())
            .destination(PathBuf::from("dir/a"))
            .retries(retries)
            .start(())
            .unwrap()
    }

    fn enqueue(&mut self, retries: u32) -> Turn<(), u64> {
        let request = self.request(retries);
        let result_tx = request.id() * 10;
        self.scheduler
            .turn(SchedulerInput::Command(SchedulerCmd::Enqueue { request, result_tx }))
    }

    fn finish(&mut self, id: u64, result: Outcome) -> Turn<(), u64> {
        self.scheduler.turn(SchedulerInput::Worker(WorkerMsg::Finish { id, result }))
    }

    fn cancel(&mut self, id: u64) -> Turn<(), u64> {
        self.scheduler.turn(SchedulerInput::Command(SchedulerCmd::Cancel { id }))
    }

    fn expire(&mut self, id: u64) -> Turn<(), u64> {
        self.scheduler.turn(SchedulerInput::Expired(id))
    }
}

fn started(turn: &Turn<(), u64>) -> Vec<u64> {
    turn.round.as_ref().unwrap().started.iter().map(|start| start.id).collect()
}

fn stop(turn: &Turn<(), u64>) -> Stop {
    turn.round.as_ref().unwrap().stop
}

fn answers(turn: &Turn<(), u64>) -> Vec<u64> {
    turn.effects
        .iter()
        .filter_map(|effect| match effect {
            Effect::Resolve { to, .. } => Some(*to),
            _ => None,
        })
        .collect()
}

fn done() -> Outcome {
    Ok(DownloadResult { path: PathBuf::from("dir/a"), bytes_downloaded: 9 })
}

fn timeout() -> Outcome {
    Err(DownloadError::Network(NetworkError::Backend(BackendError::Timeout("t".to_owned()))))
}

#[test]
fn a_queued_download_is_announced_and_started() {
    let mut setup = Setup::new(3);
    let turn = setup.enqueue(3);
    assert_eq!(turn.effects.len(), 1);
    assert!(matches!(
        &turn.effects[0],
        Effect::Emit { request, event: Event::Queued { id: 1, url, destination } }
            if request.id() == 1
                && url.as_str() == "http://example.com/a"
                && *destination == PathBuf::from("dir/a")
    ));
    assert_eq!(started(&turn), vec![1]);
    assert_eq!(stop(&turn), Stop::Drained);
    let start = &turn.round.as_ref().unwrap().started[0];
    assert!(Arc::ptr_eq(start.permit.semaphore(), &setup.ctx.semaphore));
    assert_eq!(start.request.destination(), &PathBuf::from("dir/a"));
}

#[test]
fn downloads_wait_for_a_permit_and_start_when_one_completes() {
    let mut setup = Setup::new(3);
    let mut running: Vec<Start<()>> = Vec::new();
    for id in 1..=6 {
        let turn = setup.enqueue(3);
        if id <= 3 {
            assert_eq!(started(&turn), vec![id]);
        } else {
            assert_eq!(started(&turn), Vec::<u64>::new());
            assert_eq!(stop(&turn), Stop::Blocked);
        }
        running.extend(turn.round.unwrap().started);
    }
    assert_eq!(setup.ctx.semaphore.available_permits(), 0);
    for id in 1..=3 {
        drop(running.remove(0));
        let turn = setup.finish(id, done());
        assert_eq!(started(&turn), vec![id + 3]);
        running.extend(turn.round.unwrap().started);
        assert_eq!(setup.ctx.semaphore.available_permits(), 0);
    }
}

#[test]
fn permits_can_be_back_before_their_reports() {
    let mut setup = Setup::new(3);
    let mut running: Vec<Start<()>> = Vec::new();
    for _ in 0..6 {
        running.extend(setup.enqueue(3).round.unwrap().started);
    }
    assert_eq!(running.len(), 3);
    running.truncate(1);
    let first = setup.finish(2, done());
    assert_eq!(started(&first), vec![4, 5]);
    assert_eq!(stop(&first), Stop::Blocked);
    assert_eq!(setup.ctx.semaphore.available_permits(), 0);
    let second = setup.finish(3, done());
    assert_eq!(started(&second), Vec::<u64>::new());
    drop(running);
    let command = setup.cancel(99);
    assert_eq!(started(&command), vec![6]);
    assert_eq!(stop(&command), Stop::Drained);
    assert_eq!(setup.ctx.semaphore.available_permits(), 0);
    assert_eq!(answers(&setup.finish(1, done())), vec![10]);
}

#[test]
fn running_downloads_are_counted_within_the_limit() {
    let mut setup = Setup::new(2);
    let mut guards = Vec::new();
    for _ in 0..5 {
        for start in setup.enqueue(3).round.unwrap().started {
            guards.push(setup.ctx.enter(start.permit));
        }
        assert!(setup.ctx.active_downloads() <= 2);
    }
    assert_eq!(setup.ctx.active_downloads(), 2);
    let mut next = 1;
    while let Some(guard) = guards.pop() {
        drop(setup.ctx.leave(guard));
        assert!(setup.ctx.active_downloads() <= 1);
        for start in setup.finish(next, done()).round.unwrap().started {
            guards.push(setup.ctx.enter(start.permit));
        }
        next += 1;
        assert!(setup.ctx.active_downloads() <= 2);
    }
    assert_eq!(setup.ctx.active_downloads(), 0);
}

#[test]
fn a_completed_download_is_announced_and_answered() {
    let mut setup = Setup::new(1);
    setup.enqueue(3);
    let turn = setup.finish(1, done());
    assert_eq!(turn.effects.len(), 2);
    assert!(matches!(
        &turn.effects[0],
        Effect::Emit { event: Event::Completed { id: 1, path, bytes_downloaded: 9 }, .. }
            if *path == PathBuf::from("dir/a")
    ));
    assert!(matches!(
        &turn.effects[1],
        Effect::Resolve { to: 10, result: Ok(DownloadResult { bytes_downloaded: 9, .. }) }
    ));
    assert!(setup.finish(1, done()).effects.is_empty());
}

#[test]
fn a_retryable_error_is_retried_as_often_as_permitted() {
    let mut setup = Setup::new(1);
    drop(setup.enqueue(2));
    for (attempt, seconds) in [(1, 1), (2, 2)] {
        let turn = setup.finish(1, timeout());
        assert_eq!(turn.effects.len(), 2);
        assert!(matches!(
            &turn.effects[0],
            Effect::Emit { event: Event::Retrying { id: 1, attempt: a, next_delay_ms }, .. }
                if *a == attempt && *next_delay_ms == seconds * 1_000
        ));
        assert!(matches!(
            &turn.effects[1],
            Effect::Delay { id: 1, delay } if *delay == Duration::from_secs(seconds)
        ));
        assert_eq!(started(&turn), Vec::<u64>::new());
        assert_eq!(started(&setup.expire(1)), vec![1]);
    }
    let turn = setup.finish(1, timeout());
    assert!(matches!(
        &turn.effects[0],
        Effect::Emit { event: Event::Failed { id: 1, error }, .. }
            if error == "Network error: Request timed out: t"
    ));
    assert!(matches!(
        &turn.effects[1],
        Effect::Resolve { to: 10, result: Err(error) } if error.is_retryable()
    ));
    assert_eq!(turn.effects.len(), 2);
    assert_eq!(started(&setup.expire(1)), Vec::<u64>::new());
}

#[test]
fn no_retries_means_one_attempt() {
    let mut setup = Setup::new(1);
    drop(setup.enqueue(0));
    assert_eq!(answers(&setup.finish(1, timeout())), vec![10]);
}

#[test]
fn other_errors_fail_at_once() {
    let mut setup = Setup::new(1);
    drop(setup.enqueue(3));
    let turn = setup.finish(1, Err(DownloadError::Io(std::io::Error::other("disk"))));
    assert!(matches!(
        &turn.effects[0],
        Effect::Emit { event: Event::Failed { id: 1, error }, .. } if error == "I/O error: disk"
    ));
    assert!(matches!(
        &turn.effects[1],
        Effect::Resolve { to: 10, result: Err(DownloadError::Io(_)) }
    ));
}

#[test]
fn a_cancelled_attempt_cancels_its_download() {
    let mut setup = Setup::new(1);
    drop(setup.enqueue(3));
    let turn = setup.finish(1, Err(DownloadError::Cancelled));
    assert_eq!(turn.effects.len(), 3);
    assert!(matches!(&turn.effects[0], Effect::CancelToken { request } if request.id() == 1));
    assert!(matches!(
        &turn.effects[1],
        Effect::Emit { event: Event::Cancelled { id: 1 }, .. }
    ));
    assert!(matches!(
        &turn.effects[2],
        Effect::Resolve { to: 10, result: Err(DownloadError::Cancelled) }
    ));
}

#[test]
fn a_cancelled_download_never_starts() {
    let mut setup = Setup::new(1);
    let first = setup.enqueue(3);
    assert_eq!(started(&first), vec![1]);
    assert_eq!(started(&setup.enqueue(3)), Vec::<u64>::new());
    assert_eq!(started(&setup.enqueue(3)), Vec::<u64>::new());
    assert_eq!(answers(&setup.cancel(2)), vec![20]);
    drop(first);
    assert_eq!(started(&setup.finish(1, done())), vec![3]);
}

#[test]
fn a_cancelled_retry_never_starts() {
    let mut setup = Setup::new(1);
    drop(setup.enqueue(3));
    drop(setup.finish(1, timeout()));
    assert_eq!(answers(&setup.cancel(1)), vec![10]);
    let turn = setup.expire(1);
    assert_eq!(started(&turn), Vec::<u64>::new());
    assert_eq!(stop(&turn), Stop::Drained);
    assert_eq!(setup.ctx.semaphore.available_permits(), 1);
}

#[test]
fn cancelling_a_missing_download_does_nothing() {
    let mut setup = Setup::new(1);
    drop(setup.enqueue(3));
    assert!(setup.cancel(7).effects.is_empty());
    drop(setup.finish(1, done()));
    assert!(setup.cancel(1).effects.is_empty());
}

#[test]
fn waiting_downloads_start_in_their_order() {
    let mut setup = Setup::new(2);
    let permit = setup.ctx.semaphore.clone().try_acquire_owned().unwrap();
    let other = setup.ctx.semaphore.clone().try_acquire_owned().unwrap();
    for _ in 0..4 {
        assert_eq!(stop(&setup.enqueue(3)), Stop::Blocked);
    }
    drop(setup.cancel(2));
    drop((permit, other));
    let round: Round<()> = setup.scheduler.try_dispatch();
    let ids: Vec<u64> = round.started.iter().map(|start| start.id).collect();
    assert_eq!(ids, vec![1, 3]);
    assert_eq!(round.stop, Stop::Blocked);
}

#[test]
fn a_retry_waits_behind_the_others() {
    let mut setup = Setup::new(1);
    let first = setup.enqueue(3);
    drop(setup.enqueue(3));
    drop(first);
    let second = setup.finish(1, timeout());
    assert_eq!(started(&second), vec![2]);
    drop(setup.enqueue(3));
    drop(setup.expire(1));
    drop(second);
    let third = setup.finish(2, done());
    assert_eq!(started(&third), vec![3]);
    drop(third);
    assert_eq!(started(&setup.finish(3, done())), vec![1]);
}

#[test]
fn a_shutdown_cancels_every_download_once() {
    let mut setup = Setup::new(1);
    drop(setup.enqueue(3));
    drop(setup.enqueue(3));
    drop(setup.enqueue(3));
    drop(setup.finish(1, done()));
    let turn = setup.scheduler.turn(SchedulerInput::Shutdown);
    assert!(turn.round.is_none());
    assert_eq!(turn.effects.len(), 6);
    let mut answered = answers(&turn);
    answered.sort();
    assert_eq!(answered, vec![20, 30]);
    assert!(setup.scheduler.turn(SchedulerInput::Shutdown).effects.is_empty());
}

#[test]
fn nothing_starts_while_shutting_down() {
    let mut setup = Setup::new(3);
    let request = setup.request(3);
    setup.shutdown.cancel();
    let turn = setup
        .scheduler
        .turn(SchedulerInput::Command(SchedulerCmd::Enqueue { request, result_tx: 10 }));
    assert_eq!(started(&turn), Vec::<u64>::new());
    assert_eq!(stop(&turn), Stop::Halted);
    assert_eq!(answers(&setup.scheduler.turn(SchedulerInput::Shutdown)), vec![10]);
}

#[test]
fn every_download_is_answered_once() {
    let mut setup = Setup::new(2);
    let mut answered: Vec<u64> = Vec::new();
    for _ in 0..5 {
        answered.extend(answers(&setup.enqueue(1)));
    }
    for turn in [
        setup.finish(1, done()),
        setup.finish(2, timeout()),
        setup.cancel(4),
        setup.expire(2),
        setup.finish(2, timeout()),
        setup.finish(2, timeout()),
        setup.finish(4, Err(DownloadError::Cancelled)),
        setup.scheduler.turn(SchedulerInput::Shutdown),
    ] {
        answered.extend(answers(&turn));
    }
    answered.sort();
    assert_eq!(answered, vec![10, 20, 30, 40, 50]);
}

#[test]
fn every_event_is_published_through_its_own_request() {
    let mut setup = Setup::new(1);
    let turns = vec![
        setup.enqueue(1),
        setup.enqueue(1),
        setup.enqueue(1),
        setup.finish(1, timeout()),
        setup.finish(1, timeout()),
        setup.finish(2, done()),
        setup.scheduler.turn(SchedulerInput::Shutdown),
    ];
    let mut published = 0;
    for effect in turns.into_iter().flat_map(|turn| turn.effects) {
        if let Effect::Emit { request, event } = effect {
            assert!(event.concerns(request.id()));
            published += 1;
        }
    }
    assert_eq!(published, 7);
}

#[test]
fn a_dispatch_has_one_of_five_outcomes() {
    let mut setup = Setup::new(1);
    let gate = setup.ctx.semaphore.clone();
    let permit = || gate.clone().try_acquire_owned().ok();
    assert!(matches!(setup.scheduler.dispatch_next(false, permit()), Dispatch::Idle));
    let held = permit().unwrap();
    drop(setup.enqueue(3));
    drop(setup.enqueue(3));
    drop(setup.enqueue(3));
    drop(setup.cancel(1));
    assert!(matches!(setup.scheduler.dispatch_next(false, None), Dispatch::Blocked));
    drop(held);
    assert!(matches!(setup.scheduler.dispatch_next(false, permit()), Dispatch::Skipped));
    assert_eq!(gate.available_permits(), 1);
    match setup.scheduler.dispatch_next(false, permit()) {
        Dispatch::Started(start) => assert_eq!(start.id, 2),
        _ => panic!("a download waits"),
    }
    assert!(matches!(setup.scheduler.dispatch_next(true, permit()), Dispatch::Halted));
    assert!(matches!(setup.scheduler.dispatch_next(false, permit()), Dispatch::Idle));
}
