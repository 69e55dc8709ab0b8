use download_manager::config::DownloadManagerConfig;
use download_manager::manager::DownloadManager;
use download_manager::request::{RequestBuilder, StartError};
use download_manager::scheduler::{
    Effect, Scheduler, SchedulerCmd, SchedulerInput, Start, Stop, Turn,
};
use reqwest::Url;
use std::path::PathBuf;
use std::sync::Arc;

fn manager() -> DownloadManager {
    DownloadManager::new(DownloadManagerConfig::default())
}

fn complete(builder: RequestBuilder) -> RequestBuilder {
    builder.url(Url::parse("http://example.com/a").unwrap()).destination(PathBuf::from("a"))
}

fn enqueue(manager: &mut DownloadManager, scheduler: &mut Scheduler<(), u64>) -> Turn<(), u64> {
    let request = complete(manager.download_builder()).start(()).unwrap();
    let result_tx = request.id();
    scheduler.turn(SchedulerInput::Command(SchedulerCmd::Enqueue { request, result_tx }))
}

#[test]
fn a_new_manager_has_no_downloads() {
    let manager = manager();
    assert_eq!(manager.active_downloads(), 0);
    assert_eq!(manager.context.max_concurrent, 3);
    assert_eq!(manager.context.semaphore.available_permits(), 3);
    assert!(!manager.shutdown_token.is_cancelled());
    assert!(!manager.context.cancel_root.is_cancelled());
}

#[test]
fn requests_take_the_identifiers_of_their_manager() {
    let mut manager = manager();
    let ids: Vec<u64> = (0..3).map(|_| manager.download_builder().id).collect();
    assert_eq!(ids, vec![1, 2, 3]);
}

#[test]
fn cancelling_all_downloads_refuses_starts() {
    let mut manager = manager();
    let early = complete(manager.download_builder());
    let running = complete(manager.download_builder()).start(()).unwrap();
    manager.cancel_all().cancel();
    assert!(running.cancel_token.is_cancelled());
    assert!(manager.child_token().is_cancelled());
    assert!(!manager.shutdown_token.is_cancelled());
    assert_eq!(early.start(()).unwrap_err(), StartError::ManagerShutdown);
    for _ in 0..2 {
        let late = complete(manager.download_builder()).start(());
        assert_eq!(late.unwrap_err(), StartError::ManagerShutdown);
    }
}

#[test]
fn shutting_down_refuses_starts() {
    let mut manager = manager();
    let early = complete(manager.download_builder());
    let token = manager.child_token();
    manager.shutdown().cancel();
    assert!(token.is_cancelled());
    assert!(manager.context.cancel_root.is_cancelled());
    assert_eq!(early.start(()).unwrap_err(), StartError::ManagerShutdown);
    let late = complete(manager.download_builder()).start(());
    assert_eq!(late.unwrap_err(), StartError::ManagerShutdown);
}

#[test]
fn the_scheduler_asks_the_semaphore_and_the_token_of_its_manager() {
    let mut manager = manager();
    let mut scheduler: Scheduler<(), u64> = manager.scheduler();
    let turn = enqueue(&mut manager, &mut scheduler);
    let start = &turn.round.as_ref().unwrap().started[0];
    assert!(Arc::ptr_eq(start.permit.semaphore(), &manager.context.semaphore));
    let request = complete(manager.download_builder()).start(()).unwrap();
    manager.shutdown().cancel();
    let turn = scheduler
        .turn(SchedulerInput::Command(SchedulerCmd::Enqueue { request, result_tx: 2 }));
    assert_eq!(turn.round.unwrap().stop, Stop::Halted);
}

#[test]
fn a_shutdown_settles_everything_and_a_second_one_does_nothing() {
    let mut manager = manager();
    let mut scheduler: Scheduler<(), u64> = manager.scheduler();
    let mut guards = Vec::new();
    let mut requests = Vec::new();
    for _ in 0..5 {
        for Start { request, permit, .. } in
            enqueue(&mut manager, &mut scheduler).round.unwrap().started
        {
            guards.push(manager.context.enter(permit));
            requests.push(request);
        }
    }
    assert_eq!(manager.active_downloads(), 3);
    manager.shutdown().cancel();
    let turn = scheduler.turn(SchedulerInput::Shutdown);
    let mut answered: Vec<u64> = turn
        .effects
        .iter()
        .filter_map(|effect| match effect {
            Effect::Resolve { to, .. } => Some(*to),
            _ => None,
        })
        .collect();
    answered.sort();
    assert_eq!(answered, vec![1, 2, 3, 4, 5]);
    for guard in guards {
        drop(manager.context.leave(guard));
    }
    assert_eq!(manager.active_downloads(), 0);
    assert_eq!(manager.context.semaphore.available_permits(), 3);
    assert!(requests.iter().all(|request| request.cancel_token.is_cancelled()));
    assert!(scheduler.turn(SchedulerInput::Shutdown).effects.is_empty());
}
