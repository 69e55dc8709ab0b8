use download_manager::config::DownloadManagerConfig;
use download_manager::context::Context;
use std::sync::Arc;
use tokio::sync::Semaphore;
use tokio_util::sync::CancellationToken;

fn context(limit: usize) -> Context {
    let mut builder = DownloadManagerConfig::builder();
    Context::new(builder.max_concurrent(limit).unwrap().build(), CancellationToken::new())
}

#[test]
fn a_context_has_as_many_permits_as_its_limit() {
    let ctx = context(4);
    assert_eq!(ctx.max_concurrent, 4);
    assert_eq!(ctx.semaphore.available_permits(), 4);
    assert_eq!(ctx.active_downloads(), 0);
}

#[test]
fn a_limit_beyond_any_semaphore_is_cut_off() {
    let ctx = context(usize::MAX);
    assert_eq!(ctx.max_concurrent, usize::MAX);
    assert_eq!(ctx.semaphore.available_permits(), Semaphore::MAX_PERMITS);
    assert_eq!(context(Semaphore::MAX_PERMITS).semaphore.available_permits(), usize::MAX / 8);
}

#[test]
fn child_tokens_are_cancelled_with_all_downloads() {
    let ctx = context(1);
    let token = ctx.child_token();
    let other = ctx.child_token();
    other.cancel();
    assert!(!token.is_cancelled() && !ctx.cancel_root.is_cancelled());
    ctx.cancel_all().cancel();
    assert!(token.is_cancelled());
    assert!(ctx.child_token().is_cancelled());
}

#[test]
fn identifiers_start_at_one_and_grow() {
    let mut ctx = context(1);
    let ids: Vec<u64> = (0..5).map(|_| ctx.next_id()).collect();
    assert_eq!(ids, vec![1, 2, 3, 4, 5]);
}

#[test]
fn identifiers_start_over_after_the_largest() {
    let mut ctx = context(1);
    ctx.id_counter = u64::MAX;
    assert_eq!(ctx.next_id(), u64::MAX);
    assert_eq!(ctx.next_id(), 0);
    assert_eq!(ctx.next_id(), 1);
}

#[test]
fn running_downloads_are_counted_until_they_end() {
    let mut ctx = context(2);
    let first = ctx.semaphore.clone().try_acquire_owned().unwrap();
    let second = ctx.semaphore.clone().try_acquire_owned().unwrap();
    let first = ctx.enter(first);
    let second = ctx.enter(second);
    assert_eq!(ctx.active_downloads(), 2);
    assert_eq!(ctx.semaphore.available_permits(), 0);
    drop(ctx.leave(first));
    assert_eq!(ctx.active_downloads(), 1);
    assert_eq!(ctx.semaphore.available_permits(), 1);
    let permit = ctx.leave(second);
    assert_eq!(ctx.active_downloads(), 0);
    assert!(Arc::ptr_eq(permit.semaphore(), &ctx.semaphore));
}
