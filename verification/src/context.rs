//! What all downloads of one manager share: the permits, the identifiers, the
//! count of running downloads and the token that cancels them all.

use crate::config::DownloadManagerConfig;
use crate::external::runtime::{
    child_of, max_permits, semaphore_size, semaphore_with, token_origin,
};
use std::sync::Arc;
use tokio::sync::{OwnedSemaphorePermit, Semaphore};
use tokio_util::sync::CancellationToken;
use vstd::prelude::*;

verus! {

/// Unique identifier of a download, growing from one.
pub type DownloadID = u64;

/// State shared by all downloads of one manager.
#[derive(Debug)]
pub struct Context {
    /// The permits under which downloads run.
    pub semaphore: Arc<Semaphore>,
    /// The largest number of downloads that may run at once.
    pub max_concurrent: usize,
    /// The identifier that the next download gets.
    pub id_counter: u64,
    /// The number of running downloads.
    pub active: usize,
    /// Cancelling this token cancels every download.
    pub cancel_root: CancellationToken,
}

/// Held by a download while it runs. The permit goes back with it.
#[derive(Debug)]
pub struct ActiveGuard {
    pub permit: OwnedSemaphorePermit,
}

/// The identifier that comes `n` after `first`. The count starts over after the
/// largest.
pub open spec fn id_after(first: DownloadID, n: nat) -> DownloadID {
    ((first + n) % 0x1_0000_0000_0000_0000) as u64
}

/// The count of running downloads when one more runs. It starts over after the
/// largest count.
pub open spec fn one_more(active: usize) -> usize {
    if active == usize::MAX {
        0
    } else {
        (active + 1) as usize
    }
}

/// The count of running downloads when one of them has ended.
pub open spec fn one_less(active: usize) -> usize {
    if active == 0 {
        usize::MAX
    } else {
        (active - 1) as usize
    }
}

impl Context {
    /// The semaphore whose permits downloads run under.
    pub open spec fn gate(self) -> Semaphore {
        *self.semaphore
    }

    /// The semaphore allows as many downloads as the limit says, or as many as a
    /// semaphore can, where the limit says more.
    pub open spec fn enforces_limit(self) -> bool {
        semaphore_size(self.gate()) == if self.max_concurrent <= max_permits() {
            self.max_concurrent as nat
        } else {
            max_permits()
        }
    }

    /// A fresh context: as many permits as the configuration allows downloads,
    /// none of which runs, and identifiers from one.
    pub fn new(config: DownloadManagerConfig, cancel_root: CancellationToken) -> (ctx: Context)
        ensures
            ctx.max_concurrent == config.limit(),
            ctx.max_concurrent > 0,
            ctx.enforces_limit(),
            ctx.id_counter == 1,
            ctx.active == 0,
            ctx.cancel_root == cancel_root,
    {
        let limit: usize = config.max_concurrent();
        let largest: usize = usize::MAX / 8;
        let permits: usize = if limit <= largest {
            limit
        } else {
            largest
        };
        Context {
            semaphore: Arc::new(semaphore_with(permits)),
            max_concurrent: limit,
            id_counter: 1,
            active: 0,
            cancel_root,
        }
    }

    /// Give out the next identifier.
    pub fn next_id(&mut self) -> (id: DownloadID)
        ensures
            id == old(self).id_counter,
            final(self).id_counter == id_after(id, 1),
            final(self).semaphore == old(self).semaphore,
            final(self).max_concurrent == old(self).max_concurrent,
            final(self).cancel_root == old(self).cancel_root,
            final(self).active == old(self).active,
    {
        let id: u64 = self.id_counter;
        self.id_counter = id.wrapping_add(1);
        id
    }

    /// A download begins to run under this permit.
    pub fn enter(&mut self, permit: OwnedSemaphorePermit) -> (guard: ActiveGuard)
        ensures
            guard.permit == permit,
            final(self).active == one_more(old(self).active),
            final(self).semaphore == old(self).semaphore,
            final(self).max_concurrent == old(self).max_concurrent,
            final(self).cancel_root == old(self).cancel_root,
            final(self).id_counter == old(self).id_counter,
    {
        self.active = self.active.wrapping_add(1);
        ActiveGuard { permit }
    }

    /// A download has ended, and its permit goes back.
    pub fn leave(&mut self, guard: ActiveGuard) -> (permit: OwnedSemaphorePermit)
        ensures
            permit == guard.permit,
            final(self).active == one_less(old(self).active),
            final(self).semaphore == old(self).semaphore,
            final(self).max_concurrent == old(self).max_concurrent,
            final(self).cancel_root == old(self).cancel_root,
            final(self).id_counter == old(self).id_counter,
    {
        self.active = self.active.wrapping_sub(1);
        guard.permit
    }

    /// A token that is cancelled with all downloads.
    pub fn child_token(&self) -> (token: CancellationToken)
        ensures
            token_origin(token) == Some(self.cancel_root),
    {
        child_of(&self.cancel_root)
    }

    /// The token to cancel for all downloads to be cancelled.
    pub fn cancel_all(&self) -> (token: CancellationToken)
        ensures
            token == self.cancel_root,
    {
        self.cancel_root.clone()
    }

    /// The number of running downloads, without queued ones and delayed retries.
    pub fn active_downloads(&self) -> (active: usize)
        ensures
            active == self.active,
    {
        self.active
    }
}

/// A download that has ended leaves the count as it was before it ran.
pub proof fn law_ending_undoes_running(active: usize)
    ensures
        one_less(one_more(active)) == active,
        one_more(one_less(active)) == active,
        active < usize::MAX ==> one_more(active) == active + 1,
{
}

/// Giving out one identifier and then `n` more is giving out `n + 1`.
pub proof fn law_ids_follow_each_other(first: DownloadID, n: nat)
    ensures
        id_after(first, 0) == first,
        id_after(id_after(first, 1), n) == id_after(first, n + 1),
{
    let m: int = 0x1_0000_0000_0000_0000;
    assert(((first + 1) % m + n) % m == (first + n + 1) % m) by (nonlinear_arith)
        requires
            m == 0x1_0000_0000_0000_0000,
            0 <= first < m,
    ;
}

/// Identifiers are unique and grow: of any two that one context gives out, the
/// later is the larger, until the identifiers of the type are used up.
pub proof fn law_ids_are_unique(first: DownloadID, earlier: nat, later: nat)
    requires
        earlier < later,
        first + later <= u64::MAX,
    ensures
        id_after(first, earlier) < id_after(first, later),
{
}

} // verus!
