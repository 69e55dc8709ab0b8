//! The manager: what it is made of and what belongs together in it.

use crate::config::DownloadManagerConfig;
use crate::context::{id_after, Context, DownloadID};
use crate::external::headers::{header_contents, no_headers};
use crate::external::runtime::{child_of, root_token, token_origin};
use crate::request::{Request, RequestBuilder};
use crate::scheduler::{Job, Scheduler};
use tokio_util::sync::CancellationToken;
use vstd::prelude::*;

verus! {

/// The shared state of all downloads and the token that shuts the manager down.
#[derive(Debug)]
pub struct DownloadManager {
    pub context: Context,
    pub shutdown_token: CancellationToken,
}

impl DownloadManager {
    /// Shutting down cancels every download, and the limit is enforced.
    pub open spec fn is_linked(self) -> bool {
        &&& token_origin(self.context.cancel_root) == Some(self.shutdown_token)
        &&& self.context.enforces_limit()
    }

    /// A manager without downloads.
    pub fn new(config: DownloadManagerConfig) -> (manager: DownloadManager)
        ensures
            manager.is_linked(),
            token_origin(manager.shutdown_token) is None,
            manager.context.max_concurrent == config.limit(),
            manager.context.id_counter == 1,
            manager.context.active == 0,
    {
        let shutdown_token: CancellationToken = root_token();
        let cancel_root: CancellationToken = child_of(&shutdown_token);
        DownloadManager { context: Context::new(config, cancel_root), shutdown_token }
    }

    /// The scheduler of the manager, without downloads.
    pub fn scheduler<C, R>(&self) -> (scheduler: Scheduler<C, R>)
        ensures
            scheduler@.jobs == Map::<DownloadID, Job<C, R>>::empty(),
            scheduler@.ready == Seq::<DownloadID>::empty(),
            scheduler@.wf(),
            scheduler.gate() == self.context.gate(),
            scheduler.token() == self.shutdown_token,
    {
        Scheduler::new(self.shutdown_token.clone(), self.context.semaphore.clone())
    }

    /// Start a request with default settings. It is cancelled with all downloads
    /// of the manager.
    pub fn download_builder(&mut self) -> (builder: RequestBuilder)
        ensures
            builder.id == old(self).context.id_counter,
            final(self).context.id_counter == id_after(builder.id, 1),
            final(self).context.semaphore == old(self).context.semaphore,
            final(self).context.max_concurrent == old(self).context.max_concurrent,
            final(self).context.active == old(self).context.active,
            final(self).context.cancel_root == old(self).context.cancel_root,
            final(self).shutdown_token == old(self).shutdown_token,
            builder.url is None,
            builder.destination is None,
            builder.config.retries is None,
            builder.config.overwrite is None,
            header_contents(builder.config.headers) == no_headers(),
            token_origin(builder.cancel_token) == Some(old(self).context.cancel_root),
    {
        Request::<()>::builder(&mut self.context)
    }

    /// The number of running downloads, without queued ones and delayed retries.
    pub fn active_downloads(&self) -> (active: usize)
        ensures
            active == self.context.active,
    {
        self.context.active_downloads()
    }

    /// A token that is cancelled with all downloads.
    pub fn child_token(&self) -> (token: CancellationToken)
        ensures
            token_origin(token) == Some(self.context.cancel_root),
    {
        self.context.child_token()
    }

    /// The token to cancel for all downloads to be cancelled.
    pub fn cancel_all(&self) -> (token: CancellationToken)
        ensures
            token == self.context.cancel_root,
    {
        self.context.cancel_all()
    }

    /// The token to cancel for the manager to shut down.
    pub fn shutdown(&self) -> (token: CancellationToken)
        ensures
            token == self.shutdown_token,
    {
        self.shutdown_token.clone()
    }
}

} // verus!
