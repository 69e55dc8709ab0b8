//! The scheduler: which downloads are waiting, which start next, and what
//! follows from commands, worker reports and expired delays.
//!
//! The scheduler decides; what it decides comes back as a list of effects to be
//! carried out in order, and as a list of downloads to be started.

use crate::backoff::{delay_after, retry_backoff};
use crate::context::DownloadID;
use crate::download::{DownloadResult, Outcome};
use crate::error::DownloadError;
use crate::events::Event;
use crate::external::runtime::{
    answers_cancelled, answers_request, ask_for_permit, permit_source,
};
use crate::external::time::{nanos, total_nanos};
use crate::request::Request;
use std::collections::{HashMap, VecDeque};
use std::sync::Arc;
use std::time::Duration;
use tokio::sync::{OwnedSemaphorePermit, Semaphore};
use tokio_util::sync::CancellationToken;
use vstd::prelude::*;
use vstd::std_specs::hash::spec_keys_iter;
use vstd::std_specs::iter::IteratorSpec;

verus! {

broadcast use {
    vstd::std_specs::hash::group_hash_axioms,
    vstd::seq_lib::group_seq_properties,
};

/// A request from the manager to the scheduler.
#[derive(Debug)]
pub enum SchedulerCmd<C, R> {
    /// Queue a download and report its outcome through `result_tx`.
    Enqueue { request: Request<C>, result_tx: R },
    /// Cancel a download.
    Cancel { id: DownloadID },
}

/// A report from a worker to the scheduler.
#[derive(Debug)]
pub enum WorkerMsg {
    /// One attempt of a download has ended.
    Finish { id: DownloadID, result: Outcome },
}

/// Something the scheduler wants done.
#[derive(Debug)]
pub enum Effect<C, R> {
    /// Publish an event through the hooks of the request.
    Emit { request: Arc<Request<C>>, event: Event },
    /// Cancel the token of the request.
    CancelToken { request: Arc<Request<C>> },
    /// Report the final outcome of a download.
    Resolve { to: R, result: Outcome },
    /// Hand the identifier back once the delay is over.
    Delay { id: DownloadID, delay: Duration },
}

/// A download that the scheduler still has to see through.
#[derive(Debug)]
pub struct Job<C, R> {
    pub request: Arc<Request<C>>,
    /// The number of retries so far.
    pub attempt: u32,
    /// Where the final outcome is reported.
    pub result: R,
}

/// A span in whole milliseconds, as far as they fit the type.
pub open spec fn whole_millis(delay: Duration) -> u64 {
    (nanos(delay) / 1_000_000) as u64
}

impl<C, R> Job<C, R> {
    /// The job counts no more retries than its request permits.
    pub open spec fn within_limit(self) -> bool {
        self.attempt <= self.request.config.retries
    }

    /// The identifier of the download.
    pub fn id(&self) -> (id: DownloadID)
        ensures
            id == self.request.id,
    {
        self.request.id()
    }

    /// What is done when the job is queued.
    pub open spec fn queue_effects(self) -> Seq<Effect<C, R>> {
        seq![
            Effect::Emit {
                request: self.request,
                event: Event::Queued {
                    id: self.request.id,
                    url: self.request.url,
                    destination: self.request.destination,
                },
            },
        ]
    }

    /// What is done when the job has completed with this result.
    pub open spec fn finish_effects(self, result: DownloadResult) -> Seq<Effect<C, R>> {
        seq![
            Effect::Emit {
                request: self.request,
                event: Event::Completed {
                    id: self.request.id,
                    path: result.path,
                    bytes_downloaded: result.bytes_downloaded,
                },
            },
            Effect::Resolve { to: self.result, result: Ok(result) },
        ]
    }

    /// What is done when the job is cancelled.
    pub open spec fn cancel_effects(self) -> Seq<Effect<C, R>> {
        seq![
            Effect::CancelToken { request: self.request },
            Effect::Emit {
                request: self.request,
                event: Event::Cancelled { id: self.request.id },
            },
            Effect::Resolve { to: self.result, result: Err(DownloadError::Cancelled) },
        ]
    }

    /// These effects fail the job: the failure is published in words, then the
    /// error is reported.
    pub open spec fn failed_by(self, error: DownloadError, effects: Seq<Effect<C, R>>) -> bool {
        &&& effects.len() == 2
        &&& effects[0] matches Effect::Emit { request, event } && {
            &&& request == self.request
            &&& event matches Event::Failed { id, error: text } && {
                &&& id == self.request.id
                &&& error.described_by(text@)
            }
        }
        &&& effects[1] == (Effect::<C, R>::Resolve { to: self.result, result: Err(error) })
    }

    /// What is done when the job is to be retried after the delay.
    pub open spec fn retry_effects(self, delay: Duration) -> Seq<Effect<C, R>> {
        seq![
            Effect::Emit {
                request: self.request,
                event: Event::Retrying {
                    id: self.request.id,
                    attempt: self.attempt,
                    next_delay_ms: whole_millis(delay),
                },
            },
            Effect::Delay { id: self.request.id, delay },
        ]
    }

    /// Fail the job.
    pub fn fail(self, error: DownloadError) -> (effects: Vec<Effect<C, R>>)
        ensures
            self.failed_by(error, effects@),
    {
        let event: Event = Event::Failed { id: self.id(), error: error.message() };
        let mut effects: Vec<Effect<C, R>> = Vec::new();
        effects.push(Effect::Emit { request: self.request, event });
        effects.push(Effect::Resolve { to: self.result, result: Err(error) });
        effects
    }

    /// Complete the job.
    pub fn finish(self, result: DownloadResult) -> (effects: Vec<Effect<C, R>>)
        ensures
            effects@ == self.finish_effects(result),
    {
        let event: Event = Event::Completed {
            id: self.id(),
            path: result.path.clone(),
            bytes_downloaded: result.bytes_downloaded,
        };
        let mut effects: Vec<Effect<C, R>> = Vec::new();
        effects.push(Effect::Emit { request: self.request, event });
        effects.push(Effect::Resolve { to: self.result, result: Ok(result) });
        effects
    }

    /// Announce the next attempt of the job and wait for it.
    pub fn retry(&self, delay: Duration) -> (effects: Vec<Effect<C, R>>)
        ensures
            effects@ == self.retry_effects(delay),
    {
        let event: Event = Event::Retrying {
            id: self.id(),
            attempt: self.attempt,
            next_delay_ms: (total_nanos(delay) / 1_000_000) as u64,
        };
        let mut effects: Vec<Effect<C, R>> = Vec::new();
        effects.push(Effect::Emit { request: self.request.clone(), event });
        effects.push(Effect::Delay { id: self.id(), delay });
        effects
    }

    /// Cancel the job.
    pub fn cancel(self) -> (effects: Vec<Effect<C, R>>)
        ensures
            effects@ == self.cancel_effects(),
    {
        let event: Event = Event::Cancelled { id: self.id() };
        let mut effects: Vec<Effect<C, R>> = Vec::new();
        effects.push(Effect::CancelToken { request: self.request.clone() });
        effects.push(Effect::Emit { request: self.request, event });
        effects.push(Effect::Resolve { to: self.result, result: Err(DownloadError::Cancelled) });
        effects
    }
}

/// The downloads that a scheduler knows of and the order in which they wait.
#[verifier::ext_equal]
pub struct SchedulerState<C, R> {
    /// The jobs that are queued, delayed or running.
    pub jobs: Map<DownloadID, Job<C, R>>,
    /// The identifiers that wait to be dispatched, first come first.
    pub ready: Seq<DownloadID>,
}

/// What becomes of the first waiting download.
#[derive(Debug, Clone, Copy, PartialEq, Eq, Structural)]
pub enum Turnout {
    /// No download waits.
    Idle,
    /// The scheduler is shutting down.
    Halted,
    /// No permit is to be had.
    Blocked,
    /// The download is gone.
    Skipped,
    /// The download starts.
    Started,
}

impl<C, R> SchedulerState<C, R> {
    /// Each job is filed under its own identifier and is within its retry limit.
    pub open spec fn wf(self) -> bool {
        forall|id: DownloadID| #[trigger]
            self.jobs.contains_key(id) ==> {
                &&& self.jobs[id].request.id == id
                &&& self.jobs[id].within_limit()
            }
    }

    /// A job is queued behind all others.
    pub open spec fn scheduled(self, job: Job<C, R>) -> Self {
        SchedulerState {
            jobs: self.jobs.insert(job.request.id, job),
            ready: self.ready.push(job.request.id),
        }
    }

    /// A download is dropped.
    pub open spec fn cancelled(self, id: DownloadID) -> Self {
        SchedulerState { jobs: self.jobs.remove(id), ready: self.ready }
    }

    /// The delay of a download is over: it waits behind all others.
    pub open spec fn expired(self, id: DownloadID) -> Self {
        SchedulerState { jobs: self.jobs, ready: self.ready.push(id) }
    }

    /// The job of this download is tried again after this outcome.
    pub open spec fn retries_after(self, id: DownloadID, outcome: Outcome) -> bool {
        &&& outcome matches Err(e) && e.retryable()
        &&& self.jobs[id].attempt < self.jobs[id].request.config.retries
    }

    /// The job of a download with one more retry counted.
    pub open spec fn retried(self, id: DownloadID) -> Job<C, R> {
        Job { attempt: (self.jobs[id].attempt + 1) as u32, ..self.jobs[id] }
    }

    /// An attempt of a download has ended: unless its job is retried, it is done.
    pub open spec fn finished(self, id: DownloadID, outcome: Outcome) -> Self {
        if !self.jobs.contains_key(id) {
            self
        } else if self.retries_after(id, outcome) {
            SchedulerState { jobs: self.jobs.insert(id, self.retried(id)), ready: self.ready }
        } else {
            SchedulerState { jobs: self.jobs.remove(id), ready: self.ready }
        }
    }

    /// These effects follow from the end of an attempt: none for a download that
    /// is gone; a retry after the backoff's delay; or the final outcome, once.
    pub open spec fn finish_followed_by(
        self,
        id: DownloadID,
        outcome: Outcome,
        effects: Seq<Effect<C, R>>,
    ) -> bool {
        if !self.jobs.contains_key(id) {
            effects.len() == 0
        } else if self.retries_after(id, outcome) {
            exists|delay: Duration|
                {
                    &&& nanos(delay) == delay_after(
                        1_000_000_000,
                        10_000_000_000,
                        self.jobs[id].attempt as nat,
                    )
                    &&& effects == #[trigger] self.retried(id).retry_effects(delay)
                }
        } else {
            match outcome {
                Ok(result) => effects == self.jobs[id].finish_effects(result),
                Err(DownloadError::Cancelled) => effects == self.jobs[id].cancel_effects(),
                Err(e) => self.jobs[id].failed_by(e, effects),
            }
        }
    }

    /// What becomes of the first waiting download, given whether the scheduler
    /// is shutting down and whether a permit was granted.
    pub open spec fn turnout(self, shutting_down: bool, granted: bool) -> Turnout {
        if self.ready.len() == 0 {
            Turnout::Idle
        } else if shutting_down {
            Turnout::Halted
        } else if !granted {
            Turnout::Blocked
        } else if self.jobs.contains_key(self.ready[0]) {
            Turnout::Started
        } else {
            Turnout::Skipped
        }
    }

    /// The first waiting download is taken from the queue unless it is blocked.
    pub open spec fn dispatched(self, shutting_down: bool, granted: bool) -> Self {
        if self.turnout(shutting_down, granted) is Idle || self.turnout(
            shutting_down,
            granted,
        ) is Blocked {
            self
        } else {
            SchedulerState { jobs: self.jobs, ready: self.ready.drop_first() }
        }
    }

    /// Of the first `n` waiting downloads, those that are not gone.
    pub open spec fn live(self, n: int) -> Seq<DownloadID> {
        self.ready.take(n).filter(|id: DownloadID| self.jobs.contains_key(id))
    }
}

/// Queueing a job keeps every job under its own identifier and within its limit.
pub proof fn law_scheduled_keeps_wf<C, R>(s: SchedulerState<C, R>, job: Job<C, R>)
    requires
        s.wf(),
        job.within_limit(),
    ensures
        s.scheduled(job).wf(),
{
    assert forall|k: DownloadID| #[trigger] s.scheduled(job).jobs.contains_key(k) implies {
        &&& s.scheduled(job).jobs[k].request.id == k
        &&& s.scheduled(job).jobs[k].within_limit()
    } by {
        if k != job.request.id {
            assert(s.jobs.contains_key(k));
        }
    }
}

/// Cancelling a download keeps every job under its own identifier and within its
/// limit.
pub proof fn law_cancelled_keeps_wf<C, R>(s: SchedulerState<C, R>, id: DownloadID)
    requires
        s.wf(),
    ensures
        s.cancelled(id).wf(),
{
    assert forall|k: DownloadID| #[trigger] s.cancelled(id).jobs.contains_key(k) implies {
        &&& s.cancelled(id).jobs[k].request.id == k
        &&& s.cancelled(id).jobs[k].within_limit()
    } by {
        assert(s.jobs.contains_key(k));
    }
}

/// The end of an attempt keeps every job under its own identifier and within its
/// limit.
pub proof fn law_finished_keeps_wf<C, R>(s: SchedulerState<C, R>, id: DownloadID, outcome: Outcome)
    requires
        s.wf(),
    ensures
        s.finished(id, outcome).wf(),
{
    assert forall|k: DownloadID| #[trigger]
        s.finished(id, outcome).jobs.contains_key(k) implies {
        &&& s.finished(id, outcome).jobs[k].request.id == k
        &&& s.finished(id, outcome).jobs[k].within_limit()
    } by {
        assert(s.jobs.contains_key(k));
    }
}

/// A download to be started under its permit.
#[derive(Debug)]
pub struct Start<C> {
    pub id: DownloadID,
    pub request: Arc<Request<C>>,
    pub permit: OwnedSemaphorePermit,
}

/// The outcome of one dispatch.
#[derive(Debug)]
pub enum Dispatch<C> {
    Idle,
    Halted,
    Blocked,
    Skipped,
    Started(Start<C>),
}

/// Why a round of dispatches ended.
#[derive(Debug, Clone, Copy, PartialEq, Eq, Structural)]
pub enum Stop {
    /// No download waits any more.
    Drained,
    /// The scheduler is shutting down.
    Halted,
    /// No permit was left.
    Blocked,
}

/// A round of dispatches.
#[derive(Debug)]
pub struct Round<C> {
    pub started: Vec<Start<C>>,
    pub stop: Stop,
}

impl<C, R> SchedulerState<C, R> {
    /// A round of dispatches leads to this state: the first so many waiting
    /// downloads were taken from the queue and those of them that are not gone
    /// were started in their order, each under a permit that the semaphore gave;
    /// the queue ran empty, or the next download was dropped because the token
    /// said that the scheduler is shutting down, or it was left waiting because
    /// the semaphore refused a permit.
    pub open spec fn after_round(
        self,
        gate: Semaphore,
        token: CancellationToken,
        round: Round<C>,
        after: Self,
    ) -> bool {
        &&& after.jobs == self.jobs
        &&& exists|taken: int|
            {
                &&& 0 <= taken <= self.ready.len()
                &&& ids_of(round.started@) == #[trigger] self.live(taken)
                &&& match round.stop {
                    Stop::Drained => taken == self.ready.len() && after.ready.len() == 0,
                    Stop::Halted => taken < self.ready.len() && after.ready == self.ready.skip(
                        taken + 1,
                    ),
                    Stop::Blocked => taken < self.ready.len() && after.ready == self.ready.skip(
                        taken,
                    ),
                }
            }
        &&& forall|i: int|
            0 <= i < round.started@.len() ==> {
                &&& (#[trigger] round.started@[i]).request
                    == self.jobs[round.started@[i].id].request
                &&& permit_source(round.started@[i].permit) == gate
                &&& answers_request(gate, Some(round.started@[i].permit))
            }
        &&& round.stop is Blocked ==> answers_request(gate, None)
        &&& round.stop is Halted ==> answers_cancelled(token, true)
        &&& round.stop is Blocked || round.started@.len() > 0 ==> answers_cancelled(token, false)
    }

    /// A command leads to this state and these effects.
    pub open spec fn after_cmd(
        self,
        cmd: SchedulerCmd<C, R>,
        after: Self,
        effects: Seq<Effect<C, R>>,
    ) -> bool {
        match cmd {
            SchedulerCmd::Enqueue { request, result_tx } => exists|job: Job<C, R>|
                {
                    &&& *job.request == request
                    &&& job.attempt == 0
                    &&& job.result == result_tx
                    &&& after == #[trigger] self.scheduled(job)
                    &&& effects == job.queue_effects()
                },
            SchedulerCmd::Cancel { id } => {
                &&& after == self.cancelled(id)
                &&& effects == if self.jobs.contains_key(id) {
                    self.jobs[id].cancel_effects()
                } else {
                    Seq::empty()
                }
            },
        }
    }

    /// The report of a worker leads to this state and these effects.
    pub open spec fn after_worker_msg(
        self,
        msg: WorkerMsg,
        after: Self,
        effects: Seq<Effect<C, R>>,
    ) -> bool {
        let WorkerMsg::Finish { id, result } = msg;
        &&& after == self.finished(id, result)
        &&& self.finish_followed_by(id, result, effects)
    }

    /// These effects cancel the jobs of these downloads, one after the other.
    pub open spec fn cancel_each(self, ids: Seq<DownloadID>) -> Seq<Effect<C, R>>
        decreases ids.len(),
    {
        if ids.len() == 0 {
            Seq::empty()
        } else {
            self.cancel_each(ids.drop_last()) + self.jobs[ids.last()].cancel_effects()
        }
    }

    /// A shutdown leads to this state and these effects: every job is cancelled
    /// once, in some order.
    pub open spec fn after_shutdown(self, after: Self, effects: Seq<Effect<C, R>>) -> bool {
        &&& after.jobs == Map::<DownloadID, Job<C, R>>::empty()
        &&& after.ready == self.ready
        &&& exists|ids: Seq<DownloadID>|
            {
                &&& ids.no_duplicates()
                &&& ids.to_set() == self.jobs.dom()
                &&& effects == #[trigger] self.cancel_each(ids)
            }
    }

    /// What the scheduler was told leads to this state and these effects.
    pub open spec fn after_input(
        self,
        input: SchedulerInput<C, R>,
        after: Self,
        effects: Seq<Effect<C, R>>,
    ) -> bool {
        match input {
            SchedulerInput::Command(cmd) => self.after_cmd(cmd, after, effects),
            SchedulerInput::Worker(msg) => self.after_worker_msg(msg, after, effects),
            SchedulerInput::Expired(id) => after == self.expired(id) && effects.len() == 0,
            SchedulerInput::Shutdown => self.after_shutdown(after, effects),
        }
    }

    /// What the scheduler was told leads to this turn and this state: first to
    /// the effects, then, except in a shutdown, to a round of dispatches.
    pub open spec fn after_turn(
        self,
        gate: Semaphore,
        token: CancellationToken,
        input: SchedulerInput<C, R>,
        turn: Turn<C, R>,
        after: Self,
    ) -> bool {
        match turn.round {
            Some(round) => input !is Shutdown && exists|between: Self|
                self.after_input(input, between, turn.effects@) && #[trigger] between.after_round(
                    gate,
                    token,
                    round,
                    after,
                ),
            None => input is Shutdown && self.after_input(input, after, turn.effects@),
        }
    }
}

/// What a scheduler can be told.
#[derive(Debug)]
pub enum SchedulerInput<C, R> {
    /// A command of the manager.
    Command(SchedulerCmd<C, R>),
    /// The report of a worker.
    Worker(WorkerMsg),
    /// The delay of a download is over.
    Expired(DownloadID),
    /// The manager is shutting down.
    Shutdown,
}

/// What follows from something that the scheduler was told: effects to be
/// carried out in order, then downloads to be started. There is no round of
/// dispatches once the scheduler has shut down.
#[derive(Debug)]
pub struct Turn<C, R> {
    pub effects: Vec<Effect<C, R>>,
    pub round: Option<Round<C>>,
}

/// The identifiers of downloads to be started.
pub open spec fn ids_of<C>(started: Seq<Start<C>>) -> Seq<DownloadID> {
    started.map_values(|start: Start<C>| start.id)
}

/// Decides what happens to downloads.
#[derive(Debug)]
pub struct Scheduler<C, R> {
    shutdown_token: CancellationToken,
    semaphore: Arc<Semaphore>,
    jobs: HashMap<DownloadID, Job<C, R>>,
    ready: VecDeque<DownloadID>,
}

impl<C, R> View for Scheduler<C, R> {
    type V = SchedulerState<C, R>;

    closed spec fn view(&self) -> SchedulerState<C, R> {
        SchedulerState { jobs: self.jobs@, ready: self.ready@ }
    }
}

impl<C, R> Scheduler<C, R> {
    /// The semaphore whose permits downloads run under.
    pub closed spec fn gate(self) -> Semaphore {
        *self.semaphore
    }

    /// The token that tells that the scheduler is shutting down.
    pub closed spec fn token(self) -> CancellationToken {
        self.shutdown_token
    }

    /// A scheduler without downloads that asks this token and this semaphore.
    pub fn new(shutdown_token: CancellationToken, semaphore: Arc<Semaphore>) -> (scheduler: Self)
        ensures
            scheduler@.jobs == Map::<DownloadID, Job<C, R>>::empty(),
            scheduler@.ready == Seq::<DownloadID>::empty(),
            scheduler@.wf(),
            scheduler.gate() == *semaphore,
            scheduler.token() == shutdown_token,
    {
        Scheduler { shutdown_token, semaphore, jobs: HashMap::new(), ready: VecDeque::new() }
    }

    /// Queue a job behind all others.
    pub fn schedule(&mut self, job: Job<C, R>) -> (effects: Vec<Effect<C, R>>)
        requires
            old(self)@.wf(),
            job.within_limit(),
        ensures
            final(self)@ == old(self)@.scheduled(job),
            final(self)@.wf(),
            final(self).gate() == old(self).gate(),
            final(self).token() == old(self).token(),
            effects@ == job.queue_effects(),
    {
        proof {
            law_scheduled_keeps_wf(self@, job);
        }
        let id: DownloadID = job.id();
        let event: Event = Event::Queued {
            id,
            url: job.request.url().clone(),
            destination: job.request.destination().clone(),
        };
        let mut effects: Vec<Effect<C, R>> = Vec::new();
        effects.push(Effect::Emit { request: job.request.clone(), event });
        self.jobs.insert(id, job);
        self.ready.push_back(id);
        effects
    }

    /// Act on a command. A cancelled download is dropped; one that is gone
    /// already is left alone.
    pub fn handle_cmd(&mut self, cmd: SchedulerCmd<C, R>) -> (effects: Vec<Effect<C, R>>)
        requires
            old(self)@.wf(),
        ensures
            final(self)@.wf(),
            final(self).gate() == old(self).gate(),
            final(self).token() == old(self).token(),
            old(self)@.after_cmd(cmd, final(self)@, effects@),
    {
        match cmd {
            SchedulerCmd::Enqueue { request, result_tx } => {
                let job: Job<C, R> = Job {
                    request: Arc::new(request),
                    attempt: 0,
                    result: result_tx,
                };
                self.schedule(job)
            },
            SchedulerCmd::Cancel { id } => {
                proof {
                    law_cancelled_keeps_wf(self@, id);
                }
                match self.jobs.remove(&id) {
                    Some(job) => job.cancel(),
                    None => Vec::new(),
                }
            },
        }
    }

    /// Act on the report of a worker.
    pub fn handle_worker_msg(&mut self, msg: WorkerMsg) -> (effects: Vec<Effect<C, R>>)
        requires
            old(self)@.wf(),
        ensures
            final(self)@.wf(),
            final(self).gate() == old(self).gate(),
            final(self).token() == old(self).token(),
            old(self)@.after_worker_msg(msg, final(self)@, effects@),
    {
        let WorkerMsg::Finish { id, result } = msg;
        proof {
            law_finished_keeps_wf(self@, id, result);
        }
        let job: Job<C, R> = match self.jobs.remove(&id) {
            Some(job) => job,
            None => {
                assert(self@ =~= old(self)@);
                return Vec::new();
            },
        };
        match result {
            Ok(result) => job.finish(result),
            Err(DownloadError::Cancelled) => job.cancel(),
            Err(error) => {
                if !error.is_retryable() || job.attempt >= job.request.config().retries() {
                    return job.fail(error);
                }
                let delay: Duration = retry_backoff().next_delay(job.attempt);
                let job: Job<C, R> = Job { attempt: job.attempt + 1, ..job };
                let effects: Vec<Effect<C, R>> = job.retry(delay);
                assert(job == old(self)@.retried(id));
                self.jobs.insert(id, job);
                assert(self@ =~= old(self)@.finished(id, result));
                effects
            },
        }
    }

    /// The delay of a download is over. It waits again, behind all others.
    pub fn expire(&mut self, id: DownloadID)
        requires
            old(self)@.wf(),
        ensures
            final(self)@ == old(self)@.expired(id),
            final(self)@.wf(),
            final(self).gate() == old(self).gate(),
            final(self).token() == old(self).token(),
    {
        self.ready.push_back(id);
        assert(self@.jobs == old(self)@.jobs);
    }

    /// Take the first waiting download out of the queue, given whether the
    /// scheduler is shutting down and the permit that was granted, if any. A
    /// permit that is not used goes back.
    pub fn dispatch_next(
        &mut self,
        shutting_down: bool,
        permit: Option<OwnedSemaphorePermit>,
    ) -> (dispatch: Dispatch<C>)
        requires
            old(self)@.wf(),
        ensures
            final(self)@ == old(self)@.dispatched(shutting_down, permit is Some),
            final(self)@.wf(),
            final(self).gate() == old(self).gate(),
            final(self).token() == old(self).token(),
            match old(self)@.turnout(shutting_down, permit is Some) {
                Turnout::Idle => dispatch is Idle,
                Turnout::Halted => dispatch is Halted,
                Turnout::Blocked => dispatch is Blocked,
                Turnout::Skipped => dispatch is Skipped,
                Turnout::Started => dispatch matches Dispatch::Started(start) && {
                    &&& start.id == old(self)@.ready[0]
                    &&& start.request == old(self)@.jobs[start.id].request
                    &&& Some(start.permit) == permit
                },
            },
    {
        let id: DownloadID = match self.ready.pop_front() {
            Some(id) => id,
            None => return Dispatch::Idle,
        };
        assert(self.ready@ == old(self)@.ready.drop_first());
        if shutting_down {
            return Dispatch::Halted;
        }
        let permit: OwnedSemaphorePermit = match permit {
            Some(permit) => permit,
            None => {
                self.ready.push_front(id);
                assert(self@ =~= old(self)@);
                return Dispatch::Blocked;
            },
        };
        match self.jobs.get(&id) {
            Some(job) => Dispatch::Started(Start { id, request: job.request.clone(), permit }),
            None => Dispatch::Skipped,
        }
    }

    /// Start waiting downloads, first come first, for as long as permits are to
    /// be had and the scheduler is not shutting down. Downloads that are gone
    /// are passed over.
    pub fn try_dispatch(&mut self) -> (round: Round<C>)
        requires
            old(self)@.wf(),
        ensures
            final(self)@.wf(),
            final(self).gate() == old(self).gate(),
            final(self).token() == old(self).token(),
            old(self)@.after_round(old(self).gate(), old(self).token(), round, final(self)@),
    {
        let mut started: Vec<Start<C>> = Vec::new();
        let ghost mut taken: int = 0;
        proof {
            assert(self@.ready.skip(0) =~= self@.ready);
            assert(self@.live(0) =~= Seq::empty());
            assert(ids_of(started@) =~= Seq::empty());
        }
        while self.ready.len() > 0
            invariant
                self@.wf(),
                self@.jobs == old(self)@.jobs,
                self.gate() == old(self).gate(),
                self.token() == old(self).token(),
                0 <= taken <= old(self)@.ready.len(),
                self@.ready == old(self)@.ready.skip(taken),
                ids_of(started@) == old(self)@.live(taken),
                forall|i: int|
                    0 <= i < started@.len() ==> {
                        &&& (#[trigger] started@[i]).request
                            == old(self)@.jobs[started@[i].id].request
                        &&& permit_source(started@[i].permit) == old(self).gate()
                        &&& answers_request(old(self).gate(), Some(started@[i].permit))
                    },
                started@.len() > 0 ==> answers_cancelled(old(self).token(), false),
            decreases self@.ready.len(),
        {
            proof {
                lemma_live_grows(old(self)@, taken);
            }
            let ghost before: SchedulerState<C, R> = self@;
            let ghost sofar: Seq<Start<C>> = started@;
            let shutting_down: bool = self.shutdown_token.is_cancelled();
            assert(answers_cancelled(self.token(), shutting_down));
            let permit: Option<OwnedSemaphorePermit> = if shutting_down {
                None
            } else {
                ask_for_permit(&self.semaphore)
            };
            match self.dispatch_next(shutting_down, permit) {
                Dispatch::Halted => {
                    assert(self@.ready =~= old(self)@.ready.skip(taken + 1));
                    return Round { started, stop: Stop::Halted };
                },
                Dispatch::Blocked => return Round { started, stop: Stop::Blocked },
                Dispatch::Started(start) => {
                    started.push(start);
                    assert(ids_of(started@) =~= ids_of(sofar).push(start.id));
                },
                _ => {},
            }
            proof {
                assert(before.ready[0] == old(self)@.ready[taken]);
                assert(self@.ready =~= old(self)@.ready.skip(taken + 1));
                taken = taken + 1;
            }
        }
        Round { started, stop: Stop::Drained }
    }

    /// Cancel every job that is left, in no particular order.
    pub fn shutdown(&mut self) -> (effects: Vec<Effect<C, R>>)
        requires
            old(self)@.wf(),
        ensures
            final(self)@.wf(),
            final(self).gate() == old(self).gate(),
            final(self).token() == old(self).token(),
            old(self)@.after_shutdown(final(self)@, effects@),
    {
        let ghost keys: Seq<DownloadID> = spec_keys_iter(&self.jobs).remaining().unref();
        let mut ids: Vec<DownloadID> = Vec::new();
        for id in it: self.jobs.keys()
            invariant
                it.seq().unref() == keys,
                ids@ == keys.take(it.index()),
        {
            ids.push(*id);
        }
        assert(ids@ =~= keys);
        assert(ids@.to_set() == old(self)@.jobs.dom());
        assert(ids@.no_duplicates());
        let mut effects: Vec<Effect<C, R>> = Vec::new();
        let mut done: usize = 0;
        while done < ids.len()
            invariant
                done <= ids.len(),
                ids@.no_duplicates(),
                ids@.to_set() == old(self)@.jobs.dom(),
                self.ready@ == old(self)@.ready,
                self.gate() == old(self).gate(),
                self.token() == old(self).token(),
                forall|id: DownloadID| #[trigger]
                    self.jobs@.contains_key(id) ==> old(self)@.jobs.contains_key(id)
                        && self.jobs@[id] == old(self)@.jobs[id],
                forall|id: DownloadID| #[trigger]
                    self.jobs@.contains_key(id) <==> ids@.skip(done as int).contains(id),
                effects@ == old(self)@.cancel_each(ids@.take(done as int)),
            decreases ids.len() - done,
        {
            let id: DownloadID = ids[done];
            assert(ids@.skip(done as int)[0] == id);
            let ghost before: Map<DownloadID, Job<C, R>> = self.jobs@;
            if let Some(job) = self.jobs.remove(&id) {
                let mut cancelled: Vec<Effect<C, R>> = job.cancel();
                effects.append(&mut cancelled);
            }
            proof {
                assert(ids@.take(done + 1).drop_last() =~= ids@.take(done as int));
                let left = ids@.skip(done as int);
                let rest = ids@.skip(done + 1);
                assert(rest =~= left.drop_first());
                assert forall|k: DownloadID| #[trigger]
                    self.jobs@.contains_key(k) <==> rest.contains(k) by {
                    if rest.contains(k) {
                        let i = choose|i: int| 0 <= i < rest.len() && rest[i] == k;
                        assert(left[i + 1] == k);
                        assert(before.contains_key(k));
                    }
                    if self.jobs@.contains_key(k) {
                        assert(before.contains_key(k));
                        let i = choose|i: int| 0 <= i < left.len() && left[i] == k;
                        assert(rest[i - 1] == k);
                    }
                }
            }
            done = done + 1;
        }
        assert(ids@.take(done as int) =~= ids@);
        assert(self@.jobs =~= Map::empty());
        effects
    }

    /// Act on what the scheduler is told, then start what can be started. A
    /// shutdown starts nothing more.
    pub fn turn(&mut self, input: SchedulerInput<C, R>) -> (turn: Turn<C, R>)
        requires
            old(self)@.wf(),
        ensures
            final(self)@.wf(),
            final(self).gate() == old(self).gate(),
            final(self).token() == old(self).token(),
            old(self)@.after_turn(old(self).gate(), old(self).token(), input, turn, final(self)@),
    {
        let effects: Vec<Effect<C, R>> = match input {
            SchedulerInput::Command(cmd) => self.handle_cmd(cmd),
            SchedulerInput::Worker(msg) => self.handle_worker_msg(msg),
            SchedulerInput::Expired(id) => {
                self.expire(id);
                Vec::new()
            },
            SchedulerInput::Shutdown => {
                let effects: Vec<Effect<C, R>> = self.shutdown();
                return Turn { effects, round: None };
            },
        };
        let ghost between: SchedulerState<C, R> = self@;
        let round: Round<C> = self.try_dispatch();
        assert({
            &&& old(self)@.after_input(input, between, effects@)
            &&& between.after_round(old(self).gate(), old(self).token(), round, self@)
        });
        Turn { effects, round: Some(round) }
    }
}

/// One more waiting download considered adds it if it is not gone.
pub(crate) proof fn lemma_live_grows<C, R>(s: SchedulerState<C, R>, n: int)
    requires
        0 <= n < s.ready.len(),
    ensures
        s.live(n + 1) == if s.jobs.contains_key(s.ready[n]) {
            s.live(n).push(s.ready[n])
        } else {
            s.live(n)
        },
{
    assert(s.ready.take(n + 1).drop_last() =~= s.ready.take(n));
    reveal(Seq::filter);
}

} // verus!
