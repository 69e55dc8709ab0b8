//! What a call of the scheduler does, told by what it is given and what it
//! returns: which jobs it keeps, which tokens it cancels, which events it
//! publishes, whom it answers and what it starts.

use crate::backoff::law_retry_delays;
use crate::context::DownloadID;
use crate::download::{DownloadResult, Outcome};
use crate::error::{DownloadError, NetworkError};
use crate::events::Event;
use crate::external::runtime::{answers_cancelled, answers_request, permit_source};
use crate::external::time::nanos;
use crate::external::transport::{
    error_is_connect, error_is_request, error_is_timeout, error_status,
};
use crate::request::Request;
use crate::scheduler::{
    ids_of, Dispatch, Effect, Job, Round, Scheduler, SchedulerCmd, SchedulerInput, SchedulerState,
    Stop, Turn, WorkerMsg,
};
use std::sync::Arc;
use std::time::Duration;
use tokio::sync::{OwnedSemaphorePermit, Semaphore};
use tokio_util::sync::CancellationToken;
use vstd::prelude::*;

verus! {

broadcast use vstd::seq_lib::group_seq_properties;

/// The events that these effects publish, in order, each with the request that it
/// is published through.
pub open spec fn events_in<C, R>(effects: Seq<Effect<C, R>>) -> Seq<(Arc<Request<C>>, Event)>
    decreases effects.len(),
{
    if effects.len() == 0 {
        Seq::empty()
    } else {
        match effects.last() {
            Effect::Emit { request, event } => events_in(effects.drop_last()).push(
                (request, event),
            ),
            _ => events_in(effects.drop_last()),
        }
    }
}

/// Whom these effects give an outcome, in order, and which.
pub open spec fn outcomes_in<C, R>(effects: Seq<Effect<C, R>>) -> Seq<(R, Outcome)>
    decreases effects.len(),
{
    if effects.len() == 0 {
        Seq::empty()
    } else {
        match effects.last() {
            Effect::Resolve { to, result } => outcomes_in(effects.drop_last()).push((to, result)),
            _ => outcomes_in(effects.drop_last()),
        }
    }
}

/// The requests whose tokens these effects cancel, in order.
pub open spec fn tokens_in<C, R>(effects: Seq<Effect<C, R>>) -> Seq<Arc<Request<C>>>
    decreases effects.len(),
{
    if effects.len() == 0 {
        Seq::empty()
    } else {
        match effects.last() {
            Effect::CancelToken { request } => tokens_in(effects.drop_last()).push(request),
            _ => tokens_in(effects.drop_last()),
        }
    }
}

/// The downloads that these effects put off, in order, and for how long.
pub open spec fn delays_in<C, R>(effects: Seq<Effect<C, R>>) -> Seq<(DownloadID, Duration)>
    decreases effects.len(),
{
    if effects.len() == 0 {
        Seq::empty()
    } else {
        match effects.last() {
            Effect::Delay { id, delay } => delays_in(effects.drop_last()).push((id, delay)),
            _ => delays_in(effects.drop_last()),
        }
    }
}

/// These effects are one event, published through this request, and then one
/// outcome for this sender.
pub open spec fn announces_and_answers<C, R>(
    effects: Seq<Effect<C, R>>,
    job: Job<C, R>,
    event: Event,
    outcome: Outcome,
) -> bool {
    &&& events_in(effects) == seq![(job.request, event)]
    &&& outcomes_in(effects) == seq![(job.result, outcome)]
    &&& delays_in(effects).len() == 0
    &&& effects.last() is Resolve
}

/// A download is cancelled by these effects: first its token is cancelled, then
/// its cancellation is published, and then its sender is answered that it was
/// cancelled.
pub open spec fn is_cancelled_in<C, R>(
    effects: Seq<Effect<C, R>>,
    job: Job<C, R>,
    id: DownloadID,
) -> bool {
    &&& tokens_in(effects) == seq![job.request]
    &&& announces_and_answers(
        effects,
        job,
        Event::Cancelled { id },
        Err(DownloadError::Cancelled),
    )
    &&& effects.first() is CancelToken
    &&& effects.len() == 3
}

/// A later attempt may succeed after this error.
pub open spec fn is_worth_retrying(e: DownloadError) -> bool {
    match e {
        DownloadError::Network(NetworkError::Backend(b)) => {
            ||| b is Connect
            ||| b is Timeout
            ||| b is Request
            ||| b is ServerError
        },
        DownloadError::Network(NetworkError::Http(h)) => {
            ||| error_is_timeout(h)
            ||| error_is_connect(h)
            ||| error_is_request(h)
            ||| error_status(h) is None
            ||| 500 <= error_status(h)->Some_0 <= 599
        },
        _ => false,
    }
}

/// The seconds that the next retry waits after so many.
pub open spec fn wait_after(attempt: u32) -> nat {
    if attempt == 0 {
        1
    } else if attempt == 1 {
        2
    } else if attempt == 2 {
        4
    } else if attempt == 3 {
        8
    } else {
        10
    }
}

/// Who waits once the scheduler has been told this.
pub open spec fn waiting_after<C, R>(
    ready: Seq<DownloadID>,
    input: SchedulerInput<C, R>,
) -> Seq<DownloadID> {
    match input {
        SchedulerInput::Command(SchedulerCmd::Enqueue { request, .. }) => ready.push(request.id),
        SchedulerInput::Expired(id) => ready.push(id),
        _ => ready,
    }
}

/// What the effects of a job amount to.
proof fn lemma_effects<C, R>(job: Job<C, R>)
    ensures
        is_cancelled_in(job.cancel_effects(), job, job.request.id),
        events_in(job.queue_effects()) == seq![
            (
                job.request,
                Event::Queued {
                    id: job.request.id,
                    url: job.request.url,
                    destination: job.request.destination,
                },
            ),
        ],
        outcomes_in(job.queue_effects()).len() == 0,
        tokens_in(job.queue_effects()).len() == 0,
        delays_in(job.queue_effects()).len() == 0,
        forall|result: DownloadResult|
            {
                let effects = #[trigger] job.finish_effects(result);
                &&& tokens_in(effects).len() == 0
                &&& announces_and_answers(
                    effects,
                    job,
                    Event::Completed {
                        id: job.request.id,
                        path: result.path,
                        bytes_downloaded: result.bytes_downloaded,
                    },
                    Ok(result),
                )
            },
        forall|delay: Duration|
            {
                let effects = #[trigger] job.retry_effects(delay);
                &&& tokens_in(effects).len() == 0
                &&& outcomes_in(effects).len() == 0
                &&& delays_in(effects) == seq![(job.request.id, delay)]
                &&& effects.first() is Emit
                &&& events_in(effects) == seq![
                    (
                        job.request,
                        Event::Retrying {
                            id: job.request.id,
                            attempt: job.attempt,
                            next_delay_ms: (nanos(delay) / 1_000_000) as u64,
                        },
                    ),
                ]
            },
        forall|error: DownloadError, effects: Seq<Effect<C, R>>| #[trigger]
            job.failed_by(error, effects) ==> {
                &&& tokens_in(effects).len() == 0
                &&& delays_in(effects).len() == 0
                &&& outcomes_in(effects) == seq![(job.result, Err::<DownloadResult, _>(error))]
                &&& effects.last() is Resolve
                &&& events_in(effects).len() == 1
                &&& events_in(effects)[0].0 == job.request
                &&& events_in(effects)[0].1 matches Event::Failed { id, error: text } && id
                    == job.request.id && error.described_by(text@)
            },
{
    reveal_with_fuel(events_in, 4);
    reveal_with_fuel(outcomes_in, 4);
    reveal_with_fuel(tokens_in, 4);
    reveal_with_fuel(delays_in, 4);
    let cancel = job.cancel_effects();
    assert(cancel.drop_last().last() == cancel[1]);
    assert(cancel.drop_last().drop_last().last() == cancel[0]);
    assert forall|result: DownloadResult|
        {
            let effects = #[trigger] job.finish_effects(result);
            &&& tokens_in(effects).len() == 0
            &&& announces_and_answers(
                effects,
                job,
                Event::Completed {
                    id: job.request.id,
                    path: result.path,
                    bytes_downloaded: result.bytes_downloaded,
                },
                Ok(result),
            )
        } by {
        let effects = job.finish_effects(result);
        assert(effects.drop_last().last() == effects[0]);
    }
    assert forall|delay: Duration|
        {
            let effects = #[trigger] job.retry_effects(delay);
            &&& tokens_in(effects).len() == 0
            &&& outcomes_in(effects).len() == 0
            &&& delays_in(effects) == seq![(job.request.id, delay)]
            &&& effects.first() is Emit
            &&& events_in(effects) == seq![
                (
                    job.request,
                    Event::Retrying {
                        id: job.request.id,
                        attempt: job.attempt,
                        next_delay_ms: (nanos(delay) / 1_000_000) as u64,
                    },
                ),
            ]
        } by {
        let effects = job.retry_effects(delay);
        assert(effects.drop_last().last() == effects[0]);
    }
    assert forall|error: DownloadError, effects: Seq<Effect<C, R>>| #[trigger]
        job.failed_by(error, effects) implies {
        &&& tokens_in(effects).len() == 0
        &&& delays_in(effects).len() == 0
        &&& outcomes_in(effects) == seq![(job.result, Err::<DownloadResult, _>(error))]
        &&& effects.last() is Resolve
        &&& events_in(effects).len() == 1
        &&& events_in(effects)[0].0 == job.request
        &&& events_in(effects)[0].1 matches Event::Failed { id, error: text } && id
            == job.request.id && error.described_by(text@)
    } by {
        assert(effects.drop_last().last() == effects[0]);
    }
}

/// A cancel command cancels the download, if it is known: its token is cancelled,
/// which stops its worker, its cancellation is published and no failure, its
/// sender is answered that it was cancelled, and it is gone. Nothing else changes,
/// and for a download that is not known nothing does.
pub proof fn law_cancel_command_cancels<C, R>(
    s: &mut Scheduler<C, R>,
    id: DownloadID,
    turn: Turn<C, R>,
)
    requires
        old(s)@.wf(),
        call_ensures(
            Scheduler::<C, R>::turn,
            (s, SchedulerInput::Command(SchedulerCmd::Cancel { id })),
            turn,
        ),
    ensures
        final(s)@.jobs == old(s)@.jobs.remove(id),
        old(s)@.jobs.contains_key(id) ==> is_cancelled_in(turn.effects@, old(s)@.jobs[id], id),
        !old(s)@.jobs.contains_key(id) ==> turn.effects@.len() == 0,
{
    if old(s)@.jobs.contains_key(id) {
        lemma_effects(old(s)@.jobs[id]);
    }
}

/// An enqueue command queues the download behind all others, to be tried for the
/// first time, and announces that. Nothing else changes.
pub proof fn law_enqueue_command_queues<C, R>(
    s: &mut Scheduler<C, R>,
    request: Request<C>,
    result_tx: R,
    turn: Turn<C, R>,
)
    requires
        old(s)@.wf(),
        call_ensures(
            Scheduler::<C, R>::turn,
            (s, SchedulerInput::Command(SchedulerCmd::Enqueue { request, result_tx })),
            turn,
        ),
    ensures
        final(s)@.jobs.remove(request.id) == old(s)@.jobs.remove(request.id),
        final(s)@.jobs.contains_key(request.id),
        *final(s)@.jobs[request.id].request == request,
        final(s)@.jobs[request.id].attempt == 0,
        final(s)@.jobs[request.id].result == result_tx,
        events_in(turn.effects@).len() == 1,
        *events_in(turn.effects@)[0].0 == request,
        events_in(turn.effects@)[0].1 == (Event::Queued {
            id: request.id,
            url: request.url,
            destination: request.destination,
        }),
        outcomes_in(turn.effects@).len() == 0,
        tokens_in(turn.effects@).len() == 0,
        delays_in(turn.effects@).len() == 0,
{
    let job = final(s)@.jobs[request.id];
    lemma_effects(job);
    assert(final(s)@.jobs.remove(request.id) =~= old(s)@.jobs.remove(request.id));
}

/// A completed attempt completes its download, if it is known: the completion is
/// published, with the path and the bytes, and its sender gets the result.
pub proof fn law_completed_attempt_completes<C, R>(
    s: &mut Scheduler<C, R>,
    id: DownloadID,
    result: DownloadResult,
    turn: Turn<C, R>,
)
    requires
        old(s)@.wf(),
        call_ensures(
            Scheduler::<C, R>::turn,
            (s, SchedulerInput::Worker(WorkerMsg::Finish { id, result: Ok(result) })),
            turn,
        ),
    ensures
        final(s)@.jobs == old(s)@.jobs.remove(id),
        !old(s)@.jobs.contains_key(id) ==> turn.effects@.len() == 0,
        old(s)@.jobs.contains_key(id) ==> {
            &&& tokens_in(turn.effects@).len() == 0
            &&& announces_and_answers(
                turn.effects@,
                old(s)@.jobs[id],
                Event::Completed {
                    id,
                    path: result.path,
                    bytes_downloaded: result.bytes_downloaded,
                },
                Ok(result),
            )
        },
{
    if old(s)@.jobs.contains_key(id) {
        lemma_effects(old(s)@.jobs[id]);
    }
    assert(final(s)@.jobs =~= old(s)@.jobs.remove(id));
}

/// A cancelled attempt cancels its download, if it is known, as a command does.
pub proof fn law_cancelled_attempt_cancels<C, R>(
    s: &mut Scheduler<C, R>,
    id: DownloadID,
    turn: Turn<C, R>,
)
    requires
        old(s)@.wf(),
        call_ensures(
            Scheduler::<C, R>::turn,
            (
                s,
                SchedulerInput::Worker(
                    WorkerMsg::Finish { id, result: Err(DownloadError::Cancelled) },
                ),
            ),
            turn,
        ),
    ensures
        final(s)@.jobs == old(s)@.jobs.remove(id),
        !old(s)@.jobs.contains_key(id) ==> turn.effects@.len() == 0,
        old(s)@.jobs.contains_key(id) ==> is_cancelled_in(turn.effects@, old(s)@.jobs[id], id),
{
    if old(s)@.jobs.contains_key(id) {
        lemma_effects(old(s)@.jobs[id]);
    }
    assert(final(s)@.jobs =~= old(s)@.jobs.remove(id));
}

/// A failed attempt is repeated exactly if a later one may succeed and retries are
/// left. Then the download stays, with one more retry counted, the retry is
/// announced, and it waits one second, two, four, eight or ten. Otherwise the
/// download is gone, its failure is published in the words of the error, and its
/// sender gets the error.
pub proof fn law_failed_attempt_is_retried_or_fails<C, R>(
    s: &mut Scheduler<C, R>,
    id: DownloadID,
    error: DownloadError,
    turn: Turn<C, R>,
)
    requires
        old(s)@.wf(),
        !(error is Cancelled),
        call_ensures(
            Scheduler::<C, R>::turn,
            (s, SchedulerInput::Worker(WorkerMsg::Finish { id, result: Err(error) })),
            turn,
        ),
    ensures
        final(s)@.jobs.remove(id) == old(s)@.jobs.remove(id),
        tokens_in(turn.effects@).len() == 0,
        !old(s)@.jobs.contains_key(id) ==> final(s)@.jobs == old(s)@.jobs
            && turn.effects@.len() == 0,
        old(s)@.jobs.contains_key(id) ==> {
            let job = old(s)@.jobs[id];
            if is_worth_retrying(error) && job.attempt < job.request.config.retries {
                &&& final(s)@.jobs.contains_key(id)
                &&& final(s)@.jobs[id].request == job.request
                &&& final(s)@.jobs[id].result == job.result
                &&& final(s)@.jobs[id].attempt == job.attempt + 1
                &&& outcomes_in(turn.effects@).len() == 0
                &&& turn.effects@.first() is Emit
                &&& delays_in(turn.effects@).len() == 1
                &&& delays_in(turn.effects@)[0].0 == id
                &&& nanos(delays_in(turn.effects@)[0].1) == wait_after(job.attempt) * 1_000_000_000
                &&& events_in(turn.effects@) == seq![
                    (
                        job.request,
                        Event::Retrying {
                            id,
                            attempt: (job.attempt + 1) as u32,
                            next_delay_ms: (wait_after(job.attempt) * 1_000) as u64,
                        },
                    ),
                ]
            } else {
                &&& !final(s)@.jobs.contains_key(id)
                &&& outcomes_in(turn.effects@) == seq![
                    (job.result, Err::<DownloadResult, _>(error)),
                ]
                &&& turn.effects@.last() is Resolve
                &&& delays_in(turn.effects@).len() == 0
                &&& events_in(turn.effects@).len() == 1
                &&& events_in(turn.effects@)[0].0 == job.request
                &&& events_in(turn.effects@)[0].1 matches Event::Failed { id: k, error: text } && k
                    == id && error.described_by(text@)
            }
        },
{
    let before = old(s)@;
    let effects = turn.effects@;
    if before.jobs.contains_key(id) {
        let job = before.jobs[id];
        lemma_effects(job);
        if is_worth_retrying(error) && job.attempt < job.request.config.retries {
            let retried = before.retried(id);
            lemma_effects(retried);
            let delay = choose|delay: Duration|
                {
                    &&& nanos(delay) == crate::backoff::delay_after(
                        1_000_000_000,
                        10_000_000_000,
                        job.attempt as nat,
                    )
                    &&& effects == #[trigger] retried.retry_effects(delay)
                };
            law_retry_delays(job.attempt as nat);
            assert(nanos(delay) == wait_after(job.attempt) * 1_000_000_000);
            assert(nanos(delay) / 1_000_000 == wait_after(job.attempt) * 1_000);
        }
    } else {
        assert(effects.len() == 0);
    }
    assert(final(s)@.jobs.remove(id) =~= before.jobs.remove(id));
}

/// The end of a delay changes no job and has no effects.
pub proof fn law_expired_delay_changes_no_job<C, R>(
    s: &mut Scheduler<C, R>,
    id: DownloadID,
    turn: Turn<C, R>,
)
    requires
        old(s)@.wf(),
        call_ensures(Scheduler::<C, R>::turn, (s, SchedulerInput::Expired(id)), turn),
    ensures
        final(s)@.jobs == old(s)@.jobs,
        turn.effects@.len() == 0,
{
}

/// The effects that cancel these jobs one after the other.
proof fn lemma_cancel_each<C, R>(s: SchedulerState<C, R>, ids: Seq<DownloadID>)
    requires
        s.wf(),
        forall|i: int| 0 <= i < ids.len() ==> s.jobs.contains_key(#[trigger] ids[i]),
    ensures
        ({
            let effects = s.cancel_each(ids);
            &&& tokens_in(effects) == ids.map_values(|id: DownloadID| s.jobs[id].request)
            &&& events_in(effects) == ids.map_values(
                |id: DownloadID| (s.jobs[id].request, Event::Cancelled { id }),
            )
            &&& outcomes_in(effects) == ids.map_values(
                |id: DownloadID|
                    (s.jobs[id].result, Err::<DownloadResult, _>(DownloadError::Cancelled)),
            )
            &&& delays_in(effects).len() == 0
            &&& effects.len() == 3 * ids.len()
            &&& forall|k: int|
                0 <= k < ids.len() ==> (#[trigger] effects[3 * k]) is CancelToken && effects[3 * k
                    + 1] is Emit && effects[3 * k + 2] is Resolve
        }),
    decreases ids.len(),
{
    let effects = s.cancel_each(ids);
    if ids.len() > 0 {
        let earlier = ids.drop_last();
        let id = ids.last();
        let job = s.jobs[id];
        assert(s.jobs.contains_key(ids[ids.len() - 1]));
        assert forall|i: int| 0 <= i < earlier.len() implies s.jobs.contains_key(
            #[trigger] earlier[i],
        ) by {
            assert(earlier[i] == ids[i]);
        }
        lemma_cancel_each(s, earlier);
        lemma_parts_add(s.cancel_each(earlier), job.cancel_effects());
        lemma_effects(job);
        assert(ids =~= earlier.push(id));
        let sofar = s.cancel_each(earlier);
        assert forall|k: int| 0 <= k < ids.len() implies (#[trigger] effects[3 * k]) is CancelToken
            && effects[3 * k + 1] is Emit && effects[3 * k + 2] is Resolve by {
            if k < earlier.len() {
                assert(effects[3 * k] == sofar[3 * k]);
                assert(effects[3 * k + 1] == sofar[3 * k + 1]);
                assert(effects[3 * k + 2] == sofar[3 * k + 2]);
            } else {
                assert(effects[3 * k] == job.cancel_effects()[0]);
                assert(effects[3 * k + 1] == job.cancel_effects()[1]);
                assert(effects[3 * k + 2] == job.cancel_effects()[2]);
            }
        }
        assert(tokens_in(effects) =~= ids.map_values(|id: DownloadID| s.jobs[id].request));
        assert(events_in(effects) =~= ids.map_values(
            |id: DownloadID| (s.jobs[id].request, Event::Cancelled { id }),
        ));
        assert(outcomes_in(effects) =~= ids.map_values(
            |id: DownloadID|
                (s.jobs[id].result, Err::<DownloadResult, _>(DownloadError::Cancelled)),
        ));
    } else {
        assert(tokens_in(effects) =~= ids.map_values(|id: DownloadID| s.jobs[id].request));
        assert(events_in(effects) =~= ids.map_values(
            |id: DownloadID| (s.jobs[id].request, Event::Cancelled { id }),
        ));
        assert(outcomes_in(effects) =~= ids.map_values(
            |id: DownloadID|
                (s.jobs[id].result, Err::<DownloadResult, _>(DownloadError::Cancelled)),
        ));
    }
}

proof fn lemma_parts_add<C, R>(a: Seq<Effect<C, R>>, b: Seq<Effect<C, R>>)
    ensures
        events_in(a + b) == events_in(a) + events_in(b),
        outcomes_in(a + b) == outcomes_in(a) + outcomes_in(b),
        tokens_in(a + b) == tokens_in(a) + tokens_in(b),
        delays_in(a + b) == delays_in(a) + delays_in(b),
    decreases b.len(),
{
    if b.len() == 0 {
        assert(a + b =~= a);
    } else {
        assert((a + b).drop_last() =~= a + b.drop_last());
        lemma_parts_add(a, b.drop_last());
    }
}

/// A shutdown cancels every download, each once: its token is cancelled, its
/// cancellation is published, and its sender is answered that it was cancelled.
/// No job is left, and nothing is started.
pub proof fn law_shutdown_cancels_every_download<C, R>(
    s: &mut Scheduler<C, R>,
    turn: Turn<C, R>,
) -> (ids: Seq<DownloadID>)
    requires
        old(s)@.wf(),
        call_ensures(Scheduler::<C, R>::turn, (s, SchedulerInput::Shutdown), turn),
    ensures
        final(s)@.jobs.dom().is_empty(),
        turn.round is None,
        ids.no_duplicates(),
        ids.to_set() == old(s)@.jobs.dom(),
        tokens_in(turn.effects@) == ids.map_values(|id: DownloadID| old(s)@.jobs[id].request),
        events_in(turn.effects@) == ids.map_values(
            |id: DownloadID| (old(s)@.jobs[id].request, Event::Cancelled { id }),
        ),
        outcomes_in(turn.effects@) == ids.map_values(
            |id: DownloadID|
                (old(s)@.jobs[id].result, Err::<DownloadResult, _>(DownloadError::Cancelled)),
        ),
        delays_in(turn.effects@).len() == 0,
        turn.effects@.len() == 3 * ids.len(),
        forall|k: int|
            0 <= k < ids.len() ==> (#[trigger] turn.effects@[3 * k]) is CancelToken
                && turn.effects@[3 * k + 1] is Emit && turn.effects@[3 * k + 2] is Resolve,
{
    let before = old(s)@;
    let effects = turn.effects@;
    let ids = choose|ids: Seq<DownloadID>|
        {
            &&& ids.no_duplicates()
            &&& ids.to_set() == before.jobs.dom()
            &&& effects == #[trigger] before.cancel_each(ids)
        };
    assert forall|i: int| 0 <= i < ids.len() implies before.jobs.contains_key(
        #[trigger] ids[i],
    ) by {
        assert(ids.to_set().contains(ids[i]));
    }
    lemma_cancel_each(before, ids);
    ids
}

/// The downloads of this round come from this queue, first come first: the known
/// ones among the first so many that waited are started, each as it was asked for
/// and under a permit that the semaphore gave. All that waited were considered,
/// or the next one was dropped because the token answered that the scheduler is
/// shutting down, or it waits on because the semaphore refused a permit.
pub open spec fn serves<C, R>(
    gate: Semaphore,
    token: CancellationToken,
    waiting: Seq<DownloadID>,
    jobs: Map<DownloadID, Job<C, R>>,
    round: Round<C>,
    left: Seq<DownloadID>,
) -> bool {
    &&& exists|taken: int|
        {
            &&& 0 <= taken <= waiting.len()
            &&& ids_of(round.started@) == (#[trigger] waiting.take(taken)).filter(
                |id: DownloadID| jobs.contains_key(id),
            )
            &&& round.stop is Drained ==> taken == waiting.len() && left.len() == 0
            &&& round.stop is Blocked ==> taken < waiting.len() && left == waiting.skip(taken)
            &&& round.stop is Halted ==> taken < waiting.len() && left == waiting.skip(taken + 1)
        }
    &&& forall|i: int|
        0 <= i < round.started@.len() ==> {
            &&& jobs.contains_key((#[trigger] round.started@[i]).id)
            &&& round.started@[i].request == jobs[round.started@[i].id].request
            &&& permit_source(round.started@[i].permit) == gate
            &&& answers_request(gate, Some(round.started@[i].permit))
        }
    &&& round.stop is Blocked ==> answers_request(gate, None)
    &&& round.stop is Halted ==> answers_cancelled(token, true)
    &&& round.stop is Blocked || round.started@.len() > 0 ==> answers_cancelled(token, false)
}

proof fn lemma_serves<C, R>(
    gate: Semaphore,
    token: CancellationToken,
    s: SchedulerState<C, R>,
    round: Round<C>,
    after: SchedulerState<C, R>,
)
    requires
        s.after_round(gate, token, round, after),
    ensures
        serves(gate, token, s.ready, s.jobs, round, after.ready),
        after.jobs == s.jobs,
{
    let taken = choose|taken: int|
        {
            &&& 0 <= taken <= s.ready.len()
            &&& ids_of(round.started@) == #[trigger] s.live(taken)
            &&& match round.stop {
                Stop::Drained => taken == s.ready.len() && after.ready.len() == 0,
                Stop::Halted => taken < s.ready.len() && after.ready == s.ready.skip(taken + 1),
                Stop::Blocked => taken < s.ready.len() && after.ready == s.ready.skip(taken),
            }
        };
    let first = s.ready.take(taken);
    let pred = |id: DownloadID| s.jobs.contains_key(id);
    assert(ids_of(round.started@) == first.filter(pred));
    assert forall|i: int| 0 <= i < round.started@.len() implies s.jobs.contains_key(
        (#[trigger] round.started@[i]).id,
    ) by {
        assert(ids_of(round.started@)[i] == round.started@[i].id);
        first.lemma_filter_pred(pred, i);
    }
}

/// Every turn but a shutdown serves the queue, as it stands once the scheduler has
/// been told its input, and a shutdown serves nothing. A download is left waiting
/// only because the semaphore refused a permit for it.
pub proof fn law_turn_serves_the_queue<C, R>(
    s: &mut Scheduler<C, R>,
    input: SchedulerInput<C, R>,
    turn: Turn<C, R>,
)
    requires
        old(s)@.wf(),
        call_ensures(Scheduler::<C, R>::turn, (s, input), turn),
    ensures
        turn.round is None <==> input is Shutdown,
        turn.round matches Some(round) ==> serves(
            old(s).gate(),
            old(s).token(),
            waiting_after(old(s)@.ready, input),
            final(s)@.jobs,
            round,
            final(s)@.ready,
        ),
        turn.round matches Some(round) && final(s)@.ready.len() > 0 ==> answers_request(
            old(s).gate(),
            None,
        ) || answers_cancelled(old(s).token(), true),
        final(s).gate() == old(s).gate(),
        final(s).token() == old(s).token(),
        final(s)@.wf(),
{
    if let Some(round) = turn.round {
        let before = old(s)@;
        let after = final(s)@;
        let gate = old(s).gate();
        let token = old(s).token();
        let between = choose|between: SchedulerState<C, R>|
            before.after_input(input, between, turn.effects@) && #[trigger] between.after_round(
                gate,
                token,
                round,
                after,
            );
        assert(between.ready =~= waiting_after(before.ready, input));
        lemma_serves(gate, token, between, round, after);
    }
}

/// A round serves the queue as it stands.
pub proof fn law_round_serves_the_queue<C, R>(s: &mut Scheduler<C, R>, round: Round<C>)
    requires
        old(s)@.wf(),
        call_ensures(Scheduler::<C, R>::try_dispatch, (s,), round),
    ensures
        serves(
            old(s).gate(),
            old(s).token(),
            old(s)@.ready,
            old(s)@.jobs,
            round,
            final(s)@.ready,
        ),
        final(s)@.jobs == old(s)@.jobs,
{
    lemma_serves(old(s).gate(), old(s).token(), old(s)@, round, final(s)@);
}

/// A single dispatch considers the download that waits longest: it is dropped in a
/// shutdown, waits on without a permit, is passed over if it is not known, and
/// starts under the permit otherwise.
pub proof fn law_dispatch_considers_the_first<C, R>(
    s: &mut Scheduler<C, R>,
    shutting_down: bool,
    permit: Option<OwnedSemaphorePermit>,
    dispatch: Dispatch<C>,
)
    requires
        old(s)@.wf(),
        call_ensures(
            Scheduler::<C, R>::dispatch_next,
            (s, shutting_down, permit),
            dispatch,
        ),
    ensures
        final(s)@.jobs == old(s)@.jobs,
        old(s)@.ready.len() == 0 ==> dispatch is Idle && final(s)@.ready == old(s)@.ready,
        old(s)@.ready.len() > 0 ==> {
            let first = old(s)@.ready[0];
            let rest = old(s)@.ready.drop_first();
            &&& dispatch is Blocked <==> !shutting_down && permit is None
            &&& dispatch is Halted <==> shutting_down
            &&& dispatch is Started <==> !shutting_down && permit is Some
                && old(s)@.jobs.contains_key(first)
            &&& dispatch is Skipped <==> !shutting_down && permit is Some
                && !old(s)@.jobs.contains_key(first)
            &&& final(s)@.ready == if dispatch is Blocked {
                old(s)@.ready
            } else {
                rest
            }
            &&& dispatch matches Dispatch::Started(start) ==> {
                &&& start.id == first
                &&& start.request == old(s)@.jobs[first].request
                &&& Some(start.permit) == permit
            }
        },
{
}

/// A new scheduler knows no download, and asks the token and the semaphore that it
/// was given.
pub proof fn law_new_scheduler_is_empty<C, R>(
    token: CancellationToken,
    semaphore: Arc<Semaphore>,
    scheduler: Scheduler<C, R>,
)
    requires
        call_ensures(Scheduler::<C, R>::new, (token, semaphore), scheduler),
    ensures
        scheduler@.jobs.dom().is_empty(),
        scheduler@.ready.len() == 0,
        scheduler.gate() == *semaphore,
        scheduler.token() == token,
{
}

/// The announcement of a retry tells how many there were and how long it waits.
pub proof fn law_retries_are_announced<C, R>(
    job: Job<C, R>,
    delay: Duration,
    effects: Vec<Effect<C, R>>,
)
    requires
        call_ensures(Job::<C, R>::retry, (&job, delay), effects),
    ensures
        delays_in(effects@) == seq![(job.request.id, delay)],
        events_in(effects@) == seq![
            (
                job.request,
                Event::Retrying {
                    id: job.request.id,
                    attempt: job.attempt,
                    next_delay_ms: (nanos(delay) / 1_000_000) as u64,
                },
            ),
        ],
        outcomes_in(effects@).len() == 0,
        tokens_in(effects@).len() == 0,
{
    lemma_effects(job);
}

/// Whatever job is queued waits behind all others and is announced.
pub proof fn law_jobs_are_queued<C, R>(
    s: &mut Scheduler<C, R>,
    job: Job<C, R>,
    effects: Vec<Effect<C, R>>,
)
    requires
        old(s)@.wf(),
        job.within_limit(),
        call_ensures(Scheduler::<C, R>::schedule, (s, job), effects),
    ensures
        final(s)@.ready == old(s)@.ready.push(job.request.id),
        final(s)@.jobs == old(s)@.jobs.insert(job.request.id, job),
        effects@.len() == 1,
        events_in(effects@) == seq![
            (
                job.request,
                Event::Queued {
                    id: job.request.id,
                    url: job.request.url,
                    destination: job.request.destination,
                },
            ),
        ],
{
    lemma_effects(job);
}

/// Whatever way a job ends, that is published through its request and its sender
/// is answered.
pub proof fn law_jobs_end<C, R>(
    job: Job<C, R>,
    id: DownloadID,
    error: DownloadError,
    result: DownloadResult,
    cancelled: Vec<Effect<C, R>>,
    failed: Vec<Effect<C, R>>,
    finished: Vec<Effect<C, R>>,
)
    requires
        call_ensures(Job::<C, R>::id, (&job,), id),
        call_ensures(Job::<C, R>::cancel, (job,), cancelled),
        call_ensures(Job::<C, R>::fail, (job, error), failed),
        call_ensures(Job::<C, R>::finish, (job, result), finished),
    ensures
        id == job.request.id,
        is_cancelled_in(cancelled@, job, id),
        tokens_in(finished@).len() == 0,
        announces_and_answers(
            finished@,
            job,
            Event::Completed {
                id,
                path: result.path,
                bytes_downloaded: result.bytes_downloaded,
            },
            Ok(result),
        ),
        tokens_in(failed@).len() == 0,
        delays_in(failed@).len() == 0,
        failed@.last() is Resolve,
        outcomes_in(failed@) == seq![(job.result, Err::<DownloadResult, _>(error))],
        events_in(failed@).len() == 1,
        events_in(failed@)[0].0 == job.request,
        events_in(failed@)[0].1 matches Event::Failed { id: k, error: text } && k == id
            && error.described_by(text@),
{
    lemma_effects(job);
}

} // verus!
