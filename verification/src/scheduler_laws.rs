//! What holds of every scheduler, whatever it is told.

use crate::context::DownloadID;
use crate::error::DownloadError;
use crate::request::Request;
use crate::scheduler::{
    ids_of, lemma_live_grows, Effect, Job, Round, SchedulerCmd, SchedulerInput, SchedulerState,
    Turn, WorkerMsg,
};
use std::sync::Arc;
use tokio::sync::Semaphore;
use tokio_util::sync::CancellationToken;
use vstd::prelude::*;

verus! {

broadcast use vstd::seq_lib::group_seq_properties;

/// Who is given a final outcome by these effects, in order.
pub open spec fn answered<C, R>(effects: Seq<Effect<C, R>>) -> Seq<R>
    decreases effects.len(),
{
    if effects.len() == 0 {
        Seq::empty()
    } else {
        match effects.last() {
            Effect::Resolve { to, .. } => answered(effects.drop_last()).push(to),
            _ => answered(effects.drop_last()),
        }
    }
}

/// The input does not put a second download under an identifier in use.
pub open spec fn is_fresh<C, R>(s: SchedulerState<C, R>, input: SchedulerInput<C, R>) -> bool {
    match input {
        SchedulerInput::Command(SchedulerCmd::Enqueue { request, .. }) => !s.jobs.contains_key(
            request.id,
        ),
        _ => true,
    }
}

/// Where the outcomes of these downloads are reported.
pub open spec fn senders<C, R>(s: SchedulerState<C, R>, ids: Seq<DownloadID>) -> Seq<R> {
    ids.map_values(|id: DownloadID| s.jobs[id].result)
}

/// The downloads that are gone, each listed once.
pub open spec fn lists_departed<C, R>(
    ids: Seq<DownloadID>,
    before: SchedulerState<C, R>,
    after: SchedulerState<C, R>,
) -> bool {
    &&& ids.no_duplicates()
    &&& ids.to_set() == before.jobs.dom().difference(after.jobs.dom())
}

proof fn lemma_answered_adds<C, R>(a: Seq<Effect<C, R>>, b: Seq<Effect<C, R>>)
    ensures
        answered(a + b) == answered(a) + answered(b),
    decreases b.len(),
{
    if b.len() == 0 {
        assert(a + b =~= a);
    } else {
        assert((a + b).drop_last() =~= a + b.drop_last());
        lemma_answered_adds(a, b.drop_last());
    }
}

/// Each way in which a job ends answers its sender, once.
proof fn lemma_job_answers<C, R>(job: Job<C, R>)
    ensures
        answered(job.cancel_effects()) == seq![job.result],
        answered(job.queue_effects()) == Seq::<R>::empty(),
        forall|result| answered(#[trigger] job.finish_effects(result)) == seq![job.result],
        forall|delay| answered(#[trigger] job.retry_effects(delay)) == Seq::<R>::empty(),
        forall|error, effects| #[trigger]
            job.failed_by(error, effects) ==> answered(effects) == seq![job.result],
{
    reveal_with_fuel(answered, 4);
    assert forall|error, effects| #[trigger] job.failed_by(error, effects) implies answered(effects)
        == seq![job.result] by {
        assert(effects.drop_last().last() == effects[0]);
    }
    assert(job.cancel_effects().drop_last().last() is Emit);
    assert(job.cancel_effects().drop_last().drop_last().last() is CancelToken);
    assert forall|result| answered(#[trigger] job.finish_effects(result)) == seq![job.result] by {
        assert(job.finish_effects(result).drop_last().last() is Emit);
    }
    assert forall|delay| answered(#[trigger] job.retry_effects(delay)) == Seq::<R>::empty() by {
        assert(job.retry_effects(delay).drop_last().last() is Emit);
    }
}

proof fn lemma_cancel_each_answers<C, R>(s: SchedulerState<C, R>, ids: Seq<DownloadID>)
    ensures
        answered(s.cancel_each(ids)) == senders(s, ids),
    decreases ids.len(),
{
    if ids.len() > 0 {
        let earlier = ids.drop_last();
        let job = s.jobs[ids.last()];
        lemma_cancel_each_answers(s, earlier);
        lemma_answered_adds(s.cancel_each(earlier), job.cancel_effects());
        lemma_job_answers(job);
        assert(senders(s, ids) =~= senders(s, earlier) + seq![job.result]);
    } else {
        assert(senders(s, ids) =~= Seq::empty());
    }
}

/// Every download gets its outcome, and gets it once: a download leaves the
/// scheduler exactly when its sender is answered.
pub proof fn law_leaving_is_answered<C, R>(
    before: SchedulerState<C, R>,
    input: SchedulerInput<C, R>,
    after: SchedulerState<C, R>,
    effects: Seq<Effect<C, R>>,
) -> (ids: Seq<DownloadID>)
    requires
        is_fresh(before, input),
        before.after_input(input, after, effects),
    ensures
        lists_departed(ids, before, after),
        answered(effects) == senders(before, ids),
{
    let none = Seq::<DownloadID>::empty();
    match input {
        SchedulerInput::Command(SchedulerCmd::Enqueue { request, result_tx }) => {
            let job = choose|job: Job<C, R>|
                {
                    &&& *job.request == request
                    &&& job.attempt == 0
                    &&& job.result == result_tx
                    &&& after == #[trigger] before.scheduled(job)
                    &&& effects == job.queue_effects()
                };
            lemma_job_answers(job);
            assert(none.to_set() =~= before.jobs.dom().difference(after.jobs.dom()));
            assert(senders(before, none) =~= Seq::empty());
            none
        },
        SchedulerInput::Command(SchedulerCmd::Cancel { id }) => {
            lemma_departure(before, id);
            if before.jobs.contains_key(id) {
                lemma_job_answers(before.jobs[id]);
                seq![id]
            } else {
                assert(after.jobs =~= before.jobs);
                none
            }
        },
        SchedulerInput::Worker(msg) => {
            let WorkerMsg::Finish { id, result } = msg;
            lemma_departure(before, id);
            if !before.jobs.contains_key(id) {
                none
            } else if before.retries_after(id, result) {
                lemma_job_answers(before.retried(id));
                assert(after.jobs.dom() =~= before.jobs.dom());
                none
            } else {
                lemma_job_answers(before.jobs[id]);
                seq![id]
            }
        },
        SchedulerInput::Expired(id) => {
            lemma_departure(before, id);
            none
        },
        SchedulerInput::Shutdown => {
            let ids = choose|ids: Seq<DownloadID>|
                {
                    &&& ids.no_duplicates()
                    &&& ids.to_set() == before.jobs.dom()
                    &&& effects == #[trigger] before.cancel_each(ids)
                };
            lemma_cancel_each_answers(before, ids);
            assert(before.jobs.dom().difference(after.jobs.dom()) =~= before.jobs.dom());
            ids
        },
    }
}

/// What leaves when one download does, and when none does.
proof fn lemma_departure<C, R>(s: SchedulerState<C, R>, id: DownloadID)
    ensures
        ({
            let none = Seq::<DownloadID>::empty();
            &&& none.to_set() == s.jobs.dom().difference(s.jobs.dom())
            &&& senders(s, none) == Seq::<R>::empty()
            &&& senders(s, seq![id]) == seq![s.jobs[id].result]
            &&& s.jobs.contains_key(id) ==> lists_departed(seq![id], s, s.cancelled(id))
        }),
{
    let none = Seq::<DownloadID>::empty();
    assert(none.to_set() =~= s.jobs.dom().difference(s.jobs.dom()));
    assert(senders(s, none) =~= Seq::empty());
    assert(senders(s, seq![id]) =~= seq![s.jobs[id].result]);
    if s.jobs.contains_key(id) {
        let left = s.jobs.dom().difference(s.cancelled(id).jobs.dom());
        assert(seq![id][0] == id);
        assert(seq![id].contains(id));
        assert(seq![id].to_set() =~= left);
    }
}

/// The scheduler after attempts of one download have ended with these errors.
pub open spec fn after_failures<C, R>(
    s: SchedulerState<C, R>,
    id: DownloadID,
    errors: Seq<DownloadError>,
) -> SchedulerState<C, R>
    decreases errors.len(),
{
    if errors.len() == 0 {
        s
    } else {
        after_failures(s, id, errors.drop_last()).finished(id, Err(errors.last()))
    }
}

/// A download is retried as often as its limit says and no more: after as many
/// retryable errors it is still there, with that many retries counted, and after
/// one more it is gone.
pub proof fn law_retry_limit<C, R>(
    s: SchedulerState<C, R>,
    id: DownloadID,
    errors: Seq<DownloadError>,
)
    requires
        s.jobs.contains_key(id),
        s.jobs[id].attempt == 0,
        forall|i: int| 0 <= i < errors.len() ==> (#[trigger] errors[i]).retryable(),
    ensures
        ({
            let after = after_failures(s, id, errors);
            &&& after.jobs.contains_key(id) <==> errors.len() <= s.jobs[id].request.config.retries
            &&& after.jobs.contains_key(id) ==> after.jobs[id] == Job {
                attempt: errors.len() as u32,
                ..s.jobs[id]
            }
        }),
    decreases errors.len(),
{
    if errors.len() > 0 {
        let earlier = errors.drop_last();
        assert forall|i: int| 0 <= i < earlier.len() implies (
        #[trigger] earlier[i]).retryable() by {
            assert(earlier[i] == errors[i]);
        }
        assert(errors[errors.len() - 1].retryable());
        law_retry_limit(s, id, earlier);
    }
}

/// An error that is not retryable, or that is a cancellation, ends a download at
/// once, whatever its limit.
pub proof fn law_other_errors_are_final<C, R>(
    s: SchedulerState<C, R>,
    id: DownloadID,
    error: DownloadError,
)
    requires
        !error.retryable(),
    ensures
        !s.finished(id, Err(error)).jobs.contains_key(id),
{
}

/// These inputs lead from the first of these states to the last, one after the
/// other, with these turns.
pub open spec fn leads_on<C, R>(
    gate: Semaphore,
    token: CancellationToken,
    states: Seq<SchedulerState<C, R>>,
    inputs: Seq<SchedulerInput<C, R>>,
    turns: Seq<Turn<C, R>>,
) -> bool {
    &&& states.len() == inputs.len() + 1
    &&& turns.len() == inputs.len()
    &&& forall|i: int|
        0 <= i < inputs.len() ==> #[trigger] states[i].after_turn(
            gate,
            token,
            inputs[i],
            turns[i],
            states[i + 1],
        )
}

/// The input queues a download under this identifier.
pub open spec fn enqueues<C, R>(input: SchedulerInput<C, R>, id: DownloadID) -> bool {
    input matches SchedulerInput::Command(SchedulerCmd::Enqueue { request, .. }) && request.id == id
}

/// The turn starts this download.
pub open spec fn starts<C, R>(turn: Turn<C, R>, id: DownloadID) -> bool {
    turn.round matches Some(round) && ids_of(round.started@).contains(id)
}

/// A turn neither starts nor brings back a download that is gone, unless the
/// download is what the input queues.
proof fn lemma_gone_stays_gone<C, R>(
    gate: Semaphore,
    token: CancellationToken,
    before: SchedulerState<C, R>,
    input: SchedulerInput<C, R>,
    turn: Turn<C, R>,
    after: SchedulerState<C, R>,
    id: DownloadID,
)
    requires
        before.after_turn(gate, token, input, turn, after),
        !before.jobs.contains_key(id) || input == SchedulerInput::<C, R>::Command(
            SchedulerCmd::Cancel { id },
        ),
        !enqueues(input, id),
    ensures
        !after.jobs.contains_key(id),
        !starts(turn, id),
{
    if let Some(round) = turn.round {
        let between = choose|between: SchedulerState<C, R>|
            before.after_input(input, between, turn.effects@) && #[trigger] between.after_round(
                gate,
                token,
                round,
                after,
            );
        assert(!between.jobs.contains_key(id));
        if starts(turn, id) {
            let taken = choose|taken: int|
                0 <= taken <= between.ready.len() && ids_of(round.started@)
                    == #[trigger] between.live(taken);
            between.ready.take(taken).lemma_filter_contains_rev(
                |k: DownloadID| between.jobs.contains_key(k),
                id,
            );
        }
    }
}

/// A cancelled download never starts: from the turn of its cancellation on, no
/// turn starts it, unless a download is queued under its identifier again.
pub proof fn law_cancelled_never_starts<C, R>(
    gate: Semaphore,
    token: CancellationToken,
    states: Seq<SchedulerState<C, R>>,
    inputs: Seq<SchedulerInput<C, R>>,
    turns: Seq<Turn<C, R>>,
    id: DownloadID,
    cancelled: int,
    later: int,
)
    requires
        leads_on(gate, token, states, inputs, turns),
        0 <= cancelled <= later < inputs.len(),
        inputs[cancelled] == SchedulerInput::<C, R>::Command(SchedulerCmd::Cancel { id }),
        forall|i: int| cancelled < i <= later ==> !enqueues(#[trigger] inputs[i], id),
    ensures
        !starts(turns[later], id),
        !states[later + 1].jobs.contains_key(id),
    decreases later - cancelled,
{
    if cancelled < later {
        law_cancelled_never_starts(gate, token, states, inputs, turns, id, cancelled, later - 1);
    }
    assert(states[later].after_turn(gate, token, inputs[later], turns[later], states[later + 1]));
    lemma_gone_stays_gone(
        gate,
        token,
        states[later],
        inputs[later],
        turns[later],
        states[later + 1],
        id,
    );
}

/// Once the scheduler has shut down, nothing that it knew of starts any more.
pub proof fn law_nothing_starts_after_shutdown<C, R>(
    gate: Semaphore,
    token: CancellationToken,
    states: Seq<SchedulerState<C, R>>,
    inputs: Seq<SchedulerInput<C, R>>,
    turns: Seq<Turn<C, R>>,
    id: DownloadID,
    shutdown: int,
    later: int,
)
    requires
        leads_on(gate, token, states, inputs, turns),
        0 <= shutdown <= later < inputs.len(),
        inputs[shutdown] is Shutdown,
        forall|i: int| shutdown < i <= later ==> !enqueues(#[trigger] inputs[i], id),
    ensures
        !starts(turns[later], id),
        !states[later + 1].jobs.contains_key(id),
    decreases later - shutdown,
{
    assert(states[later].after_turn(gate, token, inputs[later], turns[later], states[later + 1]));
    if shutdown < later {
        law_nothing_starts_after_shutdown(
            gate,
            token,
            states,
            inputs,
            turns,
            id,
            shutdown,
            later - 1,
        );
        lemma_gone_stays_gone(
            gate,
            token,
            states[later],
            inputs[later],
            turns[later],
            states[later + 1],
            id,
        );
    }
}

/// The first waiting downloads that are not gone come first among more of them.
proof fn lemma_live_is_prefix<C, R>(s: SchedulerState<C, R>, few: int, many: int)
    requires
        0 <= few <= many <= s.ready.len(),
    ensures
        s.live(few).len() <= s.live(many).len(),
        s.live(many).take(s.live(few).len() as int) == s.live(few),
    decreases many - few,
{
    if few < many {
        lemma_live_is_prefix(s, few, many - 1);
        lemma_live_grows(s, many - 1);
        assert(s.live(many).take(s.live(few).len() as int) =~= s.live(many - 1).take(
            s.live(few).len() as int,
        ));
    }
}

/// First come, first served: a round that starts a waiting download has started
/// every download that waited before it and is not gone.
pub proof fn law_first_come_first_served<C, R>(
    gate: Semaphore,
    token: CancellationToken,
    before: SchedulerState<C, R>,
    round: Round<C>,
    after: SchedulerState<C, R>,
    earlier: int,
    later: int,
) -> (places: (int, int))
    requires
        before.after_round(gate, token, round, after),
        before.ready.no_duplicates(),
        0 <= earlier < later < before.ready.len(),
        before.jobs.contains_key(before.ready[earlier]),
        ids_of(round.started@).contains(before.ready[later]),
    ensures
        0 <= places.0 < places.1 < round.started@.len(),
        round.started@[places.0].id == before.ready[earlier],
        round.started@[places.1].id == before.ready[later],
{
    let started = ids_of(round.started@);
    let taken = choose|taken: int|
        0 <= taken <= before.ready.len() && started == #[trigger] before.live(taken);
    let pred = |k: DownloadID| before.jobs.contains_key(k);
    before.ready.take(taken).lemma_filter_contains_rev(pred, before.ready[later]);
    let at = choose|i: int| 0 <= i < taken && before.ready.take(taken)[i] == before.ready[later];
    assert(before.ready[at] == before.ready[later]);
    let n = choose|i: int| 0 <= i < started.len() && started[i] == before.ready[later];
    before.ready.take(taken).lemma_filter_pred(pred, n);
    lemma_live_is_prefix(before, earlier + 1, later);
    lemma_live_is_prefix(before, earlier + 1, taken);
    lemma_live_is_prefix(before, later + 1, taken);
    lemma_live_grows(before, earlier);
    lemma_live_grows(before, later);
    let first = before.live(earlier).len() as int;
    let second = before.live(later).len() as int;
    assert(started.take(first + 1)[first] == before.ready[earlier]);
    assert(started.take(second + 1)[second] == before.ready[later]);
    (first, second)
}

/// Cancelling a download that is gone does nothing, and so does cancelling one
/// twice.
pub proof fn law_cancelling_twice_does_nothing<C, R>(
    before: SchedulerState<C, R>,
    id: DownloadID,
    after: SchedulerState<C, R>,
    effects: Seq<Effect<C, R>>,
)
    requires
        before.after_cmd(SchedulerCmd::Cancel { id }, after, effects),
    ensures
        !before.jobs.contains_key(id) ==> after == before && effects.len() == 0,
        after.after_cmd(SchedulerCmd::Cancel { id }, after, Seq::empty()),
{
    assert(after.cancelled(id) =~= after);
    if !before.jobs.contains_key(id) {
        assert(after =~= before);
    }
}

/// Every event among these effects is about the download through whose request
/// it is published.
pub open spec fn publishes_own<C, R>(effects: Seq<Effect<C, R>>) -> bool {
    forall|i: int|
        0 <= i < effects.len() ==> (#[trigger] effects[i] matches Effect::Emit { request, event }
            ==> event.subject() == request.id)
}

proof fn lemma_cancel_each_publishes_own<C, R>(s: SchedulerState<C, R>, ids: Seq<DownloadID>)
    ensures
        publishes_own(s.cancel_each(ids)),
    decreases ids.len(),
{
    if ids.len() > 0 {
        lemma_cancel_each_publishes_own(s, ids.drop_last());
    }
}

/// An event that the scheduler publishes is about the download through whose
/// request it is published.
pub proof fn law_events_are_own<C, R>(
    before: SchedulerState<C, R>,
    input: SchedulerInput<C, R>,
    after: SchedulerState<C, R>,
    effects: Seq<Effect<C, R>>,
)
    requires
        before.after_input(input, after, effects),
    ensures
        publishes_own(effects),
{
    if input is Shutdown {
        let ids = choose|ids: Seq<DownloadID>|
            {
                &&& ids.no_duplicates()
                &&& ids.to_set() == before.jobs.dom()
                &&& effects == #[trigger] before.cancel_each(ids)
            };
        lemma_cancel_each_publishes_own(before, ids);
    }
}

/// These effects cancel the token of this request.
pub open spec fn cancels<C, R>(effects: Seq<Effect<C, R>>, request: Arc<Request<C>>) -> bool {
    exists|i: int| 0 <= i < effects.len() && #[trigger] effects[i] == Effect::<C, R>::CancelToken {
        request,
    }
}

proof fn lemma_cancel_each_cancels<C, R>(
    s: SchedulerState<C, R>,
    ids: Seq<DownloadID>,
    id: DownloadID,
)
    requires
        ids.contains(id),
    ensures
        cancels(s.cancel_each(ids), s.jobs[id].request),
    decreases ids.len(),
{
    let earlier = ids.drop_last();
    let sofar = s.cancel_each(earlier);
    let all = s.cancel_each(ids);
    if ids.last() == id {
        assert(all[sofar.len() as int] == Effect::<C, R>::CancelToken {
            request: s.jobs[id].request,
        });
    } else {
        let n = choose|i: int| 0 <= i < ids.len() && ids[i] == id;
        assert(earlier[n] == id);
        lemma_cancel_each_cancels(s, earlier, id);
        let i = choose|i: int|
            0 <= i < sofar.len() && #[trigger] sofar[i] == Effect::<C, R>::CancelToken {
                request: s.jobs[id].request,
            };
        assert(all[i] == sofar[i]);
    }
}

/// A shutdown cancels the token of every download.
pub proof fn law_shutdown_cancels_every_token<C, R>(
    before: SchedulerState<C, R>,
    after: SchedulerState<C, R>,
    effects: Seq<Effect<C, R>>,
)
    requires
        before.after_shutdown(after, effects),
    ensures
        forall|id: DownloadID| #[trigger]
            before.jobs.contains_key(id) ==> cancels(effects, before.jobs[id].request),
{
    let ids = choose|ids: Seq<DownloadID>|
        {
            &&& ids.no_duplicates()
            &&& ids.to_set() == before.jobs.dom()
            &&& effects == #[trigger] before.cancel_each(ids)
        };
    assert forall|id: DownloadID| #[trigger] before.jobs.contains_key(id) implies cancels(
        effects,
        before.jobs[id].request,
    ) by {
        assert(ids.to_set().contains(id));
        lemma_cancel_each_cancels(before, ids, id);
    }
}

/// A second shutdown changes nothing and has no effects.
pub proof fn law_second_shutdown_does_nothing<C, R>(
    before: SchedulerState<C, R>,
    after: SchedulerState<C, R>,
    effects: Seq<Effect<C, R>>,
    again: SchedulerState<C, R>,
    more: Seq<Effect<C, R>>,
)
    requires
        before.after_shutdown(after, effects),
        after.after_shutdown(again, more),
    ensures
        again == after,
        more.len() == 0,
{
    let ids = choose|ids: Seq<DownloadID>|
        {
            &&& ids.no_duplicates()
            &&& ids.to_set() == after.jobs.dom()
            &&& more == #[trigger] after.cancel_each(ids)
        };
    if ids.len() > 0 {
        assert(ids.to_set().contains(ids[0]));
    }
    assert(again =~= after);
}

} // verus!
