//! What holds of a scheduler together with the downloads that it has started and
//! those that it has put off, for as long as it is not shut down.
//!
//! A download that has ended gives its permit back first and reports its outcome
//! then, so between the two it is still counted among the running ones here
//! without holding a permit. Tasks give permits back at any time, also while the
//! scheduler starts others.

use crate::context::{Context, DownloadID};
use crate::external::runtime::{answers_cancelled, answers_request, semaphore_size};
use crate::permit_laws::{
    law_act_keeps_permits, law_permits_stay_within_size, lemma_holders, lemma_permits_prefix,
    lemma_taken_prefix, taken_for, Act, Slots,
};
use crate::scheduler::{
    ids_of, law_cancelled_keeps_wf, law_finished_keeps_wf, law_scheduled_keeps_wf,
    lemma_live_grows, Effect, Job, Round, SchedulerCmd, SchedulerInput, SchedulerState, Stop, Turn,
    WorkerMsg,
};
use crate::scheduler_laws::{answered, law_leaving_is_answered};
use tokio::sync::Semaphore;
use tokio_util::sync::CancellationToken;
use vstd::prelude::*;

verus! {

broadcast use vstd::seq_lib::group_seq_properties;

/// A scheduler and the downloads that are out of its hands.
#[verifier::ext_equal]
pub struct System<C, R> {
    pub state: SchedulerState<C, R>,
    /// The downloads that have been started and have not reported their outcome.
    pub running: Set<DownloadID>,
    /// The permits of those of them that hold one.
    pub slots: Slots,
    /// The downloads whose next attempt is put off.
    pub delayed: Set<DownloadID>,
    /// The identifiers of all downloads so far.
    pub issued: Set<DownloadID>,
}

/// The downloads that these effects put off.
pub open spec fn put_off<C, R>(effects: Seq<Effect<C, R>>) -> Set<DownloadID> {
    Set::new(
        |id: DownloadID|
            exists|i: int|
                0 <= i < effects.len() && (#[trigger] effects[i] matches Effect::Delay { id: k, .. }
                    && k == id),
    )
}

/// This is what happened while the scheduler asked for the permits of a round, up
/// to its last request: a permit was taken for each download that it started, and
/// where the semaphore answered with a refusal, that came last. The permit of a
/// download that turns out to be gone goes back at once and does not appear.
pub open spec fn fits_round<C>(gate: Semaphore, acts: Seq<Act>, round: Round<C>) -> bool {
    &&& taken_for(acts) == ids_of(round.started@)
    &&& round.stop is Blocked && answers_request(gate, None) ==> acts.len() > 0
        && acts.last() is Refused
}

/// What changes a system: something that a task does by itself, or a turn of the
/// scheduler with all that happens to the permits in the meantime.
pub enum Step<C, R> {
    Task(Act),
    Turn { input: SchedulerInput<C, R>, turn: Turn<C, R>, acts: Seq<Act> },
}

impl<C, R> System<C, R> {
    /// No downloads.
    pub open spec fn initial() -> Self {
        System {
            state: SchedulerState { jobs: Map::empty(), ready: Seq::empty() },
            running: Set::empty(),
            slots: Slots::initial(),
            delayed: Set::empty(),
            issued: Set::empty(),
        }
    }

    /// The scheduler can be told this now: identifiers are unique, a download
    /// reports its outcome once it has given its permit back, and only one that is
    /// put off has its delay expire.
    pub open spec fn admits(self, input: SchedulerInput<C, R>) -> bool {
        match input {
            SchedulerInput::Command(SchedulerCmd::Enqueue { request, .. }) => {
                !self.issued.contains(request.id)
            },
            SchedulerInput::Command(SchedulerCmd::Cancel { .. }) => true,
            SchedulerInput::Worker(WorkerMsg::Finish { id, .. }) => {
                self.running.contains(id) && !self.slots.holding.contains(id)
            },
            SchedulerInput::Expired(id) => self.delayed.contains(id),
            SchedulerInput::Shutdown => false,
        }
    }

    /// The downloads that run once the scheduler has been told this.
    pub open spec fn still_running(self, input: SchedulerInput<C, R>) -> Set<DownloadID> {
        match input {
            SchedulerInput::Worker(WorkerMsg::Finish { id, .. }) => self.running.remove(id),
            _ => self.running,
        }
    }

    /// The downloads that are put off once the scheduler has been told this.
    pub open spec fn still_delayed(
        self,
        input: SchedulerInput<C, R>,
        effects: Seq<Effect<C, R>>,
    ) -> Set<DownloadID> {
        match input {
            SchedulerInput::Expired(id) => self.delayed.remove(id),
            _ => self.delayed.union(put_off(effects)),
        }
    }

    /// The identifiers in use once the scheduler has been told this.
    pub open spec fn now_issued(self, input: SchedulerInput<C, R>) -> Set<DownloadID> {
        match input {
            SchedulerInput::Command(SchedulerCmd::Enqueue { request, .. }) => self.issued.insert(
                request.id,
            ),
            _ => self.issued,
        }
    }

    /// The effects of the input have been carried out.
    pub open spec fn told(
        self,
        input: SchedulerInput<C, R>,
        effects: Seq<Effect<C, R>>,
        state: SchedulerState<C, R>,
    ) -> Self {
        System {
            state,
            running: self.still_running(input),
            slots: self.slots,
            delayed: self.still_delayed(input, effects),
            issued: self.now_issued(input),
        }
    }

    /// The downloads of the round run, after this has happened to the permits.
    pub open spec fn launched(
        self,
        acts: Seq<Act>,
        round: Round<C>,
        state: SchedulerState<C, R>,
    ) -> Self {
        System {
            state,
            running: self.running.union(ids_of(round.started@).to_set()),
            slots: self.slots.played(acts),
            ..self
        }
    }

    /// A step leads to this system.
    pub open spec fn steps_to(
        self,
        gate: Semaphore,
        token: CancellationToken,
        step: Step<C, R>,
        after: Self,
    ) -> bool {
        match step {
            Step::Task(act) => {
                &&& !(act is Taken) && !(act is Refused)
                &&& self.slots.allows(semaphore_size(gate), act)
                &&& after == System { slots: self.slots.after(act), ..self }
            },
            Step::Turn { input, turn, acts } => {
                &&& self.admits(input)
                &&& self.state.after_turn(gate, token, input, turn, after.state)
                &&& self.slots.permits(semaphore_size(gate), acts)
                &&& turn.round matches Some(round) && {
                    &&& fits_round(gate, acts, round)
                    &&& after == self.told(input, turn.effects@, after.state).launched(
                        acts,
                        round,
                        after.state,
                    )
                }
            },
        }
    }

    /// A download is in one place at a time, and whatever holds a permit runs.
    pub open spec fn is_orderly(self, limit: nat) -> bool {
        &&& self.state.wf()
        &&& self.slots.is_sound(limit)
        &&& self.slots.holding.subset_of(self.running)
        &&& self.state.ready.no_duplicates()
        &&& forall|id: DownloadID| #[trigger]
            self.state.ready.contains(id) ==> {
                &&& self.issued.contains(id)
                &&& !self.running.contains(id)
                &&& !self.delayed.contains(id)
            }
        &&& forall|id: DownloadID| #[trigger]
            self.running.contains(id) ==> self.issued.contains(id) && !self.delayed.contains(id)
        &&& forall|id: DownloadID| #[trigger]
            self.delayed.contains(id) ==> self.issued.contains(id)
        &&& forall|id: DownloadID| #[trigger]
            self.state.jobs.contains_key(id) ==> self.issued.contains(id)
    }

    /// Every download that has no outcome yet waits, is put off or runs.
    pub open spec fn is_complete(self) -> bool {
        forall|id: DownloadID| #[trigger]
            self.state.jobs.contains_key(id) ==> {
                ||| self.state.ready.contains(id)
                ||| self.running.contains(id)
                ||| self.delayed.contains(id)
            }
    }

    /// No permit is idle while a download waits.
    pub open spec fn is_busy(self, limit: nat) -> bool {
        self.state.ready.len() == 0 || self.slots.holding.len() == limit
    }
}

/// Carrying out the effects of an input keeps every download in its place.
proof fn lemma_told_keeps_order<C, R>(
    system: System<C, R>,
    limit: nat,
    input: SchedulerInput<C, R>,
    effects: Seq<Effect<C, R>>,
    state: SchedulerState<C, R>,
)
    requires
        system.is_orderly(limit),
        system.admits(input),
        system.state.after_input(input, state, effects),
    ensures
        system.told(input, effects, state).is_orderly(limit),
        system.is_complete() ==> system.told(input, effects, state).is_complete(),
{
    let after = system.told(input, effects, state);
    match input {
        SchedulerInput::Command(SchedulerCmd::Enqueue { request, result_tx }) => {
            let job = choose|job: Job<C, R>|
                {
                    &&& *job.request == request
                    &&& job.attempt == 0
                    &&& job.result == result_tx
                    &&& state == #[trigger] system.state.scheduled(job)
                    &&& effects == job.queue_effects()
                };
            assert(put_off(effects) =~= Set::empty());
            law_scheduled_keeps_wf(system.state, job);
            lemma_pushed(system.state.ready, request.id);
        },
        SchedulerInput::Command(SchedulerCmd::Cancel { id }) => {
            assert(put_off(effects) =~= Set::empty());
            law_cancelled_keeps_wf(system.state, id);
        },
        SchedulerInput::Worker(WorkerMsg::Finish { id, result }) => {
            law_finished_keeps_wf(system.state, id, result);
            if system.state.jobs.contains_key(id) && system.state.retries_after(id, result) {
                let delay = choose|delay|
                    effects == #[trigger] system.state.retried(id).retry_effects(delay);
                assert(effects[1] == Effect::<C, R>::Delay { id, delay });
                assert(put_off(effects) =~= set![id]);
            } else {
                assert(put_off(effects) =~= Set::empty());
            }
        },
        SchedulerInput::Expired(id) => {
            lemma_pushed(system.state.ready, id);
        },
        SchedulerInput::Shutdown => {},
    }
}

/// What a queue with one more element at its end holds.
proof fn lemma_pushed(ready: Seq<DownloadID>, id: DownloadID)
    ensures
        forall|k: DownloadID| #[trigger]
            ready.push(id).contains(k) <==> ready.contains(k) || k == id,
        ready.no_duplicates() && !ready.contains(id) ==> ready.push(id).no_duplicates(),
{
}

/// The waiting downloads that are not gone are among the waiting ones, and none
/// is listed twice.
proof fn lemma_live_is_distinct<C, R>(s: SchedulerState<C, R>, taken: int)
    requires
        0 <= taken <= s.ready.len(),
        s.ready.no_duplicates(),
    ensures
        s.live(taken).no_duplicates(),
        forall|id: DownloadID| #[trigger]
            s.live(taken).contains(id) <==> s.ready.take(taken).contains(id)
                && s.jobs.contains_key(id),
    decreases taken,
{
    let pred = |id: DownloadID| s.jobs.contains_key(id);
    let first = s.ready.take(taken);
    assert forall|id: DownloadID| #[trigger] s.live(taken).contains(id) implies first.contains(id)
        && s.jobs.contains_key(id) by {
        first.lemma_filter_contains_rev(pred, id);
        let n = choose|i: int| 0 <= i < s.live(taken).len() && s.live(taken)[i] == id;
        first.lemma_filter_pred(pred, n);
    }
    assert forall|id: DownloadID| first.contains(id) && s.jobs.contains_key(id) implies #[trigger]
    s.live(taken).contains(id) by {
        let n = choose|i: int| 0 <= i < first.len() && first[i] == id;
        first.lemma_filter_contains(pred, n);
    }
    if taken > 0 {
        let next = s.ready[taken - 1];
        lemma_live_is_distinct(s, taken - 1);
        lemma_live_grows(s, taken - 1);
        assert(!s.ready.take(taken - 1).contains(next));
        assert(!s.live(taken - 1).contains(next));
    } else {
        assert(s.live(0) =~= Seq::empty()) by {
            reveal(Seq::filter);
        }
    }
}

/// Starting the downloads of a round keeps every download in its place.
proof fn lemma_launched_keeps_order<C, R>(
    system: System<C, R>,
    limit: nat,
    gate: Semaphore,
    token: CancellationToken,
    acts: Seq<Act>,
    round: Round<C>,
    state: SchedulerState<C, R>,
)
    requires
        system.is_orderly(limit),
        system.state.after_round(gate, token, round, state),
        system.slots.permits(limit, acts),
        fits_round(gate, acts, round),
    ensures
        system.launched(acts, round, state).is_orderly(limit),
        ids_of(round.started@).no_duplicates(),
        forall|id: DownloadID| #[trigger]
            ids_of(round.started@).contains(id) ==> !system.slots.holding.contains(id),
        round.stop !is Halted ==> {
            &&& system.is_complete() ==> system.launched(acts, round, state).is_complete()
            &&& system.launched(acts, round, state).is_busy(limit)
        },
{
    let after = system.launched(acts, round, state);
    let ready = system.state.ready;
    let started = ids_of(round.started@);
    let taken = choose|taken: int|
        {
            &&& 0 <= taken <= ready.len()
            &&& started == #[trigger] system.state.live(taken)
            &&& match round.stop {
                Stop::Drained => taken == ready.len() && state.ready.len() == 0,
                Stop::Halted => taken < ready.len() && state.ready == ready.skip(taken + 1),
                Stop::Blocked => taken < ready.len() && state.ready == ready.skip(taken),
            }
        };
    lemma_live_is_distinct(system.state, taken);
    assert forall|id: DownloadID| #[trigger] state.ready.contains(id) implies ready.contains(id)
        && !started.contains(id) by {
        let n = choose|i: int| 0 <= i < state.ready.len() && state.ready[i] == id;
        if round.stop is Halted {
            assert(ready[n + taken + 1] == id);
        } else {
            assert(ready[n + taken] == id);
        }
    }
    assert forall|id: DownloadID| #[trigger] started.contains(id) implies ready.contains(id) by {
        let n = choose|i: int| 0 <= i < taken && ready.take(taken)[i] == id;
        assert(ready[n] == id);
    }
    law_permits_stay_within_size(system.slots, limit, acts);
    assert forall|id: DownloadID| #[trigger] after.slots.holding.contains(id) implies
        after.running.contains(id) by {
        lemma_holders(system.slots, acts, id);
        if started.contains(id) {
            assert(started.to_set().contains(id));
        }
    }
    if round.stop !is Halted && system.is_complete() {
        assert forall|id: DownloadID| #[trigger] state.jobs.contains_key(id) implies {
            ||| state.ready.contains(id)
            ||| after.running.contains(id)
            ||| after.delayed.contains(id)
        } by {
            assert(system.state.jobs.contains_key(id));
            if ready.contains(id) {
                let n = choose|i: int| 0 <= i < ready.len() && ready[i] == id;
                if n < taken {
                    assert(ready.take(taken)[n] == id);
                    assert(started.contains(id));
                } else {
                    assert(state.ready[n - taken] == id);
                }
            }
        }
    }
}

/// Every step keeps the downloads in order, and a turn of the scheduler, unless it
/// was cut short by a shutdown, loses none and leaves no permit idle while a
/// download waits.
pub proof fn law_step_keeps_order<C, R>(
    system: System<C, R>,
    gate: Semaphore,
    token: CancellationToken,
    step: Step<C, R>,
    after: System<C, R>,
)
    requires
        system.is_orderly(semaphore_size(gate)),
        system.steps_to(gate, token, step, after),
    ensures
        after.is_orderly(semaphore_size(gate)),
        !is_cut_short(step) && system.is_complete() ==> after.is_complete(),
        step is Turn && !is_cut_short(step) ==> after.is_busy(semaphore_size(gate)),
{
    match step {
        Step::Task(act) => {
            law_act_keeps_permits(system.slots, semaphore_size(gate), act);
        },
        Step::Turn { input, turn, acts } => {
            let round = turn.round->Some_0;
            let between = choose|between: SchedulerState<C, R>|
                system.state.after_input(input, between, turn.effects@)
                    && #[trigger] between.after_round(gate, token, round, after.state);
            lemma_told_keeps_order(system, semaphore_size(gate), input, turn.effects@, between);
            let told = system.told(input, turn.effects@, between);
            lemma_launched_keeps_order(
                told,
                semaphore_size(gate),
                gate,
                token,
                acts,
                round,
                after.state,
            );
            assert(told.launched(acts, round, after.state) =~= after);
        },
    }
}

/// The step is a turn in which the scheduler found itself shutting down.
pub open spec fn is_cut_short<C, R>(step: Step<C, R>) -> bool {
    step matches Step::Turn { turn, .. } && turn.round->Some_0.stop is Halted
}

/// A turn is cut short only where the token answers that the scheduler is shutting
/// down.
pub proof fn law_only_a_shutdown_cuts_short<C, R>(
    system: System<C, R>,
    gate: Semaphore,
    token: CancellationToken,
    step: Step<C, R>,
    after: System<C, R>,
)
    requires
        system.steps_to(gate, token, step, after),
        is_cut_short(step),
    ensures
        answers_cancelled(token, true),
{
}

/// A step and the system that it led to.
pub struct Moment<C, R> {
    pub step: Step<C, R>,
    pub after: System<C, R>,
}

/// The system before this moment of a history.
pub open spec fn before<C, R>(history: Seq<Moment<C, R>>, i: int) -> System<C, R> {
    if i == 0 {
        System::initial()
    } else {
        history[i - 1].after
    }
}

/// A scheduler that began without downloads, and the tasks that it has started,
/// can have gone through this.
pub open spec fn is_history<C, R>(
    gate: Semaphore,
    token: CancellationToken,
    history: Seq<Moment<C, R>>,
) -> bool {
    forall|i: int|
        0 <= i < history.len() ==> before(history, i).steps_to(
            gate,
            token,
            (#[trigger] history[i]).step,
            history[i].after,
        )
}

/// The steps before any moment of a history leave the downloads in order.
pub(crate) proof fn lemma_history_is_orderly<C, R>(
    gate: Semaphore,
    token: CancellationToken,
    history: Seq<Moment<C, R>>,
    i: int,
)
    requires
        is_history(gate, token, history),
        0 <= i <= history.len(),
    ensures
        before(history, i).is_orderly(semaphore_size(gate)),
    decreases i,
{
    if i > 0 {
        lemma_history_is_orderly(gate, token, history, i - 1);
        law_step_keeps_order(
            before(history, i - 1),
            gate,
            token,
            history[i - 1].step,
            history[i - 1].after,
        );
    }
}

/// The permits after a moment of a history or, where it is a turn, at some point
/// within the turn.
pub open spec fn slots_at<C, R>(history: Seq<Moment<C, R>>, i: int, n: int) -> Slots {
    match history[i].step {
        Step::Task(_) => history[i].after.slots,
        Step::Turn { acts, .. } => before(history, i).slots.played(acts.take(n)),
    }
}

/// The number of points within a moment of a history.
pub open spec fn points_in<C, R>(moment: Moment<C, R>) -> nat {
    match moment.step {
        Step::Task(_) => 0,
        Step::Turn { acts, .. } => acts.len(),
    }
}

/// The concurrency limit is kept at all times, also while the scheduler is in the
/// middle of a turn: no more downloads hold a permit than the semaphore was made
/// with. Whatever works on a download holds one, and it is a download that was
/// started, does not wait and is not put off.
pub proof fn law_limit_is_kept<C, R>(
    gate: Semaphore,
    token: CancellationToken,
    history: Seq<Moment<C, R>>,
    i: int,
    n: int,
)
    requires
        is_history(gate, token, history),
        0 <= i < history.len(),
        0 <= n <= points_in(history[i]),
    ensures
        slots_at(history, i, n).holding.len() <= semaphore_size(gate),
        slots_at(history, i, n).guarded.subset_of(slots_at(history, i, n).holding),
        history[i].after.slots.holding.len() <= semaphore_size(gate),
        history[i].after.is_orderly(semaphore_size(gate)),
{
    lemma_history_is_orderly(gate, token, history, i);
    lemma_history_is_orderly(gate, token, history, i + 1);
    if let Step::Turn { acts, .. } = history[i].step {
        let slots = before(history, i).slots;
        lemma_permits_prefix(slots, semaphore_size(gate), acts, n);
        law_permits_stay_within_size(slots, semaphore_size(gate), acts.take(n));
    }
}

/// Every download that a turn starts is given a permit of its own: when its
/// permit is taken it holds none.
pub proof fn law_one_permit_each<C, R>(
    gate: Semaphore,
    token: CancellationToken,
    history: Seq<Moment<C, R>>,
    i: int,
    acts: Seq<Act>,
    n: int,
    id: DownloadID,
)
    requires
        is_history(gate, token, history),
        0 <= i < history.len(),
        history[i].step matches Step::Turn { acts: happened, .. } && happened == acts,
        0 <= n < acts.len(),
        acts[n] == Act::Taken(id),
    ensures
        !slots_at(history, i, n).holding.contains(id),
        ids_of(history[i].step->turn.round->Some_0.started@).contains(id),
{
    let system = before(history, i);
    let input = history[i].step->input;
    let turn = history[i].step->turn;
    let after = history[i].after;
    let round = turn.round->Some_0;
    let started = ids_of(round.started@);
    let between = choose|between: SchedulerState<C, R>|
        system.state.after_input(input, between, turn.effects@)
            && #[trigger] between.after_round(gate, token, round, after.state);
    lemma_history_is_orderly(gate, token, history, i);
    lemma_told_keeps_order(system, semaphore_size(gate), input, turn.effects@, between);
    let told = system.told(input, turn.effects@, between);
    lemma_launched_keeps_order(told, semaphore_size(gate), gate, token, acts, round, after.state);
    let earlier = taken_for(acts.take(n));
    let k = earlier.len() as int;
    assert(acts.take(n + 1).drop_last() =~= acts.take(n));
    lemma_taken_prefix(acts, n);
    lemma_taken_prefix(acts, n + 1);
    assert(started.take(k + 1)[k] == id);
    assert(started[k] == id);
    assert(started.contains(id));
    if slots_at(history, i, n).holding.contains(id) {
        lemma_holders(system.slots, acts.take(n), id);
        let j = choose|j: int| 0 <= j < earlier.len() && earlier[j] == id;
        assert(started.take(k)[j] == id);
        assert(started[j] == id);
    }
}

/// Downloads start as soon as the limit allows: after every turn that was not cut
/// short by a shutdown either nothing waits or every permit is held. In
/// particular the next one starts when one has ended, for a download gives its
/// permit back before the turn that its report leads to.
pub proof fn law_waiting_starts_when_it_can<C, R>(
    gate: Semaphore,
    token: CancellationToken,
    history: Seq<Moment<C, R>>,
    i: int,
)
    requires
        is_history(gate, token, history),
        0 <= i < history.len(),
        history[i].step is Turn,
        !is_cut_short(history[i].step),
    ensures
        history[i].after.is_busy(semaphore_size(gate)),
{
    lemma_history_is_orderly(gate, token, history, i);
    law_step_keeps_order(before(history, i), gate, token, history[i].step, history[i].after);
}

/// No download is forgotten: for as long as no turn was cut short by a shutdown,
/// every download without an outcome waits, is put off or runs.
pub proof fn law_no_download_is_lost<C, R>(
    gate: Semaphore,
    token: CancellationToken,
    history: Seq<Moment<C, R>>,
    i: int,
)
    requires
        is_history(gate, token, history),
        0 <= i < history.len(),
        forall|j: int| 0 <= j <= i ==> !is_cut_short((#[trigger] history[j]).step),
    ensures
        history[i].after.is_complete(),
    decreases i,
{
    if i > 0 {
        law_no_download_is_lost(gate, token, history, i - 1);
    }
    lemma_history_is_orderly(gate, token, history, i);
    law_step_keeps_order(before(history, i), gate, token, history[i].step, history[i].after);
}

/// The count of running downloads is at most the limit of the context at all
/// times and counts none that waits or is put off. It is zero when no download
/// runs.
pub proof fn law_active_counts_running<C, R>(
    ctx: Context,
    token: CancellationToken,
    history: Seq<Moment<C, R>>,
    i: int,
    n: int,
)
    requires
        ctx.enforces_limit(),
        is_history(ctx.gate(), token, history),
        0 <= i < history.len(),
        0 <= n <= points_in(history[i]),
    ensures
        slots_at(history, i, n).active == slots_at(history, i, n).guarded.len(),
        slots_at(history, i, n).active <= ctx.max_concurrent,
        ({
            let after = history[i].after;
            &&& after.slots.active == after.slots.guarded.len()
            &&& after.slots.active <= ctx.max_concurrent
            &&& forall|id: DownloadID| #[trigger]
                after.slots.guarded.contains(id) ==> {
                    &&& after.running.contains(id)
                    &&& !after.state.ready.contains(id)
                    &&& !after.delayed.contains(id)
                }
            &&& after.running == Set::<DownloadID>::empty() ==> after.slots.active == 0
        }),
{
    let size = semaphore_size(ctx.gate());
    law_limit_is_kept(ctx.gate(), token, history, i, n);
    lemma_history_is_orderly(ctx.gate(), token, history, i);
    let now = slots_at(history, i, n);
    let after = history[i].after;
    if let Step::Turn { acts, .. } = history[i].step {
        let slots = before(history, i).slots;
        lemma_permits_prefix(slots, size, acts, n);
        law_permits_stay_within_size(slots, size, acts.take(n));
    }
    vstd::set_lib::lemma_len_subset(now.guarded, now.holding);
    vstd::set_lib::lemma_len_subset(after.slots.guarded, after.slots.holding);
    assert forall|id: DownloadID| #[trigger] after.slots.guarded.contains(id) implies {
        &&& after.running.contains(id)
        &&& !after.state.ready.contains(id)
        &&& !after.delayed.contains(id)
    } by {
        assert(after.slots.holding.contains(id));
        assert(after.running.contains(id));
    }
    if after.running == Set::<DownloadID>::empty() {
        assert(after.slots.guarded =~= Set::empty());
    }
}

/// The outcomes that a step reports.
pub open spec fn reports<C, R>(step: Step<C, R>) -> Seq<R> {
    match step {
        Step::Task(_) => Seq::empty(),
        Step::Turn { turn, .. } => answered(turn.effects@),
    }
}

/// How many outcomes were reported in the first `n` moments of a history.
pub open spec fn reported<C, R>(history: Seq<Moment<C, R>>, n: int) -> nat
    decreases n,
{
    if n <= 0 {
        0
    } else {
        reported(history, n - 1) + reports(history[n - 1].step).len()
    }
}

/// What is told to a scheduler reports as many outcomes as downloads leave it.
proof fn lemma_reports_match_departures<C, R>(
    system: System<C, R>,
    input: SchedulerInput<C, R>,
    effects: Seq<Effect<C, R>>,
    state: SchedulerState<C, R>,
)
    requires
        system.state.jobs.dom().finite(),
        system.issued.finite(),
        forall|id: DownloadID| #[trigger]
            system.state.jobs.contains_key(id) ==> system.issued.contains(id),
        system.admits(input) || input is Shutdown,
        system.state.after_input(input, state, effects),
    ensures
        state.jobs.dom().finite(),
        system.now_issued(input).finite(),
        system.now_issued(input).len() - system.issued.len() == state.jobs.dom().len()
            - system.state.jobs.dom().len() + answered(effects).len(),
{
    let before = system.state.jobs.dom();
    let after = state.jobs.dom();
    let ids = law_leaving_is_answered(system.state, input, state, effects);
    ids.unique_seq_to_set();
    match input {
        SchedulerInput::Command(SchedulerCmd::Enqueue { request, .. }) => {
            assert(after =~= before.insert(request.id));
            assert(before.difference(after) =~= Set::empty());
            assert(!before.contains(request.id));
        },
        _ => {
            assert(after.subset_of(before));
            assert(before =~= after + before.difference(after));
            vstd::set_lib::lemma_set_disjoint_lens(after, before.difference(after));
        },
    }
}

/// Every download gets one outcome: at any moment as many were reported as there
/// are downloads that the scheduler no longer knows of, and a shutdown then
/// reports the rest.
pub proof fn law_every_download_is_answered<C, R>(
    gate: Semaphore,
    token: CancellationToken,
    history: Seq<Moment<C, R>>,
    n: int,
    end: SchedulerState<C, R>,
    effects: Seq<Effect<C, R>>,
)
    requires
        is_history(gate, token, history),
        0 <= n <= history.len(),
        before(history, n).state.after_shutdown(end, effects),
    ensures
        ({
            let system = before(history, n);
            &&& system.issued.finite()
            &&& system.state.jobs.dom().finite()
            &&& reported(history, n) + system.state.jobs.dom().len() == system.issued.len()
            &&& reported(history, n) + answered(effects).len() == system.issued.len()
        }),
{
    lemma_reported(gate, token, history, n);
    lemma_history_is_orderly(gate, token, history, n);
    lemma_reports_match_departures(
        before(history, n),
        SchedulerInput::Shutdown,
        effects,
        end,
    );
}

proof fn lemma_reported<C, R>(
    gate: Semaphore,
    token: CancellationToken,
    history: Seq<Moment<C, R>>,
    n: int,
)
    requires
        is_history(gate, token, history),
        0 <= n <= history.len(),
    ensures
        ({
            let system = before(history, n);
            &&& system.issued.finite()
            &&& system.state.jobs.dom().finite()
            &&& reported(history, n) + system.state.jobs.dom().len() == system.issued.len()
        }),
    decreases n,
{
    if n == 0 {
        assert(before(history, n).state.jobs.dom() =~= Set::empty());
    } else {
        let system = before(history, n - 1);
        lemma_reported(gate, token, history, n - 1);
        lemma_history_is_orderly(gate, token, history, n - 1);
        let after = history[n - 1].after;
        if let Step::Turn { input, turn, .. } = history[n - 1].step {
            let round = turn.round->Some_0;
            let between = choose|between: SchedulerState<C, R>|
                system.state.after_input(input, between, turn.effects@)
                    && #[trigger] between.after_round(gate, token, round, after.state);
            lemma_reports_match_departures(system, input, turn.effects@, between);
        }
    }
}

} // verus!
