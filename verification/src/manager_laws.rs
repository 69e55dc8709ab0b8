//! What holds of a manager once it has been told to cancel all downloads or to
//! shut down.
//!
//! Tokens appear here by what is promised of them: a token that was cancelled
//! stays so, and a token is cancelled once the token that it was made from is.

use crate::concurrency_laws::{
    before, is_history, law_every_download_is_answered, lemma_history_is_orderly, reported, Moment,
};
use crate::external::runtime::{semaphore_size, token_origin};
use crate::manager::DownloadManager;
use crate::permit_laws::{law_permits_stay_within_size, Act};
use crate::request::{Request, RequestBuilder, StartError};
use crate::scheduler::{Effect, SchedulerState};
use crate::scheduler_laws::{
    answered, cancels, law_second_shutdown_does_nothing, law_shutdown_cancels_every_token,
};
use tokio_util::sync::CancellationToken;
use vstd::prelude::*;

verus! {

/// Each of these tokens was made from the next.
pub open spec fn is_lineage(tokens: Seq<CancellationToken>) -> bool {
    forall|i: int|
        0 <= i < tokens.len() - 1 ==> token_origin(#[trigger] tokens[i]) == Some(tokens[i + 1])
}

/// The token is cancelled once these tokens were: it is one of them or was made,
/// directly or not, from one of them.
pub open spec fn is_cancelled_by(
    cancelled: Set<CancellationToken>,
    token: CancellationToken,
) -> bool {
    exists|tokens: Seq<CancellationToken>|
        {
            &&& tokens.len() > 0
            &&& tokens[0] == token
            &&& #[trigger] is_lineage(tokens)
            &&& cancelled.contains(tokens.last())
        }
}

/// The manager has been told to cancel all downloads or to shut down.
pub open spec fn is_closed(manager: DownloadManager, cancelled: Set<CancellationToken>) -> bool {
    ||| cancelled.contains(manager.context.cancel_root)
    ||| cancelled.contains(manager.shutdown_token)
}

/// What is cancelled stays cancelled, whatever else is cancelled later.
pub proof fn law_cancelled_stays_cancelled(
    earlier: Set<CancellationToken>,
    later: Set<CancellationToken>,
    token: CancellationToken,
)
    requires
        earlier.subset_of(later),
        is_cancelled_by(earlier, token),
    ensures
        is_cancelled_by(later, token),
{
    let tokens = choose|tokens: Seq<CancellationToken>|
        {
            &&& tokens.len() > 0
            &&& tokens[0] == token
            &&& #[trigger] is_lineage(tokens)
            &&& earlier.contains(tokens.last())
        };
    assert(is_lineage(tokens));
}

/// Cancelling all downloads, or shutting down, reaches every token that the
/// manager has given out, before or after.
pub proof fn law_closing_reaches_every_token(
    manager: DownloadManager,
    cancelled: Set<CancellationToken>,
    token: CancellationToken,
)
    requires
        manager.is_linked(),
        is_closed(manager, cancelled),
        token_origin(token) == Some(manager.context.cancel_root),
    ensures
        is_cancelled_by(cancelled, token),
{
    let root = manager.context.cancel_root;
    let near = seq![token, root];
    let far = seq![token, root, manager.shutdown_token];
    assert(is_lineage(near));
    assert(is_lineage(far));
    assert(near.last() == root && far.last() == manager.shutdown_token);
}

/// A manager that was told to cancel all downloads or to shut down starts no
/// more: every request of it whose token was not replaced is refused from then
/// on, whenever it was begun, and there is nothing to queue.
pub proof fn law_closed_manager_refuses_starts<C>(
    manager: DownloadManager,
    cancelled: Set<CancellationToken>,
    builder: RequestBuilder,
    answer: bool,
    hooks: C,
)
    requires
        manager.is_linked(),
        is_closed(manager, cancelled),
        token_origin(builder.cancel_token) == Some(manager.context.cancel_root),
        is_cancelled_by(cancelled, builder.cancel_token) ==> answer,
    ensures
        builder.outcome(answer, hooks) == Err::<Request<C>, _>(StartError::ManagerShutdown),
{
    law_closing_reaches_every_token(manager, cancelled, builder.cancel_token);
}

/// A manager that has shut down is at rest. Once the scheduler has stopped and the
/// tasks that it had started have ended, no download runs, every download has its
/// outcome, and every token is cancelled. A second shutdown changes nothing and
/// has no effects.
pub proof fn law_shutdown_settles_everything<C, R>(
    manager: DownloadManager,
    cancelled: Set<CancellationToken>,
    history: Seq<Moment<C, R>>,
    end: SchedulerState<C, R>,
    effects: Seq<Effect<C, R>>,
    acts: Seq<Act>,
    again: SchedulerState<C, R>,
    more: Seq<Effect<C, R>>,
)
    requires
        manager.is_linked(),
        cancelled.contains(manager.shutdown_token),
        is_history(manager.context.gate(), manager.shutdown_token, history),
        ({
            let system = before(history, history.len() as int);
            &&& system.state.after_shutdown(end, effects)
            &&& system.slots.permits(semaphore_size(manager.context.gate()), acts)
            &&& system.slots.played(acts).guarded.is_empty()
        }),
        end.after_shutdown(again, more),
    ensures
        ({
            let system = before(history, history.len() as int);
            &&& system.slots.played(acts).active == 0
            &&& reported(history, history.len() as int) + answered(effects).len()
                == system.issued.len()
            &&& forall|id| #[trigger]
                system.state.jobs.contains_key(id) ==> cancels(
                    effects,
                    system.state.jobs[id].request,
                )
        }),
        end.jobs.dom().is_empty(),
        forall|token|
            #![trigger token_origin(token)]
            token_origin(token) == Some(manager.context.cancel_root) ==> is_cancelled_by(
                cancelled,
                token,
            ),
        again == end,
        more.len() == 0,
{
    let gate = manager.context.gate();
    let n = history.len() as int;
    let system = before(history, n);
    lemma_history_is_orderly(gate, manager.shutdown_token, history, n);
    law_permits_stay_within_size(system.slots, semaphore_size(gate), acts);
    law_every_download_is_answered(
        gate,
        manager.shutdown_token,
        history,
        n,
        end,
        effects,
    );
    law_shutdown_cancels_every_token(system.state, end, effects);
    law_second_shutdown_does_nothing(system.state, end, effects, again, more);
    assert forall|token|
        #![trigger token_origin(token)]
        token_origin(token) == Some(manager.context.cancel_root) implies is_cancelled_by(
        cancelled,
        token,
    ) by {
        law_closing_reaches_every_token(manager, cancelled, token);
    }
}

} // verus!
