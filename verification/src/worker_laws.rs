//! What holds of every attempt, whatever the results of its steps.

use crate::backend::BackendError;
use crate::download::{DownloadResult, Outcome, RemoteInfo};
use crate::error::DownloadError;
use crate::events::Event;
use crate::external::values::path_parent;
use crate::request::Request;
use crate::worker::{Action, Attempt, Input, Phase, Step};
use std::sync::Arc;
use vstd::prelude::*;

verus! {

/// An attempt that has not taken a step.
pub open spec fn fresh<C>(request: Arc<Request<C>>) -> Attempt<C> {
    Attempt::begun(request).0
}

/// The attempt after these results.
pub open spec fn replay<C>(request: Arc<Request<C>>, inputs: Seq<Input>) -> Attempt<C>
    decreases inputs.len(),
{
    if inputs.len() == 0 {
        fresh(request)
    } else {
        replay(request, inputs.drop_last()).after(inputs.last()).0
    }
}

/// Each of these results belongs to the step that the attempt was at.
pub open spec fn accepted<C>(request: Arc<Request<C>>, inputs: Seq<Input>) -> bool
    decreases inputs.len(),
{
    inputs.len() == 0 || {
        &&& accepted(request, inputs.drop_last())
        &&& replay(request, inputs.drop_last()).awaits(inputs.last())
    }
}

/// What followed from the last of these results.
pub open spec fn last_step<C>(request: Arc<Request<C>>, inputs: Seq<Input>) -> Step<C> {
    replay(request, inputs.drop_last()).after(inputs.last()).1
}

/// An attempt with these results ends with this outcome.
pub open spec fn ends_with<C>(
    request: Arc<Request<C>>,
    inputs: Seq<Input>,
    outcome: Outcome,
) -> bool {
    &&& inputs.len() > 0
    &&& accepted(request, inputs)
    &&& last_step(request, inputs).next == Action::<C>::Finish(outcome)
}

/// A file that the attempt has created is still there after these results.
pub open spec fn file_left(inputs: Seq<Input>) -> bool
    decreases inputs.len(),
{
    if inputs.len() == 0 {
        false
    } else {
        match inputs.last() {
            Input::Created(Ok(_)) => true,
            Input::Removed(Ok(_)) => false,
            _ => file_left(inputs.drop_last()),
        }
    }
}

/// The bytes of the chunks that were written, according to these results.
pub open spec fn written(inputs: Seq<Input>) -> nat
    decreases inputs.len(),
{
    if inputs.len() == 0 {
        0
    } else {
        let earlier = inputs.drop_last();
        if inputs.last() matches Input::Written { result: Ok(_), .. } && earlier.len() > 0 {
            match earlier.last() {
                Input::Chunk(bytes) => written(earlier) + bytes as nat,
                _ => written(earlier),
            }
        } else {
            written(earlier)
        }
    }
}

/// The count as far as it fits the type.
pub open spec fn as_count(bytes: nat) -> u64 {
    if bytes > u64::MAX {
        u64::MAX
    } else {
        bytes as u64
    }
}

/// What is known at each phase of an attempt.
spec fn consistent<C>(request: Arc<Request<C>>, inputs: Seq<Input>) -> bool {
    let attempt = replay(request, inputs);
    &&& attempt.request == request
    &&& match attempt.phase {
        Phase::Probing | Phase::MakingDir | Phase::Checking | Phase::Fetching
        | Phase::Creating { .. } => !file_left(inputs) && written(inputs) == 0,
        Phase::Streaming { progress } => {
            &&& file_left(inputs)
            &&& progress.bytes_downloaded == as_count(written(inputs))
        },
        Phase::Writing { progress, bytes } => {
            &&& inputs.len() > 0
            &&& inputs.last() == Input::Chunk(bytes)
            &&& file_left(inputs)
            &&& progress.bytes_downloaded == as_count(written(inputs))
        },
        Phase::Syncing { progress } => {
            &&& file_left(inputs)
            &&& progress.bytes_downloaded == as_count(written(inputs))
        },
        Phase::Removing { .. } => file_left(inputs),
        Phase::Over => inputs.len() > 0 && match last_step(request, inputs).next {
            Action::Finish(Ok(result)) => {
                &&& file_left(inputs)
                &&& inputs.last() matches Input::Synced(Ok(_))
                &&& result.path == request.destination
                &&& result.bytes_downloaded == as_count(written(inputs))
            },
            Action::Finish(Err(_)) => {
                !file_left(inputs) || inputs.last() matches Input::Removed(Err(_))
            },
            _ => false,
        },
    }
}

proof fn lemma_consistent<C>(request: Arc<Request<C>>, inputs: Seq<Input>)
    requires
        accepted(request, inputs),
    ensures
        consistent(request, inputs),
    decreases inputs.len(),
{
    if inputs.len() > 0 {
        lemma_consistent(request, inputs.drop_last());
    }
}

/// What an attempt knows of its bytes.
pub(crate) proof fn lemma_known<C>(request: Arc<Request<C>>, inputs: Seq<Input>)
    requires
        accepted(request, inputs),
    ensures
        replay(request, inputs).request == request,
        match replay(request, inputs).phase {
            Phase::Streaming { progress } => {
                progress.bytes_downloaded == as_count(written(inputs))
            },
            Phase::Syncing { progress } => progress.bytes_downloaded == as_count(written(inputs)),
            Phase::Writing { progress, bytes } => {
                &&& progress.bytes_downloaded == as_count(written(inputs))
                &&& inputs.len() > 0
                &&& inputs.last() == Input::Chunk(bytes)
            },
            _ => true,
        },
{
    lemma_consistent(request, inputs);
}

/// No partial file is left behind: when an attempt ends with an error, a file
/// that it created has been removed, unless removing it was what failed.
pub proof fn law_no_partial_file<C>(
    request: Arc<Request<C>>,
    inputs: Seq<Input>,
    error: DownloadError,
)
    requires
        ends_with(request, inputs, Err(error)),
    ensures
        !file_left(inputs) || inputs.last() matches Input::Removed(Err(_)),
{
    lemma_consistent(request, inputs);
    lemma_consistent(request, inputs.drop_last());
}

/// A completed attempt leaves its file at the destination, flushed, and reports
/// the number of bytes that were written to it.
pub proof fn law_completed_file_is_counted<C>(
    request: Arc<Request<C>>,
    inputs: Seq<Input>,
    outcome: Outcome,
)
    requires
        ends_with(request, inputs, outcome),
        outcome is Ok,
    ensures
        file_left(inputs),
        inputs.last() matches Input::Synced(Ok(_)),
        outcome->Ok_0.path == request.destination,
        outcome->Ok_0.bytes_downloaded == as_count(written(inputs)),
{
    lemma_consistent(request, inputs);
    lemma_consistent(request, inputs.drop_last());
}

/// An existing destination that may not be overwritten ends the attempt at once,
/// before anything is requested or created.
pub proof fn law_existing_file_is_kept<C>(
    request: Arc<Request<C>>,
    inputs: Seq<Input>,
    outcome: Outcome,
)
    requires
        accepted(request, inputs),
        inputs.len() > 0,
        inputs.last() == Input::Exists(true),
        !request.config.overwrite,
        outcome == Err::<DownloadResult, _>(
            DownloadError::FileExists { path: request.destination },
        ),
    ensures
        ends_with(request, inputs, outcome),
        forall|i: int|
            0 <= i < inputs.len() ==> !(#[trigger] inputs[i] is Fetched) && !(inputs[i] is Created),
{
    let earlier = inputs.drop_last();
    lemma_consistent(request, earlier);
    lemma_before_fetch(request, earlier);
    assert forall|i: int| 0 <= i < inputs.len() implies !(#[trigger] inputs[i] is Fetched)
        && !(inputs[i] is Created) by {
        if i < earlier.len() {
            assert(inputs[i] == earlier[i]);
        }
    }
}

/// Up to the check of the destination nothing is requested or created.
proof fn lemma_before_fetch<C>(request: Arc<Request<C>>, inputs: Seq<Input>)
    requires
        accepted(request, inputs),
        ({
            let phase = replay(request, inputs).phase;
            phase is Probing || phase is MakingDir || phase is Checking
        }),
    ensures
        forall|i: int|
            0 <= i < inputs.len() ==> !(#[trigger] inputs[i] is Fetched) && !(inputs[i] is Created),
    decreases inputs.len(),
{
    if inputs.len() > 0 {
        lemma_before_fetch(request, inputs.drop_last());
        assert forall|i: int| 0 <= i < inputs.len() implies !(#[trigger] inputs[i] is Fetched)
            && !(inputs[i] is Created) by {
            if i < inputs.len() - 1 {
                assert(inputs[i] == inputs.drop_last()[i]);
            }
        }
    }
}

/// Only an existing destination that may not be overwritten is reported as such.
pub proof fn law_file_exists_only_if_it_does<C>(
    request: Arc<Request<C>>,
    inputs: Seq<Input>,
    outcome: Outcome,
)
    requires
        ends_with(request, inputs, outcome),
        outcome matches Err(DownloadError::FileExists { .. }),
    ensures
        inputs.last() == Input::Exists(true),
        !request.config.overwrite,
        outcome->Err_0->path == request.destination,
{
    lemma_consistent(request, inputs.drop_last());
    lemma_error_on_hold(request, inputs.drop_last());
}

/// The error that a removal is due to is one of the network, of I/O or the
/// cancellation.
proof fn lemma_error_on_hold<C>(request: Arc<Request<C>>, inputs: Seq<Input>)
    requires
        accepted(request, inputs),
    ensures
        replay(request, inputs).phase matches Phase::Removing { error } ==> {
            ||| error is Network
            ||| error is Io
            ||| error is Cancelled
        },
    decreases inputs.len(),
{
    if inputs.len() > 0 {
        lemma_error_on_hold(request, inputs.drop_last());
    }
}

/// A download that is cancelled, before the response or while it streams, ends as
/// cancelled and is not tried again. The one exception is a partial file that
/// cannot be removed, which is reported as an I/O error.
pub proof fn law_cancellation_is_reported<C>(
    request: Arc<Request<C>>,
    inputs: Seq<Input>,
    outcome: Outcome,
    at: int,
)
    requires
        ends_with(request, inputs, outcome),
        0 <= at < inputs.len(),
        inputs[at] is Cancelled || inputs[at] == Input::Fetched(Err(BackendError::Cancelled)),
    ensures
        outcome == Err::<DownloadResult, _>(DownloadError::Cancelled) || {
            &&& inputs.last() matches Input::Removed(Err(_))
            &&& outcome matches Err(DownloadError::Io(_))
        },
        outcome matches Err(e) && !e.retryable(),
{
    let earlier = inputs.drop_last();
    lemma_consistent(request, earlier);
    if at < earlier.len() {
        lemma_cancelled_stays(request, earlier, at);
    }
}

/// Once cancelled, an attempt is only removing its file.
proof fn lemma_cancelled_stays<C>(request: Arc<Request<C>>, inputs: Seq<Input>, at: int)
    requires
        accepted(request, inputs),
        0 <= at < inputs.len(),
        inputs[at] is Cancelled || inputs[at] == Input::Fetched(Err(BackendError::Cancelled)),
    ensures
        replay(request, inputs).phase is Over || replay(request, inputs).phase
            == (Phase::Removing { error: DownloadError::Cancelled }),
    decreases inputs.len(),
{
    let earlier = inputs.drop_last();
    lemma_consistent(request, earlier);
    if at < earlier.len() {
        assert(inputs[at] == earlier[at]);
        lemma_cancelled_stays(request, earlier, at);
    }
}

/// What an attempt publishes is about its own download, and its progress never
/// goes back.
pub proof fn law_reports_are_own_and_grow<C>(
    request: Arc<Request<C>>,
    inputs: Seq<Input>,
    input: Input,
)
    requires
        accepted(request, inputs),
        replay(request, inputs).awaits(input),
    ensures
        ({
            let step = last_step(request, inputs.push(input));
            &&& step.emit matches Some(event) ==> event.subject() == request.id
            &&& step.publish matches Some(progress) ==> {
                &&& progress.bytes_downloaded >= as_count(written(inputs))
                &&& progress.bytes_downloaded == as_count(written(inputs.push(input)))
            }
        }),
{
    assert(inputs.push(input).drop_last() =~= inputs);
    lemma_consistent(request, inputs);
    lemma_consistent(request, inputs.push(input));
}

/// Only a failed request or a chunk that could not be read makes an attempt worth
/// repeating.
pub proof fn law_only_the_network_is_retried<C>(
    request: Arc<Request<C>>,
    inputs: Seq<Input>,
    outcome: Outcome,
)
    requires
        ends_with(request, inputs, outcome),
        outcome matches Err(e) && e.retryable(),
    ensures
        exists|i: int|
            0 <= i < inputs.len() && (#[trigger] inputs[i] is ChunkFailed
                || inputs[i] matches Input::Fetched(Err(_))),
{
    let earlier = inputs.drop_last();
    lemma_consistent(request, earlier);
    lemma_network_error_comes_from_chunk(request, earlier);
    if inputs.last() is Removed {
        let i = choose|i: int| 0 <= i < earlier.len() && earlier[i] is ChunkFailed;
        assert(inputs[i] is ChunkFailed);
    } else {
        assert(inputs[inputs.len() - 1] matches Input::Fetched(Err(_)));
    }
}

/// A removal due to the network follows from a chunk that could not be read.
proof fn lemma_network_error_comes_from_chunk<C>(request: Arc<Request<C>>, inputs: Seq<Input>)
    requires
        accepted(request, inputs),
    ensures
        replay(request, inputs).phase matches Phase::Removing { error: DownloadError::Network(_) }
            ==> exists|i: int| 0 <= i < inputs.len() && #[trigger] inputs[i] is ChunkFailed,
    decreases inputs.len(),
{
    if inputs.len() > 0 {
        lemma_network_error_comes_from_chunk(request, inputs.drop_last());
        if inputs.last() is ChunkFailed {
            assert(inputs[inputs.len() - 1] is ChunkFailed);
        }
    }
}

/// Until its file is created an attempt has not created one.
proof fn lemma_before_file<C>(request: Arc<Request<C>>, inputs: Seq<Input>)
    requires
        accepted(request, inputs),
        ({
            let phase = replay(request, inputs).phase;
            ||| phase is Probing
            ||| phase is MakingDir
            ||| phase is Checking
            ||| phase is Fetching
            ||| phase is Creating
        }),
    ensures
        forall|i: int| 0 <= i < inputs.len() ==> !(#[trigger] inputs[i] is Created),
    decreases inputs.len(),
{
    if inputs.len() > 0 {
        let earlier = inputs.drop_last();
        lemma_before_file(request, earlier);
        assert forall|i: int| 0 <= i < inputs.len() implies !(#[trigger] inputs[i] is Created) by {
            if i < earlier.len() {
                assert(inputs[i] == earlier[i]);
            }
        }
    }
}

/// An attempt announces its start when its file has been created, and creates
/// its file once.
pub proof fn law_started_once<C>(
    request: Arc<Request<C>>,
    inputs: Seq<Input>,
    input: Input,
    earlier: int,
)
    requires
        accepted(request, inputs),
        replay(request, inputs).awaits(input),
        0 <= earlier < inputs.len(),
    ensures
        last_step(request, inputs.push(input)).emit matches Some(Event::Started { .. })
            <==> input matches Input::Created(Ok(_)),
        input is Created ==> !(inputs[earlier] is Created),
{
    assert(inputs.push(input).drop_last() =~= inputs);
    lemma_consistent(request, inputs);
    if input is Created {
        lemma_before_file(request, inputs);
    }
}

/// The probe is best effort: whatever it yields, the attempt goes on in the same
/// way, and only its metadata is announced.
pub proof fn law_probe_is_optional<C>(request: Arc<Request<C>>, info: Option<RemoteInfo>)
    ensures
        ({
            let (with, step_with) = fresh(request).after(Input::Probed(info));
            let (without, step_without) = fresh(request).after(Input::Probed(None));
            &&& with == without
            &&& step_with.next == step_without.next
            &&& step_without.emit is None
            &&& step_with.emit is Some <==> info is Some
        }),
{
}

/// An attempt begins with a probe, makes no other, and requests the download at
/// most once and after it. Both calls are made for its own request, so with the
/// same URL, headers and token.
pub proof fn law_one_probe_then_one_fetch<C>(
    request: Arc<Request<C>>,
    inputs: Seq<Input>,
    input: Input,
)
    requires
        accepted(request, inputs),
        replay(request, inputs).awaits(input),
    ensures
        Attempt::begun(request).1.next == Action::Probe(request),
        ({
            let next = last_step(request, inputs.push(input)).next;
            &&& next !is Probe
            &&& next is Fetch ==> next == Action::Fetch(request) && forall|n: int|
                0 < n <= inputs.len() ==> (#[trigger] last_step(
                    request,
                    inputs.take(n),
                )).next !is Fetch
        }),
{
    assert(inputs.push(input).drop_last() =~= inputs);
    lemma_consistent(request, inputs);
    if last_step(request, inputs.push(input)).next is Fetch {
        assert forall|n: int| 0 < n <= inputs.len() implies (#[trigger] last_step(
            request,
            inputs.take(n),
        )).next !is Fetch by {
            lemma_checking_has_not_fetched(request, inputs, n);
        }
    }
}

/// Up to the check of the destination no step was the request of the download.
proof fn lemma_checking_has_not_fetched<C>(request: Arc<Request<C>>, inputs: Seq<Input>, n: int)
    requires
        accepted(request, inputs),
        ({
            let phase = replay(request, inputs).phase;
            phase is Probing || phase is MakingDir || phase is Checking
        }),
        0 < n <= inputs.len(),
    ensures
        last_step(request, inputs.take(n)).next !is Fetch,
    decreases inputs.len(),
{
    let earlier = inputs.drop_last();
    if n == inputs.len() {
        assert(inputs.take(n) =~= inputs);
    } else {
        assert(inputs.take(n) =~= earlier.take(n));
        lemma_checking_has_not_fetched(request, earlier, n);
    }
}

/// Whatever an attempt does to a file it does to its own destination.
pub proof fn law_files_are_own<C>(request: Arc<Request<C>>, inputs: Seq<Input>, input: Input)
    requires
        accepted(request, inputs),
        replay(request, inputs).awaits(input),
    ensures
        match last_step(request, inputs.push(input)).next {
            Action::MakeDir(dir) => Some(dir) == path_parent(request.destination),
            Action::CheckExists(path) => path == request.destination,
            Action::CreateFile(path) => path == request.destination,
            Action::RemoveFile(path) => path == request.destination,
            _ => true,
        },
{
    assert(inputs.push(input).drop_last() =~= inputs);
    lemma_consistent(request, inputs);
}

/// A download that is cancelled, or fails, before the response arrives never
/// starts: its attempt ends there, without a file and without the event.
pub proof fn law_failed_request_never_starts<C>(
    request: Arc<Request<C>>,
    inputs: Seq<Input>,
    error: BackendError,
)
    requires
        accepted(request, inputs),
        inputs.len() > 0,
        inputs.last() == Input::Fetched(Err(error)),
    ensures
        last_step(request, inputs).next is Finish,
        last_step(request, inputs).emit is None,
        forall|i: int| 0 <= i < inputs.len() ==> !(#[trigger] inputs[i] is Created),
{
    let earlier = inputs.drop_last();
    lemma_before_file(request, earlier);
    assert forall|i: int| 0 <= i < inputs.len() implies !(#[trigger] inputs[i] is Created) by {
        if i < earlier.len() {
            assert(inputs[i] == earlier[i]);
        }
    }
}

} // verus!
