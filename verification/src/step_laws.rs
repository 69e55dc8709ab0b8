//! What each result of a step leads to, told by the results alone: of a run of an
//! attempt, what it asks for next, what it announces and publishes, and how it
//! ends.

use crate::backend::BackendError;
use crate::download::{DownloadResult, Outcome};
use crate::error::{DownloadError, NetworkError};
use crate::events::{Event, Progress};
use crate::external::values::path_parent;
use crate::request::Request;
use crate::worker::{Action, Attempt, Input, Phase, Step};
use crate::worker_laws::{
    accepted, as_count, ends_with, last_step, lemma_known, replay, written,
};
use std::sync::Arc;
use vstd::prelude::*;

verus! {

/// The length that the response announced, according to these results.
pub open spec fn announced(inputs: Seq<Input>) -> Option<u64>
    decreases inputs.len(),
{
    if inputs.len() == 0 {
        None
    } else {
        match inputs.last() {
            Input::Fetched(Ok(length)) => length,
            _ => announced(inputs.drop_last()),
        }
    }
}

/// What went wrong once the file was there, according to this result.
pub open spec fn failure(input: Input) -> Option<DownloadError> {
    match input {
        Input::Cancelled => Some(DownloadError::Cancelled),
        Input::ChunkFailed(e) => Some(DownloadError::Network(NetworkError::Backend(e))),
        Input::Written { result: Err(e), .. } => Some(DownloadError::Io(e)),
        Input::Synced(Err(e)) => Some(DownloadError::Io(e)),
        _ => None,
    }
}

/// What a run has asked for last.
pub open spec fn asked<C>(request: Arc<Request<C>>, inputs: Seq<Input>) -> Action<C> {
    if inputs.len() == 0 {
        Attempt::begun(request).1.next
    } else {
        last_step(request, inputs).next
    }
}

/// The result is one that this step can have.
pub open spec fn replies_to<C>(action: Action<C>, input: Input) -> bool {
    match action {
        Action::Probe(_) => input is Probed,
        Action::MakeDir(_) => input is DirMade,
        Action::CheckExists(_) => input is Exists,
        Action::Fetch(_) => input is Fetched,
        Action::CreateFile(_) => input is Created,
        Action::NextChunk => {
            ||| input is Chunk
            ||| input is ChunkFailed
            ||| input is EndOfStream
            ||| input is Cancelled
        },
        Action::Write => input is Written,
        Action::Sync => input is Synced,
        Action::RemoveFile(_) => input is Removed,
        Action::Finish(_) => false,
    }
}

/// The step that this result leads to in a run with these earlier results.
pub open spec fn next_step<C>(
    request: Arc<Request<C>>,
    inputs: Seq<Input>,
    input: Input,
) -> Step<C> {
    last_step(request, inputs.push(input))
}

/// The results of a run so far, and one more.
pub open spec fn runs<C>(request: Arc<Request<C>>, inputs: Seq<Input>, input: Input) -> bool {
    &&& accepted(request, inputs)
    &&& replay(request, inputs).awaits(input)
}

/// What a phase knows of the results that led to it.
spec fn recalls<C>(request: Arc<Request<C>>, inputs: Seq<Input>) -> bool {
    let phase = replay(request, inputs).phase;
    let asked = asked(request, inputs);
    match phase {
        Phase::Probing => asked is Probe,
        Phase::MakingDir => asked is MakeDir,
        Phase::Checking => asked is CheckExists,
        Phase::Fetching => asked is Fetch,
        Phase::Creating { total_bytes } => asked is CreateFile && total_bytes == announced(inputs),
        Phase::Streaming { progress } => {
            asked is NextChunk && progress.total_bytes == announced(inputs)
        },
        Phase::Writing { progress, .. } => {
            asked is Write && progress.total_bytes == announced(inputs)
        },
        Phase::Syncing { progress } => {
            asked is Sync && progress.total_bytes == announced(inputs)
        },
        Phase::Removing { error } => {
            &&& asked is RemoveFile
            &&& inputs.len() > 0
            &&& failure(inputs.last()) == Some(error)
        },
        Phase::Over => asked is Finish,
    }
}

proof fn lemma_recalls<C>(request: Arc<Request<C>>, inputs: Seq<Input>)
    requires
        accepted(request, inputs),
    ensures
        recalls(request, inputs),
    decreases inputs.len(),
{
    if inputs.len() > 0 {
        lemma_recalls(request, inputs.drop_last());
        lemma_known(request, inputs.drop_last());
    }
}

/// What holds before one more result.
proof fn lemma_before<C>(request: Arc<Request<C>>, inputs: Seq<Input>, input: Input)
    requires
        runs(request, inputs, input),
    ensures
        recalls(request, inputs),
        inputs.push(input).drop_last() == inputs,
        inputs.push(input).last() == input,
        replay(request, inputs).request == request,
        replay(request, inputs).phase matches Phase::Streaming { progress }
            ==> progress.bytes_downloaded == as_count(written(inputs)),
        replay(request, inputs).phase matches Phase::Syncing { progress }
            ==> progress.bytes_downloaded == as_count(written(inputs)),
        replay(request, inputs).phase matches Phase::Writing { progress, bytes } ==> {
            &&& progress.bytes_downloaded == as_count(written(inputs))
            &&& inputs.len() > 0
            &&& inputs.last() == Input::Chunk(bytes)
        },
{
    assert(inputs.push(input).drop_last() =~= inputs);
    lemma_recalls(request, inputs);
    lemma_known(request, inputs);
}

/// A call of `Attempt::step`, made for a result that is awaited, takes the run one
/// result further, and a call of `Attempt::begin` begins it.
pub proof fn law_calls_make_the_run<C>(
    request: Arc<Request<C>>,
    inputs: Seq<Input>,
    input: Input,
    begun: (Attempt<C>, Step<C>),
    stepped: (Attempt<C>, Step<C>),
)
    requires
        runs(request, inputs, input),
        call_ensures(Attempt::<C>::begin, (request,), begun),
        call_ensures(Attempt::<C>::step, (replay(request, inputs), input), stepped),
    ensures
        begun.0 == replay(request, Seq::empty()),
        begun.1.next == Action::Probe(request),
        begun.1.emit is None,
        begun.1.publish is None,
        stepped.0 == replay(request, inputs.push(input)),
        stepped.1 == next_step(request, inputs, input),
{
    lemma_before(request, inputs, input);
}

/// An attempt awaits exactly the results that the step it has asked for can have,
/// and `is_awaiting` says so.
pub proof fn law_awaits_what_it_asked_for<C>(
    request: Arc<Request<C>>,
    inputs: Seq<Input>,
    input: Input,
    answer: bool,
)
    requires
        accepted(request, inputs),
        call_ensures(Attempt::<C>::is_awaiting, (&replay(request, inputs), &input), answer),
    ensures
        answer <==> replies_to(asked(request, inputs), input),
        answer <==> accepted(request, inputs.push(input)),
{
    lemma_recalls(request, inputs);
    assert(inputs.push(input).drop_last() =~= inputs);
}

/// What was received completely is kept: the end of the stream leads to the flush,
/// whether a length was announced or not, and a flushed file completes the
/// download with the bytes that were written to it.
pub proof fn law_received_file_is_kept<C>(
    request: Arc<Request<C>>,
    inputs: Seq<Input>,
    input: Input,
)
    requires
        runs(request, inputs, input),
    ensures
        input is EndOfStream ==> {
            let step = next_step(request, inputs, input);
            &&& step.next is Sync
            &&& step.publish == Some(
                Progress {
                    bytes_downloaded: as_count(written(inputs)),
                    total_bytes: announced(inputs),
                },
            )
        },
        input matches Input::Synced(Ok(_)) ==> next_step(request, inputs, input).next
            == Action::<C>::Finish(
            Ok(
                DownloadResult {
                    path: request.destination,
                    bytes_downloaded: as_count(written(inputs)),
                },
            ),
        ),
{
    lemma_before(request, inputs, input);
}

/// A download completes exactly when its file was flushed.
pub proof fn law_only_a_flushed_file_completes<C>(
    request: Arc<Request<C>>,
    inputs: Seq<Input>,
    input: Input,
)
    requires
        runs(request, inputs, input),
    ensures
        next_step(request, inputs, input).next matches Action::Finish(Ok(_))
            <==> input matches Input::Synced(Ok(_)),
{
    lemma_before(request, inputs, input);
}

/// An attempt asks for its file to be removed exactly when the transfer was
/// cancelled, or a chunk could not be read or written, or the file not flushed.
pub proof fn law_file_goes_exactly_on_failure<C>(
    request: Arc<Request<C>>,
    inputs: Seq<Input>,
    input: Input,
)
    requires
        runs(request, inputs, input),
    ensures
        next_step(request, inputs, input).next is RemoveFile <==> {
            ||| input is Cancelled
            ||| input is ChunkFailed
            ||| input matches Input::Written { result: Err(_), .. }
            ||| input matches Input::Synced(Err(_))
        },
        next_step(request, inputs, input).next is RemoveFile ==> next_step(
            request,
            inputs,
            input,
        ).next == Action::<C>::RemoveFile(request.destination),
{
    lemma_before(request, inputs, input);
}

/// Once the file is gone, what made it go is reported. Where it would not go, that
/// is reported, unless an I/O error came before.
pub proof fn law_removal_reports_its_cause<C>(
    request: Arc<Request<C>>,
    inputs: Seq<Input>,
    input: Input,
)
    requires
        runs(request, inputs, input),
        input is Removed,
    ensures
        inputs.len() > 0,
        failure(inputs.last()) is Some,
        input->Removed_0 is Ok || failure(inputs.last())->Some_0 is Io
            ==> next_step(request, inputs, input).next == Action::<C>::Finish(
            Err(failure(inputs.last())->Some_0),
        ),
        input matches Input::Removed(Err(e)) ==> (!(failure(inputs.last())->Some_0 is Io)
            ==> next_step(request, inputs, input).next == Action::<C>::Finish(
            Err(DownloadError::Io(e)),
        )),
{
    lemma_before(request, inputs, input);
}

/// Before there is a file, what goes wrong is reported as it is: a directory or
/// file that cannot be made as an I/O error, an existing file as such, a
/// cancelled request as a cancellation, and any other error of the backend as a
/// network error that holds it.
pub proof fn law_early_failures_are_reported<C>(
    request: Arc<Request<C>>,
    inputs: Seq<Input>,
    input: Input,
)
    requires
        runs(request, inputs, input),
    ensures
        ({
            let next = next_step(request, inputs, input).next;
            &&& input matches Input::DirMade(Err(e)) ==> next == Action::<C>::Finish(
                Err(DownloadError::Io(e)),
            )
            &&& input matches Input::Created(Err(e)) ==> next == Action::<C>::Finish(
                Err(DownloadError::Io(e)),
            )
            &&& input == Input::Exists(true) && !request.config.overwrite ==> next
                == Action::<C>::Finish(
                Err(DownloadError::FileExists { path: request.destination }),
            )
            &&& input matches Input::Fetched(Err(e)) ==> next == Action::<C>::Finish(
                Err(
                    if e is Cancelled {
                        DownloadError::Cancelled
                    } else {
                        DownloadError::Network(NetworkError::Backend(e))
                    },
                ),
            )
        }),
{
    lemma_before(request, inputs, input);
}

/// What goes well is followed by the next step: the directory of the destination,
/// the check of the destination, the request, the file, and then chunk after chunk
/// until the stream ends.
pub proof fn law_success_goes_on<C>(request: Arc<Request<C>>, inputs: Seq<Input>, input: Input)
    requires
        runs(request, inputs, input),
    ensures
        ({
            let next = next_step(request, inputs, input).next;
            let file = request.destination;
            &&& input is Probed ==> next == match path_parent(file) {
                Some(dir) => Action::<C>::MakeDir(dir),
                None => Action::<C>::CheckExists(file),
            }
            &&& input matches Input::DirMade(Ok(_)) ==> next == Action::<C>::CheckExists(file)
            &&& input == Input::Exists(false) ==> next == Action::Fetch(request)
            &&& input == Input::Exists(true) && request.config.overwrite ==> next
                == Action::Fetch(request)
            &&& input matches Input::Fetched(Ok(_)) ==> next == Action::<C>::CreateFile(file)
            &&& input matches Input::Created(Ok(_)) ==> next is NextChunk
            &&& input is Chunk ==> next is Write
            &&& input matches Input::Written { result: Ok(_), .. } ==> next is NextChunk
        }),
{
    lemma_before(request, inputs, input);
}

/// A download ends as cancelled only if it was cancelled.
pub proof fn law_cancelled_only_if_cancelled<C>(
    request: Arc<Request<C>>,
    inputs: Seq<Input>,
    outcome: Outcome,
)
    requires
        ends_with(request, inputs, outcome),
        outcome matches Err(DownloadError::Cancelled),
    ensures
        exists|i: int|
            0 <= i < inputs.len() && (#[trigger] inputs[i] is Cancelled || inputs[i]
                == Input::Fetched(Err(BackendError::Cancelled))),
{
    let earlier = inputs.drop_last();
    let input = inputs.last();
    assert(earlier.push(input) =~= inputs);
    lemma_before(request, earlier, input);
    if input is Removed {
        assert(inputs[inputs.len() - 2] == earlier.last());
    } else {
        assert(inputs[inputs.len() - 1] == input);
    }
}

/// Progress is published when it is due after a chunk was written, and at the end
/// of the stream, and then it tells the bytes that were written and the length
/// that was announced.
pub proof fn law_progress_tells_what_was_written<C>(
    request: Arc<Request<C>>,
    inputs: Seq<Input>,
    input: Input,
)
    requires
        runs(request, inputs, input),
    ensures
        ({
            let publish = next_step(request, inputs, input).publish;
            &&& publish is Some <==> {
                ||| input is EndOfStream
                ||| input matches Input::Written { result: Ok(_), due: true }
            }
            &&& publish matches Some(progress) ==> progress == Progress {
                bytes_downloaded: as_count(written(inputs.push(input))),
                total_bytes: announced(inputs),
            }
        }),
{
    lemma_before(request, inputs, input);
}

/// An attempt announces the metadata of its probe and the start of its transfer,
/// and nothing else.
pub proof fn law_events_tell_what_happened<C>(
    request: Arc<Request<C>>,
    inputs: Seq<Input>,
    input: Input,
)
    requires
        runs(request, inputs, input),
    ensures
        next_step(request, inputs, input).emit == match input {
            Input::Probed(Some(info)) => Some(Event::Probed { id: request.id, info }),
            Input::Created(Ok(_)) => Some(
                Event::Started {
                    id: request.id,
                    url: request.url,
                    destination: request.destination,
                    total_bytes: announced(inputs),
                },
            ),
            _ => None,
        },
{
    lemma_before(request, inputs, input);
}

} // verus!
