//! Permits and cancellation, from the `tokio` and `tokio_util` crates.

use std::sync::Arc;
use tokio::sync::{OwnedSemaphorePermit, Semaphore};
use tokio_util::sync::CancellationToken;
use vstd::prelude::*;

verus! {

/// `tokio::sync::Semaphore`: a pool of permits shared between tasks.
#[verifier::external_type_specification]
#[verifier::external_body]
pub struct ExSemaphore(tokio::sync::Semaphore);

/// `tokio::sync::OwnedSemaphorePermit`: a permit, given back when dropped.
#[verifier::external_type_specification]
#[verifier::external_body]
pub struct ExOwnedSemaphorePermit(tokio::sync::OwnedSemaphorePermit);

/// `tokio_util::sync::CancellationToken`: a flag that any holder may raise.
#[verifier::external_type_specification]
#[verifier::external_body]
pub struct ExCancellationToken(tokio_util::sync::CancellationToken);

/// The number of permits that a semaphore was made with.
pub uninterp spec fn semaphore_size(semaphore: Semaphore) -> nat;

/// The semaphore that a permit came from, as `OwnedSemaphorePermit::semaphore`
/// gives it.
pub uninterp spec fn permit_source(permit: OwnedSemaphorePermit) -> Semaphore;

/// The token that a token was made as a child of, where it was made as one.
pub uninterp spec fn token_origin(token: CancellationToken) -> Option<CancellationToken>;

/// The largest number of permits that a semaphore can be made with.
pub open spec fn max_permits() -> nat {
    usize::MAX as nat / 8
}

/// `Semaphore::new`: a semaphore with that many permits. More than
/// `Semaphore::MAX_PERMITS` would make it panic.
#[verifier::external_body]
pub(crate) fn semaphore_with(permits: usize) -> (semaphore: Semaphore)
    requires
        permits <= max_permits(),
    ensures
        semaphore_size(semaphore) == permits,
{
    Semaphore::new(permits)
}

/// `Semaphore::try_acquire_owned`: one permit of this semaphore, or `None`.
/// Which of the two depends on what the other holders do, so nothing is said
/// of it.
#[verifier::external_body]
pub(crate) fn try_acquire(semaphore: &Arc<Semaphore>) -> (permit: Option<OwnedSemaphorePermit>)
    ensures
        permit matches Some(p) ==> permit_source(p) == **semaphore,
{
    semaphore.clone().try_acquire_owned().ok()
}

/// The semaphore can answer a request for a permit with this one, or with a
/// refusal. What an answer was is known only by asking.
pub closed spec fn answers_request(
    semaphore: Semaphore,
    permit: Option<OwnedSemaphorePermit>,
) -> bool {
    exists|handle: Arc<Semaphore>|
        *handle == semaphore && #[trigger] call_ensures(try_acquire, (&handle,), permit)
}

/// Ask the semaphore for a permit.
pub(crate) fn ask_for_permit(semaphore: &Arc<Semaphore>) -> (permit: Option<OwnedSemaphorePermit>)
    ensures
        answers_request(**semaphore, permit),
        permit matches Some(p) ==> permit_source(p) == **semaphore,
{
    let permit: Option<OwnedSemaphorePermit> = try_acquire(semaphore);
    assert(call_ensures(try_acquire, (semaphore,), permit));
    permit
}

/// An answer of a semaphore is an answer of `try_acquire`.
pub(crate) proof fn law_answers_come_from_the_semaphore(
    semaphore: Semaphore,
    permit: Option<OwnedSemaphorePermit>,
)
    requires
        answers_request(semaphore, permit),
    ensures
        exists|handle: Arc<Semaphore>|
            *handle == semaphore && #[trigger] call_ensures(try_acquire, (&handle,), permit),
{
}

/// The token can answer this when it is asked whether it is cancelled. What an
/// answer was is known only by asking.
pub open spec fn answers_cancelled(token: CancellationToken, answer: bool) -> bool {
    call_ensures(CancellationToken::is_cancelled, (&token,), answer)
}

/// `CancellationToken::new`: a token that is no child of another.
#[verifier::external_body]
pub(crate) fn root_token() -> (token: CancellationToken)
    ensures
        token_origin(token) is None,
{
    CancellationToken::new()
}

/// `CancellationToken::child_token`: a token that is cancelled with this one.
#[verifier::external_body]
pub(crate) fn child_of(token: &CancellationToken) -> (child: CancellationToken)
    ensures
        token_origin(child) == Some(*token),
{
    token.child_token()
}

/// `CancellationToken`'s `clone`: another handle on the same flag.
pub assume_specification[ <tokio_util::sync::CancellationToken as Clone>::clone ](
    token: &tokio_util::sync::CancellationToken,
) -> (copy: tokio_util::sync::CancellationToken)
    ensures
        copy == *token,
;

/// `CancellationToken::is_cancelled`: whether the flag is up at this moment.
/// Any holder may raise it at any time, so nothing is said of the answer.
pub assume_specification[ tokio_util::sync::CancellationToken::is_cancelled ](
    token: &tokio_util::sync::CancellationToken,
) -> (cancelled: bool);

} // verus!
