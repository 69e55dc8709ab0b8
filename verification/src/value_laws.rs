//! What the smaller functions do, told by what they are given and what they
//! return: configuration, shared state, events, metadata, delays and numbers.

use crate::backoff::{retry_backoff, ExponentialBackoff};
use crate::config::{
    ConfigError, DownloadManagerConfig, DownloadManagerConfigBuilder,
};
use crate::context::{ActiveGuard, Context, DownloadID};
use crate::download::{probe_outcome, settle, Outcome, ProbeReply, RemoteInfo};
use crate::error::DownloadError;
use crate::events::{Event, Progress};
use crate::external::headers::{header_contents, no_headers};
use crate::external::runtime::{semaphore_size, token_origin};
use crate::external::time::{
    duration_secs, duration_subsec_nanos, from_nanos, nanos, total_nanos,
};
use crate::external::transport::{response_headers, response_length, response_status};
use crate::manager::DownloadManager;
use crate::request::RequestBuilder;
use crate::scheduler::Scheduler;
use crate::text::decimal_text;
use http::{HeaderMap, HeaderValue};
use std::time::Duration;
use tokio::sync::OwnedSemaphorePermit;
use tokio_util::sync::CancellationToken;
use vstd::arithmetic::power2::pow2;
use vstd::prelude::*;

verus! {

/// The delay before a retry is the base delay doubled once per earlier retry, and
/// never more than the maximum.
pub proof fn law_next_delay(backoff: ExponentialBackoff, attempt: u32, delay: Duration)
    requires
        call_ensures(ExponentialBackoff::next_delay, (&backoff, attempt), delay),
    ensures
        nanos(delay) <= nanos(backoff.max_delay),
        nanos(delay) <= nanos(backoff.base_delay) * pow2(attempt as nat),
        nanos(delay) == nanos(backoff.max_delay) || nanos(delay) == nanos(backoff.base_delay)
            * pow2(attempt as nat),
{
}

/// Retries wait one second at first and ten at most.
pub proof fn law_retry_backoff(backoff: ExponentialBackoff)
    requires
        call_ensures(retry_backoff, (), backoff),
    ensures
        nanos(backoff.base_delay) == 1_000_000_000,
        nanos(backoff.max_delay) == 10_000_000_000,
{
}

/// The limit is three, unless another was chosen, and a limit that was chosen is
/// used as it is.
pub proof fn law_limit_is_what_was_chosen(
    builder: DownloadManagerConfigBuilder,
    fresh: DownloadManagerConfigBuilder,
    built: DownloadManagerConfig,
    default: DownloadManagerConfig,
    limit: usize,
)
    requires
        call_ensures(DownloadManagerConfig::builder, (), fresh),
        call_ensures(DownloadManagerConfigBuilder::build, (&builder,), built),
        call_ensures(<DownloadManagerConfig as Default>::default, (), default),
        call_ensures(DownloadManagerConfig::max_concurrent, (&built,), limit),
    ensures
        fresh.chosen() is None,
        default.limit() == 3,
        builder.chosen() matches Some(chosen) ==> limit == chosen,
        builder.chosen() is None ==> limit == 3,
        limit > 0,
{
}

/// A limit is refused exactly if it is zero, and a limit that is not is chosen.
pub proof fn law_only_zero_is_refused(
    builder: &mut DownloadManagerConfigBuilder,
    value: usize,
    outcome: Result<&mut DownloadManagerConfigBuilder, ConfigError>,
)
    requires
        call_ensures(DownloadManagerConfigBuilder::max_concurrent, (builder, value), outcome),
    ensures
        outcome is Err <==> value == 0,
        outcome matches Ok(next) ==> next.chosen() == Some(value),
{
}

/// A refused limit reads as its reason.
pub proof fn law_zero_limit_in_words(e: ConfigError, text: String)
    requires
        call_ensures(ConfigError::message, (&e,), text),
    ensures
        text@ == "Max concurrent downloads must be greater than 0"@,
{
}

/// A new context allows as many downloads at once as its configuration, as far as
/// a semaphore can, and at least one. None runs, and identifiers begin at one.
pub proof fn law_new_context_allows_the_limit(
    config: DownloadManagerConfig,
    root: CancellationToken,
    ctx: Context,
)
    requires
        call_ensures(Context::new, (config, root), ctx),
    ensures
        ctx.max_concurrent == config.limit(),
        config.limit() <= usize::MAX / 8 ==> semaphore_size(*ctx.semaphore) == config.limit(),
        1 <= semaphore_size(*ctx.semaphore) <= config.limit(),
        ctx.id_counter == 1,
        ctx.active == 0,
        ctx.cancel_root == root,
{
}

/// Of two identifiers in a row the second is larger by one, up to the largest
/// there is, and giving one out changes nothing else.
pub proof fn law_next_id_counts_up(ctx: &mut Context, id: DownloadID)
    requires
        call_ensures(Context::next_id, (ctx,), id),
    ensures
        id == old(ctx).id_counter,
        id < u64::MAX ==> final(ctx).id_counter == id + 1,
        id == u64::MAX ==> final(ctx).id_counter == 0,
        final(ctx).active == old(ctx).active,
        final(ctx).max_concurrent == old(ctx).max_concurrent,
        final(ctx).semaphore == old(ctx).semaphore,
        final(ctx).cancel_root == old(ctx).cancel_root,
{
}

/// A download that begins to run is counted, and keeps its permit.
pub proof fn law_entering_counts(
    ctx: &mut Context,
    permit: OwnedSemaphorePermit,
    guard: ActiveGuard,
)
    requires
        call_ensures(Context::enter, (ctx, permit), guard),
        old(ctx).active < usize::MAX,
    ensures
        final(ctx).active == old(ctx).active + 1,
        guard.permit == permit,
        final(ctx).id_counter == old(ctx).id_counter,
        final(ctx).max_concurrent == old(ctx).max_concurrent,
        final(ctx).semaphore == old(ctx).semaphore,
        final(ctx).cancel_root == old(ctx).cancel_root,
{
}

/// A download that has ended is no longer counted, and gives its permit back.
pub proof fn law_leaving_uncounts(
    ctx: &mut Context,
    guard: ActiveGuard,
    permit: OwnedSemaphorePermit,
)
    requires
        call_ensures(Context::leave, (ctx, guard), permit),
        old(ctx).active > 0,
    ensures
        final(ctx).active == old(ctx).active - 1,
        permit == guard.permit,
        final(ctx).id_counter == old(ctx).id_counter,
        final(ctx).max_concurrent == old(ctx).max_concurrent,
        final(ctx).semaphore == old(ctx).semaphore,
        final(ctx).cancel_root == old(ctx).cancel_root,
{
}

/// What the manager says and hands out is what its context holds, and its
/// scheduler asks the semaphore and the token of the manager.
pub proof fn law_manager_is_tied_together<C, R>(
    config: DownloadManagerConfig,
    manager: DownloadManager,
    active: usize,
    child: CancellationToken,
    all: CancellationToken,
    shutdown: CancellationToken,
    scheduler: Scheduler<C, R>,
)
    requires
        call_ensures(DownloadManager::new, (config,), manager),
        call_ensures(DownloadManager::active_downloads, (&manager,), active),
        call_ensures(DownloadManager::child_token, (&manager,), child),
        call_ensures(DownloadManager::cancel_all, (&manager,), all),
        call_ensures(DownloadManager::shutdown, (&manager,), shutdown),
        call_ensures(DownloadManager::scheduler::<C, R>, (&manager,), scheduler),
    ensures
        active == 0,
        manager.context.max_concurrent == config.limit(),
        config.limit() <= usize::MAX / 8 ==> semaphore_size(scheduler.gate()) == config.limit(),
        token_origin(child) == Some(all),
        token_origin(all) == Some(shutdown),
        token_origin(shutdown) is None,
        scheduler.token() == shutdown,
        scheduler.gate() == manager.context.gate(),
        scheduler@.jobs.dom().is_empty(),
        scheduler@.ready.len() == 0,
{
}

/// The running downloads are those that the context counts.
pub proof fn law_active_downloads_are_counted(
    manager: DownloadManager,
    ctx: Context,
    of_manager: usize,
    of_context: usize,
)
    requires
        call_ensures(DownloadManager::active_downloads, (&manager,), of_manager),
        call_ensures(Context::active_downloads, (&ctx,), of_context),
    ensures
        of_manager == manager.context.active,
        of_context == ctx.active,
{
}

/// An event names the download that it was made for, and concerns that one only.
pub proof fn law_events_name_their_download(
    event: Event,
    id: DownloadID,
    download: DownloadID,
    answer: bool,
)
    requires
        call_ensures(Event::id, (&event,), id),
        call_ensures(Event::concerns, (&event, download), answer),
    ensures
        event matches Event::Queued { id: k, .. } ==> id == k,
        event matches Event::Probed { id: k, .. } ==> id == k,
        event matches Event::Started { id: k, .. } ==> id == k,
        event matches Event::Retrying { id: k, .. } ==> id == k,
        event matches Event::Completed { id: k, .. } ==> id == k,
        event matches Event::Failed { id: k, .. } ==> id == k,
        event matches Event::Cancelled { id: k } ==> id == k,
        answer <==> id == download,
{
}

/// Progress counts every byte, up to the largest count, and keeps the total.
pub proof fn law_progress_adds_up(progress: &mut Progress, bytes: u64, fresh: Progress)
    requires
        call_ensures(Progress::update, (progress, bytes), ()),
        call_ensures(Progress::new, (old(progress).total_bytes,), fresh),
    ensures
        old(progress).bytes_downloaded + bytes <= u64::MAX ==> final(progress).bytes_downloaded
            == old(progress).bytes_downloaded + bytes,
        old(progress).bytes_downloaded + bytes > u64::MAX ==> final(progress).bytes_downloaded
            == u64::MAX,
        final(progress).total_bytes == old(progress).total_bytes,
        fresh.bytes_downloaded == 0,
        fresh.total_bytes == old(progress).total_bytes,
{
}

/// The text is the first value of this header, where that is visible ASCII
/// throughout, and none otherwise.
pub open spec fn is_first_value(
    headers: HeaderMap<HeaderValue>,
    name: Seq<char>,
    text: Option<String>,
) -> bool {
    let values = header_contents(headers)[name];
    let readable = header_contents(headers).contains_key(name) && forall|i: int|
        0 <= i < values[0].len() ==> (32 <= #[trigger] values[0][i] < 127 || values[0][i] == 9);
    &&& text is Some <==> readable
    &&& text matches Some(t) ==> {
        &&& t@.len() == values[0].len()
        &&& forall|i: int| 0 <= i < t@.len() ==> #[trigger] t@[i] == values[0][i] as char
    }
}

proof fn lemma_first_value(headers: HeaderMap<HeaderValue>, name: Seq<char>, text: Option<String>)
    requires
        crate::download::chars_of(text) == crate::download::header_text(
            header_contents(headers),
            name,
        ),
    ensures
        is_first_value(headers, name, text),
{
    let first = header_contents(headers)[name][0];
    let visible = |b: u8| crate::external::headers::is_visible_ascii(b);
    if header_contents(headers).contains_key(name) {
        if first.all(visible) {
            assert forall|i: int| 0 <= i < first.len() implies (32 <= #[trigger] first[i] < 127
                || first[i] == 9) by {
                assert(visible(first[i]));
            }
        } else {
            let i = choose|i: int| 0 <= i < first.len() && !#[trigger] visible(first[i]);
            assert(!(32 <= first[i] < 127 || first[i] == 9));
        }
    }
}

/// A probe yields metadata exactly if the server answered with a status below 400
/// or above 599, and then each piece is what its own header says.
pub proof fn law_probe_yields_the_headers(reply: ProbeReply, info: Option<RemoteInfo>)
    requires
        call_ensures(probe_outcome, (reply,), info),
    ensures
        info is Some <==> (reply matches ProbeReply::Answered(response) && (response_status(
            response,
        ) < 400 || response_status(response) > 599)),
        reply matches ProbeReply::Answered(response) ==> (info matches Some(found) ==> {
            &&& found.content_length == response_length(response)
            &&& is_first_value(response_headers(response), "accept-ranges"@, found.accept_ranges)
            &&& is_first_value(response_headers(response), "etag"@, found.etag)
            &&& is_first_value(response_headers(response), "last-modified"@, found.last_modified)
            &&& is_first_value(response_headers(response), "content-type"@, found.content_type)
        }),
{
    if let ProbeReply::Answered(response) = reply {
        if let Some(found) = info {
            let headers = response_headers(response);
            lemma_first_value(headers, "accept-ranges"@, found.accept_ranges);
            lemma_first_value(headers, "etag"@, found.etag);
            lemma_first_value(headers, "last-modified"@, found.last_modified);
            lemma_first_value(headers, "content-type"@, found.content_type);
        }
    }
}

/// Metadata is collected from headers in the same way.
pub proof fn law_metadata_is_read(
    length: Option<u64>,
    headers: HeaderMap<HeaderValue>,
    info: RemoteInfo,
)
    requires
        call_ensures(RemoteInfo::from_headers, (length, &headers), info),
    ensures
        info.content_length == length,
        is_first_value(headers, "accept-ranges"@, info.accept_ranges),
        is_first_value(headers, "etag"@, info.etag),
        is_first_value(headers, "last-modified"@, info.last_modified),
        is_first_value(headers, "content-type"@, info.content_type),
{
    lemma_first_value(headers, "accept-ranges"@, info.accept_ranges);
    lemma_first_value(headers, "etag"@, info.etag);
    lemma_first_value(headers, "last-modified"@, info.last_modified);
    lemma_first_value(headers, "content-type"@, info.content_type);
}

/// A handle resolves to the outcome that was sent, and otherwise tells that the
/// manager has shut down.
pub proof fn law_handle_resolves(received: Option<Outcome>, outcome: Outcome)
    requires
        call_ensures(settle, (received,), outcome),
    ensures
        received matches Some(sent) ==> outcome == sent,
        received is None ==> (outcome matches Err(DownloadError::ManagerShutdown)),
{
}

/// The number that these digits stand for.
pub open spec fn number_of(digits: Seq<char>) -> int
    decreases digits.len(),
{
    if digits.len() == 0 {
        0
    } else {
        10 * number_of(digits.drop_last()) + (digits.last() as int - '0' as int)
    }
}

proof fn lemma_decimal(n: nat)
    ensures
        ({
            let digits = crate::text::decimal(n);
            &&& number_of(digits) == n
            &&& digits.len() > 0
            &&& forall|i: int| 0 <= i < digits.len() ==> '0' <= #[trigger] digits[i] <= '9'
            &&& n > 0 ==> digits[0] != '0'
            &&& n == 0 ==> digits.len() == 1
        }),
    decreases n,
{
    reveal_with_fuel(number_of, 2);
    let digits = crate::text::decimal(n);
    if n >= 10 {
        lemma_decimal(n / 10);
        assert(digits.drop_last() =~= crate::text::decimal(n / 10));
    } else {
        assert(digits.drop_last() =~= Seq::empty());
    }
}

/// A number in decimal reads back as the number, in digits only, without zeros in
/// front.
pub proof fn law_decimal_reads_back(n: u16, text: String)
    requires
        call_ensures(decimal_text, (n,), text),
    ensures
        number_of(text@) == n,
        text@.len() > 0,
        forall|i: int| 0 <= i < text@.len() ==> '0' <= #[trigger] text@[i] <= '9',
        n > 0 ==> text@[0] != '0',
        n == 0 ==> text@.len() == 1,
{
    lemma_decimal(n as nat);
}

/// The length of a span counts its seconds and what is left of a second.
pub proof fn law_spans_are_measured(d: Duration, n: u128, back: Duration)
    requires
        call_ensures(total_nanos, (d,), n),
        call_ensures(from_nanos, (n,), back),
    ensures
        n == duration_secs(d) * 1_000_000_000 + duration_subsec_nanos(d),
        duration_secs(back) * 1_000_000_000 + duration_subsec_nanos(back) == n,
{
}

/// A request of a manager begins under its next identifier and a token that is
/// cancelled with all its downloads.
pub proof fn law_manager_begins_requests(manager: &mut DownloadManager, builder: RequestBuilder)
    requires
        call_ensures(DownloadManager::download_builder, (manager,), builder),
    ensures
        builder.id == old(manager).context.id_counter,
        builder.id < u64::MAX ==> final(manager).context.id_counter == builder.id + 1,
        token_origin(builder.cancel_token) == Some(old(manager).context.cancel_root),
        builder.url is None,
        builder.destination is None,
        builder.config.retries is None,
        builder.config.overwrite is None,
        header_contents(builder.config.headers) == no_headers(),
        final(manager).shutdown_token == old(manager).shutdown_token,
        final(manager).context.cancel_root == old(manager).context.cancel_root,
        final(manager).context.semaphore == old(manager).context.semaphore,
        final(manager).context.max_concurrent == old(manager).context.max_concurrent,
        final(manager).context.active == old(manager).context.active,
{
}

} // verus!
