//! What becomes of a request that is put together and started, told by what the
//! functions are given and what they return.

use crate::context::Context;
use crate::external::headers::{
    has_room, header_contents, header_name_text, is_value_byte, no_headers,
};
use crate::external::runtime::{answers_cancelled, token_origin};
use crate::request::{
    is_header_value, valid_header_value, Call, DownloadConfig, DownloadConfigBuilder,
    HeaderRefused, Request, RequestBuilder, StartError,
};
use http::HeaderName;
use reqwest::Url;
use std::path::PathBuf;
use tokio_util::sync::CancellationToken;
use vstd::prelude::*;
use vstd::string::StringSliceAdditionalSpecFns;

verus! {

/// The request asks for what the builder was told, and for the defaults where it
/// was told nothing: three retries and no overwriting.
pub open spec fn asks_for<C>(request: Request<C>, builder: RequestBuilder, hooks: C) -> bool {
    &&& request.id == builder.id
    &&& Some(request.url) == builder.url
    &&& Some(request.destination) == builder.destination
    &&& request.cancel_token == builder.cancel_token
    &&& request.hooks == hooks
    &&& request.config.headers == builder.config.headers
    &&& match builder.config.retries {
        Some(retries) => request.config.retries == retries,
        None => request.config.retries == 3,
    }
    &&& match builder.config.overwrite {
        Some(overwrite) => request.config.overwrite == overwrite,
        None => !request.config.overwrite,
    }
}

/// Starting a request asks its own token. It is refused as shut down only where
/// the token answers that it is cancelled. Where the token answers that it is not,
/// a request with a URL and a destination starts, whatever else was chosen, and
/// one without is refused for that.
pub proof fn law_start_follows_the_token<C>(
    builder: RequestBuilder,
    hooks: C,
    outcome: Result<Request<C>, StartError>,
)
    requires
        call_ensures(RequestBuilder::start::<C>, (builder, hooks), outcome),
    ensures
        outcome == Err::<Request<C>, _>(StartError::ManagerShutdown) ==> answers_cancelled(
            builder.cancel_token,
            true,
        ),
        outcome != Err::<Request<C>, _>(StartError::ManagerShutdown) ==> answers_cancelled(
            builder.cancel_token,
            false,
        ),
        !answers_cancelled(builder.cancel_token, true) ==> {
            &&& outcome is Ok <==> builder.url is Some && builder.destination is Some
            &&& outcome == Err::<Request<C>, _>(StartError::UrlNotSet) <==> builder.url is None
            &&& outcome == Err::<Request<C>, _>(StartError::DestinationNotSet) <==> builder.url
                is Some && builder.destination is None
        },
        !answers_cancelled(builder.cancel_token, false) ==> outcome == Err::<Request<C>, _>(
            StartError::ManagerShutdown,
        ),
        outcome matches Ok(request) ==> asks_for(request, builder, hooks),
{
}

/// A request whose token is not cancelled starts exactly if it has a URL and a
/// destination, and then asks for what it was told. One whose token is cancelled
/// never does.
pub proof fn law_finish_decides<C>(
    builder: RequestBuilder,
    cancelled: bool,
    hooks: C,
    outcome: Result<Request<C>, StartError>,
)
    requires
        call_ensures(RequestBuilder::finish::<C>, (builder, cancelled, hooks), outcome),
    ensures
        outcome is Ok <==> !cancelled && builder.url is Some && builder.destination is Some,
        outcome == Err::<Request<C>, _>(StartError::ManagerShutdown) <==> cancelled,
        outcome == Err::<Request<C>, _>(StartError::UrlNotSet) <==> !cancelled && builder.url
            is None,
        outcome == Err::<Request<C>, _>(StartError::DestinationNotSet) <==> !cancelled
            && builder.url is Some && builder.destination is None,
        outcome matches Ok(request) ==> asks_for(request, builder, hooks),
{
}

/// A request begins with nothing chosen, under the next identifier of its context
/// and a token that is cancelled with the context.
pub proof fn law_builder_begins_empty<C>(ctx: &mut Context, builder: RequestBuilder)
    requires
        call_ensures(Request::<C>::builder, (ctx,), builder),
    ensures
        builder.id == old(ctx).id_counter,
        final(ctx).id_counter == if builder.id == u64::MAX {
            0
        } else {
            builder.id + 1
        },
        final(ctx).active == old(ctx).active,
        final(ctx).max_concurrent == old(ctx).max_concurrent,
        final(ctx).semaphore == old(ctx).semaphore,
        final(ctx).cancel_root == old(ctx).cancel_root,
        builder.url is None,
        builder.destination is None,
        builder.config.retries is None,
        builder.config.overwrite is None,
        header_contents(builder.config.headers) == no_headers(),
        token_origin(builder.cancel_token) == Some(old(ctx).cancel_root),
{
}

/// Every choice is kept and changes nothing else.
pub proof fn law_choices_are_kept(
    builder: RequestBuilder,
    url: Url,
    destination: PathBuf,
    token: CancellationToken,
    retries: u32,
    overwrite: bool,
    with_url: RequestBuilder,
    with_destination: RequestBuilder,
    with_token: RequestBuilder,
    with_retries: RequestBuilder,
    with_overwrite: RequestBuilder,
)
    requires
        call_ensures(RequestBuilder::url, (builder, url), with_url),
        call_ensures(RequestBuilder::destination, (builder, destination), with_destination),
        call_ensures(RequestBuilder::cancel_token, (builder, token), with_token),
        call_ensures(RequestBuilder::retries, (builder, retries), with_retries),
        call_ensures(RequestBuilder::overwrite, (builder, overwrite), with_overwrite),
    ensures
        with_url == (RequestBuilder { url: Some(url), ..builder }),
        with_destination == (RequestBuilder { destination: Some(destination), ..builder }),
        with_token == (RequestBuilder { cancel_token: token, ..builder }),
        with_retries.config.retries == Some(retries),
        with_retries == (RequestBuilder { config: with_retries.config, ..builder }),
        with_retries.config.overwrite == builder.config.overwrite,
        with_retries.config.headers == builder.config.headers,
        with_overwrite.config.overwrite == Some(overwrite),
        with_overwrite == (RequestBuilder { config: with_overwrite.config, ..builder }),
        with_overwrite.config.retries == builder.config.retries,
        with_overwrite.config.headers == builder.config.headers,
{
}

/// The text can be the value of a header: it holds no control characters but tabs.
pub open spec fn is_printable(text: &str) -> bool {
    forall|i: int|
        0 <= i < text.spec_bytes().len() ==> {
            ||| 32 <= #[trigger] text.spec_bytes()[i] < 127
            ||| text.spec_bytes()[i] > 127
            ||| text.spec_bytes()[i] == 9
        }
}

proof fn lemma_printable(text: &str)
    ensures
        valid_header_value(text) <==> is_printable(text),
{
    let bytes = text.spec_bytes();
    let fits = |b: u8| is_value_byte(b);
    if valid_header_value(text) {
        assert(bytes.all(fits));
        assert forall|i: int| 0 <= i < bytes.len() implies {
            ||| 32 <= #[trigger] bytes[i] < 127
            ||| bytes[i] > 127
            ||| bytes[i] == 9
        } by {
            assert(fits(bytes[i]));
        }
    }
    if is_printable(text) {
        assert forall|i: int| 0 <= i < bytes.len() implies fits(#[trigger] bytes[i]) by {}
        assert(bytes.all(fits));
    }
}

/// Whether a text can be the value of a header is decided by its bytes.
pub proof fn law_header_values_are_printable(text: &str, answer: bool)
    requires
        call_ensures(is_header_value, (text,), answer),
    ensures
        answer <==> is_printable(text),
{
    lemma_printable(text);
}

/// This header was set and everything else kept: the name has this one value, and
/// every other name has what it had.
pub open spec fn header_was_set(
    before: Map<Seq<char>, Seq<Seq<u8>>>,
    after: Map<Seq<char>, Seq<Seq<u8>>>,
    name: Seq<char>,
    value: Seq<u8>,
) -> bool {
    &&& after.contains_key(name)
    &&& after[name] == seq![value]
    &&& after.remove(name) == before.remove(name)
}

/// A header is set exactly if its value is printable and there is room for it,
/// which is sure with fewer than 6554 names, and then nothing else changes.
pub proof fn law_headers_are_set(
    builder: DownloadConfigBuilder,
    name: HeaderName,
    value: &str,
    outcome: Result<DownloadConfigBuilder, HeaderRefused>,
)
    requires
        call_ensures(DownloadConfigBuilder::try_header, (builder, name, value), outcome),
    ensures
        outcome == Err::<DownloadConfigBuilder, _>(HeaderRefused::InvalidValue)
            <==> !is_printable(value),
        has_room(builder.headers) ==> !(outcome matches Err(HeaderRefused::TooMany)),
        outcome matches Ok(set) ==> {
            &&& set.retries == builder.retries
            &&& set.overwrite == builder.overwrite
            &&& header_was_set(
                header_contents(builder.headers),
                header_contents(set.headers),
                header_name_text(name),
                value.spec_bytes(),
            )
        },
{
    lemma_printable(value);
    let before = header_contents(builder.headers);
    if let Ok(set) = outcome {
        let after = header_contents(set.headers);
        assert(after.remove(header_name_text(name)) =~= before.remove(header_name_text(name)));
    }
}

/// The same holds of a header of a request, and of the one that names the agent.
pub proof fn law_request_headers_are_set(
    builder: RequestBuilder,
    name: HeaderName,
    value: &str,
    outcome: Result<RequestBuilder, HeaderRefused>,
    direct: RequestBuilder,
    agent: RequestBuilder,
)
    requires
        call_ensures(RequestBuilder::try_header, (builder, name, value), outcome),
        has_room(builder.config.headers),
        is_printable(value),
        call_ensures(RequestBuilder::header, (builder, name, value), direct),
        call_ensures(RequestBuilder::user_agent, (builder, value), agent),
    ensures
        outcome is Ok,
        forall|set: RequestBuilder|
            (set == outcome->Ok_0 || set == direct || set == agent) ==> {
                &&& #[trigger] set.id == builder.id
                &&& set.url == builder.url
                &&& set.destination == builder.destination
                &&& set.cancel_token == builder.cancel_token
                &&& set.config.retries == builder.config.retries
                &&& set.config.overwrite == builder.config.overwrite
            },
        header_was_set(
            header_contents(builder.config.headers),
            header_contents(outcome->Ok_0.config.headers),
            header_name_text(name),
            value.spec_bytes(),
        ),
        header_was_set(
            header_contents(builder.config.headers),
            header_contents(direct.config.headers),
            header_name_text(name),
            value.spec_bytes(),
        ),
        header_was_set(
            header_contents(builder.config.headers),
            header_contents(agent.config.headers),
            "user-agent"@,
            value.spec_bytes(),
        ),
{
    lemma_printable(value);
    let before = header_contents(builder.config.headers);
    let key = header_name_text(name);
    assert(header_contents(outcome->Ok_0.config.headers).remove(key) =~= before.remove(key));
    assert(header_contents(direct.config.headers).remove(key) =~= before.remove(key));
    assert(header_contents(agent.config.headers).remove("user-agent"@) =~= before.remove(
        "user-agent"@,
    ));
}

/// Settings are what was chosen, and three retries and no overwriting where
/// nothing was.
pub proof fn law_settings_default(
    builder: DownloadConfigBuilder,
    config: DownloadConfig,
    default: DownloadConfig,
)
    requires
        call_ensures(DownloadConfigBuilder::build, (builder,), config),
        call_ensures(<DownloadConfig as Default>::default, (), default),
    ensures
        builder.retries matches Some(retries) ==> config.retries == retries,
        builder.retries is None ==> config.retries == 3,
        builder.overwrite matches Some(overwrite) ==> config.overwrite == overwrite,
        builder.overwrite is None ==> !config.overwrite,
        config.headers == builder.headers,
        default.retries == 3,
        !default.overwrite,
        header_contents(default.headers) == no_headers(),
{
}

/// What is read off a request is what it asks for.
pub proof fn law_requests_are_read<C>(
    request: Request<C>,
    id: u64,
    url: &Url,
    destination: &PathBuf,
    config: &DownloadConfig,
    call: Call<'_>,
    retries: u32,
    overwrite: bool,
)
    requires
        call_ensures(Request::<C>::id, (&request,), id),
        call_ensures(Request::<C>::url, (&request,), url),
        call_ensures(Request::<C>::destination, (&request,), destination),
        call_ensures(Request::<C>::config, (&request,), config),
        call_ensures(Request::<C>::call, (&request,), call),
        call_ensures(DownloadConfig::retries, (config,), retries),
        call_ensures(DownloadConfig::overwrite, (config,), overwrite),
    ensures
        id == request.id,
        *url == request.url,
        *destination == request.destination,
        *config == request.config,
        *call.url == request.url,
        *call.headers == request.config.headers,
        *call.cancel == request.cancel_token,
        retries == request.config.retries,
        overwrite == request.config.overwrite,
{
}

/// A refusal reads as its reason.
pub proof fn law_refusals_in_words(e: StartError, text: String)
    requires
        call_ensures(StartError::message, (&e,), text),
    ensures
        e is ManagerShutdown ==> text@ == "Download manager has been shut down"@,
        e is UrlNotSet ==> text@ == "URL must be set"@,
        e is DestinationNotSet ==> text@ == "Destination must be set"@,
{
}

/// There is sure to be room for a header while the names are fewer than 6554.
pub proof fn law_room_for_headers(builder: DownloadConfigBuilder, answer: bool)
    requires
        call_ensures(DownloadConfigBuilder::takes_header, (&builder,), answer),
    ensures
        answer ==> header_contents(builder.headers).dom().len() < 6554,
        header_contents(builder.headers).dom().finite() && header_contents(
            builder.headers,
        ).dom().len() < 6554 ==> answer,
{
}

/// A copy asks for the same.
pub proof fn law_copies_ask_for_the_same<C: Clone>(
    request: Request<C>,
    copy: Request<C>,
    config: DownloadConfig,
    copied: DownloadConfig,
)
    requires
        call_ensures(<Request<C> as Clone>::clone, (&request,), copy),
        call_ensures(<DownloadConfig as Clone>::clone, (&config,), copied),
    ensures
        copy.id == request.id,
        copy.url == request.url,
        copy.destination == request.destination,
        copy.cancel_token == request.cancel_token,
        copy.config.retries == request.config.retries,
        copy.config.overwrite == request.config.overwrite,
        header_contents(copy.config.headers) == header_contents(request.config.headers),
        cloned(request.hooks, copy.hooks),
        copied.retries == config.retries,
        copied.overwrite == config.overwrite,
        header_contents(copied.headers) == header_contents(config.headers),
{
}

} // verus!
