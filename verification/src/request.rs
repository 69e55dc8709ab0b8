//! Download requests and how they are put together.

use crate::context::{id_after, Context, DownloadID};
use crate::external::headers::{
    copy_headers, empty_headers, has_room, header_contents, header_name_text, is_value_byte,
    name_count, no_headers, parse_header_value, try_insert_header, HEADER_NAME_LIMIT,
};
use crate::external::runtime::{answers_cancelled, token_origin};
use http::{HeaderMap, HeaderName, HeaderValue};
use reqwest::Url;
use std::path::PathBuf;
use tokio_util::sync::CancellationToken;
use vstd::pervasive::unreached;
use vstd::prelude::*;
use vstd::string::StringSliceAdditionalSpecFns;

verus! {

/// The retry limit where none is chosen.
pub const DEFAULT_RETRIES: u32 = 3;

/// Settings of a single request.
#[derive(Debug)]
pub struct DownloadConfig {
    /// The largest number of retries after retryable network errors.
    pub retries: u32,
    /// Whether an existing destination may be overwritten.
    pub overwrite: bool,
    /// Additional headers of the probe and of the download itself.
    pub headers: HeaderMap<HeaderValue>,
}

impl Default for DownloadConfig {
    fn default() -> (config: DownloadConfig)
        ensures
            config.retries == DEFAULT_RETRIES,
            config.overwrite == false,
            header_contents(config.headers) == no_headers(),
    {
        DownloadConfigBuilder::default().build()
    }
}

impl Clone for DownloadConfig {
    fn clone(&self) -> (config: DownloadConfig)
        ensures
            config.retries == self.retries,
            config.overwrite == self.overwrite,
            header_contents(config.headers) == header_contents(self.headers),
    {
        DownloadConfig {
            retries: self.retries,
            overwrite: self.overwrite,
            headers: copy_headers(&self.headers),
        }
    }
}

impl DownloadConfig {
    /// The largest number of retries after retryable network errors.
    pub fn retries(&self) -> (retries: u32)
        ensures
            retries == self.retries,
    {
        self.retries
    }

    /// Whether an existing destination may be overwritten.
    pub fn overwrite(&self) -> (overwrite: bool)
        ensures
            overwrite == self.overwrite,
    {
        self.overwrite
    }

    /// Additional headers of the probe and of the download itself.
    pub fn headers(&self) -> (headers: &HeaderMap<HeaderValue>)
        ensures
            *headers == self.headers,
    {
        &self.headers
    }
}

/// Settings in the making.
#[derive(Debug)]
pub struct DownloadConfigBuilder {
    pub retries: Option<u32>,
    pub overwrite: Option<bool>,
    pub headers: HeaderMap<HeaderValue>,
}

/// Why a header was refused.
#[derive(Debug, Clone, Copy, PartialEq, Eq, Structural)]
pub enum HeaderRefused {
    /// The text cannot be the value of a header.
    InvalidValue,
    /// The headers are too many to take another name.
    TooMany,
}

/// The text can be the value of a header.
pub open spec fn valid_header_value(text: &str) -> bool {
    text.spec_bytes().all(|b: u8| is_value_byte(b))
}

/// Whether the text can be the value of a header.
pub fn is_header_value(text: &str) -> (answer: bool)
    ensures
        answer == valid_header_value(text),
{
    parse_header_value(text).is_some()
}

/// The headers once this one is set.
pub open spec fn with_header(
    headers: Map<Seq<char>, Seq<Seq<u8>>>,
    name: Seq<char>,
    value: Seq<u8>,
) -> Map<Seq<char>, Seq<Seq<u8>>> {
    headers.insert(name, seq![value])
}

impl Default for DownloadConfigBuilder {
    fn default() -> (builder: DownloadConfigBuilder)
        ensures
            builder.retries is None,
            builder.overwrite is None,
            header_contents(builder.headers) == no_headers(),
    {
        DownloadConfigBuilder { retries: None, overwrite: None, headers: empty_headers() }
    }
}

impl DownloadConfigBuilder {
    /// Set the largest number of retries.
    pub fn retries(self, retries: u32) -> (builder: Self)
        ensures
            builder == (DownloadConfigBuilder { retries: Some(retries), ..self }),
    {
        DownloadConfigBuilder { retries: Some(retries), ..self }
    }

    /// Set whether an existing destination may be overwritten.
    pub fn overwrite(self, overwrite: bool) -> (builder: Self)
        ensures
            builder == (DownloadConfigBuilder { overwrite: Some(overwrite), ..self }),
    {
        DownloadConfigBuilder { overwrite: Some(overwrite), ..self }
    }

    /// Whether one more header is sure to fit.
    pub fn takes_header(&self) -> (answer: bool)
        ensures
            answer == has_room(self.headers),
    {
        name_count(&self.headers) < HEADER_NAME_LIMIT
    }

    /// Set a header. The value, valid as the value of a header, replaces any
    /// that the name had before.
    pub fn header(self, name: HeaderName, value: &str) -> (builder: Self)
        requires
            has_room(self.headers),
            valid_header_value(value),
        ensures
            builder.retries == self.retries,
            builder.overwrite == self.overwrite,
            header_contents(builder.headers) == with_header(
                header_contents(self.headers),
                header_name_text(name),
                value.spec_bytes(),
            ),
    {
        match self.try_header(name, value) {
            Ok(builder) => builder,
            Err(_) => unreached(),
        }
    }

    /// Set a header, if its value is valid as the value of a header and the
    /// headers are not too many.
    pub fn try_header(self, name: HeaderName, value: &str) -> (outcome: Result<Self, HeaderRefused>)
        ensures
            match outcome {
                Ok(builder) => {
                    &&& valid_header_value(value)
                    &&& builder.retries == self.retries
                    &&& builder.overwrite == self.overwrite
                    &&& header_contents(builder.headers) == with_header(
                        header_contents(self.headers),
                        header_name_text(name),
                        value.spec_bytes(),
                    )
                },
                Err(HeaderRefused::InvalidValue) => !valid_header_value(value),
                Err(HeaderRefused::TooMany) => {
                    &&& valid_header_value(value)
                    &&& !has_room(self.headers)
                },
            },
    {
        let value: HeaderValue = match parse_header_value(value) {
            Some(value) => value,
            None => return Err(HeaderRefused::InvalidValue),
        };
        let mut headers: HeaderMap<HeaderValue> = self.headers;
        if !try_insert_header(&mut headers, name, value) {
            return Err(HeaderRefused::TooMany);
        }
        Ok(DownloadConfigBuilder { retries: self.retries, overwrite: self.overwrite, headers })
    }

    /// The settings that a builder stands for: what was chosen, and the default
    /// for the rest.
    pub open spec fn settings(self) -> DownloadConfig {
        DownloadConfig {
            retries: match self.retries {
                Some(retries) => retries,
                None => DEFAULT_RETRIES,
            },
            overwrite: self.overwrite == Some(true),
            headers: self.headers,
        }
    }

    /// The finished settings.
    pub fn build(self) -> (config: DownloadConfig)
        ensures
            config == self.settings(),
    {
        DownloadConfig {
            retries: match self.retries {
                Some(retries) => retries,
                None => DEFAULT_RETRIES,
            },
            overwrite: match self.overwrite {
                Some(overwrite) => overwrite,
                None => false,
            },
            headers: self.headers,
        }
    }
}

/// A single download request. Once built it does not change. The hooks carry
/// whatever its progress and events are reported through.
#[derive(Debug)]
pub struct Request<C> {
    pub id: DownloadID,
    pub url: Url,
    pub destination: PathBuf,
    pub config: DownloadConfig,
    pub cancel_token: CancellationToken,
    pub hooks: C,
}

impl<C: Clone> Clone for Request<C> {
    fn clone(&self) -> (request: Request<C>)
        ensures
            request.id == self.id,
            request.url == self.url,
            request.destination == self.destination,
            request.config.retries == self.config.retries,
            request.config.overwrite == self.config.overwrite,
            header_contents(request.config.headers) == header_contents(self.config.headers),
            request.cancel_token == self.cancel_token,
            cloned(self.hooks, request.hooks),
    {
        Request {
            id: self.id,
            url: self.url.clone(),
            destination: self.destination.clone(),
            config: self.config.clone(),
            cancel_token: self.cancel_token.clone(),
            hooks: self.hooks.clone(),
        }
    }
}

/// What a download backend is called with.
#[derive(Debug)]
pub struct Call<'a> {
    /// Where to.
    pub url: &'a Url,
    /// With these additional headers.
    pub headers: &'a HeaderMap<HeaderValue>,
    /// Until this token is cancelled.
    pub cancel: &'a CancellationToken,
}

impl<C> Request<C> {
    /// Start a request under the next identifier. It is cancelled with all
    /// downloads of the context.
    pub fn builder(ctx: &mut Context) -> (builder: RequestBuilder)
        ensures
            builder.id == old(ctx).id_counter,
            final(ctx).id_counter == id_after(builder.id, 1),
            final(ctx).semaphore == old(ctx).semaphore,
            final(ctx).max_concurrent == old(ctx).max_concurrent,
            final(ctx).active == old(ctx).active,
            final(ctx).cancel_root == old(ctx).cancel_root,
            builder.url is None,
            builder.destination is None,
            builder.config.retries is None,
            builder.config.overwrite is None,
            header_contents(builder.config.headers) == no_headers(),
            token_origin(builder.cancel_token) == Some(old(ctx).cancel_root),
    {
        RequestBuilder {
            id: ctx.next_id(),
            url: None,
            destination: None,
            config: DownloadConfigBuilder::default(),
            cancel_token: ctx.child_token(),
        }
    }

    /// The identifier of the download.
    pub fn id(&self) -> (id: DownloadID)
        ensures
            id == self.id,
    {
        self.id
    }

    /// Where the download comes from.
    pub fn url(&self) -> (url: &Url)
        ensures
            *url == self.url,
    {
        &self.url
    }

    /// Where the download goes to.
    pub fn destination(&self) -> (destination: &PathBuf)
        ensures
            *destination == self.destination,
    {
        &self.destination
    }

    /// The settings of the request.
    pub fn config(&self) -> (config: &DownloadConfig)
        ensures
            *config == self.config,
    {
        &self.config
    }

    /// What the probe and the download itself are called with.
    pub fn call(&self) -> (call: Call<'_>)
        ensures
            *call.url == self.url,
            *call.headers == self.config.headers,
            *call.cancel == self.cancel_token,
    {
        Call { url: &self.url, headers: self.config.headers(), cancel: &self.cancel_token }
    }
}

/// A request in the making.
#[derive(Debug)]
pub struct RequestBuilder {
    pub id: DownloadID,
    pub url: Option<Url>,
    pub destination: Option<PathBuf>,
    pub config: DownloadConfigBuilder,
    pub cancel_token: CancellationToken,
}

/// Why a request could not be started.
#[derive(Debug, Clone, Copy, PartialEq, Eq, Structural)]
pub enum StartError {
    /// The manager, or this request, has been cancelled.
    ManagerShutdown,
    /// No URL was set.
    UrlNotSet,
    /// No destination was set.
    DestinationNotSet,
}

impl StartError {
    /// The error in words.
    pub fn message(&self) -> (text: String)
        ensures
            text@ == match self {
                StartError::ManagerShutdown => "Download manager has been shut down"@,
                StartError::UrlNotSet => "URL must be set"@,
                StartError::DestinationNotSet => "Destination must be set"@,
            },
    {
        match self {
            StartError::ManagerShutdown => "Download manager has been shut down".to_owned(),
            StartError::UrlNotSet => "URL must be set".to_owned(),
            StartError::DestinationNotSet => "Destination must be set".to_owned(),
        }
    }
}

impl RequestBuilder {
    /// Set where the download comes from.
    pub fn url(self, url: Url) -> (builder: Self)
        ensures
            builder == (RequestBuilder { url: Some(url), ..self }),
    {
        RequestBuilder { url: Some(url), ..self }
    }

    /// Set where the download goes to.
    pub fn destination(self, destination: PathBuf) -> (builder: Self)
        ensures
            builder == (RequestBuilder { destination: Some(destination), ..self }),
    {
        RequestBuilder { destination: Some(destination), ..self }
    }

    /// Set the token that cancels the download.
    pub fn cancel_token(self, cancel_token: CancellationToken) -> (builder: Self)
        ensures
            builder == (RequestBuilder { cancel_token, ..self }),
    {
        RequestBuilder { cancel_token, ..self }
    }

    /// Set the largest number of retries after retryable network errors.
    pub fn retries(self, retries: u32) -> (builder: Self)
        ensures
            builder == (RequestBuilder {
                config: DownloadConfigBuilder { retries: Some(retries), ..self.config },
                ..self
            }),
    {
        RequestBuilder { config: self.config.retries(retries), ..self }
    }

    /// Set whether an existing destination may be overwritten.
    pub fn overwrite(self, overwrite: bool) -> (builder: Self)
        ensures
            builder == (RequestBuilder {
                config: DownloadConfigBuilder { overwrite: Some(overwrite), ..self.config },
                ..self
            }),
    {
        RequestBuilder { config: self.config.overwrite(overwrite), ..self }
    }

    /// Everything but the headers is as in the other builder.
    pub open spec fn agrees_but_for_headers(self, other: RequestBuilder) -> bool {
        &&& self.id == other.id
        &&& self.url == other.url
        &&& self.destination == other.destination
        &&& self.cancel_token == other.cancel_token
        &&& self.config.retries == other.config.retries
        &&& self.config.overwrite == other.config.overwrite
    }

    /// Set a header. The value, valid as the value of a header, replaces any
    /// that the name had before.
    pub fn header(self, name: HeaderName, value: &str) -> (builder: Self)
        requires
            has_room(self.config.headers),
            valid_header_value(value),
        ensures
            builder.agrees_but_for_headers(self),
            header_contents(builder.config.headers) == with_header(
                header_contents(self.config.headers),
                header_name_text(name),
                value.spec_bytes(),
            ),
    {
        RequestBuilder { config: self.config.header(name, value), ..self }
    }

    /// Set a header, if its value is valid as the value of a header and the
    /// headers are not too many.
    pub fn try_header(self, name: HeaderName, value: &str) -> (outcome: Result<Self, HeaderRefused>)
        ensures
            match outcome {
                Ok(builder) => {
                    &&& valid_header_value(value)
                    &&& builder.agrees_but_for_headers(self)
                    &&& header_contents(builder.config.headers) == with_header(
                        header_contents(self.config.headers),
                        header_name_text(name),
                        value.spec_bytes(),
                    )
                },
                Err(HeaderRefused::InvalidValue) => !valid_header_value(value),
                Err(HeaderRefused::TooMany) => {
                    &&& valid_header_value(value)
                    &&& !has_room(self.config.headers)
                },
            },
    {
        match self.config.try_header(name, value) {
            Ok(config) => Ok(
                RequestBuilder {
                    id: self.id,
                    url: self.url,
                    destination: self.destination,
                    config,
                    cancel_token: self.cancel_token,
                },
            ),
            Err(refused) => Err(refused),
        }
    }

    /// Set the `User-Agent` header.
    pub fn user_agent(self, user_agent: &str) -> (builder: Self)
        requires
            has_room(self.config.headers),
            valid_header_value(user_agent),
        ensures
            builder.agrees_but_for_headers(self),
            header_contents(builder.config.headers) == with_header(
                header_contents(self.config.headers),
                "user-agent"@,
                user_agent.spec_bytes(),
            ),
    {
        proof {
            reveal_strlit("user-agent");
        }
        self.header(HeaderName::from_static("user-agent"), user_agent)
    }

    /// What starting the request yields, given whether its token is cancelled.
    pub open spec fn outcome<C>(self, cancelled: bool, hooks: C) -> Result<Request<C>, StartError> {
        if cancelled {
            Err(StartError::ManagerShutdown)
        } else {
            match (self.url, self.destination) {
                (Some(url), Some(destination)) => Ok(
                    Request {
                        id: self.id,
                        url,
                        destination,
                        config: self.config.settings(),
                        cancel_token: self.cancel_token,
                        hooks,
                    },
                ),
                (None, _) => Err(StartError::UrlNotSet),
                (Some(_), None) => Err(StartError::DestinationNotSet),
            }
        }
    }

    /// Finish the request, given whether its token is cancelled.
    pub fn finish<C>(self, cancelled: bool, hooks: C) -> (request: Result<Request<C>, StartError>)
        ensures
            request == self.outcome(cancelled, hooks),
    {
        if cancelled {
            return Err(StartError::ManagerShutdown);
        }
        let url: Url = match self.url {
            Some(url) => url,
            None => return Err(StartError::UrlNotSet),
        };
        let destination: PathBuf = match self.destination {
            Some(destination) => destination,
            None => return Err(StartError::DestinationNotSet),
        };
        Ok(
            Request {
                id: self.id,
                url,
                destination,
                config: self.config.build(),
                cancel_token: self.cancel_token,
                hooks,
            },
        )
    }

    /// Finish the request, unless its token is cancelled by now.
    pub fn start<C>(self, hooks: C) -> (request: Result<Request<C>, StartError>)
        ensures
            request == self.outcome(true, hooks) || request == self.outcome(false, hooks),
            exists|cancelled: bool| #[trigger]
                answers_cancelled(self.cancel_token, cancelled) && request == self.outcome(
                    cancelled,
                    hooks,
                ),
    {
        let cancelled: bool = self.cancel_token.is_cancelled();
        assert(answers_cancelled(self.cancel_token, cancelled));
        self.finish(cancelled, hooks)
    }
}

/// The last value given to a header counts, and headers do not disturb each
/// other.
pub proof fn law_last_header_counts(
    headers: Map<Seq<char>, Seq<Seq<u8>>>,
    name: Seq<char>,
    other: Seq<char>,
    first: Seq<u8>,
    last: Seq<u8>,
)
    ensures
        with_header(headers, name, last)[name] == seq![last],
        with_header(with_header(headers, name, first), name, last) == with_header(
            headers,
            name,
            last,
        ),
        name != other ==> with_header(with_header(headers, name, first), other, last)
            == with_header(with_header(headers, other, last), name, first),
{
}

} // verus!
