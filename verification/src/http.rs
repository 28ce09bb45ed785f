//! The rules of the HTTP transport: how it is configured, what a request carries, which
//! responses count as answers, and which error each failure is.
use crate::headers::{HeaderSeq, distinct_headers, header_entries, header_set, header_set_all, default_headers, lemma_header_set_distinct, new_headers, request_headers, set_raw};
use hyper::header::Headers;
use hyper::error::UriError;
use hyper::Uri;
use std::str::FromStr;
use std::time::Duration;
use vstd::prelude::*;

verus! {

/// What can go wrong in the HTTP transport. `H` is the error of the HTTP client, `U` the
/// error of reading a URI, and `C` the error that caused a failure of the creator, the
/// timer or the event loop.
#[derive(Debug)]
pub enum ErrorKind<H, U, C> {
    /// The HTTP client could not be created with the given creator; the creator's error
    /// is the cause.
    ClientCreatorError(C),
    /// The HTTP status of the response is not 200 OK.
    HttpError(u16),
    /// The request timed out.
    RequestTimeout,
    /// A timeout could not be set up; the timer's error is the cause.
    TimeoutError(C),
    /// Error with the event loop, with what went wrong and its cause.
    TokioCoreError(&'static str, C),
    /// An error occurred in the HTTP client.
    Hyper(H),
    /// The string given was not a valid URI.
    Uri(U),
}

/// Creates a plain HTTP client.
#[derive(Debug, Default)]
pub struct DefaultClientBuilder;

/// Creates an HTTP client that speaks both plain HTTP and HTTPS over TLS.
#[derive(Debug, Default)]
pub struct DefaultTlsClientBuilder;

/// Creates a plain HTTP client.
#[derive(Debug, Default)]
pub struct DefaultClient;

/// Creates an HTTP client that speaks both plain HTTP and HTTPS over TLS.
#[derive(Debug, Default)]
pub struct DefaultTlsClient;

/// The configuration of a transport before it is started: how its HTTP client is created,
/// and how long a request may take.
#[derive(Debug)]
pub struct HttpTransportBuilder<C> {
    client_creator: C,
    timeout: Option<Duration>,
}

impl<C> HttpTransportBuilder<C> {
    /// The creator of the HTTP client.
    pub closed spec fn creator(&self) -> C {
        self.client_creator
    }

    /// The time limit of a request, if any.
    pub closed spec fn time_limit(&self) -> Option<Duration> {
        self.timeout
    }

    /// Starts the configuration with a creator of the HTTP client and no time limit.
    pub fn new(client_creator: C) -> (builder: Self)
        ensures
            builder.creator() == client_creator,
            builder.time_limit() is None,
    {
        HttpTransportBuilder { client_creator, timeout: None }
    }

    /// Sets the time limit of a request.
    pub fn timeout(self, duration: Duration) -> (builder: Self)
        ensures
            builder.creator() == self.creator(),
            builder.time_limit() == Some(duration),
    {
        HttpTransportBuilder { client_creator: self.client_creator, timeout: Some(duration) }
    }

    /// The creator and the time limit, to start the transport with.
    pub fn into_parts(self) -> (parts: (C, Option<Duration>))
        ensures
            parts.0 == self.creator(),
            parts.1 == self.time_limit(),
    {
        (self.client_creator, self.timeout)
    }
}

/// Starts the configuration of a plain HTTP transport.
pub fn http_transport() -> (builder: HttpTransportBuilder<DefaultClient>)
    ensures
        builder.creator() == DefaultClient,
        builder.time_limit() is None,
{
    HttpTransportBuilder::new(DefaultClient)
}

/// Starts the configuration of a transport that also speaks HTTPS.
pub fn https_transport() -> (builder: HttpTransportBuilder<DefaultTlsClient>)
    ensures
        builder.creator() == DefaultTlsClient,
        builder.time_limit() is None,
{
    HttpTransportBuilder::new(DefaultTlsClient)
}

/// The outcome of creating the HTTP client: its failure is a `ClientCreatorError`
/// caused by the creator's error.
pub fn creator_result<T, H, U, C>(created: Result<T, C>) -> (result: Result<T, ErrorKind<H, U, C>>)
    ensures
        match created {
            Ok(client) => result == Ok::<T, ErrorKind<H, U, C>>(client),
            Err(e) => result == Err::<T, ErrorKind<H, U, C>>(ErrorKind::ClientCreatorError(e)),
        },
{
    match created {
        Ok(client) => Ok(client),
        Err(e) => Err(ErrorKind::ClientCreatorError(e)),
    }
}

/// The outcome of creating the event loop of a standalone transport: its failure is a
/// `TokioCoreError` caused by the error of the creation.
pub fn core_result<T, H, U, C>(created: Result<T, C>) -> (result: Result<T, ErrorKind<H, U, C>>)
    ensures
        match created {
            Ok(core) => result == Ok::<T, ErrorKind<H, U, C>>(core),
            Err(e) => result matches Err(ErrorKind::TokioCoreError(msg, cause))
                && msg@ == "Unable to create"@ && cause == e,
        },
{
    match created {
        Ok(core) => Ok(core),
        Err(e) => Err(ErrorKind::TokioCoreError("Unable to create", e)),
    }
}

/// Only a response with status 200 OK is an answer.
pub fn check_status<H, U, C>(status: u16) -> (result: Result<(), ErrorKind<H, U, C>>)
    ensures
        status == 200 ==> result is Ok,
        status != 200 ==> (result matches Err(ErrorKind::HttpError(s)) && s == status),
{
    if status == 200 {
        Ok(())
    } else {
        Err(ErrorKind::HttpError(status))
    }
}

/// What the timer of a request answered when it was polled.
pub enum TimerPoll<C> {
    /// The time is not up yet.
    NotReady,
    /// The time is up.
    Fired,
    /// The timer failed with this error.
    Failed(C),
}

/// What a request timeout yields: nothing while the time is not up, then a timeout; a
/// failing timer is a `TimeoutError` caused by the timer's error.
pub fn request_timeout<H, U, C>(timer: TimerPoll<C>) -> (result: Option<ErrorKind<H, U, C>>)
    ensures
        match timer {
            TimerPoll::NotReady => result is None,
            TimerPoll::Fired => result matches Some(ErrorKind::RequestTimeout),
            TimerPoll::Failed(e) => result == Some(ErrorKind::<H, U, C>::TimeoutError(e)),
        },
{
    match timer {
        TimerPoll::NotReady => None,
        TimerPoll::Fired => Some(ErrorKind::RequestTimeout),
        TimerPoll::Failed(e) => Some(ErrorKind::TimeoutError(e)),
    }
}

/// Where sending a request through a transport handle can fail, with the error of the
/// channel to the event loop.
pub enum SendFailure<C> {
    /// The event loop no longer takes requests.
    NotListening(C),
    /// The event loop dropped the request without answering.
    NoResponse(C),
}

/// The error for a failed send: a `TokioCoreError` that says where it failed, caused by
/// the channel's error.
pub fn send_error<H, U, C>(failure: SendFailure<C>) -> (error: ErrorKind<H, U, C>)
    ensures
        match failure {
            SendFailure::NotListening(e) => error matches ErrorKind::TokioCoreError(msg, cause)
                && msg@ == "Not listening for requests"@ && cause == e,
            SendFailure::NoResponse(e) => error matches ErrorKind::TokioCoreError(msg, cause)
                && msg@ == "Died without returning response"@ && cause == e,
        },
{
    match failure {
        SendFailure::NotListening(e) => ErrorKind::TokioCoreError("Not listening for requests", e),
        SendFailure::NoResponse(e) => ErrorKind::TokioCoreError("Died without returning response", e),
    }
}

/// A URI, as Hyper holds it. The transport logic carries it through unread.
#[verifier::external_type_specification]
#[verifier::external_body]
pub struct ExUri(hyper::Uri);

/// Why Hyper could not read a URI.
#[verifier::external_type_specification]
#[verifier::external_body]
pub struct ExUriError(hyper::error::UriError);

/// The URI that Hyper reads from a text, or `None` where the text is no URI.
pub uninterp spec fn parsed_uri(text: Seq<char>) -> Option<Uri>;

/// Calls `Uri::from_str`. The URI it reads is named, as a function of the text alone; the
/// error where it reads none is left unsaid.
#[verifier::external_body]
fn parse_uri(text: &str) -> (uri: Result<Uri, UriError>)
    ensures
        match parsed_uri(text@) {
            Some(u) => uri == Ok::<Uri, UriError>(u),
            None => uri is Err,
        },
{
    Uri::from_str(text)
}

/// A handle for the destination written in `uri`, without custom headers and with the
/// time limit `timeout` of the transport; `rest` is what else reaches the transport. Text
/// that is no URI is a `Uri` error.
pub fn handle_for<R, H, C>(rest: R, uri: &str, timeout: Option<Duration>) -> (handle: Result<HttpHandle<(R, Uri)>, ErrorKind<H, UriError, C>>)
    ensures
        handle is Ok == parsed_uri(uri@) is Some,
        handle matches Ok(h) ==> h.wf() && h.target() == (rest, parsed_uri(uri@)->0) && h.time_limit() == timeout
            && h.custom_headers() == Seq::<(Seq<char>, Seq<char>)>::empty(),
        handle is Err ==> handle matches Err(ErrorKind::Uri(_)),
{
    match parse_uri(uri) {
        Ok(destination) => Ok(HttpHandle::new((rest, destination), timeout)),
        Err(e) => Err(ErrorKind::Uri(e)),
    }
}

/// A handle to a transport for one destination, with the custom headers of its requests.
/// `T` is what reaches the transport: the channel to its event loop, the destination and
/// the source of request ids.
#[derive(Debug)]
pub struct HttpHandle<T> {
    transport: T,
    headers: Headers,
    timeout: Option<Duration>,
}

impl<T> HttpHandle<T> {
    /// What reaches the transport.
    pub closed spec fn target(&self) -> T {
        self.transport
    }

    /// The custom headers, in the order they were first set.
    pub closed spec fn custom_headers(&self) -> HeaderSeq {
        header_entries(self.headers)
    }

    /// The time limit of the requests sent through this handle, if any.
    pub closed spec fn time_limit(&self) -> Option<Duration> {
        self.timeout
    }

    /// The handle is well formed: no custom header name occurs twice.
    pub open spec fn wf(&self) -> bool {
        distinct_headers(self.custom_headers())
    }

    /// A handle without custom headers, whose requests have the time limit of the
    /// transport.
    pub fn new(transport: T, timeout: Option<Duration>) -> (handle: Self)
        ensures
            handle.wf(),
            distinct_headers(handle.custom_headers()),
            handle.target() == transport,
            handle.custom_headers() == Seq::<(Seq<char>, Seq<char>)>::empty(),
            handle.time_limit() == timeout,
    {
        HttpHandle { transport, headers: new_headers(), timeout }
    }

    /// The time limit of the requests sent through this handle, if any.
    pub fn timeout(&self) -> (timeout: Option<Duration>)
        ensures
            timeout == self.time_limit(),
    {
        self.timeout
    }

    /// Sets the time limit of the requests sent through this handle from now on; `None`
    /// lets them take as long as they take.
    pub fn set_timeout(&mut self, timeout: Option<Duration>)
        requires
            old(self).wf(),
        ensures
            final(self).wf(),
            final(self).time_limit() == timeout,
            final(self).target() == old(self).target(),
            final(self).custom_headers() == old(self).custom_headers(),
    {
        self.timeout = timeout;
    }

    /// What reaches the transport.
    pub fn transport(&self) -> (transport: &T)
        ensures
            *transport == self.target(),
    {
        &self.transport
    }

    /// Sets a custom header for all requests sent through this handle. It replaces a custom
    /// header of the same name, and any header that the library itself would set, such as
    /// the content type and length.
    pub fn set_header(&mut self, name: String, value: String) -> (handle: &mut Self)
        requires
            old(self).wf(),
        ensures
            handle.wf(),
            distinct_headers(handle.custom_headers()),
            handle.target() == old(self).target(),
            handle.custom_headers() == header_set(old(self).custom_headers(), name@, value@),
            handle.time_limit() == old(self).time_limit(),
            *final(self) == *final(handle),
    {
        proof { lemma_header_set_distinct(header_entries(self.headers), name@, value@); }
        set_raw(&mut self.headers, name, value);
        self
    }

    /// The headers of a POST request with a body of `body_len` bytes: a JSON content type,
    /// the length of the body, then the custom headers.
    pub fn request_headers(&self, body_len: u64) -> (headers: Headers)
        requires
            self.wf(),
        ensures
            header_entries(headers) == header_set_all(default_headers(body_len as nat), self.custom_headers()),
    {
        request_headers(&self.headers, body_len)
    }
}

} // verus!
