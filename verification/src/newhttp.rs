//! The rules of the second HTTP transport: optional time limits, which responses count
//! as answers, and how the body of an answer is read.
use crate::headers::{default_headers, header_entries, new_headers, request_headers};
use hyper::header::Headers;
use std::time::Duration;
use vstd::prelude::*;
use vstd::utf8::{decode_utf8, valid_utf8};

verus! {

/// What can go wrong in the transport. `H` is the error of the HTTP client, `T` the error
/// of the timer.
#[derive(Debug)]
pub enum Error<H, T> {
    /// The HTTP transport processor has stopped.
    TransportClosedError,
    /// Error in the HTTP client.
    HyperError(H),
    /// Error in the timeout timer.
    TimerError(T),
    /// The request timed out.
    TimeoutError,
    /// Unexpected HTTP status code in the response.
    HttpResponseError(u16),
    /// The response body is not valid UTF-8; these are its bytes.
    ParseBodyError(Vec<u8>),
}

/// A future, optionally with a time limit to complete within.
#[derive(Debug)]
pub enum OptionalTimeout<F> {
    /// No time limit.
    Unlimited(F),
    /// The future has to complete within the duration.
    Limited(F, Duration),
}

impl<F> OptionalTimeout<F> {
    /// Gives `future` the time limit `timeout`, or none when it is `None`.
    pub fn new(future: F, timeout: Option<Duration>) -> (limited: Self)
        ensures
            match timeout {
                Some(d) => limited == OptionalTimeout::Limited(future, d),
                None => limited == OptionalTimeout::Unlimited(future),
            },
    {
        match timeout {
            Some(timeout) => OptionalTimeout::Limited(future, timeout),
            None => OptionalTimeout::Unlimited(future),
        }
    }
}

/// Why a request with an optional time limit failed.
pub enum TimeoutFailure<H, T> {
    /// The request itself failed.
    Inner(H),
    /// The timer failed.
    Timer(T),
    /// The time ran out.
    Elapsed,
}

/// The transport error for a failed request.
pub fn timeout_error<H, T>(failure: TimeoutFailure<H, T>) -> (error: Error<H, T>)
    ensures
        match failure {
            TimeoutFailure::Inner(e) => error == Error::<H, T>::HyperError(e),
            TimeoutFailure::Timer(e) => error == Error::<H, T>::TimerError(e),
            TimeoutFailure::Elapsed => error is TimeoutError,
        },
{
    match failure {
        TimeoutFailure::Inner(e) => Error::HyperError(e),
        TimeoutFailure::Timer(e) => Error::TimerError(e),
        TimeoutFailure::Elapsed => Error::TimeoutError,
    }
}

/// Only a response with status 200 OK is an answer.
pub fn check_status<H, T>(status: u16) -> (result: Result<(), Error<H, T>>)
    ensures
        status == 200 ==> result is Ok,
        status != 200 ==> (result matches Err(Error::HttpResponseError(s)) && s == status),
{
    if status == 200 {
        Ok(())
    } else {
        Err(Error::HttpResponseError(status))
    }
}

/// Calls `String::from_utf8`: by its documentation, it succeeds exactly when the bytes
/// are valid UTF-8, and then the string holds the characters they encode; on failure, the
/// error gives the bytes back.
#[verifier::external_body]
fn string_from_utf8(bytes: Vec<u8>) -> (result: Result<String, Vec<u8>>)
    ensures
        result is Ok <==> valid_utf8(bytes@),
        result matches Ok(s) ==> s@ == decode_utf8(bytes@),
        result matches Err(b) ==> b@ == bytes@,
{
    match String::from_utf8(bytes) {
        Ok(s) => Ok(s),
        Err(e) => Err(e.into_bytes()),
    }
}

/// Reads the body of an answer as text.
pub fn read_body<H, T>(body: Vec<u8>) -> (result: Result<String, Error<H, T>>)
    ensures
        valid_utf8(body@) ==> (result matches Ok(s) && s@ == decode_utf8(body@)),
        !valid_utf8(body@) ==> (result matches Err(Error::ParseBodyError(b)) && b@ == body@),
{
    match string_from_utf8(body) {
        Ok(s) => Ok(s),
        Err(bytes) => Err(Error::ParseBodyError(bytes)),
    }
}

/// The headers of a POST request with a body of `body_len` bytes: a JSON content type and
/// the length of the body.
pub fn post_headers(body_len: u64) -> (headers: Headers)
    ensures
        header_entries(headers) == default_headers(body_len as nat),
{
    request_headers(&new_headers(), body_len)
}

} // verus!
