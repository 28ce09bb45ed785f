//! Reading the response to a single call that was sent on its own.
use crate::client::ErrorKind;
use crate::types::{Id, IdView, Output, output_id};
use crate::wire::{decode_output, decoded_output, wire_to_output};
use serde_json::Value;
use vstd::prelude::*;

verus! {

/// Whether `result` is what a decoded output gives for the call with `expected_id`: an
/// error when it answers another id, else its result or its error.
pub open spec fn answers_call<V, E>(output: Output<V>, expected_id: IdView, result: Result<V, ErrorKind<V, E>>) -> bool {
    if output_id(output) != expected_id {
        result matches Err(ErrorKind::ResponseError(msg)) && msg@ == "Response id not equal to request id"@
    } else {
        match output {
            Output::Success(s) => result == Ok::<V, ErrorKind<V, E>>(s.result),
            Output::Failure(f) => result == Err::<V, ErrorKind<V, E>>(ErrorKind::JsonRpcError(f.error)),
        }
    }
}

/// Checks a response to the call with `expected_id` and extracts its result. The body is
/// given as the output it decoded to, or `None` when it was not valid JSON for an output.
pub fn parse<V, E>(decoded: Option<Output<V>>, expected_id: &Id) -> (result: Result<V, ErrorKind<V, E>>)
    ensures
        match decoded {
            None => result matches Err(ErrorKind::ResponseError(msg)) && msg@ == "Not valid json"@,
            Some(output) => answers_call(output, expected_id@, result),
        },
{
    match decoded {
        None => Err(ErrorKind::ResponseError("Not valid json")),
        Some(output) => {
            if !output.id().same_as(expected_id) {
                return Err(ErrorKind::ResponseError("Response id not equal to request id"));
            }
            match output {
                Output::Success(s) => Ok(s.result),
                Output::Failure(f) => Err(ErrorKind::JsonRpcError(f.error)),
            }
        },
    }
}

/// Reads the raw body of a response to the call with `expected_id` and extracts its
/// result: an error when the body holds no output, else what `parse` gives for it.
pub fn parse_body<E>(body: &[u8], expected_id: &Id) -> (result: Result<Value, ErrorKind<Value, E>>)
    ensures
        match decoded_output(body@) {
            None => result matches Err(ErrorKind::ResponseError(msg)) && msg@ == "Not valid json"@,
            Some(wire) => answers_call(wire_to_output(wire), expected_id@, result),
        },
{
    parse(decode_output(body), expected_id)
}

/// The typed value of a result: `None` when the result could not be read as the target type.
pub fn typed_result<T, V, E>(typed: Option<T>) -> (result: Result<T, ErrorKind<V, E>>)
    ensures
        match typed {
            Some(t) => result == Ok::<T, ErrorKind<V, E>>(t),
            None => result matches Err(ErrorKind::ResponseError(msg)) && msg@ == "Not valid for target type"@,
        },
{
    match typed {
        Some(t) => Ok(t),
        None => Err(ErrorKind::ResponseError("Not valid for target type")),
    }
}

} // verus!
