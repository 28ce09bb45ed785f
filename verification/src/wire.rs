//! JSON payloads on the wire: an output is read from the raw bytes or text of a payload
//! with serde_json into jsonrpc-core's `Output`, and taken over field by field.
use crate::types::{Failure, Id, MethodCall, Notification, Output, Params, RpcError, Success, Version, code_number, error_code_for, ErrorCode};
use jsonrpc_core::{Id as CoreId, MethodCall as CoreMethodCall, Notification as CoreNotification, Output as CoreOutput};
use jsonrpc_core::{Params as CoreParams, Version as CoreVersion};
use serde_json::Value;
use vstd::prelude::*;

verus! {

/// A JSON value, as serde_json holds it. The protocol logic carries it through unread.
#[verifier::external_type_specification]
#[verifier::external_body]
pub struct ExJsonValue(serde_json::Value);

/// A JSON object, as serde_json holds it.
#[verifier::external_type_specification]
#[verifier::external_body]
#[verifier::reject_recursive_types(K)]
#[verifier::reject_recursive_types(V)]
pub struct ExJsonMap<K, V>(serde_json::Map<K, V>);

/// The parameters of a call as JSON values: positional, named, or none.
pub type JsonParams = Params<Value, serde_json::Map<String, Value>>;

/// The text that serde_json writes for a method call, as jsonrpc-core serializes it, or
/// `None` where serializing fails.
pub uninterp spec fn encoded_method_call(call: MethodCall<JsonParams>) -> Option<Seq<char>>;

/// The text that serde_json writes for a notification, as jsonrpc-core serializes it, or
/// `None` where serializing fails.
pub uninterp spec fn encoded_notification(notification: Notification<JsonParams>) -> Option<Seq<char>>;

/// Whether `text` is the outcome `encoded` of serializing.
pub open spec fn encodes(text: Option<String>, encoded: Option<Seq<char>>) -> bool {
    match text {
        Some(t) => encoded == Some(t@),
        None => encoded is None,
    }
}

/// Calls `serde_json::to_string` on the method call, taken over field by field into
/// jsonrpc-core's `MethodCall`. Its result is named, as a function of the call alone.
#[verifier::external_body]
pub(crate) fn encode_method_call(call: &MethodCall<JsonParams>) -> (text: Option<String>)
    ensures
        encodes(text, encoded_method_call(*call)),
{
    let params = call.params.as_ref().map(|p| match p {
        Params::Array(values) => CoreParams::Array(values.clone()),
        Params::Object(map) => CoreParams::Map(map.clone()),
        Params::Empty => CoreParams::None,
    });
    let id = match &call.id {
        Id::Null => CoreId::Null,
        Id::Str(s) => CoreId::Str(s.clone()),
        Id::Num(n) => CoreId::Num(*n),
    };
    let call = CoreMethodCall { jsonrpc: call.jsonrpc.map(|_| CoreVersion::V2), method: call.method.clone(), params, id };
    serde_json::to_string(&call).ok()
}

/// Calls `serde_json::to_string` on the notification, taken over field by field into
/// jsonrpc-core's `Notification`. Its result is named, as a function of the notification
/// alone.
#[verifier::external_body]
pub(crate) fn encode_notification(notification: &Notification<JsonParams>) -> (text: Option<String>)
    ensures
        encodes(text, encoded_notification(*notification)),
{
    let params = notification.params.as_ref().map(|p| match p {
        Params::Array(values) => CoreParams::Array(values.clone()),
        Params::Object(map) => CoreParams::Map(map.clone()),
        Params::Empty => CoreParams::None,
    });
    let version = notification.jsonrpc.map(|_| CoreVersion::V2);
    let notification = CoreNotification { jsonrpc: version, method: notification.method.clone(), params };
    serde_json::to_string(&notification).ok()
}

/// An output as it was read from a payload: the error code is still the number on the
/// wire.
#[derive(Debug)]
pub enum WireOutput {
    /// A success: version, id and result.
    Success(Option<Version>, Id, Value),
    /// A failure: version, id, error code, error message and error data.
    Failure(Option<Version>, Id, i64, String, Option<Value>),
}

/// The output that a payload read from the wire stands for.
pub open spec fn wire_to_output(wire: WireOutput) -> Output<Value> {
    match wire {
        WireOutput::Success(jsonrpc, id, result) => Output::Success(Success { jsonrpc, result, id }),
        WireOutput::Failure(jsonrpc, id, code, message, data) => Output::Failure(Failure {
            jsonrpc,
            error: RpcError { code: error_code_for(code as int), message, data },
            id,
        }),
    }
}

/// The output that serde_json reads from the bytes of a payload, or `None` where they do
/// not hold one.
pub uninterp spec fn decoded_output(body: Seq<u8>) -> Option<WireOutput>;

/// The output that serde_json reads from the text of a payload, or `None` where it does
/// not hold one.
pub uninterp spec fn decoded_text_output(text: Seq<char>) -> Option<WireOutput>;

/// Calls `serde_json::from_slice` into jsonrpc-core's `Output` and takes the output over
/// field by field, its error code by `ErrorCode::code`. Its result is named, as a function
/// of the bytes alone.
#[verifier::external_body]
fn decode_output_bytes(body: &[u8]) -> (decoded: Option<WireOutput>)
    ensures
        decoded == decoded_output(body@),
{
    let id = |id| match id {
        CoreId::Null => Id::Null,
        CoreId::Str(s) => Id::Str(s),
        CoreId::Num(n) => Id::Num(n),
    };
    match serde_json::from_slice(body) {
        Ok(CoreOutput::Success(s)) => Some(WireOutput::Success(s.jsonrpc.map(|_| Version::V2), id(s.id), s.result)),
        Ok(CoreOutput::Failure(f)) => Some(WireOutput::Failure(f.jsonrpc.map(|_| Version::V2), id(f.id), f.error.code.code(), f.error.message, f.error.data)),
        Err(_) => None,
    }
}

/// Calls `serde_json::from_str` into jsonrpc-core's `Output` and takes the output over
/// field by field, its error code by `ErrorCode::code`. Its result is named, as a function
/// of the text alone.
#[verifier::external_body]
fn decode_output_text(text: &str) -> (decoded: Option<WireOutput>)
    ensures
        decoded == decoded_text_output(text@),
{
    let id = |id| match id {
        CoreId::Null => Id::Null,
        CoreId::Str(s) => Id::Str(s),
        CoreId::Num(n) => Id::Num(n),
    };
    match serde_json::from_str(text) {
        Ok(CoreOutput::Success(s)) => Some(WireOutput::Success(s.jsonrpc.map(|_| Version::V2), id(s.id), s.result)),
        Ok(CoreOutput::Failure(f)) => Some(WireOutput::Failure(f.jsonrpc.map(|_| Version::V2), id(f.id), f.error.code.code(), f.error.message, f.error.data)),
        Err(_) => None,
    }
}

/// Takes over an output read from the wire, reading its error code.
pub fn output_from_wire(wire: WireOutput) -> (output: Output<Value>)
    ensures
        output == wire_to_output(wire),
{
    match wire {
        WireOutput::Success(jsonrpc, id, result) => Output::Success(Success { jsonrpc, result, id }),
        WireOutput::Failure(jsonrpc, id, code, message, data) => Output::Failure(Failure {
            jsonrpc,
            error: RpcError { code: ErrorCode::from_number(code), message, data },
            id,
        }),
    }
}

/// The output held in the bytes of a payload, or `None` where they hold none.
pub fn decode_output(body: &[u8]) -> (decoded: Option<Output<Value>>)
    ensures
        match decoded_output(body@) {
            Some(wire) => decoded == Some(wire_to_output(wire)),
            None => decoded is None,
        },
{
    match decode_output_bytes(body) {
        Some(wire) => Some(output_from_wire(wire)),
        None => None,
    }
}

/// The output held in the text of a payload, or `None` where it holds none.
pub fn decode_text(text: &str) -> (decoded: Option<Output<Value>>)
    ensures
        match decoded_text_output(text@) {
            Some(wire) => decoded == Some(wire_to_output(wire)),
            None => decoded is None,
        },
{
    match decode_output_text(text) {
        Some(wire) => Some(output_from_wire(wire)),
        None => None,
    }
}

/// An output read from the wire carries what was read: a success its version, id and
/// result; a failure its version, id, message and data, and the error code whose number
/// is the number on the wire, one of the codes that the specification defines where the
/// number is one of theirs, else a server error with that number.
pub proof fn law_wire_output_keeps_what_was_read(wire: WireOutput)
    ensures
        wire matches WireOutput::Success(jsonrpc, id, result) ==> wire_to_output(wire) == Output::Success(Success { jsonrpc, result, id }),
        wire matches WireOutput::Failure(jsonrpc, id, n, message, data) ==> {
            &&& wire_to_output(wire) matches Output::Failure(f)
            &&& f.jsonrpc == jsonrpc
            &&& f.id == id
            &&& f.error.message == message
            &&& f.error.data == data
            &&& code_number(f.error.code) == n
            &&& (n == -32700 ==> f.error.code == ErrorCode::ParseError)
            &&& (n == -32600 ==> f.error.code == ErrorCode::InvalidRequest)
            &&& (n == -32601 ==> f.error.code == ErrorCode::MethodNotFound)
            &&& (n == -32602 ==> f.error.code == ErrorCode::InvalidParams)
            &&& (n == -32603 ==> f.error.code == ErrorCode::InternalError)
            &&& (n != -32700 && n != -32600 && n != -32601 && n != -32602 && n != -32603
                ==> f.error.code == ErrorCode::ServerError(n))
        },
{
}

} // verus!
