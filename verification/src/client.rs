//! The client side of the protocol: which id a call gets, which pending call a response
//! settles, when incoming calls may be taken, and how the client winds down.
//!
//! The client is a state machine. Whoever drives it polls the transport and the channel
//! of calls, hands each event to the matching method here, and performs what comes back:
//! a payload to start sending, a completion to resolve, or the end of the client.
use crate::id_generator::IdGenerator;
use crate::types::{Id, IdView, Output, Params, RpcError, Version, MethodCall, Notification, output_id, output_version};
use crate::wire::{JsonParams, decode_text, decoded_text_output, encode_method_call, encode_notification, encoded_method_call, encoded_notification, encodes, wire_to_output};
use serde_json::Value;
use std::collections::HashMap;
use vstd::prelude::*;

verus! {

broadcast use vstd::std_specs::hash::group_hash_axioms;

/// What can go wrong while talking to a JSON-RPC 2.0 server.
#[derive(Debug)]
pub enum ErrorKind<V, E> {
    /// Error in the underlying transport layer, with the transport's own error as its
    /// cause where there is one.
    TransportError(Option<E>),
    /// Error while serializing method parameters.
    SerializeError,
    /// Error when deserializing the server's response.
    DeserializeError,
    /// Error while deserializing or parsing the response data.
    ResponseError(&'static str),
    /// The server returned a response that is not marked as JSON-RPC 2.0.
    InvalidVersion,
    /// The client is shut down, or shutting down.
    Shutdown,
    /// The call was answered, but with a JSON-RPC 2.0 error.
    JsonRpcError(RpcError<V>),
}

/// An operation that a client handle asks the client to carry out.
#[derive(Debug)]
pub enum ClientCall<V, M, C, N> {
    /// Invoke a method; `C` receives the result.
    RpcCall(String, Option<Params<V, M>>, C),
    /// Send a notification; `N` learns whether it could be sent.
    Notification(String, Option<Params<V, M>>, N),
}

/// A completion to resolve, with the value it is resolved with.
#[derive(Debug)]
pub enum Reply<V, C, N, E> {
    /// The outcome of a method call.
    Call(C, Result<V, ErrorKind<V, E>>),
    /// The outcome of sending a notification.
    Notification(N, Result<(), ErrorKind<V, E>>),
}

/// What the transport sink answered when a payload was handed to it.
pub enum StartSend<E> {
    /// The payload was accepted.
    Ready,
    /// The sink is full; it gave the payload back.
    NotReady(String),
    /// The sink failed with this error.
    Failed(E),
}

/// One poll of the transport stream.
pub enum TransportEvent<V, E> {
    /// A payload arrived; it holds the decoded output, or `None` when it was no output.
    Payload(Option<Output<V>>),
    /// The stream has ended.
    Ended,
    /// Nothing arrived yet.
    NotReady,
    /// The stream failed with this error.
    Failed(E),
}

/// One poll of the channel of calls from the client handles.
pub enum CallEvent<V, M, C, N> {
    /// A call arrived.
    Call(ClientCall<V, M, C, N>),
    /// All handles are gone.
    Ended,
    /// Nothing arrived yet.
    NotReady,
}

/// What closing the transport sink answered.
pub enum CloseOutcome {
    /// The sink is closed.
    Closed,
    /// The sink is still closing.
    NotReady,
    /// Closing failed.
    Failed,
}

/// Whether the client has finished.
#[derive(Debug)]
pub enum ShutdownPoll<V, E> {
    /// The client still waits for the transport to close.
    Pending,
    /// The client has finished without error.
    Done,
    /// The client has finished with this error.
    Failed(ErrorKind<V, E>),
}

/// What to do after a call from a handle was processed.
pub struct CallStep<V, C, N, E> {
    /// A completion to resolve now, if any.
    pub reply: Option<Reply<V, C, N, E>>,
    /// The payload to hand to the transport sink, if any, or the error that stops
    /// the handling of messages.
    pub send: Result<Option<String>, ErrorKind<V, E>>,
}

/// What one poll of the transport stream led to, when it did not stop the client.
pub enum RxStep<V, C, E> {
    /// Nothing arrived; the stream is drained for now.
    Idle,
    /// A payload was handled; it settled this call, if any. Poll again.
    Received(Option<(C, Result<V, ErrorKind<V, E>>)>),
}

/// The shape of a serialized JSON value, as far as parameters care about it.
pub enum JsonShape<V, M> {
    /// `null`
    Null,
    /// An array.
    Array(Vec<V>),
    /// An object.
    Object(M),
    /// A number, a string or a boolean.
    Other(V),
}

/// Turns a serialized parameter value into the parameters of a call: `null` means no
/// parameters, arrays and objects are taken as they are, and any other value is one
/// positional parameter.
pub fn params_from_shape<V, M>(shape: JsonShape<V, M>) -> (params: Option<Params<V, M>>)
    ensures
        match shape {
            JsonShape::Null => params is None,
            JsonShape::Array(values) => params matches Some(Params::Array(v)) && v@ == values@,
            JsonShape::Object(map) => params matches Some(Params::Object(m)) && m == map,
            JsonShape::Other(value) => params matches Some(Params::Array(v)) && v@ == seq![value],
        },
{
    match shape {
        JsonShape::Null => None,
        JsonShape::Array(values) => Some(Params::Array(values)),
        JsonShape::Object(map) => Some(Params::Object(map)),
        JsonShape::Other(value) => {
            let mut values = Vec::new();
            values.push(value);
            Some(Params::Array(values))
        },
    }
}

/// The parameters of a call, given the outcome of serializing them to a JSON value: a
/// failed serialization is a `SerializeError`, a value becomes parameters as
/// `params_from_shape` says.
pub fn serialize_parameters<V, M, S, E>(serialized: Result<JsonShape<V, M>, S>) -> (params: Result<Option<Params<V, M>>, ErrorKind<V, E>>)
    ensures
        match serialized {
            Err(_) => params matches Err(ErrorKind::SerializeError),
            Ok(shape) => params is Ok && match shape {
                JsonShape::Null => params->Ok_0 is None,
                JsonShape::Array(values) => params->Ok_0 matches Some(Params::Array(v)) && v@ == values@,
                JsonShape::Object(map) => params->Ok_0 matches Some(Params::Object(m)) && m == map,
                JsonShape::Other(value) => params->Ok_0 matches Some(Params::Array(v)) && v@ == seq![value],
            },
        },
{
    match serialized {
        Err(_) => Err(ErrorKind::SerializeError),
        Ok(shape) => Ok(params_from_shape(shape)),
    }
}

/// The outcome of a call as its handle sees it: when the client dropped the call without
/// answering, the client is shut down.
pub fn received<T, V, E>(reply: Option<Result<T, ErrorKind<V, E>>>) -> (result: Result<T, ErrorKind<V, E>>)
    ensures
        match reply {
            Some(r) => result == r,
            None => result matches Err(ErrorKind::Shutdown),
        },
{
    match reply {
        Some(r) => r,
        None => Err(ErrorKind::Shutdown),
    }
}

/// The typed result of a call: `None` when the result could not be read as the target type.
pub fn deserialized<T, V, E>(typed: Option<T>) -> (result: Result<T, ErrorKind<V, E>>)
    ensures
        match typed {
            Some(t) => result == Ok::<T, ErrorKind<V, E>>(t),
            None => result matches Err(ErrorKind::DeserializeError),
        },
{
    match typed {
        Some(t) => Ok(t),
        None => Err(ErrorKind::DeserializeError),
    }
}

/// How re-serializing the parameters of a call changes them: absent parameters stay
/// absent, an empty parameter list becomes an empty array, arrays and objects stay.
pub open spec fn reserialized<V, M>(before: Option<Params<V, M>>, after: Option<Params<V, M>>) -> bool {
    match before {
        None => after is None,
        Some(Params::Empty) => after matches Some(Params::Array(v)) && v@.len() == 0,
        Some(Params::Array(values)) => after matches Some(Params::Array(v)) && v@ == values@,
        Some(Params::Object(map)) => after matches Some(Params::Object(m)) && m == map,
    }
}

/// Re-serializes the parameters of a call, as serializing them to JSON and reading them
/// back does.
pub fn reserialize_parameters<V, M>(params: Option<Params<V, M>>) -> (result: Option<Params<V, M>>)
    ensures
        reserialized(params, result),
{
    match params {
        None => None,
        Some(Params::Empty) => params_from_shape(JsonShape::Array(Vec::new())),
        Some(Params::Array(values)) => params_from_shape(JsonShape::Array(values)),
        Some(Params::Object(map)) => params_from_shape(JsonShape::Object(map)),
    }
}

/// The value that settles a call for a given output: its result, or its error.
pub open spec fn output_result<V, E>(output: Output<V>) -> Result<V, ErrorKind<V, E>> {
    match output {
        Output::Success(s) => Ok(s.result),
        Output::Failure(f) => Err(ErrorKind::JsonRpcError(f.error)),
    }
}

/// The numeric id that an output answers, if its id is a number.
pub open spec fn output_number<V>(output: Output<V>) -> Option<u64> {
    match output_id(output) {
        IdView::Num(n) => Some(n),
        _ => None,
    }
}

/// Whether an output settles one of the pending calls.
pub open spec fn settles<V, C>(pending: Map<u64, C>, output: Output<V>) -> bool {
    &&& output_version(output) == Some(Version::V2)
    &&& output_number(output) is Some
    &&& pending.contains_key(output_number(output)->0)
}

/// The pending calls after an output was received.
pub open spec fn pending_after<V, C>(pending: Map<u64, C>, output: Output<V>) -> Map<u64, C> {
    if settles(pending, output) {
        pending.remove(output_number(output)->0)
    } else {
        pending
    }
}

/// Whether the client has to stop handling messages: after an error, or once shutting down.
pub open spec fn stops<V, E>(shutting_down: bool, fatal_error: Option<ErrorKind<V, E>>) -> bool {
    fatal_error is Some || shutting_down
}

/// How the result of one round of message handling changes the client: the end of the
/// handles or of the transport stream starts an orderly shutdown, any other error is fatal.
pub open spec fn status_after_messages<V, E>(
    shutting_down: bool,
    fatal_error: Option<ErrorKind<V, E>>,
    result: Result<(), ErrorKind<V, E>>,
) -> (bool, Option<ErrorKind<V, E>>) {
    match result {
        Ok(()) => (shutting_down, fatal_error),
        Err(ErrorKind::Shutdown) => (true, fatal_error),
        Err(e) => (shutting_down, Some(e)),
    }
}

/// How the client finishes, once the transport sink answered the request to close.
pub open spec fn shutdown_poll<V, E>(fatal_error: Option<ErrorKind<V, E>>, close: CloseOutcome) -> ShutdownPoll<V, E> {
    match close {
        CloseOutcome::NotReady => ShutdownPoll::Pending,
        _ => match fatal_error {
            Some(e) => ShutdownPoll::Failed(e),
            None => ShutdownPoll::Done,
        },
    }
}

/// The state of a JSON-RPC 2.0 client: the calls that wait for a response, the payload
/// that the transport could not take yet, and whether the client is winding down.
pub struct Client<V, C, E> {
    id_generator: IdGenerator,
    shutting_down: bool,
    pending_requests: HashMap<u64, C>,
    pending_payload: Option<String>,
    fatal_error: Option<ErrorKind<V, E>>,
}

impl<V, C, E> Client<V, C, E> {
    /// The client is well formed: every pending call has an id that the generator has
    /// already handed out.
    pub closed spec fn wf(self) -> bool {
        &&& self.id_generator@ >= 1
        &&& forall|k: u64| #[trigger] self.pending_requests@.contains_key(k) ==> 1 <= k < self.id_generator@
    }

    /// The calls that wait for a response, by id.
    pub closed spec fn pending(self) -> Map<u64, C> {
        self.pending_requests@
    }

    /// The id that the next call will get.
    pub closed spec fn next_id(self) -> nat {
        self.id_generator@
    }

    /// Whether the client is shutting down in an orderly way.
    pub closed spec fn shutting_down(self) -> bool {
        self.shutting_down
    }

    /// The error that stopped the client, if any.
    pub closed spec fn fatal_error(self) -> Option<ErrorKind<V, E>> {
        self.fatal_error
    }

    /// The payload that the transport sink could not take yet, if any.
    pub closed spec fn pending_payload(self) -> Option<Seq<char>> {
        match self.pending_payload {
            Some(p) => Some(p@),
            None => None,
        }
    }

    /// Whether two states hold the same calls, ids and status, payload aside.
    pub open spec fn same_calls_and_status(self, other: Self) -> bool {
        &&& self.pending() == other.pending()
        &&& self.next_id() == other.next_id()
        &&& self.shutting_down() == other.shutting_down()
        &&& self.fatal_error() == other.fatal_error()
    }

    /// Whether two states agree on everything.
    pub open spec fn same_state(self, other: Self) -> bool {
        &&& self.same_calls_and_status(other)
        &&& self.pending_payload() == other.pending_payload()
    }

    /// A new client: no pending calls, ids start at 1.
    pub fn new() -> (client: Self)
        ensures
            client.pending() == Map::<u64, C>::empty(),
            client.next_id() == 1,
            !client.shutting_down(),
            client.fatal_error() is None,
            client.pending_payload() is None,
            client.wf(),
    {
        Client {
            id_generator: IdGenerator::new(),
            pending_payload: None,
            shutting_down: false,
            fatal_error: None,
            pending_requests: HashMap::new(),
        }
    }

    /// Whether another call can get an id.
    pub fn ids_left(&self) -> (left: bool)
        ensures
            left == (self.next_id() < u64::MAX),
    {
        self.id_generator.has_next()
    }

    /// Whether the client has to stop handling messages and shut down.
    pub fn should_shut_down(&self) -> (stop: bool)
        ensures
            stop == stops(self.shutting_down(), self.fatal_error()),
    {
        self.fatal_error.is_some() || self.shutting_down
    }

    /// Takes the payload that the transport sink could not take before, to try again.
    pub fn take_pending_payload(&mut self) -> (payload: Option<String>)
        requires
            old(self).wf(),
        ensures
            final(self).wf(),
            match payload {
                Some(p) => old(self).pending_payload() == Some(p@),
                None => old(self).pending_payload() is None,
            },
            final(self).pending_payload() is None,
            final(self).same_calls_and_status(*old(self)),
    {
        self.pending_payload.take()
    }

    /// Checks that a payload may be handed to the transport sink: not after a fatal error.
    pub fn send_payload(&self, payload: String) -> (checked: Result<String, ErrorKind<V, E>>)
        ensures
            self.fatal_error() is None ==> checked == Ok::<String, ErrorKind<V, E>>(payload),
            self.fatal_error() is Some ==> checked matches Err(ErrorKind::TransportError(None)),
    {
        if self.fatal_error.is_some() {
            return Err(ErrorKind::TransportError(None));
        }
        Ok(payload)
    }

    /// Takes note of what the transport sink answered to a payload: a payload it gave back
    /// is kept for the next round, a failure is a transport error.
    pub fn on_start_send(&mut self, outcome: StartSend<E>) -> (result: Result<(), ErrorKind<V, E>>)
        requires
            old(self).wf(),
        ensures
            final(self).wf(),
            final(self).same_calls_and_status(*old(self)),
            match outcome {
                StartSend::Ready => result is Ok && final(self).pending_payload() == old(self).pending_payload(),
                StartSend::NotReady(p) => result is Ok && final(self).pending_payload() == Some(p@),
                StartSend::Failed(e) => result == Err::<(), ErrorKind<V, E>>(ErrorKind::TransportError(Some(e)))
                    && final(self).pending_payload() == old(self).pending_payload(),
            },
    {
        match outcome {
            StartSend::Ready => Ok(()),
            StartSend::NotReady(payload) => {
                self.pending_payload = Some(payload);
                Ok(())
            },
            StartSend::Failed(e) => Err(ErrorKind::TransportError(Some(e))),
        }
    }

    /// Settles the pending call that an output answers. An output not marked as
    /// JSON-RPC 2.0 is an error; an output whose id matches no pending call is dropped.
    pub fn handle_response(&mut self, output: Output<V>) -> (result: Result<Option<(C, Result<V, ErrorKind<V, E>>)>, ErrorKind<V, E>>)
        requires
            old(self).wf(),
        ensures
            final(self).wf(),
            final(self).next_id() == old(self).next_id(),
            final(self).shutting_down() == old(self).shutting_down(),
            final(self).fatal_error() == old(self).fatal_error(),
            final(self).pending_payload() == old(self).pending_payload(),
            final(self).pending() == pending_after(old(self).pending(), output),
            output_version(output) != Some(Version::V2) ==> result matches Err(ErrorKind::InvalidVersion),
            output_version(output) == Some(Version::V2) ==> match result {
                Ok(Some((completion, value))) => settles(old(self).pending(), output)
                    && completion == old(self).pending()[output_number(output)->0]
                    && value == output_result::<V, E>(output),
                Ok(None) => !settles(old(self).pending(), output),
                Err(_) => false,
            },
    {
        match output.version() {
            Some(Version::V2) => {},
            None => {
                assert(output_version(output) != Some(Version::V2));
                assert(!settles(self.pending_requests@, output));
                return Err(ErrorKind::InvalidVersion);
            },
        }
        let ghost old_output = output;
        assert(output_version(old_output) == Some(Version::V2));
        let (id, result) = match output {
            Output::Success(s) => (s.id, Ok(s.result)),
            Output::Failure(f) => (f.id, Err(ErrorKind::JsonRpcError(f.error))),
        };
        assert(id@ == output_id(old_output));
        match id {
            Id::Num(n) => {
                assert(output_number(old_output) == Some(n));
                match self.pending_requests.remove(&n) {
                    Some(completion) => Ok(Some((completion, result))),
                    None => Ok(None),
                }
            },
            _ => Ok(None),
        }
    }

    /// Handles one poll of the transport stream. The end of the stream starts the
    /// shutdown; a failure of the stream is a transport error.
    pub fn poll_transport_rx(&mut self, event: TransportEvent<V, E>) -> (result: Result<RxStep<V, C, E>, ErrorKind<V, E>>)
        requires
            old(self).wf(),
        ensures
            final(self).wf(),
            final(self).next_id() == old(self).next_id(),
            final(self).shutting_down() == old(self).shutting_down(),
            final(self).fatal_error() == old(self).fatal_error(),
            final(self).pending_payload() == old(self).pending_payload(),
            match event {
                TransportEvent::Ended => result matches Err(ErrorKind::Shutdown) && final(self).pending() == old(self).pending(),
                TransportEvent::Failed(e) => result matches Err(ErrorKind::TransportError(Some(cause))) && cause == e
                    && final(self).pending() == old(self).pending(),
                TransportEvent::NotReady => result matches Ok(RxStep::Idle) && final(self).pending() == old(self).pending(),
                TransportEvent::Payload(None) => result matches Err(ErrorKind::ResponseError(msg))
                    && msg@ == "Failed to deserialize response"@
                    && final(self).pending() == old(self).pending(),
                TransportEvent::Payload(Some(output)) => final(self).pending() == pending_after(old(self).pending(), output)
                    && (output_version(output) != Some(Version::V2) ==> result matches Err(ErrorKind::InvalidVersion))
                    && (output_version(output) == Some(Version::V2) ==> match result {
                        Ok(RxStep::Received(Some((completion, value)))) => settles(old(self).pending(), output)
                            && completion == old(self).pending()[output_number(output)->0]
                            && value == output_result::<V, E>(output),
                        Ok(RxStep::Received(None)) => !settles(old(self).pending(), output),
                        _ => false,
                    }),
            },
    {
        match event {
            TransportEvent::Payload(decoded) => match self.handle_transport_rx_payload(decoded) {
                Ok(settled) => Ok(RxStep::Received(settled)),
                Err(e) => Err(e),
            },
            TransportEvent::Ended => Err(ErrorKind::Shutdown),
            TransportEvent::NotReady => Ok(RxStep::Idle),
            TransportEvent::Failed(e) => Err(ErrorKind::TransportError(Some(e))),
        }
    }

    /// Whether a call may be taken from the handles now: only when no payload waits for
    /// the transport sink, unless the channel of calls has ended and has to be drained.
    pub fn may_take_calls(&self, call_stream_ended: bool) -> (may: bool)
        ensures
            may == (self.pending_payload() is None || call_stream_ended),
    {
        self.pending_payload.is_none() || call_stream_ended
    }

    /// Registers a call that waits for the response with the given id.
    fn add_new_call(&mut self, id: u64, completion: C)
        requires
            old(self).wf(),
            1 <= id < old(self).next_id(),
        ensures
            final(self).wf(),
            final(self).pending() == old(self).pending().insert(id, completion),
            final(self).next_id() == old(self).next_id(),
            final(self).shutting_down() == old(self).shutting_down(),
            final(self).fatal_error() == old(self).fatal_error(),
            final(self).pending_payload() == old(self).pending_payload(),
    {
        self.pending_requests.insert(id, completion);
    }

    /// Handles one poll of the channel of calls: a call is handed back to be processed,
    /// the end of the channel (all handles gone) starts the shutdown.
    pub fn poll_rpc_requests<M, N>(&self, event: CallEvent<V, M, C, N>) -> (result: Result<Option<ClientCall<V, M, C, N>>, ErrorKind<V, E>>)
        ensures
            match event {
                CallEvent::Call(call) => result == Ok::<Option<ClientCall<V, M, C, N>>, ErrorKind<V, E>>(Some(call)),
                CallEvent::Ended => result matches Err(ErrorKind::Shutdown),
                CallEvent::NotReady => result matches Ok(None),
            },
    {
        match event {
            CallEvent::Call(call) => Ok(Some(call)),
            CallEvent::Ended => Err(ErrorKind::Shutdown),
            CallEvent::NotReady => Ok(None),
        }
    }

    /// Whether the transport sink is to be driven: not after a fatal error.
    pub fn should_poll_transport_tx(&self) -> (poll: bool)
        ensures
            poll == (self.fatal_error() is None),
    {
        self.fatal_error.is_none()
    }

    /// The result of driving the transport sink: its failure is a transport error caused
    /// by the sink's error.
    pub fn poll_transport_tx(&self, driven: Result<(), E>) -> (result: Result<(), ErrorKind<V, E>>)
        ensures
            match driven {
                Ok(()) => result is Ok,
                Err(e) => result matches Err(ErrorKind::TransportError(Some(cause))) && cause == e,
            },
    {
        match driven {
            Ok(()) => Ok(()),
            Err(e) => Err(ErrorKind::TransportError(Some(e))),
        }
    }

    /// Takes note of how one round of message handling ended. Returns whether the client
    /// now has to shut down; otherwise it waits for the next wake-up.
    pub fn on_handle_messages(&mut self, result: Result<(), ErrorKind<V, E>>) -> (shut_down: bool)
        requires
            old(self).wf(),
        ensures
            final(self).wf(),
            (final(self).shutting_down(), final(self).fatal_error())
                == status_after_messages(old(self).shutting_down(), old(self).fatal_error(), result),
            final(self).pending() == old(self).pending(),
            final(self).next_id() == old(self).next_id(),
            final(self).pending_payload() == old(self).pending_payload(),
            shut_down == (result is Err),
    {
        match result {
            Ok(()) => false,
            Err(ErrorKind::Shutdown) => {
                self.shutting_down = true;
                true
            },
            Err(e) => {
                self.fatal_error = Some(e);
                true
            },
        }
    }

    /// Finishes the client once the transport sink answered the request to close: with
    /// the error that stopped it, if any, else without error.
    pub fn finish_shutdown(&mut self, close: CloseOutcome) -> (poll: ShutdownPoll<V, E>)
        requires
            old(self).wf(),
        ensures
            final(self).wf(),
            poll == shutdown_poll(old(self).fatal_error(), close),
            close is NotReady ==> final(self).fatal_error() == old(self).fatal_error(),
            !(close is NotReady) ==> final(self).fatal_error() is None,
            final(self).shutting_down() == old(self).shutting_down(),
            final(self).pending() == old(self).pending(),
            final(self).next_id() == old(self).next_id(),
            final(self).pending_payload() == old(self).pending_payload(),
    {
        match close {
            CloseOutcome::NotReady => ShutdownPoll::Pending,
            _ => match self.fatal_error.take() {
                Some(e) => ShutdownPoll::Failed(e),
                None => ShutdownPoll::Done,
            },
        }
    }

    /// Handles one payload from the transport stream, given as the output it decoded to,
    /// or `None` when it was no valid output.
    pub fn handle_transport_rx_payload(&mut self, decoded: Option<Output<V>>) -> (result: Result<Option<(C, Result<V, ErrorKind<V, E>>)>, ErrorKind<V, E>>)
        requires
            old(self).wf(),
        ensures
            final(self).wf(),
            payload_handled(*old(self), *final(self), decoded, result),
    {
        match decoded {
            None => Err(ErrorKind::ResponseError("Failed to deserialize response")),
            Some(output) => self.handle_response(output),
        }
    }
}

/// How handling a payload, given as the output it decoded to, changes the client and what
/// it returns: a payload that held no output is an error; an output settles the pending
/// call it answers, as `handle_response` says.
pub open spec fn payload_handled<V, C, E>(
    before: Client<V, C, E>,
    after: Client<V, C, E>,
    decoded: Option<Output<V>>,
    result: Result<Option<(C, Result<V, ErrorKind<V, E>>)>, ErrorKind<V, E>>,
) -> bool {
    &&& after.next_id() == before.next_id()
    &&& after.shutting_down() == before.shutting_down()
    &&& after.fatal_error() == before.fatal_error()
    &&& after.pending_payload() == before.pending_payload()
    &&& match decoded {
        None => result matches Err(ErrorKind::ResponseError(msg))
            && msg@ == "Failed to deserialize response"@
            && after.pending() == before.pending(),
        Some(output) => after.pending() == pending_after(before.pending(), output)
            && (output_version(output) != Some(Version::V2) ==> result matches Err(ErrorKind::InvalidVersion))
            && (output_version(output) == Some(Version::V2) ==> match result {
                Ok(Some((completion, value))) => settles(before.pending(), output)
                    && completion == before.pending()[output_number(output)->0]
                    && value == output_result::<V, E>(output),
                Ok(None) => !settles(before.pending(), output),
                Err(_) => false,
            }),
    }
}

/// The output that the text of a payload holds, if any.
pub open spec fn text_output(text: Seq<char>) -> Option<Output<Value>> {
    match decoded_text_output(text) {
        Some(wire) => Some(wire_to_output(wire)),
        None => None,
    }
}

impl<C, E> Client<Value, C, E> {
    /// Processes a call from a handle. A method call gets the next id, is serialized to
    /// JSON text and waits for its response; a notification is serialized and its sender
    /// learns at once that it went out. When a call cannot be serialized, its sender
    /// learns that instead and nothing is sent.
    pub fn handle_rpc_request<N>(
        &mut self,
        call: ClientCall<Value, serde_json::Map<String, Value>, C, N>,
    ) -> (step: CallStep<Value, C, N, E>)
        requires
            old(self).wf(),
            old(self).next_id() < u64::MAX,
        ensures
            final(self).wf(),
            final(self).shutting_down() == old(self).shutting_down(),
            final(self).fatal_error() == old(self).fatal_error(),
            final(self).pending_payload() == old(self).pending_payload(),
            match call {
                ClientCall::RpcCall(method, params, completion) => {
                    &&& final(self).next_id() == old(self).next_id() + 1
                    &&& !old(self).pending().contains_key(old(self).next_id() as u64)
                    &&& exists|request: MethodCall<JsonParams>, encoded: Option<String>|
                        #![trigger encodes(encoded, encoded_method_call(request))]
                        {
                            &&& request.jsonrpc == Some(Version::V2)
                            &&& request.method == method
                            &&& request.id@ == IdView::Num(old(self).next_id() as u64)
                            &&& reserialized(params, request.params)
                            &&& encodes(encoded, encoded_method_call(request))
                            &&& match encoded {
                                Some(text) => {
                                    &&& final(self).pending() == old(self).pending().insert(old(self).next_id() as u64, completion)
                                    &&& step.reply is None
                                    &&& old(self).fatal_error() is None ==> step.send == Ok::<Option<String>, ErrorKind<Value, E>>(Some(text))
                                    &&& old(self).fatal_error() is Some ==> step.send matches Err(ErrorKind::TransportError(None))
                                },
                                None => {
                                    &&& final(self).pending() == old(self).pending()
                                    &&& step.reply matches Some(Reply::Call(c, Err(ErrorKind::SerializeError))) && c == completion
                                    &&& step.send == Ok::<Option<String>, ErrorKind<Value, E>>(None)
                                },
                            }
                        }
                },
                ClientCall::Notification(method, params, notify) => {
                    &&& final(self).next_id() == old(self).next_id()
                    &&& final(self).pending() == old(self).pending()
                    &&& exists|notification: Notification<JsonParams>, encoded: Option<String>|
                        #![trigger encodes(encoded, encoded_notification(notification))]
                        {
                            &&& notification.jsonrpc == Some(Version::V2)
                            &&& notification.method == method
                            &&& reserialized(params, notification.params)
                            &&& encodes(encoded, encoded_notification(notification))
                            &&& match encoded {
                                Some(text) => {
                                    &&& step.reply matches Some(Reply::Notification(n, Ok(()))) && n == notify
                                    &&& old(self).fatal_error() is None ==> step.send == Ok::<Option<String>, ErrorKind<Value, E>>(Some(text))
                                    &&& old(self).fatal_error() is Some ==> step.send matches Err(ErrorKind::TransportError(None))
                                },
                                None => {
                                    &&& step.reply matches Some(Reply::Notification(n, Err(ErrorKind::SerializeError))) && n == notify
                                    &&& step.send == Ok::<Option<String>, ErrorKind<Value, E>>(None)
                                },
                            }
                        }
                },
            },
    {
        match call {
            ClientCall::RpcCall(method, params, completion) => {
                let id = self.id_generator.next_int();
                let request = MethodCall {
                    jsonrpc: Some(Version::V2),
                    method,
                    params: reserialize_parameters(params),
                    id: Id::Num(id),
                };
                let encoded = encode_method_call(&request);
                match encoded {
                    Some(payload) => {
                        self.add_new_call(id, completion);
                        let send = match self.send_payload(payload) {
                            Ok(p) => Ok(Some(p)),
                            Err(e) => Err(e),
                        };
                        CallStep { reply: None, send }
                    },
                    None => CallStep {
                        reply: Some(Reply::Call(completion, Err(ErrorKind::SerializeError))),
                        send: Ok(None),
                    },
                }
            },
            ClientCall::Notification(method, params, notify) => {
                let notification = Notification {
                    jsonrpc: Some(Version::V2),
                    method,
                    params: reserialize_parameters(params),
                };
                let encoded = encode_notification(&notification);
                match encoded {
                    Some(payload) => {
                        let send = match self.send_payload(payload) {
                            Ok(p) => Ok(Some(p)),
                            Err(e) => Err(e),
                        };
                        CallStep { reply: Some(Reply::Notification(notify, Ok(()))), send }
                    },
                    None => CallStep {
                        reply: Some(Reply::Notification(notify, Err(ErrorKind::SerializeError))),
                        send: Ok(None),
                    },
                }
            },
        }
    }

    /// Handles one payload from the transport stream, as the text that arrived: it is read
    /// as a JSON-RPC 2.0 output and settles the pending call it answers.
    pub fn handle_transport_rx_text(&mut self, payload: &str) -> (result: Result<Option<(C, Result<Value, ErrorKind<Value, E>>)>, ErrorKind<Value, E>>)
        requires
            old(self).wf(),
        ensures
            final(self).wf(),
            payload_handled(*old(self), *final(self), text_output(payload@), result),
    {
        let decoded = decode_text(payload);
        self.handle_transport_rx_payload(decoded)
    }
}

/// Every call that waits for a response has an id that was handed out before, and no id
/// above 0 that is still to come is taken: a new call never replaces a pending one.
pub proof fn law_pending_ids_were_issued<V, C, E>(client: Client<V, C, E>)
    requires
        client.wf(),
    ensures
        forall|k: u64| #[trigger] client.pending().contains_key(k) ==> 1 <= k < client.next_id(),
{
    reveal(Client::wf);
}

/// A response settles a pending call at most once: after an output settled the call with
/// its id, any later output with the same id settles nothing.
pub proof fn law_output_settles_at_most_once<V, C>(pending: Map<u64, C>, first: Output<V>, second: Output<V>)
    requires
        output_number(first) == output_number(second),
        settles(pending, first),
    ensures
        !settles(pending_after(pending, first), second),
{
}

/// A call that went out under id `n` is settled by a JSON-RPC 2.0 output that carries
/// the id `n`: the output hands back the call's completion, and the call is no longer
/// pending afterwards.
pub proof fn law_sent_call_is_settled_by_its_response<V, C>(pending: Map<u64, C>, n: u64, completion: C, output: Output<V>)
    requires
        !pending.contains_key(n),
        output_version(output) == Some(Version::V2),
        output_number(output) == Some(n),
    ensures
        settles(pending.insert(n, completion), output),
        pending.insert(n, completion)[output_number(output)->0] == completion,
        pending_after(pending.insert(n, completion), output) == pending,
{
    assert(pending.insert(n, completion).remove(n) =~= pending);
}

/// An output that is not marked as JSON-RPC 2.0, or whose id matches no pending call,
/// leaves the pending calls as they were.
pub proof fn law_unmatched_output_changes_nothing<V, C>(pending: Map<u64, C>, output: Output<V>)
    requires
        !settles(pending, output),
    ensures
        pending_after(pending, output) == pending,
{
}

/// When the transport stream ends, the client winds down and, once the sink is closed
/// (or failed to close), finishes without an error.
pub proof fn law_stream_end_finishes_cleanly<V, E>(shutting_down: bool, close: CloseOutcome)
    requires
        !(close is NotReady),
    ensures
        status_after_messages::<V, E>(shutting_down, None, Err(ErrorKind::Shutdown)) == (true, None::<ErrorKind<V, E>>),
        shutdown_poll::<V, E>(None, close) is Done,
{
}

/// When the transport fails with an error, the client finishes with a transport error
/// whose cause is that error.
pub proof fn law_transport_failure_fails_client<V, E>(shutting_down: bool, cause: E, close: CloseOutcome)
    requires
        !(close is NotReady),
    ensures
        ({
            let (_, fatal) = status_after_messages::<V, E>(shutting_down, None, Err(ErrorKind::TransportError(Some(cause))));
            shutdown_poll::<V, E>(fatal, close) == ShutdownPoll::<V, E>::Failed(ErrorKind::TransportError(Some(cause)))
        }),
{
}

/// A payload's text is handled as the output it decodes to, a failure as much as a
/// success, and as no output where it decodes to none.
pub proof fn law_text_is_handled_as_its_output(text: Seq<char>)
    ensures
        decoded_text_output(text) matches Some(w) ==> text_output(text) == Some(wire_to_output(w)),
        decoded_text_output(text) is None ==> text_output(text) is None,
{
}

/// Re-serializing parameters keeps them: every positional parameter stays, in order,
/// whatever the number of them; named parameters stay; absent parameters stay absent; and
/// an empty parameter list is sent as an empty array.
pub proof fn law_reserializing_keeps_parameters<V, M>(params: Option<Params<V, M>>, after: Option<Params<V, M>>)
    requires
        reserialized(params, after),
    ensures
        params matches Some(Params::Array(values)) ==> (after matches Some(Params::Array(v)) && v@ == values@),
        params matches Some(Params::Object(map)) ==> (after matches Some(Params::Object(m)) && m == map),
        params is None ==> after is None,
        params matches Some(Params::Empty) ==> (after matches Some(Params::Array(v)) && v@.len() == 0),
{
}

/// A JSON-RPC 2.0 failure that answers a pending call settles that call with the server's
/// error, and the call is no longer pending; a JSON-RPC 2.0 success settles it with the
/// result.
pub proof fn law_answer_settles_with_its_result_or_error<V, C, E>(
    before: Client<V, C, E>,
    after: Client<V, C, E>,
    output: Output<V>,
    result: Result<Option<(C, Result<V, ErrorKind<V, E>>)>, ErrorKind<V, E>>,
    n: u64,
)
    requires
        payload_handled(before, after, Some(output), result),
        output_version(output) == Some(Version::V2),
        output_id(output) == IdView::Num(n),
        before.pending().contains_key(n),
    ensures
        after.pending() == before.pending().remove(n),
        output matches Output::Failure(f) ==> result == Ok::<Option<(C, Result<V, ErrorKind<V, E>>)>, ErrorKind<V, E>>(
            Some((before.pending()[n], Err(ErrorKind::JsonRpcError(f.error))))),
        output matches Output::Success(s) ==> result == Ok::<Option<(C, Result<V, ErrorKind<V, E>>)>, ErrorKind<V, E>>(
            Some((before.pending()[n], Ok(s.result)))),
{
}

} // verus!
