use jsonrpc_client::client::{
    deserialized, params_from_shape, received, reserialize_parameters, serialize_parameters, CallEvent, Client, ClientCall, CloseOutcome, ErrorKind,
    JsonShape, Reply, RxStep, ShutdownPoll, StartSend, TransportEvent,
};
use jsonrpc_client::types::{Failure, Id, Output, Params, RpcError, Success, Version};
use serde_json::Value;

type JsonObject = serde_json::Map<String, Value>;

type JsonMap = Vec<(String, String)>;

fn success(id: u64, result: &str) -> Output<Value> {
    Output::Success(Success { jsonrpc: Some(Version::V2), result: Value::String(result.to_string()), id: Id::Num(id) })
}

fn rpc_call(method: &str, tag: u32) -> ClientCall<Value, JsonObject, u32, u32> {
    ClientCall::RpcCall(method.to_string(), None, tag)
}

fn sent(text: Option<String>) -> Value {
    serde_json::from_str(&text.expect("a payload")).expect("JSON")
}

type TestClient = Client<Value, u32, String>;

#[test]
fn calls_get_consecutive_ids_and_are_sent() {
    let mut client: TestClient = Client::new();
    let step = client.handle_rpc_request(rpc_call("first", 10));
    assert!(step.reply.is_none());
    let first = sent(step.send.unwrap());
    assert_eq!(first["jsonrpc"], "2.0");
    assert_eq!(first["method"], "first");
    assert_eq!(first["id"], 1);
    let step = client.handle_rpc_request(rpc_call("second", 20));
    let second = sent(step.send.unwrap());
    assert_eq!(second["method"], "second");
    assert_eq!(second["id"], 2);
}

#[test]
fn response_settles_its_call_once() {
    let mut client: TestClient = Client::new();
    client.handle_rpc_request(rpc_call("a", 10));
    client.handle_rpc_request(rpc_call("b", 20));
    match client.handle_response(success(2, "for b")) {
        Ok(Some((tag, Ok(value)))) => {
            assert_eq!(tag, 20);
            assert_eq!(value, "for b");
        },
        other => panic!("unexpected: {:?}", other),
    }
    assert!(matches!(client.handle_response(success(2, "again")), Ok(None)));
    match client.handle_response(success(1, "for a")) {
        Ok(Some((tag, Ok(value)))) => {
            assert_eq!(tag, 10);
            assert_eq!(value, "for a");
        },
        other => panic!("unexpected: {:?}", other),
    }
}

#[test]
fn failure_settles_with_the_server_error() {
    let mut client: TestClient = Client::new();
    client.handle_rpc_request(rpc_call("a", 10));
    let failure = Output::Failure(Failure { jsonrpc: Some(Version::V2), error: RpcError::method_not_found(), id: Id::Num(1) });
    match client.handle_response(failure) {
        Ok(Some((10, Err(ErrorKind::JsonRpcError(error))))) => assert_eq!(error.message, "Method not found"),
        other => panic!("unexpected: {:?}", other),
    }
}

#[test]
fn response_with_unknown_id_is_dropped() {
    let mut client: TestClient = Client::new();
    client.handle_rpc_request(rpc_call("a", 10));
    assert!(matches!(client.handle_response(success(5, "x")), Ok(None)));
    let by_name: Output<Value> = Output::Success(Success { jsonrpc: Some(Version::V2), result: Value::from("x"), id: Id::Str("1".to_string()) });
    assert!(matches!(client.handle_response(by_name), Ok(None)));
    assert!(matches!(client.handle_response(success(1, "a")), Ok(Some((10, Ok(_))))));
}

#[test]
fn response_without_version_is_rejected() {
    let mut client: TestClient = Client::new();
    client.handle_rpc_request(rpc_call("a", 10));
    let old: Output<Value> = Output::Success(Success { jsonrpc: None, result: Value::from("x"), id: Id::Num(1) });
    assert!(matches!(client.handle_response(old), Err(ErrorKind::InvalidVersion)));
    assert!(matches!(client.handle_response(success(1, "a")), Ok(Some((10, Ok(_))))));
}

#[test]
fn undecodable_payload_is_a_response_error() {
    let mut client: TestClient = Client::new();
    match client.handle_transport_rx_payload(None) {
        Err(ErrorKind::ResponseError(msg)) => assert_eq!(msg, "Failed to deserialize response"),
        other => panic!("unexpected: {:?}", other),
    }
}

#[test]
fn transport_events_map_to_steps() {
    let mut client: TestClient = Client::new();
    client.handle_rpc_request(rpc_call("a", 10));
    assert!(matches!(client.poll_transport_rx(TransportEvent::NotReady), Ok(RxStep::Idle)));
    assert!(matches!(client.poll_transport_rx(TransportEvent::Ended), Err(ErrorKind::Shutdown)));
    match client.poll_transport_rx(TransportEvent::Failed("reset".to_string())) {
        Err(ErrorKind::TransportError(Some(cause))) => assert_eq!(cause, "reset"),
        other => panic!("unexpected: {:?}", other.err()),
    }
    assert!(matches!(client.poll_transport_rx(TransportEvent::Payload(Some(success(1, "a")))), Ok(RxStep::Received(Some((10, Ok(_)))))));
}

#[test]
fn notification_is_confirmed_and_sent() {
    let mut client: TestClient = Client::new();
    let mut params = JsonObject::new();
    params.insert("level".to_string(), Value::from(3));
    let step = client.handle_rpc_request(ClientCall::Notification("ping".to_string(), Some(Params::Object(params)), 7));
    assert!(matches!(step.reply, Some(Reply::Notification(7, Ok(())))));
    let note = sent(step.send.unwrap());
    assert_eq!(note["method"], "ping");
    assert_eq!(note["params"]["level"], 3);
    assert!(note.get("id").is_none());
    // Notifications take no id.
    let step = client.handle_rpc_request(rpc_call("a", 10));
    assert_eq!(sent(step.send.unwrap())["id"], 1);
}

#[test]
fn pending_payload_holds_back_new_calls() {
    let mut client: TestClient = Client::new();
    assert!(client.may_take_calls(false));
    assert!(client.on_start_send(StartSend::NotReady("payload".to_string())).is_ok());
    assert!(!client.may_take_calls(false));
    assert!(client.may_take_calls(true));
    assert_eq!(client.take_pending_payload(), Some("payload".to_string()));
    assert!(client.may_take_calls(false));
    assert_eq!(client.take_pending_payload(), None);
    assert!(client.on_start_send(StartSend::Ready).is_ok());
    match client.on_start_send(StartSend::Failed("sink closed".to_string())) {
        Err(ErrorKind::TransportError(Some(cause))) => assert_eq!(cause, "sink closed"),
        other => panic!("unexpected: {:?}", other),
    }
}

#[test]
fn end_of_handles_shuts_down_cleanly() {
    let mut client: TestClient = Client::new();
    let polled = client.poll_rpc_requests::<JsonMap, u32>(CallEvent::Ended);
    let error = polled.err().unwrap();
    assert!(matches!(error, ErrorKind::Shutdown));
    assert!(!client.should_shut_down());
    assert!(client.on_handle_messages(Err(error)));
    assert!(client.should_shut_down());
    assert!(matches!(client.finish_shutdown(CloseOutcome::NotReady), ShutdownPoll::Pending));
    assert!(matches!(client.finish_shutdown(CloseOutcome::Closed), ShutdownPoll::Done));
}

#[test]
fn transport_failure_fails_the_client() {
    let mut client: TestClient = Client::new();
    assert!(client.should_poll_transport_tx());
    assert!(client.on_handle_messages(Err(ErrorKind::TransportError(Some("timed out".to_string())))));
    assert!(client.should_shut_down());
    assert!(!client.should_poll_transport_tx());
    assert!(matches!(client.send_payload("late".to_string()), Err(ErrorKind::TransportError(None))));
    match client.finish_shutdown(CloseOutcome::Failed) {
        ShutdownPoll::Failed(ErrorKind::TransportError(Some(cause))) => assert_eq!(cause, "timed out"),
        other => panic!("unexpected: {:?}", other),
    }
}

#[test]
fn successful_round_keeps_running() {
    let mut client: TestClient = Client::new();
    assert!(!client.on_handle_messages(Ok(())));
    assert!(!client.should_shut_down());
    assert_eq!(client.send_payload("x".to_string()).unwrap(), "x");
    assert!(client.poll_transport_tx(Ok(())).is_ok());
    match client.poll_transport_tx(Err("broken pipe".to_string())) {
        Err(ErrorKind::TransportError(Some(cause))) => assert_eq!(cause, "broken pipe"),
        other => panic!("unexpected: {:?}", other),
    }
    assert!(matches!(client.poll_rpc_requests::<JsonMap, u32>(CallEvent::NotReady), Ok(None)));
    assert!(matches!(client.poll_rpc_requests(CallEvent::Call(rpc_call("a", 1))), Ok(Some(ClientCall::RpcCall(_, _, 1)))));
}

#[test]
fn parameters_follow_their_serialized_shape() {
    assert!(params_from_shape::<String, JsonMap>(JsonShape::Null).is_none());
    match params_from_shape::<String, JsonMap>(JsonShape::Other("5".to_string())) {
        Some(Params::Array(values)) => assert_eq!(values, vec!["5".to_string()]),
        _ => panic!("a single value is one positional parameter"),
    }
    match params_from_shape::<String, JsonMap>(JsonShape::Array(vec!["a".to_string(), "b".to_string()])) {
        Some(Params::Array(values)) => assert_eq!(values.len(), 2),
        _ => panic!("an array is kept"),
    }
    match params_from_shape::<String, JsonMap>(JsonShape::Object(vec![("k".to_string(), "v".to_string())])) {
        Some(Params::Object(map)) => assert_eq!(map.len(), 1),
        _ => panic!("an object is kept"),
    }
    match reserialize_parameters::<String, JsonMap>(Some(Params::Empty)) {
        Some(Params::Array(values)) => assert!(values.is_empty()),
        _ => panic!("no parameters become an empty array"),
    }
    assert!(reserialize_parameters::<String, JsonMap>(None).is_none());
}

#[test]
fn failed_serialization_is_a_serialize_error() {
    let failed: Result<JsonShape<String, JsonMap>, &str> = Err("not serializable");
    assert!(matches!(serialize_parameters::<String, JsonMap, &str, String>(failed), Err(ErrorKind::SerializeError)));
    let null: Result<JsonShape<String, JsonMap>, &str> = Ok(JsonShape::Null);
    assert!(matches!(serialize_parameters::<String, JsonMap, &str, String>(null), Ok(None)));
    let one: Result<JsonShape<String, JsonMap>, &str> = Ok(JsonShape::Other("5".to_string()));
    match serialize_parameters::<String, JsonMap, &str, String>(one) {
        Ok(Some(Params::Array(values))) => assert_eq!(values, vec!["5".to_string()]),
        _ => panic!("a single value is one positional parameter"),
    }
}

#[test]
fn handle_side_outcomes() {
    assert!(matches!(received::<u32, String, String>(None), Err(ErrorKind::Shutdown)));
    assert_eq!(received::<u32, String, String>(Some(Ok(4))).unwrap(), 4);
    assert!(matches!(deserialized::<u32, String, String>(None), Err(ErrorKind::DeserializeError)));
    assert_eq!(deserialized::<u32, String, String>(Some(9)).unwrap(), 9);
}

#[test]
fn payload_text_settles_its_call() {
    let mut client: TestClient = Client::new();
    let step = client.handle_rpc_request(rpc_call("a", 10));
    assert!(step.send.is_ok());
    assert!(matches!(client.handle_transport_rx_text(r#"{"jsonrpc":"2.0","result":5,"id":7}"#), Ok(None)));
    match client.handle_transport_rx_text(r#"{"jsonrpc":"2.0","result":"done","id":1}"#) {
        Ok(Some((10, Ok(value)))) => assert_eq!(value, Value::String("done".to_string())),
        other => panic!("unexpected: {:?}", other.is_ok()),
    }
}

#[test]
fn payload_text_that_is_no_output_is_a_response_error() {
    let mut client: TestClient = Client::new();
    match client.handle_transport_rx_text("not json") {
        Err(ErrorKind::ResponseError(msg)) => assert_eq!(msg, "Failed to deserialize response"),
        other => panic!("unexpected: {:?}", other.is_ok()),
    }
    match client.handle_transport_rx_text(r#"{"result":1,"id":1}"#) {
        Err(ErrorKind::InvalidVersion) => (),
        other => panic!("unexpected: {:?}", other.is_ok()),
    }
}

#[test]
fn method_call_payload_is_the_json_rpc_request() {
    let mut client: TestClient = Client::new();
    let call = ClientCall::RpcCall("sum".to_string(), Some(Params::Array(vec![Value::from(1), Value::from(2)])), 4);
    let step = client.handle_rpc_request::<u32>(call);
    assert_eq!(step.send.unwrap().unwrap(), r#"{"jsonrpc":"2.0","method":"sum","params":[1,2],"id":1}"#);
}
