use jsonrpc_client::server::{answer_of, batch_response, single_response, Dispatch, FuturePoll, Handler, HandlerError, HandlerSettingError, Handlers, Ran, RequestDispatch, Server};
use jsonrpc_client::types::{Call, ErrorCode, Failure, Id, MethodCall, Notification, Output, Request, Response, RpcError, Success, Version};

type H = Handler<&'static str, &'static str>;

fn method_call(method: &str, id: u64) -> Call<()> {
    Call::MethodCall(MethodCall { jsonrpc: Some(Version::V2), method: method.to_string(), params: None, id: Id::Num(id) })
}

fn notification(method: &str) -> Call<()> {
    Call::Notification(Notification { jsonrpc: Some(Version::V2), method: method.to_string(), params: None })
}

fn output(id: u64) -> Output<String> {
    Output::Success(Success { jsonrpc: Some(Version::V2), result: "ok".to_string(), id: Id::Num(id) })
}

#[test]
fn handler_descriptions() {
    let method: H = Handler::Method("m");
    let notification: H = Handler::Notification("n");
    assert_eq!(method.description(), "method");
    assert_eq!(notification.description(), "notification");
}

#[test]
fn handler_error_messages() {
    assert_eq!(HandlerError::AlreadyExists.message(), "HandlerError - Handler for the given method name is already set");
    assert_eq!(HandlerError::NoHandler.message(), "HandlerError - Handler for the given method name does not exist");
    assert_eq!(HandlerError::Shutdown.message(), "HandlerError - RPC client already shut down");
    let error: HandlerSettingError<&str, &str> = HandlerSettingError::already_exists(Handler::Method("m"));
    assert_eq!(error.message(), "Failure to set new method - HandlerError - Handler for the given method name is already set");
    let error: HandlerSettingError<&str, &str> = HandlerSettingError::shutdown(Handler::Notification("n"));
    assert_eq!(error.kind, HandlerError::Shutdown);
    assert_eq!(error.message(), "Failure to set new notification - HandlerError - RPC client already shut down");
}

#[test]
fn adding_twice_gives_the_handler_back() {
    let mut handlers: Handlers<&str, &str> = Handlers::new();
    assert!(handlers.add("echo".to_string(), Handler::Method("first")).is_ok());
    match handlers.add("echo".to_string(), Handler::Method("second")) {
        Err(HandlerSettingError { handler: Handler::Method("second"), kind: HandlerError::AlreadyExists }) => (),
        other => panic!("unexpected: {:?}", other),
    }
    match handlers.remove("echo") {
        Ok(Handler::Method("first")) => (),
        other => panic!("unexpected: {:?}", other),
    }
}

#[test]
fn removing_a_missing_handler_fails() {
    let mut handlers: Handlers<&str, &str> = Handlers::new();
    assert!(matches!(handlers.remove("nothing"), Err(HandlerError::NoHandler)));
    handlers.add("a".to_string(), Handler::Notification("n")).unwrap();
    assert!(handlers.remove("a").is_ok());
    assert!(matches!(handlers.remove("a"), Err(HandlerError::NoHandler)));
}

#[test]
fn calls_go_to_their_handlers() {
    let mut handlers: Handlers<&str, &str> = Handlers::new();
    handlers.add("sum".to_string(), Handler::Method("summer")).unwrap();
    handlers.add("tick".to_string(), Handler::Notification("ticker")).unwrap();
    match handlers.handle_single_call::<(), String>(method_call("sum", 1)) {
        Dispatch::Method(h, call) => {
            assert_eq!(*h, "summer");
            assert_eq!(call.method, "sum");
        },
        _ => panic!("method call should reach its handler"),
    }
    match handlers.handle_single_call::<(), String>(notification("tick")) {
        Dispatch::Notification(h, n) => {
            assert_eq!(*h, "ticker");
            assert_eq!(n.method, "tick");
        },
        _ => panic!("notification should reach its handler"),
    }
}

#[test]
fn unknown_method_is_answered_with_method_not_found() {
    let mut handlers: Handlers<&str, &str> = Handlers::new();
    handlers.add("tick".to_string(), Handler::Notification("ticker")).unwrap();
    for name in ["missing", "tick"] {
        match handlers.handle_single_call::<(), String>(method_call(name, 9)) {
            Dispatch::Answer(Output::Failure(f)) => {
                assert_eq!(f.error.code, ErrorCode::MethodNotFound);
                assert_eq!(f.error.message, "Method not found");
                assert_eq!(f.jsonrpc, Some(Version::V2));
                assert!(f.id.same_as(&Id::Num(9)));
            },
            _ => panic!("expected a failure answer"),
        }
    }
}

#[test]
fn unknown_notification_is_ignored() {
    let mut handlers: Handlers<&str, &str> = Handlers::new();
    handlers.add("sum".to_string(), Handler::Method("summer")).unwrap();
    assert!(matches!(handlers.handle_single_call::<(), String>(notification("sum")), Dispatch::Nothing));
    assert!(matches!(handlers.handle_single_call::<(), String>(notification("other")), Dispatch::Nothing));
}

#[test]
fn invalid_call_is_answered_with_invalid_request() {
    let handlers: Handlers<&str, &str> = Handlers::new();
    match handlers.handle_single_call::<(), String>(Call::Invalid(Id::Str("x".to_string()))) {
        Dispatch::Answer(Output::Failure(f)) => {
            assert_eq!(f.error.code, ErrorCode::InvalidRequest);
            assert!(f.id.same_as(&Id::Str("x".to_string())));
        },
        _ => panic!("expected a failure answer"),
    }
}

#[test]
fn batch_requests_dispatch_each_call_in_order() {
    let mut handlers: Handlers<&str, &str> = Handlers::new();
    handlers.add("sum".to_string(), Handler::Method("summer")).unwrap();
    let request = Request::Batch(vec![method_call("sum", 1), notification("none"), method_call("nope", 2)]);
    match handlers.handle_request::<(), String>(request) {
        RequestDispatch::Batch(ds) => {
            assert_eq!(ds.len(), 3);
            assert!(matches!(ds[0], Dispatch::Method(_, _)));
            assert!(matches!(ds[1], Dispatch::Nothing));
            assert!(matches!(ds[2], Dispatch::Answer(_)));
        },
        _ => panic!("expected a batch"),
    }
    assert!(matches!(handlers.handle_request::<(), String>(Request::Single(method_call("sum", 3))), RequestDispatch::Single(Dispatch::Method(_, _))));
}

#[test]
fn batch_response_holds_only_answers() {
    match batch_response(vec![Some(output(1)), None, Some(output(3))]) {
        Some(Response::Batch(outputs)) => {
            assert_eq!(outputs.len(), 2);
            assert!(outputs[0].id().same_as(&Id::Num(1)));
            assert!(outputs[1].id().same_as(&Id::Num(3)));
        },
        _ => panic!("expected a batch response"),
    }
    assert!(batch_response::<String>(vec![None, None]).is_none());
    assert!(batch_response::<String>(vec![]).is_none());
    assert!(matches!(single_response(Some(output(1))), Some(Response::Single(_))));
    assert!(single_response::<String>(None).is_none());
}

#[test]
fn server_keeps_unfinished_futures_and_drops_finished_ones() {
    let mut server: Server<&str, &str, &str> = Server::new();
    assert!(server.keys_left());
    assert_eq!(server.push_future("a"), 1);
    server.keep_polled_future(FuturePoll::NotReady("b"));
    server.keep_polled_future(FuturePoll::Ready);
    server.keep_polled_future(FuturePoll::Failed("c"));
    assert_eq!(server.push_future("d"), 4);
    let taken = server.take_futures();
    assert_eq!(taken, vec![(1, "a"), (2, "b"), (3, "c"), (4, "d")]);
    assert!(server.take_futures().is_empty());
    let polled: Vec<(u64, &str, bool)> = taken.into_iter().map(|(k, f)| (k, f, k % 2 == 1)).collect();
    assert!(server.return_futures::<String>(polled.clone(), Some("failed".to_string())).is_err());
    assert_eq!(server.take_futures(), vec![(1, "a"), (2, "b"), (3, "c"), (4, "d")]);
    assert!(server.return_futures::<String>(polled, None).is_ok());
    assert_eq!(server.take_futures(), vec![(2, "b"), (4, "d")]);
    assert_eq!(server.push_future("e"), 5);
}

#[test]
fn server_handlers_are_dropped_on_shutdown() {
    let mut server: Server<&str, &str, ()> = Server::new();
    server.add_handler("a".to_string(), Handler::Method("m")).unwrap();
    assert!(server.add_handler("a".to_string(), Handler::Method("x")).is_err());
    server.shutdown();
    assert!(matches!(server.remove_handler("a"), Err(HandlerError::NoHandler)));
    server.add_handler("a".to_string(), Handler::Method("m")).unwrap();
    assert!(matches!(server.handler_map().handle_single_call::<(), String>(method_call("a", 1)), Dispatch::Method(_, _)));
}

#[test]
fn handlers_describe_themselves() {
    let mut handlers: Handlers<&str, &str> = Handlers::new();
    assert_eq!(handlers.describe(), "Handlers{\n}");
    handlers.add("sum".to_string(), Handler::Method("m")).unwrap();
    handlers.add("tick".to_string(), Handler::Notification("n")).unwrap();
    assert_eq!(handlers.describe(), "Handlers{\n\tsum - method\n\ttick - notification\n}");
    handlers.add("echo".to_string(), Handler::Method("e")).unwrap();
    assert!(handlers.remove("sum").is_ok());
    assert_eq!(handlers.describe(), "Handlers{\n\ttick - notification\n\techo - method\n}");
}

#[test]
fn only_methods_and_answers_are_answered() {
    let output: Output<u8> = Output::Failure(Failure { jsonrpc: Some(Version::V2), error: RpcError::method_not_found(), id: Id::Num(1) });
    assert!(matches!(answer_of(Ran::Answer(output)), Some(Output::Failure(_))));
    let output: Output<u8> = Output::Success(Success { jsonrpc: Some(Version::V2), result: 4, id: Id::Num(2) });
    assert!(matches!(answer_of(Ran::Method(output)), Some(Output::Success(ref s)) if s.result == 4));
    assert!(answer_of::<u8>(Ran::Notification).is_none());
    assert!(answer_of::<u8>(Ran::Nothing).is_none());
}
