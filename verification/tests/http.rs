use jsonrpc_client::http::{
    check_status, core_result, creator_result, handle_for, http_transport, https_transport, request_timeout, send_error, ErrorKind, HttpTransportBuilder,
    SendFailure, TimerPoll, DefaultClient,
};
use std::io;
use std::time::Duration;

type Kind = ErrorKind<String, String, String>;

#[test]
fn creator_failure_is_a_client_creator_error() {
    let created: Result<(), io::Error> = Err(io::Error::new(io::ErrorKind::Other, "Dummy error"));
    match creator_result::<(), String, String, io::Error>(created) {
        Err(ErrorKind::ClientCreatorError(cause)) => assert_eq!(cause.to_string(), "Dummy error"),
        Err(kind) => panic!("invalid error kind response: {:?}", kind),
        Ok(()) => panic!("the creator failed"),
    }
}

#[test]
fn builder_sets_the_timeout() {
    let (_, timeout) = http_transport().into_parts();
    assert_eq!(timeout, None);
    let (_, timeout) = https_transport().timeout(Duration::from_millis(50)).into_parts();
    assert_eq!(timeout, Some(Duration::from_millis(50)));
    let (creator, timeout) = HttpTransportBuilder::new(7u8).timeout(Duration::from_secs(1)).timeout(Duration::from_secs(2)).into_parts();
    assert_eq!(creator, 7);
    assert_eq!(timeout, Some(Duration::from_secs(2)));
    let _: HttpTransportBuilder<DefaultClient> = http_transport();
}

#[test]
fn only_ok_status_is_an_answer() {
    assert!(check_status::<String, String, String>(200).is_ok());
    assert!(matches!(check_status::<String, String, String>(404), Err(ErrorKind::HttpError(404))));
    assert!(matches!(check_status::<String, String, String>(500), Err(ErrorKind::HttpError(500))));
}

#[test]
fn timeout_outcomes() {
    assert!(request_timeout::<String, String, String>(TimerPoll::NotReady).is_none());
    assert!(matches!(request_timeout::<String, String, String>(TimerPoll::Fired), Some(ErrorKind::RequestTimeout)));
    match request_timeout::<String, String, String>(TimerPoll::Failed("no timer".to_string())) {
        Some(ErrorKind::TimeoutError(cause)) => assert_eq!(cause, "no timer"),
        other => panic!("unexpected: {:?}", other),
    }
}

#[test]
fn event_loop_errors() {
    let failed: Result<u8, String> = Err("no core".to_string());
    match core_result::<u8, String, String, String>(failed) {
        Err(ErrorKind::TokioCoreError(msg, cause)) => {
            assert_eq!(msg, "Unable to create");
            assert_eq!(cause, "no core");
        },
        other => panic!("unexpected: {:?}", other),
    }
    assert_eq!(core_result::<u8, String, String, String>(Ok(3)).unwrap(), 3);
    let e: Kind = send_error(SendFailure::NotListening("closed".to_string()));
    assert!(matches!(e, ErrorKind::TokioCoreError("Not listening for requests", ref c) if c == "closed"));
    let e: Kind = send_error(SendFailure::NoResponse("canceled".to_string()));
    assert!(matches!(e, ErrorKind::TokioCoreError("Died without returning response", ref c) if c == "canceled"));
}

#[test]
fn handles_read_their_destination() {
    let handle = handle_for::<u8, String, String>(5, "http://localhost:8080/rpc", Some(Duration::from_secs(2))).unwrap();
    assert_eq!(handle.transport().0, 5);
    assert_eq!(handle.transport().1, "http://localhost:8080/rpc".parse::<hyper::Uri>().unwrap());
    assert_eq!(handle.transport().1.path(), "/rpc");
    assert_eq!(handle.timeout(), Some(Duration::from_secs(2)));
    assert!(matches!(handle_for::<u8, String, String>(5, "http://", None), Err(ErrorKind::Uri(_))));
}

#[test]
fn handles_have_their_own_time_limit() {
    let mut first = handle_for::<u8, String, String>(1, "http://localhost/", Some(Duration::from_secs(2))).unwrap();
    let mut second = handle_for::<u8, String, String>(2, "http://localhost/", Some(Duration::from_secs(2))).unwrap();
    second.set_timeout(Some(Duration::from_millis(500)));
    assert_eq!(first.timeout(), Some(Duration::from_secs(2)));
    assert_eq!(second.timeout(), Some(Duration::from_millis(500)));
    first.set_timeout(None);
    assert_eq!(first.timeout(), None);
}
