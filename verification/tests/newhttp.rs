use jsonrpc_client::newhttp::{check_status, read_body, timeout_error, Error, OptionalTimeout, TimeoutFailure};
use std::time::Duration;

#[test]
fn optional_timeout_limits_only_with_a_duration() {
    assert!(matches!(OptionalTimeout::new("f", None), OptionalTimeout::Unlimited("f")));
    match OptionalTimeout::new("f", Some(Duration::from_millis(50))) {
        OptionalTimeout::Limited("f", d) => assert_eq!(d, Duration::from_millis(50)),
        _ => panic!("expected a limit"),
    }
}

#[test]
fn timeout_failures_map_to_errors() {
    assert!(matches!(timeout_error::<&str, &str>(TimeoutFailure::Inner("h")), Error::HyperError("h")));
    assert!(matches!(timeout_error::<&str, &str>(TimeoutFailure::Timer("t")), Error::TimerError("t")));
    assert!(matches!(timeout_error::<&str, &str>(TimeoutFailure::Elapsed), Error::TimeoutError));
}

#[test]
fn status_must_be_ok() {
    assert!(check_status::<(), ()>(200).is_ok());
    assert!(matches!(check_status::<(), ()>(503), Err(Error::HttpResponseError(503))));
}

#[test]
fn body_must_be_utf8() {
    assert_eq!(read_body::<(), ()>("FOOBAR".as_bytes().to_vec()).unwrap(), "FOOBAR");
    assert_eq!(read_body::<(), ()>("grüße".as_bytes().to_vec()).unwrap(), "grüße");
    match read_body::<(), ()>(vec![0x66, 0xff, 0x6f]) {
        Err(Error::ParseBodyError(bytes)) => assert_eq!(bytes, vec![0x66, 0xff, 0x6f]),
        _ => panic!("invalid UTF-8 must be refused"),
    }
}
