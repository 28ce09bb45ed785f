use jsonrpc_client::types::{ErrorCode, Id, Output, RpcError, Success, Failure, Version};

#[test]
fn error_codes_have_their_numbers() {
    assert_eq!(ErrorCode::ParseError.code(), -32700);
    assert_eq!(ErrorCode::InvalidRequest.code(), -32600);
    assert_eq!(ErrorCode::MethodNotFound.code(), -32601);
    assert_eq!(ErrorCode::InvalidParams.code(), -32602);
    assert_eq!(ErrorCode::InternalError.code(), -32603);
    assert_eq!(ErrorCode::ServerError(-32000).code(), -32000);
}

#[test]
fn error_codes_have_their_descriptions() {
    assert_eq!(ErrorCode::ParseError.description(), "Parse error");
    assert_eq!(ErrorCode::MethodNotFound.description(), "Method not found");
    assert_eq!(ErrorCode::ServerError(7).description(), "Server error");
    let error: RpcError<String> = RpcError::method_not_found();
    assert_eq!(error.code, ErrorCode::MethodNotFound);
    assert_eq!(error.message, "Method not found");
    assert!(error.data.is_none());
    let error: RpcError<String> = RpcError::invalid_request();
    assert_eq!(error.code, ErrorCode::InvalidRequest);
    assert_eq!(error.message, "Invalid request");
}

#[test]
fn ids_compare_by_value() {
    assert!(Id::Num(4).same_as(&Id::Num(4)));
    assert!(!Id::Num(4).same_as(&Id::Num(5)));
    assert!(Id::Str("a".to_string()).same_as(&Id::Str("a".to_string())));
    assert!(!Id::Str("a".to_string()).same_as(&Id::Str("b".to_string())));
    assert!(Id::Null.same_as(&Id::Null));
    assert!(!Id::Null.same_as(&Id::Num(0)));
    assert!(Id::Str("x".to_string()).duplicate().same_as(&Id::Str("x".to_string())));
}

#[test]
fn outputs_expose_version_and_id() {
    let success: Output<String> = Output::Success(Success { jsonrpc: Some(Version::V2), result: "r".to_string(), id: Id::Num(3) });
    assert_eq!(success.version(), Some(Version::V2));
    assert!(success.id().same_as(&Id::Num(3)));
    let failure: Output<String> = Output::Failure(Failure { jsonrpc: None, error: RpcError::invalid_request(), id: Id::Null });
    assert_eq!(failure.version(), None);
    assert!(failure.id().same_as(&Id::Null));
}

#[test]
fn numbers_on_the_wire_give_their_error_codes() {
    assert_eq!(ErrorCode::from_number(-32700), ErrorCode::ParseError);
    assert_eq!(ErrorCode::from_number(-32600), ErrorCode::InvalidRequest);
    assert_eq!(ErrorCode::from_number(-32601), ErrorCode::MethodNotFound);
    assert_eq!(ErrorCode::from_number(-32602), ErrorCode::InvalidParams);
    assert_eq!(ErrorCode::from_number(-32603), ErrorCode::InternalError);
    assert_eq!(ErrorCode::from_number(-32000), ErrorCode::ServerError(-32000));
    assert_eq!(ErrorCode::from_number(7).code(), 7);
}
