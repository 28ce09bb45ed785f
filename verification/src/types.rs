//! The JSON-RPC 2.0 data model: ids, versions, error objects, calls and outputs.
//!
//! JSON values themselves are opaque to the protocol logic and appear here as type
//! parameters: `V` for a JSON value, `P` for the parameters of a call.
use vstd::prelude::*;

verus! {

/// A request id: the client picks it, the server echoes it in the response.
#[derive(Debug)]
pub enum Id {
    /// No id.
    Null,
    /// A string id.
    Str(String),
    /// A numeric id.
    Num(u64),
}

/// The mathematical value of an [`Id`].
pub enum IdView {
    Null,
    Str(Seq<char>),
    Num(u64),
}

impl View for Id {
    type V = IdView;

    open spec fn view(&self) -> IdView {
        match self {
            Id::Null => IdView::Null,
            Id::Str(s) => IdView::Str(s@),
            Id::Num(n) => IdView::Num(*n),
        }
    }
}

impl Id {
    /// Compares two ids by value.
    pub fn same_as(&self, other: &Id) -> (same: bool)
        ensures
            same == (self@ == other@),
    {
        match self {
            Id::Null => match other {
                Id::Null => true,
                _ => false,
            },
            Id::Num(a) => match other {
                Id::Num(b) => *a == *b,
                _ => false,
            },
            Id::Str(a) => match other {
                Id::Str(b) => a.eq(b),
                _ => false,
            },
        }
    }

    /// Returns a copy of the id with the same value.
    pub fn duplicate(&self) -> (copy: Id)
        ensures
            copy@ == self@,
    {
        match self {
            Id::Null => Id::Null,
            Id::Str(s) => Id::Str(s.clone()),
            Id::Num(n) => Id::Num(*n),
        }
    }
}

/// The protocol version. JSON-RPC 2.0 is the only one this library speaks.
#[derive(Debug, Clone, Copy, PartialEq, Eq, Structural)]
pub enum Version {
    /// JSON-RPC 2.0
    V2,
}

/// The error codes that the JSON-RPC 2.0 specification defines.
#[derive(Debug, Clone, Copy, PartialEq, Eq, Structural)]
pub enum ErrorCode {
    /// Invalid JSON was received by the server.
    ParseError,
    /// The JSON sent is not a valid request object.
    InvalidRequest,
    /// The method does not exist or is not available.
    MethodNotFound,
    /// Invalid method parameters.
    InvalidParams,
    /// Internal JSON-RPC error.
    InternalError,
    /// Reserved for implementation defined server errors.
    ServerError(i64),
}

/// The integer that stands for an error code on the wire.
pub open spec fn code_number(code: ErrorCode) -> int {
    match code {
        ErrorCode::ParseError => -32700,
        ErrorCode::InvalidRequest => -32600,
        ErrorCode::MethodNotFound => -32601,
        ErrorCode::InvalidParams => -32602,
        ErrorCode::InternalError => -32603,
        ErrorCode::ServerError(n) => n as int,
    }
}

/// The human readable description of an error code.
pub open spec fn code_description(code: ErrorCode) -> Seq<char> {
    match code {
        ErrorCode::ParseError => "Parse error"@,
        ErrorCode::InvalidRequest => "Invalid request"@,
        ErrorCode::MethodNotFound => "Method not found"@,
        ErrorCode::InvalidParams => "Invalid params"@,
        ErrorCode::InternalError => "Internal error"@,
        ErrorCode::ServerError(_) => "Server error"@,
    }
}

/// The error code that stands for an integer on the wire: one of the codes that the
/// specification defines, or a server error with that number.
pub open spec fn error_code_for(n: int) -> ErrorCode {
    if n == -32700 {
        ErrorCode::ParseError
    } else if n == -32600 {
        ErrorCode::InvalidRequest
    } else if n == -32601 {
        ErrorCode::MethodNotFound
    } else if n == -32602 {
        ErrorCode::InvalidParams
    } else if n == -32603 {
        ErrorCode::InternalError
    } else {
        ErrorCode::ServerError(n as i64)
    }
}

impl ErrorCode {
    /// The error code for an integer on the wire.
    pub fn from_number(n: i64) -> (code: ErrorCode)
        ensures
            code == error_code_for(n as int),
            code_number(code) == n,
    {
        if n == -32700 {
            ErrorCode::ParseError
        } else if n == -32600 {
            ErrorCode::InvalidRequest
        } else if n == -32601 {
            ErrorCode::MethodNotFound
        } else if n == -32602 {
            ErrorCode::InvalidParams
        } else if n == -32603 {
            ErrorCode::InternalError
        } else {
            ErrorCode::ServerError(n)
        }
    }

    /// Returns the integer code value.
    pub fn code(&self) -> (n: i64)
        ensures
            n == code_number(*self),
    {
        match self {
            ErrorCode::ParseError => -32700,
            ErrorCode::InvalidRequest => -32600,
            ErrorCode::MethodNotFound => -32601,
            ErrorCode::InvalidParams => -32602,
            ErrorCode::InternalError => -32603,
            ErrorCode::ServerError(n) => *n,
        }
    }

    /// Returns the human readable description.
    pub fn description(&self) -> (text: String)
        ensures
            text@ == code_description(*self),
    {
        match self {
            ErrorCode::ParseError => "Parse error".to_owned(),
            ErrorCode::InvalidRequest => "Invalid request".to_owned(),
            ErrorCode::MethodNotFound => "Method not found".to_owned(),
            ErrorCode::InvalidParams => "Invalid params".to_owned(),
            ErrorCode::InternalError => "Internal error".to_owned(),
            ErrorCode::ServerError(_) => "Server error".to_owned(),
        }
    }
}

/// An error object as the JSON-RPC 2.0 specification defines it.
#[derive(Debug)]
pub struct RpcError<V> {
    /// The error code.
    pub code: ErrorCode,
    /// A short description of the error.
    pub message: String,
    /// Additional information about the error.
    pub data: Option<V>,
}

impl<V> RpcError<V> {
    /// Wraps an error code, with its description as message and no data.
    pub fn new(code: ErrorCode) -> (error: RpcError<V>)
        ensures
            error.code == code,
            error.message@ == code_description(code),
            error.data is None,
    {
        RpcError { message: code.description(), code, data: None }
    }

    /// The error for a call that is not a valid request object.
    pub fn invalid_request() -> (error: RpcError<V>)
        ensures
            error.code == ErrorCode::InvalidRequest,
            error.message@ == code_description(ErrorCode::InvalidRequest),
            error.data is None,
    {
        Self::new(ErrorCode::InvalidRequest)
    }

    /// The error for a call of a method that has no handler.
    pub fn method_not_found() -> (error: RpcError<V>)
        ensures
            error.code == ErrorCode::MethodNotFound,
            error.message@ == code_description(ErrorCode::MethodNotFound),
            error.data is None,
    {
        Self::new(ErrorCode::MethodNotFound)
    }
}

/// The parameters of a call.
#[derive(Debug)]
pub enum Params<V, M> {
    /// Positional parameters.
    Array(Vec<V>),
    /// Named parameters, a JSON object.
    Object(M),
    /// No parameters.
    Empty,
}

/// A successful response.
#[derive(Debug)]
pub struct Success<V> {
    /// Protocol version.
    pub jsonrpc: Option<Version>,
    /// The result of the call.
    pub result: V,
    /// The id of the call that this answers.
    pub id: Id,
}

/// An unsuccessful response.
#[derive(Debug)]
pub struct Failure<V> {
    /// Protocol version.
    pub jsonrpc: Option<Version>,
    /// The error.
    pub error: RpcError<V>,
    /// The id of the call that this answers.
    pub id: Id,
}

/// A response to a single call.
#[derive(Debug)]
pub enum Output<V> {
    /// Success.
    Success(Success<V>),
    /// Failure.
    Failure(Failure<V>),
}

/// The version field of an output.
pub open spec fn output_version<V>(output: Output<V>) -> Option<Version> {
    match output {
        Output::Success(s) => s.jsonrpc,
        Output::Failure(f) => f.jsonrpc,
    }
}

/// The id of an output.
pub open spec fn output_id<V>(output: Output<V>) -> IdView {
    match output {
        Output::Success(s) => s.id@,
        Output::Failure(f) => f.id@,
    }
}

impl<V> Output<V> {
    /// The protocol version that the output carries.
    pub fn version(&self) -> (version: Option<Version>)
        ensures
            version == output_version(*self),
    {
        match self {
            Output::Success(s) => s.jsonrpc,
            Output::Failure(f) => f.jsonrpc,
        }
    }

    /// The id of the call that the output answers.
    pub fn id(&self) -> (id: &Id)
        ensures
            id@ == output_id(*self),
    {
        match self {
            Output::Success(s) => &s.id,
            Output::Failure(f) => &f.id,
        }
    }
}

/// A call of a method, which expects a response.
#[derive(Debug)]
pub struct MethodCall<P> {
    /// Protocol version.
    pub jsonrpc: Option<Version>,
    /// The name of the method.
    pub method: String,
    /// The parameters.
    pub params: Option<P>,
    /// The id that the response must carry.
    pub id: Id,
}

/// A notification, which expects no response.
#[derive(Debug)]
pub struct Notification<P> {
    /// Protocol version.
    pub jsonrpc: Option<Version>,
    /// The name of the method.
    pub method: String,
    /// The parameters.
    pub params: Option<P>,
}

/// A single incoming call.
#[derive(Debug)]
pub enum Call<P> {
    /// A method call.
    MethodCall(MethodCall<P>),
    /// A notification.
    Notification(Notification<P>),
    /// Something that is not a valid call, with the id it carried, if any.
    Invalid(Id),
}

/// An incoming request: one call or a batch of them.
#[derive(Debug)]
pub enum Request<P> {
    /// A single call.
    Single(Call<P>),
    /// A batch of calls.
    Batch(Vec<Call<P>>),
}

/// An outgoing response: one output or a batch of them.
#[derive(Debug)]
pub enum Response<V> {
    /// The response to a single call.
    Single(Output<V>),
    /// The responses to a batch of calls.
    Batch(Vec<Output<V>>),
}

} // verus!
