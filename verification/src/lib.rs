//! A transport agnostic JSON-RPC 2.0 client library with verified protocol logic.
//!
//! The library holds the decisions of a JSON-RPC 2.0 client and of the server that runs
//! beside it: request id allocation, the bookkeeping of pending calls and the routing of
//! responses to them, the orderly shutdown of the client, the dispatch of incoming calls
//! to registered handlers and the shape of their responses, and the rules of the HTTP
//! transports (headers, status codes, time limits). The event loops that move bytes over
//! sockets drive these decisions from the outside.

pub mod types;
pub mod wire;
pub mod text;
pub mod id_generator;
pub mod client;
pub mod response;
pub mod select_weak;
pub mod server;
pub mod headers;
pub mod http;
pub mod newhttp;
