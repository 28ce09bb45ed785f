[package]
name = "jsonrpc_client"
version = "0.1.0"
edition = "2021"
publish = false

[dependencies]
serde = "1"
serde_json = "1"
jsonrpc-core = "8"
futures = "0.1"
hyper = "0.11"
tokio-core = "0.1"
log = "0.4"
