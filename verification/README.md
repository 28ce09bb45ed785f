# jsonrpc_client

A JSON-RPC 2.0 client library whose protocol logic is verified with Verus.

- `src/` is the verified library: the JSON-RPC 2.0 data model (`types`), request ids
  (`id_generator`), the client state machine (`client`), the reading of single responses
  (`response`), the merge of a strong and a weak stream (`select_weak`), handlers and
  dispatch of incoming calls (`server`), HTTP header lists kept in Hyper's header map
  (`headers`), the reading of outputs from JSON payloads with serde_json and jsonrpc-core
  (`wire`), and the rules of the two HTTP transports (`http`, `newhttp`).
- `app/` drives that logic with futures: the client and server futures, the merged
  stream, the encoding of calls through `serde_json` and `jsonrpc_core`, and the two HTTP
  transports on Hyper and Tokio.
- `tests/` exercises the library on concrete values.
