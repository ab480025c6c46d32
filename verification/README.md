# opencore_jsonrpc_rust

The core of a line-delimited JSON-RPC server, verified with Verus.

- `src/json.rs`: `serde_json::Value` as an opaque value, and the calls into
  `serde_json` that render strings and values as JSON text.
- `src/protocol.rs`: requests, responses, events, and their JSON objects.
- `src/lines.rs`: which part of an input line is a request, and how output
  lines are framed.
- `src/server.rs`: the handler table, request dispatch, the answer line for
  each request line, and event lines.
- `app/`: the stdin/stdout server, with the serde forms of the messages.
