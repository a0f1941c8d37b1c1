# os_transport

A verified library for the OpenSearch node-to-node transport protocol, written in
Verus. Every executable function in `src/` carries a contract that states, over
byte sequences and mathematical views, what it writes, what it reads back and when
it refuses; Verus proves each body against its contract.

## What it covers

- Framing: the TCP header, the variable header, request and response status
  bits, deflate-compressed bodies, ping frames, and the decoding of a byte buffer
  into whole frames (`tcp_header`, `variable_header`, `status`, `compression`,
  `message`, `frame`).
- The stream format: variable-length integers, strings, optional values, arrays
  and string maps, as an output that only grows and an input that only advances
  (`codec`, `stream`, `stream_maps`, `smap`, `text`).
- Versions and the handshake (`version`, `handshake`, `node_roles`).
- Transport actions: the table of action names and how each one is served
  (`action_names`, `dispatch`), and the request and response codecs of the
  cluster, index, task and document actions (`admin_requests`, `request_codecs`,
  `task_requests`, `pending_tasks`, `cluster_state`, `document_requests`,
  `document_codecs`, `get_response`, `multi_get_response`, `bulk_response`),
  with round-trip laws that read back what was written.
- Framed action messages: a request is read only from a request frame that names
  its action (`action_frames`, `admin_messages`, `document_messages`,
  `json_messages`, `steelsearch`).
- The mapping between wire requests and the storage engine's requests and
  answers, with the shapes the engine does not serve refused in a stated order
  (`engine_requests`, `engine_responses`).
- Remote exceptions: the table of exception classes and the reading and writing
  of serialised exceptions, with the exact error a reader reports on bytes that
  do not hold one (`error`, `error_format`, `error_failures`, `error_laws`).
- JSON sections are checked with `serde_json` and carried as the bytes received
  (`json_section`); deflate goes through `flate2` (`compression`).

## Layout

- `src/`: the library; `lib.rs` lists the modules.
- `tests/`: tests on concrete values, run against the compiled library.
- `app/`: the unverified shell: `serde` types for the JSON-bodied internal
  messages, the `tokio` TCP client and server of the internal actions, and the
  cluster health response, whose shard percentage is a float.

## Checking

The library is checked with Verus; the tests are ordinary Rust tests.
