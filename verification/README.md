# opencode_sdk

Client library for the OpenCode HTTP API with SSE streaming.

- `src/` is the verified library (Verus): client and runtime builders,
  durations, typed decoding of streamed events, session routing of events,
  SSE stream counters and the per-frame decisions of the streaming loops,
  the text collection that waits for an idle session, the readiness check
  of a started server, and the question types and request paths.
- `app/` holds the asynchronous I/O around it: HTTP requests with `reqwest`,
  the SSE tasks (`reqwest-eventsource`, `backon`, `tokio`) and the
  high-level `Client`.
- `tests/` exercises the library on concrete values.
