# fleet_cns_v3

CNS v3, the fleet's inter-agent communication bus: typed channels and priorities,
typed payloads, a per-channel publish/subscribe bus, SQLite persistence, SSE
streaming, and USCP/JSONL spooling for Hermes.

The logic is a Verus library, verified against its contracts; the program around it
(HTTP server, SQLite, file system, command line) is ordinary Rust.

## Layout

- `src/` — the verified library.
  - `types.rs` — channels, priorities, payloads, messages; USCP packets written and
    read, with the round-trip law.
  - `json.rs` — the JSON model the library reads and writes (numbers kept as text).
  - `time.rs`, `ids.rs` — instants and UUIDs, with chrono and uuid behind small
    trusted wrappers.
  - `bus.rs` — the bus: one tokio broadcast channel per bus channel and its counters,
    held in dashmap maps keyed by channel position; each message goes out through
    its own channel's sender, and a subscription hands waiting messages out
    highest priority first.
  - `api.rs` — requests read into messages, the store → inbox → publish steps of
    `POST /publish` and `POST /relay` as a state machine, replies and SSE events.
  - `store.rs` — the stored row of a message and what it reads back as, replay order,
    statistics.
  - `compat.rs` — Hermes inbox file names and text, outbox file selection, and what an
    outbox file's text imports as.
- `app/` — the executable: clap CLI, axum handlers, rusqlite store, notify watcher,
  and the serde forms of the library's types.
- `tests/` — tests of the library on concrete values.
