# aura

The core of Aura Assistant, a desktop companion that relays chats between an
iPhone or Apple Watch and any OpenAI-compatible chat API. The logic is written
in Verus and proved against its contracts.

Layout:

- `src/` — the verified library
  - `text.rs` — string helpers (trimming, prefixes, character counts)
  - `table.rs` — a string-keyed table with a map view
  - `protocol.rs` — the WebSocket message types
  - `config.rs` — the configuration, its stored rows, and the load/save round trip
  - `ai.rs` — chat request/response values, the watch reply (its candidate
    text and how a decoded reply shapes the response), and the
    server-sent-event decoder
  - `session.rs` — per-session chat histories
  - `connections.rs` — connected clients, heartbeats and timeout sweeps
  - `network.rs` — transport handles and statuses
  - `router.rs` — the router's turn protocol as a state machine
  - `pairing.rs` — the pairing URL and its QR code
  - `commands.rs` — the decisions behind the front-end commands and the tray menu
- `tests/` — tests of the library on concrete values
- `app/` — the Tauri application around the library: I/O, the async runtime,
  the HTTP client, the database, the window system, and the JSON forms of the
  library's values (serde derives)
