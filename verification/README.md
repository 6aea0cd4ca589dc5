# kyoto

A key-value server whose requests are HTTP POSTs carrying a JSON command
(`GET`, `SET`, `INFO`, `REPL_JOIN`, `REPL_PING`). The library is verified
with Verus; the server binary around it is ordinary Rust.

- `src/protocol`: commands and responses; reading a command from a request
  buffer (`decode`), writing HTTP responses and forwarding requests (`encode`).
- `src/data`: the store (`db`), command identifiers (`uid`), the connected
  peers by role (`client`), and the settings (`server_config`,
  `replication_config`, `params`, `server`).
- `src/machine`: executing commands and turning responses into replies, for
  client connections and for the connection to a primary.
- `src/outside.rs`: the contracts taken on trust from `bytes`, `httparse` and
  `serde_json`.
- `src/properties.rs`: properties that relate several operations.
- `app/main.rs`: command-line settings, the tokio listener and the
  per-connection loops.
