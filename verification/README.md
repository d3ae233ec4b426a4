# remote-exec-broker, verified core

The broker of remote-exec: it serves MCP tools that run commands, move files
and forward ports on remote targets, each served by a daemon. This crate holds
the broker's rules and bookkeeping, written in Verus and proved against their
contracts.

Layout of `src/`:

- `config.rs` — the broker configuration and the checks it must pass.
- `port_forward/` — forward entries and their store, stream ids, limits, the
  TCP and UDP forwarding state, tunnel error handling and queue budget, the
  tunnel's heartbeat and reader, the forwarding loops' decisions for each
  frame and after each tunnel operation, and the reconnect policy.
- `daemon_client/` — daemon errors and their wire codes, timeout recovery and
  request retries.
- `reverse.rs` — the lane pool of reverse-mode targets and lane registration.
- `session_store.rs` — exec sessions by public id.
- `cli.rs`, `admin.rs` — the command lines of `remote-exec` and
  `remote-exec-admin certs`.
- `client.rs`, `tool_output.rs` — a tool's answer as the client reads it and
  as the broker sends it.
- `broker_tls/` — the broker with and without TLS support.
- `request_log.rs`, `local.rs`, `text.rs`, `assoc.rs` — small helpers.

`app/` reads a configuration file and checks it as the broker does at start.
