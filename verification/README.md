# soulsystem

The decision-making core of the SoulSystem coding harness, written in Verus
and proved against its contracts.

## Layout

- `src/json.rs` — `JsonValue`, an executable JSON tree, and `Json`, its
  mathematical model; member lookup, copying and object builders.
- `src/mcp.rs` — the MCP JSON-RPC dispatcher: protocol negotiation, the
  initialization handshake, the request table (`mcp_step` is its model),
  tool-call routing and every response it sends, with the protocol laws.
- `src/schemas.rs` — the tool catalogue answered to `tools/list`.
- `src/session.rs` — acceptance checks, session identities and the plan for
  opening a task.
- `src/provider.rs` — provider host roots and URL normalization, with its
  laws.
- `src/spawn.rs` — `POST /api/mesh/spawn`: domain validation, port choice,
  the brain's argv, the answers, and the health check of a new brain.
- `src/buffers.rs` — fixed-capacity trace and log-probability buffers.
- `src/text.rs` — character-level helpers (white space, line ends, decimal
  text).
- `tests/` — the tests, run against the compiled library.
- `app/` — the unverified edges: the stdio loop and the session host over
  the Git/sandbox harness, the axum route and its background health check,
  the serde and clap copies of library types, and the floating-point
  objective of the self-improvement loop.
