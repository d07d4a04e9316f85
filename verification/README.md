# manticore_sentinel

A Linux operator console for live host telemetry, capability-gated process
actions and an append-only, signed audit trail, written in Verus: the
console's rules are executable Rust with `requires`/`ensures` contracts
that the verifier proves.

## Layout

- `src/` — the verified library. Each module states what its functions
  compute over mathematical models (`Seq`, `Map`, `int`, views of the
  library's types) and proves it:
  - `command`, `help`, `shell`, `workbench`, `palette` — the allowlisted
    command palette: parsing, completion, history, help pages, and the
    step-by-step decisions from a typed line to an audited refusal or a
    helper request (authentication, policy, typed confirmation).
  - `auth`, `lockout`, `session`, `policy`, `actions`, `helper` — roles and
    modes, token checks and lockout, the execution policy, and what the
    privileged helper may do.
  - `audit`, `signing`, `digest`, `identity`, `feed` — audit events, their
    canonical payload and Ed25519 signature, the Merkle root and its
    anchoring, EVRUS identities, and the audit feed's filter, pages and
    analytics.
  - `collectors`, `console`, `processes`, `reports`, `telemetry`, `alerts` —
    counter bookkeeping for the `/proc` collectors, byte formatting, the
    process table, the text of the read-only commands, alert streaks.
  - `config`, `connectors`, `observability`, `stream`, `history`, `store`,
    `search`, `paths`, `text` — settings, connector status and reports,
    HTTP routing and authorization, the event stream, retention plans,
    the store's batching, search queries, paths and text helpers.
- `tests/` — tests run against the compiled library with the real outside
  crates linked.
- `app/` — the program around the library: reading `/proc`, files, SQLite,
  sockets and HTTP, floating-point rates and scores, and a terminal
  command console in place of the desktop dashboard.

Calls into outside crates (`sha2`, `base64`, `ed25519-dalek`, `serde_json`)
and a few std functions (time, paths) stand behind small trusted wrappers
whose contracts say what the library relies on.
