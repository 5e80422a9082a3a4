# mcp_identity

Policy-enforced identity control plane for agents: look up users, read their
groups, MFA state and entitlements, validate an identity, submit access-change
requests, revoke access in an emergency, and create lifecycle tasks. Every
agent-facing call is recorded in an audit trail together with its actor
context.

Layout:

- `src/` — the library, verified with Verus.
  - `types.rs`: the records (users, MFA status, groups, entitlements,
    requests, tasks, actor context) and their views.
  - `store.rs`: `IdentityStore`, its mathematical view, and every operation
    with its contract.
  - `laws.rs`: properties across operations (read after write, what a
    revocation leaves, approval-gated requests, append-only audit trail,
    lookup semantics).
  - `text.rs`: case mapping and substring search; `sources.rs`: the clock and
    fresh record identifiers; `demo.rs`: the demonstration directory;
    `inputs.rs`: tool arguments.
- `app/` — the MCP server over stdio (rmcp), JSON rendering and serde copies
  of the library types.
- `tests/` — scenarios and concrete checks of the laws.

Run with demo data: `SEED_DATA=1 mcp-identity`.
