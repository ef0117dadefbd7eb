# openclaw-aibank

Supervised agentic trading: agents borrow from a treasury under credit lines
that a human approves, every trade is screened by a six-check Guardian before
it reaches OKX, x402 payments are classified by risk, and a portfolio poller
force-recalls lines that reach their maximum loss.

## Layout

- `src/` — the verified library (Verus). Amounts are micro-dollars, rates
  basis points, times milliseconds since the epoch, ids the 128-bit value of
  a UUID.
  - `banker.rs` — scoring, the human approval queue, credit lines,
    reputation, the queue of held x402 payments.
  - `guardian.rs` — the six ordered checks and per-agent activity.
  - `execution/x402.rs` — x402 risk classification.
  - `execution/treasury.rs` — AgentTreasury call data.
  - `execution/okx_rest.rs`, `execution/okx_cex.rs` — signed OKX requests and
    order replies, the Agent Trade Kit request line.
  - `poller.rs` — the force-recall rule.
  - `mcp/skill.rs` — the MCP manifest, routing and tool decisions.
  - `dashboard.rs` — human approvals and wallet-signature registration.
  - `monitor.rs`, `types.rs`, `text.rs` — records, domain types, rendering.
  - `bridge.rs` — the calls into uuid, chrono, serde_json, hmac/sha2, base64,
    hex and alloy, each with the contract the crate's source shows.
- `tests/` — tests run against the compiled library.
- `app/` — the binary: stdio JSON-RPC loop, axum dashboard, OKX HTTP,
  subprocess executors, on-chain sending and the poller loop.
