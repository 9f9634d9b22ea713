# a_trade

Deterministic, fail-closed authority logic for a multi-agent auction-market trading system,
written in Verus. Every decision that can move a setup toward an order is a verified function
with an exact contract: missing, stale, conflicting or UNKNOWN state fails closed, new entries are
limited to the 09:30–11:00 ET window, and only the execution gate can promote a proposal.

## Layout

- `src/` — the verified library.
  - `truth`, `text`: tri-state conditions and their conjunction; blank-text checks.
  - `session`, `market`, `setup_state`, `rejection`: the entry window, direction permission, the
    setup lifecycle (no skips, terminal states are final) and the fixed rejection codes.
  - `data`, `environment`, `news`, `authorization`, `advisory`: data readiness, environment
    classification, premarket freezing, the news blackout gate, the authority chain and the
    advisory boundary.
  - `location`, `orderflow`, `footprint`: structure identity and invalidation, the order-flow
    step discipline, participation, delta-median and volume-share rules on integer footprint data.
  - `strategy_validator`: the pre-risk validation decision and its sealed proof.
  - `order_risk`, `position_management`: trigger expiry, correlation-cluster conflicts and
    reference-level directives.
  - `setup_registry`, `execution_core`, `broker_execution`: the setup registry (records only move
    forward) and the execution core, which decides every step of the live execution path from
    the broker's answers and latches the engine unsafe on any broker failure.
  - `safety`, `audit`, `validation`, `promotion`: operational kill switches, the append-only audit
    journal, replay validation and the strategy-change promotion sequence.
  - `gex_engine`, `gex_strategy`, `gex_features`: the GEX vocabulary, snapshot timing and the
    hard-veto layer.
- `tests/` — executable tests of the library.
- `app/` — ordinary Rust around the library: the floating-point price, risk and analytics
  computations and the broker-facing coordinator, which hand plain values to the verified
  decisions.
