# api_gateway

The GridTokenX API gateway: rate limiting, health reporting, request
validation and the decisions of the HTTP handlers, as a library verified with
Verus, with a small server around it.

## Layout

- `src/` — the verified library. Each handler's decisions are functions from
  what storage, the chain or the request gave to the answer or the next step;
  the longer procedures (reading submission, its on-chain settlement) are state
  machines that tell the handler which lookup or call to make next.
  - `rate_limiter.rs` — per-endpoint limits, the counter decision, the per-IP
    sliding window and the laws it keeps (admission, refusal, retry time, at
    most `max_requests` per window, clients independent of each other).
  - `submission.rs`, `meter.rs` — meter reading submission, reports, minting.
  - `auth.rs`, `registration.rs` — accounts, passwords, wallet sessions, and
    registration with a wallet as a state machine.
  - `health.rs`, `status.rs` — health, readiness and status reports.
  - `websocket.rs` — messages, the connection registry and notifications;
    the contracts say which message is written into which channel, over the
    messages each channel has taken in.
  - `audit.rs`, `analytics.rs`, `price_alerts.rs`, `blockchain.rs`,
    `faucet.rs`, `database.rs`, `metrics.rs`, `models.rs`, `text.rs`.
- `tests/` — tests of the library on concrete values.
- `app/` — the server: routing, Redis, the environment, serialisation, and
  the statistics computed in floating point.

Calls into outside crates (`dashmap`, `validator`, `tokio`'s broadcast
channel, `chrono`, `base64`, `bs58`) stand behind small trusted wrappers whose contracts say
what those crates document.
