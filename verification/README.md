# intelligence_rail

Verified core of two Soroban contracts: an intelligence-asset marketplace
(listing, delisting, repricing, license sales) and streaming micropayments
(open, withdraw, cancel, pause, resume).

- `src/ledger.rs` – addresses (strkey text), transfer parties, transfers.
- `src/marketplace.rs` – the marketplace state machine: an abstract model
  (`MarketplaceModel`) with one spec function per call, and the executable
  `MarketplaceContract` whose methods are proved to follow it exactly.
- `src/micropayments.rs` – the same for payment streams (`MicropaymentsModel`,
  `MicropaymentsContract`, `PaymentStream::claimable`).
- `src/market_laws.rs`, `src/stream_laws.rs` – proved properties that span
  several calls (read-after-write, ownership, solvency, settlement).
- `app/` – the Soroban bindings: storage, authorisation, token transfers and
  events around the verified state machines.
- `tests/` – scenarios and edge cases, run against the library.

Streams accrue only while active and never past their end time; pausing only
records the pause time, and what was earned before a pause stays owed to the
recipient. The marketplace's asset counter
counts every listing ever made, so asset ids are never reused.

Calls never panic: a refused call returns an error and leaves the state as it
was; a successful call queues the transfers and events the host must carry out
(`take_actions`).
