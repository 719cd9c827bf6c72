# quicklendx-contracts (verified core)

The decision logic of the QuickLendX invoice-financing protocol, written in
Verus and proved against its contracts.

- `src/protocol_limits.rs` – invoice statuses, which of them are active, and
  the per-business invoice cap.
- `src/maintenance.rs` – the admin controls: maintenance mode with its
  reason, the write guard, upgrade scheduling, admin hand-over, and the
  storage-lifetime refresh report with its events.
- `src/treasury.rs` – starting and cancelling a treasury rotation.
- `src/errors.rs`, `src/events.rs` – error and event types.
- `app/lib.rs` – the Soroban contract shell (storage, authorization, events)
  around the library.
- `tests/` – scenario tests.
