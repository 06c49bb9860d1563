# mulac

A messaging toolkit with four stores that share one lifecycle — outbox (events to
publish), inbox (messages received), commands and events — and a kernel that wires command
handlers and event subscribers together.

Every entry goes through the same stages: received, reserved by one consumer, then
completed, failed (and rescheduled with a backoff) or given up. Consumers claim due entries
in batches, report each outcome with the reservation they hold, and a sweep releases
reservations that were held too long.

## Layout

- `src/` — the library, verified with Verus.
  - `lifecycle.rs` — the shared lifecycle as a verified in-memory model of a store (the
    PostgreSQL adapters in `app/` write their own SQL and share only the per-store
    decisions with it), with its laws:
    claimed entries are held by their reservation, two reservations never claim the same
    entry, a report releases the entry, failures back off and give up at the attempt
    limit, the sweep releases exactly the stale reservations, storing twice keeps one row.
  - `support.rs` — identifiers, texts, error journals, the system clock and the few calls
    into `uuid`.
  - `outbox/`, `inbox/`, `commanding/`, `eventing/` — each store's envelopes, errors, ports,
    consumer, recorder, sweep and the values its storage reads and writes.
  - `kernel/` — registration checks, routing of commands and events, and the persistent
    kernel's dispatch-and-drain.
  - `test_app.rs` — the settings of the inbox recording program.
- `app/` — PostgreSQL (diesel), RabbitMQ (lapin), JSON (serde) and the tokio workers and
  kernel assembly around the library.
- `tests/` — tests of the library.
