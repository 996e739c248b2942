# event_ticketing

Ticketing for an event-management system, written in Verus: events with
ticket categories, bookings paid within a window, tickets checked in at the
venue, and refunds.

- `src/` is the verified library. Each aggregate (`event`, `booking`,
  `ticket`, `refund`) states its rules as contracts over spec functions, with
  lemmas for the lifecycle properties. `application/` holds the decisions of
  the use cases (reserving a booking, expiring it, opening and settling
  refunds), `infrastructure/` the mapping to database rows with its round-trip
  lemmas. Calls into `uuid`, `chrono`, `rust_decimal` and std's
  `to_uppercase` go through small trusted wrappers whose contracts are documented where they
  stand.
- `tests/` runs the library on concrete values.
- `app/` is the HTTP service around it: PostgreSQL stores (sqlx), the
  payment, refund and notification services, serialisable copies of the read
  models, and the handlers that load, call the library and store.

Identifiers are the 128-bit values of UUIDs, instants are nanoseconds since
the Unix epoch, calendar dates are days since 1970-01-01, and amounts are
decimals held as mantissa and scale.
