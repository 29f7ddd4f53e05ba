# live_popup

A service that manages product popups shown during live streams, their
display schedules, and impression/click statistics, stored in SQLite and
served over HTTP.

- `src/` is the verified library (Verus). It decides everything the service
  decides: the rows a create request inserts, how an update merges into a
  stored row, the text and bound values of every query and statement the
  service runs (all but the schema, which `app/` creates), the order in
  which an event's writes happen, and the reply each
  outcome of a query is answered with. Identifiers (`uuid`) and time stamps
  (`chrono`) are taken through small trusted wrappers in `src/stamps.rs`.
- `app/` is the HTTP server (axum) and the database access (sqlx): it runs
  the queries the library names, hands their outcomes back, and sends the
  replies. It also holds the serde/sqlx forms of the library's types and the
  floating-point conversions (prices travel through the library as IEEE bit
  patterns, click-through rates as a pair of counts).
- `tests/` exercises the library on concrete values.
