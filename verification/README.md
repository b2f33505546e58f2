# trussbooks

The core of the TrussBooks accounting engine, a double-entry ledger served over
HTTP and stored in PostgreSQL.

- `src/` is the library, verified with Verus:
  - `text` — blank-text detection behind the "cannot be empty" rules;
  - `money` — decimal amounts (96-bit mantissa and scale) and their addition,
    which calls `rust_decimal`;
  - `requests` — the request payloads and their validation, including the
    double-entry check on journal entries (at least two non-zero lines whose
    total is zero), and the paging of journal listings;
  - `responses` — the records the service returns;
  - `reply` — the status and body shape for each outcome of a request;
  - `posting` — the steps of posting a journal entry in one transaction, as a
    state machine driven by the store's reports;
  - `seeding` — the standard chart of accounts loaded into an empty ledger.
- `app/` is the service: axum routes and handlers, the sqlx queries, and the
  serde/sqlx forms of the library's records.
- `tests/` runs the library on concrete values.
