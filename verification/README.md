# agentic_server

The verified core of a gateway for an OpenAI-compatible Conversations API.

- `src/types/` – requests and responses of the API.
- `src/handler/` – what each item endpoint checks, hands on and answers.
- `src/storage/` – the SQL statements on conversation items. A condition is
  written once, as a value; its text and its meaning both follow from it.
  `storage/laws.rs` proves which rows each statement takes, and
  `storage/listing.rs` that paging neither skips nor repeats items.
- `src/telemetry/` – what is recorded of an HTTP request, which spans are
  exported, and how log lines are correlated. `telemetry/lifecycle.rs` proves
  what holds of a request however it ends.
- `app/` – the transport, database and tracing plumbing around the core.
- `tests/` – the core at work on concrete values.
