# Record routes of a context server

A context is a store of records. This crate decides what is done with the requests that
add, upsert, patch, read, delete and list them.

Each request is carried out in two halves, and neither of them does any I/O. The first
(`add_records`, `upsert_record`, ...) refuses the request or says what to call the store
with. The second (`add_records_reply`, ...) makes the response from what the store
replied.

- `src/` is the library, verified with Verus.
  - `routes/records.rs`: the requests and the replies.
  - `convert.rs`: records and patches, between the form of a request and that of the store.
  - `api.rs`, `model.rs`, `error.rs`: the types and their views.
  - `clock.rs`, `ids.rs`, `json.rs`: what is taken from `chrono`, `uuid` and `serde_json`.
  - `laws.rs`: what holds of the library as a whole.
- `tests/` runs it, alone and against a store in memory.
- `app/` is the HTTP side: axum handlers, JSON bodies, and the locks around the stores.
