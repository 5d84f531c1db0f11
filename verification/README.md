# betfair_rs

A client for the Betfair exchange: REST calls, logins, and a stream of prices and orders that comes
back by itself when it is lost.

- `src/` is the verified library. It decides what to send and what to make of what comes back, and
  does no input or output. `laws.rs` and the end of `stream_task.rs` state what holds across
  operations.
- `tests/` runs the library on concrete values.
- `app/` is ordinary Rust around the library: HTTP, background tasks, callbacks, logging and JSON.
  Pacing, retries, TLS and the connection itself are traits in `app/services.rs`.

The contracts of what the library calls in other crates are not proved. They stand in
`src/decimal.rs` (`rust_decimal`), `src/transport.rs` (`reqwest`, `rand`) and `src/text.rs` (the
standard library), each with a comment that says what is believed.
