# oanda_rust

A typed client for the OANDA v20 REST and streaming APIs, whose decisions are
stated as contracts and proved with Verus.

- `src/` is the verified library: the data model of accounts, instruments,
  orders, trades, positions, prices and transactions; the request builders and
  the query parameters they write; the URL of every endpoint, with its HTTP
  method, success status and documented reject bodies; the classification of
  responses; API token and base URL checks; and the framing of the
  newline-delimited JSON streams, with a 1 MiB limit per message.
- `app/` performs the HTTP exchanges with `reqwest` and maps JSON to and from
  the library's types with `serde`. It holds `Client`, `StreamClient` and the
  asynchronous services.
- `tests/` exercises the library on concrete values.

The library calls `url`, `chrono`, `reqwest` and `serde_json` through small
trusted wrappers. Where the result is a function of plain arguments, their
contracts name or state what those crates compute; the texts of `reqwest` and
`serde_json` errors, which those types keep to themselves, and the machine's
UTC offset are left open.
