# object_store_client

The decisions of an object store's HTTP client, written in Rust and proved with Verus.

- `src/token.rs`: which cached token a request may use, and which request refreshes it.
  `src/token_laws.rs` proves what this amounts to when many requests share the cache: never
  two fetches at once, never two for one request, and one fetch for all where its token lasts.
- `src/spawn.rs`: how a request runs on another tokio runtime and how its response comes back.
  `src/spawn_laws.rs` proves that the caller gets the head or the failure that the service
  replied with, and that frames, bytes and waits are counted as they should.
  `src/transfer_laws.rs` proves that the reader gets the frames that the service's body yielded,
  in order and unchanged, and all of them before it is told the end of a body that ended, and
  that a reader which does not read never holds up the worker.
- `src/request.rs`, `src/slow.rs`: which requests fetch a footer, and which of their steps are
  slow enough for a warning.
- `src/dns.rs`: the addresses of a host in random order.
- `src/error.rs`, `src/text.rs`, `src/time.rs`: errors, text search and time as plain values.

`app/` holds the client itself: it waits, sends and logs as the library says.
