# url_shortener

A URL shortener's core, verified with Verus.

- `src/short_id.rs` — short identifiers: 6 to 16 UTF-8 bytes, ASCII letters and digits only.
- `src/timestamp.rs` — instants as nanoseconds since the Unix epoch; the system clock.
- `src/expiration.rs` — expiration times: not in the past, at most ten years ahead.
- `src/long_url.rs` — absolute URLs, normalized by the `url` crate.
- `src/short_url.rs` — short URLs and the table rows that store them.
- `src/repository.rs` — what reading, saving and cleaning up decide at each database step,
  a model of the table (which keeps expirations in whole Unix seconds), and the laws proved
  over it (read after write, idempotent save, live entries never overwritten, cleanup
  invisible to reads).
- `src/http.rs` — status codes, redirect headers and error bodies of the HTTP endpoints.
- `src/text.rs` — building strings: characters and decimal numbers.
- `src/config.rs` — the listening address.

`app/` holds the program around the library: the database entity and repository
(sea-orm), the environment and dependency wiring (rearch), the HTTP endpoints (axum), and the
expired-entry cleanup command in `app/main.rs`.
