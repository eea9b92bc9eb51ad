# net_service

The network service of a chat server: it listens for TCP connections, turns banned
addresses away, serves each user in a session of its own and gives connected users a UDP
service.

- `src/` is the verified library. It makes the decisions: each part takes note of one
  outcome at a time and says what to print and what to do next.
- `app/` performs the actions: sockets, threads, locks and the log. The exchange of
  messages with a user, the log file and the configuration are supplied from outside,
  through the traits and types in `app/partners.rs`.
- `tests/` runs the library on concrete values.

What the library takes from others it states in `src/time.rs` (the clock and the distance
of two moments, from `chrono`) and in `src/wire.rs` (the size field, from `bincode`).
