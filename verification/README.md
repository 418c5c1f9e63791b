# mmo

A small client/server pair for an MMO prototype, with its logic verified by
Verus.

- `src/` is the verified library:
  - `binary.rs`: the `Binary` trait and the little-endian byte encoding of
    64-bit integers, with its round-trip laws; bincode does the encoding.
  - `ping.rs`: the `Ping` message (a millisecond timestamp) and its encoding.
  - `client.rs`: command-line options and the client's session as a state
    machine (bind, connect, send, receive, pause, back off), with laws over
    whole runs of it.
  - `message.rs`: the server's reply to a message, and what a stream
    connection or a datagram listener does after a read.
  - `connections.rs`: a table of connections keyed by peer address.
  - `listeners.rs`: the `Listener` trait and the pool of listeners.
- `app/` drives sockets, timers and the tokio runtime around the library:
  `mmo <server> [-u]` runs the client, `mmo --server` the server.
- `tests/` exercises the library on concrete values.
