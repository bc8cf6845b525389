# nts_ke_conn

The verified logic of an NTS key establishment server connection, in Verus.

A client opens a TLS 1.3 session and sends a request, in one piece or in several. The server
answers one good request, with seven cookies and the port of the time server. An error of the
transport, and anything that the TLS session refuses, closes the connection. A message that is not
a good request, and a response that the session does not take, leave it open. The library holds the
state of such a connection and its `rustls` session, decides what each event does to it, and builds
the response. It does no input or output of its own.

- `src/record.rs`: NTS-KE records on the wire.
- `src/request.rs`: what a good request is, and how it is found.
- `src/response.rs`: the response to a request.
- `src/framing.rs`: reading records back, and the laws about it.
- `src/state.rs`, `src/read.rs`, `src/schedule.rs`: what the states are, what a read does, and in
  what order a ready connection is handled.
- `src/config.rs`: TLS configurations that connections can rely on.
- `src/connection.rs`: the connection.
- `src/laws.rs`: what holds of a connection over its whole life.
- `src/tls.rs`, `src/poll.rs`, and `write_u16` in `src/record.rs`: what is taken on trust of
  `rustls` and `std`, of `mio`, and of `byteorder`.
- `app/`: the same connection on a TCP socket, with `mio` and `slog`.
- `tests/`: among them, whole TLS sessions in memory.
