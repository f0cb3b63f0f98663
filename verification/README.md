# migration_tls

TLS for VM migration streams, verified with [Verus](https://verus-lang.github.io/verus/).

- `src/` is the library. It decides how a client authenticates itself, loads
  certificate chains, private keys and trust anchors from PEM text, sets up
  both ends of a TLS session with `rustls`, decides the steps of a handshake and
  stages what moves between a session and guest memory. Every item is verified;
  calls into `rustls` stand behind items whose contracts are trusted, each with
  a doc comment that starts its account with "Trusted".
- `app/` connects the library to files, sockets and guest memory.
- `tests/` runs the library, including whole handshakes in memory.

| Module           | What it holds                                                      |
|------------------|--------------------------------------------------------------------|
| `auth`           | where credentials are kept, and how a client authenticates itself  |
| `pem`            | certificate chains and private keys                                |
| `roots`          | trust anchors                                                      |
| `client`         | what a client is set up from                                       |
| `client_session` | the client side of a session, with what it is set up with          |
| `server`         | what servers are set up from, and the configuration that they share |
| `server_session` | the server side of a session, with what it is set up with          |
| `stream`         | TLS streams                                                        |
| `handshake`      | the decisions of a handshake                                       |
| `volatile`       | the buffer between a session and guest memory                      |
| `error`          | errors                                                             |
