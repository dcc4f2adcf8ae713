# nat_tunnel

Exposes a service that sits behind a NAT gateway through a public server.
The client, next to the service, keeps a control connection to the server;
the server opens a public port for it, and every end user who connects there
is proxied to the service through a fresh data connection from the client.

- `src/` is the verified library (Verus):
  - `message.rs`: the control messages;
  - `framing.rs`: length-delimited frames (tokio-util's codec), a frame buffer,
    and the laws that a frame is read back as written and that partial frames wait;
  - `server.rs`: the server's per-client handler as a transition function, with
    its laws (pings answered, a client exposed and announced at most once,
    data connections requested only after the announcement, ...);
  - `client.rs`: the client's session as a transition function, with its laws
    (pings numbered consecutively, how the granted port is reported, ...);
  - `protocol.rs`: laws that tie the two ends together;
  - `tls.rs`: the TLS arguments, the CA store built from PEM (openssl), the
    mutual-TLS peer policy, and the stream type.
- `app/` is the program: command line, sockets, timers, TLS, JSON; it feeds
  events to the library and carries out the actions it returns.
- `tests/` runs the library on concrete values.
