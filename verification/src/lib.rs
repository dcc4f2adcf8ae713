//! Exposes a server that sits behind a NAT gateway on a public server.
//!
//! The library holds the logic of both ends of the tunnel: the wire
//! messages, the length-delimited framing of the control channel, the
//! decisions of the server's per-client handler and of the client's session,
//! and the rules on the TLS arguments. Sockets, timers and TLS handshakes are
//! left to the program around it, which feeds events in and performs the
//! actions that come out.

pub mod client;
pub mod framing;
pub mod message;
pub mod protocol;
pub mod server;
pub mod tls;
