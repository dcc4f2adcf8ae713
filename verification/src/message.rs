//! The messages of the control channel between client and server.

use vstd::prelude::*;

verus! {

/// What the server sends to the client.
#[derive(Debug, Clone, Copy, PartialEq, Eq, Structural)]
pub enum ServerResponse {
    /// The client's connect was accepted; end users reach the exposed
    /// service on `end_user_port` of the server. Its name on the wire is `Ok`.
    Exposed { end_user_port: u16 },
    /// Answer to a ping, echoing its sequence number.
    Pong { seq: u32 },
    /// An end user connected: the client is to open a data connection to
    /// `client_connect_port` on the server.
    NewConnection { client_connect_port: u16 },
}

/// What the client sends to the server.
#[derive(Debug, Clone, Copy, PartialEq, Eq, Structural)]
pub enum ClientRequest {
    /// Keep-alive, numbered from 1.
    Ping { seq: u32 },
    /// Asks the server to expose the client, on the given port if there is one.
    ClientConnect(Option<u16>),
}

} // verus!
