//! Laws that tie the client's session to the server's handler.

use vstd::prelude::*;

use crate::client::{
    client_initial, client_step, port_grant, ClientAction, ClientEvent, ClientSession,
};
use crate::message::{ClientRequest, ServerResponse};
use crate::server::{
    first_port, handler_initial, handler_step, HandlerState, ServerAction, ServerEvent,
};

verus! {

/// The client's opening request makes a fresh handler try the port the
/// client asked for (or any port when it asked for none).
pub proof fn lemma_connect_requests_port(request_port: Option<u16>)
    ensures
        handler_step(
            handler_initial(),
            ServerEvent::Request(ClientRequest::ClientConnect(request_port)),
        ).1 == (ServerAction::ExposePort { first_try: first_port(request_port) }),
        first_port(request_port) == (match request_port {
            Some(p) => p,
            None => 0u16,
        }),
{
}

/// The ping a client sends on a tick comes back as a pong with the same
/// sequence number, whatever the handler's state.
pub proof fn lemma_ping_pong(c: ClientSession, h: HandlerState)
    ensures
        ({
            let sent = client_step(c, ClientEvent::Tick).1;
            &&& sent == ClientAction::Send(ClientRequest::Ping { seq: c.seq })
            &&& handler_step(h, ServerEvent::Request(ClientRequest::Ping { seq: c.seq })).1
                == ServerAction::Reply(ServerResponse::Pong { seq: c.seq })
        }),
{
}

/// The port the server binds for end users, once the handler awaits it, is
/// the port the client announces, and it counts as granted when it is the
/// port the client asked for.
pub proof fn lemma_exposed_port_reaches_user(
    h: HandlerState,
    request_port: Option<u16>,
    port: u16,
)
    requires
        h.awaiting is ExposedPort,
    ensures
        ({
            let reply = handler_step(h, ServerEvent::PortExposed(port)).1;
            &&& reply matches ServerAction::ReplyAndListen { response, port: listened }
            &&& listened == port
            &&& client_step(client_initial(request_port), ClientEvent::Response(response)).1
                == ClientAction::Announce(port_grant(request_port, port))
            &&& request_port == Some(port) ==> port_grant(request_port, port) == (
            crate::client::PortGrant::Granted { port })
        }),
{
}

/// The port the server opens for a data connection, once the handler awaits
/// it, is the port the client connects to.
pub proof fn lemma_data_port_reaches_client(h: HandlerState, c: ClientSession, port: u16)
    requires
        h.awaiting is ClientPort,
    ensures
        ({
            let asked = handler_step(h, ServerEvent::ClientPortOpened(port)).1;
            &&& asked matches ServerAction::RequestClientStream { request }
            &&& client_step(c, ClientEvent::Response(request)).1 == (ClientAction::ConnectAndProxy {
                port,
            })
        }),
{
}

} // verus!
