use nat_tunnel::client::{ClientAction, ClientEvent, ClientSession, PortGrant};
use nat_tunnel::server::{HandlerState, ServerAction, ServerEvent};

#[test]
fn client_and_handler_talk_through_a_session() {
    let (mut client, first) = ClientSession::start(Some(6000));
    let mut handler = HandlerState::new();

    assert_eq!(
        handler.step(ServerEvent::Request(first)),
        ServerAction::ExposePort { first_try: 6000 }
    );
    let response = match handler.step(ServerEvent::PortExposed(6000)) {
        ServerAction::ReplyAndListen { response, port } => {
            assert_eq!(port, 6000);
            response
        }
        other => panic!("unexpected {:?}", other),
    };
    assert_eq!(
        client.step(ClientEvent::Response(response)),
        ClientAction::Announce(PortGrant::Granted { port: 6000 })
    );

    let ping = match client.step(ClientEvent::Tick) {
        ClientAction::Send(req) => req,
        other => panic!("unexpected {:?}", other),
    };
    let pong = match handler.step(ServerEvent::Request(ping)) {
        ServerAction::Reply(resp) => resp,
        other => panic!("unexpected {:?}", other),
    };
    assert_eq!(client.step(ClientEvent::Response(pong)), ClientAction::Ignore);

    assert_eq!(handler.step(ServerEvent::PublicConnection), ServerAction::OpenClientPort);
    let request = match handler.step(ServerEvent::ClientPortOpened(7001)) {
        ServerAction::RequestClientStream { request } => request,
        other => panic!("unexpected {:?}", other),
    };
    assert_eq!(
        client.step(ClientEvent::Response(request)),
        ClientAction::ConnectAndProxy { port: 7001 }
    );
}
