use nat_tunnel::client::{ClientAction, ClientEvent, ClientSession, PortGrant};
use nat_tunnel::message::{ClientRequest, ServerResponse};

#[test]
fn start_sends_client_connect() {
    let (s, first) = ClientSession::start(Some(9000));
    assert_eq!(first, ClientRequest::ClientConnect(Some(9000)));
    assert_eq!(s, ClientSession { seq: 1, request_port: Some(9000), task_running: false });
    let (_, first) = ClientSession::start(None);
    assert_eq!(first, ClientRequest::ClientConnect(None));
}

#[test]
fn ticks_send_numbered_pings() {
    let (mut s, _) = ClientSession::start(None);
    for expected in 1..=5u32 {
        assert_eq!(
            s.step(ClientEvent::Tick),
            ClientAction::Send(ClientRequest::Ping { seq: expected })
        );
        // other events do not consume sequence numbers
        assert_eq!(
            s.step(ClientEvent::Response(ServerResponse::Pong { seq: expected })),
            ClientAction::Ignore
        );
    }
    assert_eq!(s.seq, 6);
}

#[test]
fn ping_seq_wraps_around() {
    let mut s = ClientSession { seq: u32::MAX, request_port: None, task_running: false };
    assert_eq!(s.step(ClientEvent::Tick), ClientAction::Send(ClientRequest::Ping { seq: u32::MAX }));
    assert_eq!(s.step(ClientEvent::Tick), ClientAction::Send(ClientRequest::Ping { seq: 0 }));
    assert_eq!(s.seq, 1);
}

#[test]
fn granted_when_nothing_requested() {
    let (mut s, _) = ClientSession::start(None);
    assert_eq!(
        s.step(ClientEvent::Response(ServerResponse::Exposed { end_user_port: 4000 })),
        ClientAction::Announce(PortGrant::Granted { port: 4000 })
    );
}

#[test]
fn granted_when_request_met() {
    let (mut s, _) = ClientSession::start(Some(4000));
    assert_eq!(
        s.step(ClientEvent::Response(ServerResponse::Exposed { end_user_port: 4000 })),
        ClientAction::Announce(PortGrant::Granted { port: 4000 })
    );
}

#[test]
fn substituted_when_request_not_met() {
    let (mut s, _) = ClientSession::start(Some(4000));
    assert_eq!(
        s.step(ClientEvent::Response(ServerResponse::Exposed { end_user_port: 51234 })),
        ClientAction::Announce(PortGrant::Substituted { requested: 4000, port: 51234 })
    );
}

#[test]
fn new_connection_opens_data_channel() {
    let (mut s, _) = ClientSession::start(None);
    assert_eq!(
        s.step(ClientEvent::Response(ServerResponse::NewConnection { client_connect_port: 777 })),
        ClientAction::ConnectAndProxy { port: 777 }
    );
    assert!(!s.task_running);
    assert_eq!(s.step(ClientEvent::ProxyFailed), ClientAction::Ignore);
    assert!(!s.task_running);
    assert_eq!(s.step(ClientEvent::ProxyStarted), ClientAction::Ignore);
    assert!(s.task_running);
}

#[test]
fn disconnect_stops_and_aborts() {
    let (mut s, _) = ClientSession::start(None);
    assert_eq!(s.step(ClientEvent::MessageError), ClientAction::Ignore);
    assert_eq!(s.step(ClientEvent::Disconnected), ClientAction::Stop { abort_task: false });
    s.step(ClientEvent::ProxyStarted);
    assert_eq!(s.step(ClientEvent::Disconnected), ClientAction::Stop { abort_task: true });
}
