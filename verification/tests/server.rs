use nat_tunnel::message::{ClientRequest, ServerResponse};
use nat_tunnel::server::{Awaiting, HandlerState, ServerAction, ServerEvent};

#[test]
fn new_handler_is_unconnected() {
    let h = HandlerState::new();
    assert_eq!(
        h,
        HandlerState {
            already_connected: false,
            exposed: false,
            awaiting: Awaiting::Nothing,
            task_running: false
        }
    );
}

#[test]
fn ping_is_answered_with_same_seq() {
    let mut h = HandlerState::new();
    let a = h.step(ServerEvent::Request(ClientRequest::Ping { seq: 41 }));
    assert_eq!(a, ServerAction::Reply(ServerResponse::Pong { seq: 41 }));
    assert_eq!(h, HandlerState::new());
    let a = h.step(ServerEvent::Request(ClientRequest::Ping { seq: u32::MAX }));
    assert_eq!(a, ServerAction::Reply(ServerResponse::Pong { seq: u32::MAX }));
}

#[test]
fn connect_with_requested_port() {
    let mut h = HandlerState::new();
    let a = h.step(ServerEvent::Request(ClientRequest::ClientConnect(Some(8080))));
    assert_eq!(a, ServerAction::ExposePort { first_try: 8080 });
    assert!(h.already_connected);
    assert_eq!(h.awaiting, Awaiting::ExposedPort);
}

#[test]
fn connect_without_request_tries_any_port() {
    let mut h = HandlerState::new();
    let a = h.step(ServerEvent::Request(ClientRequest::ClientConnect(None)));
    assert_eq!(a, ServerAction::ExposePort { first_try: 0 });
}

#[test]
fn second_connect_is_ignored() {
    let mut h = HandlerState::new();
    h.step(ServerEvent::Request(ClientRequest::ClientConnect(Some(1))));
    let before = h;
    let a = h.step(ServerEvent::Request(ClientRequest::ClientConnect(Some(2))));
    assert_eq!(a, ServerAction::Ignore);
    assert_eq!(h, before);
}

#[test]
fn exposed_port_is_announced_and_listened_on() {
    let mut h = HandlerState::new();
    h.step(ServerEvent::Request(ClientRequest::ClientConnect(None)));
    let a = h.step(ServerEvent::PortExposed(40123));
    assert_eq!(
        a,
        ServerAction::ReplyAndListen {
            response: ServerResponse::Exposed { end_user_port: 40123 },
            port: 40123
        }
    );
    assert!(h.task_running);
    assert!(h.exposed);
    assert_eq!(h.awaiting, Awaiting::Nothing);
}

fn exposed_handler() -> HandlerState {
    let mut h = HandlerState::new();
    h.step(ServerEvent::Request(ClientRequest::ClientConnect(None)));
    h.step(ServerEvent::PortExposed(9000));
    h
}

#[test]
fn public_connection_requests_a_client_stream() {
    let mut h = exposed_handler();
    assert_eq!(h.step(ServerEvent::PublicConnection), ServerAction::OpenClientPort);
    assert_eq!(h.awaiting, Awaiting::ClientPort);
    assert_eq!(
        h.step(ServerEvent::ClientPortOpened(5555)),
        ServerAction::RequestClientStream {
            request: ServerResponse::NewConnection { client_connect_port: 5555 }
        }
    );
    assert_eq!(h.awaiting, Awaiting::ClientStream);
    assert_eq!(h.step(ServerEvent::ClientStreamReady), ServerAction::StartProxy);
    assert!(h.task_running);
    assert_eq!(h.awaiting, Awaiting::Nothing);
}

#[test]
fn failed_data_connection_drops_the_end_user() {
    let mut h = exposed_handler();
    h.step(ServerEvent::PublicConnection);
    assert_eq!(h.step(ServerEvent::ClientStreamFailed), ServerAction::DropPublicConnection);
    assert_eq!(h.awaiting, Awaiting::Nothing);
    h.step(ServerEvent::PublicConnection);
    h.step(ServerEvent::ClientPortOpened(4));
    assert_eq!(h.step(ServerEvent::ClientStreamFailed), ServerAction::DropPublicConnection);
    assert_eq!(h.awaiting, Awaiting::Nothing);
}

#[test]
fn outcomes_out_of_turn_are_refused() {
    let mut h = HandlerState::new();
    assert_eq!(h.step(ServerEvent::PortExposed(1)), ServerAction::Ignore);
    assert_eq!(h.step(ServerEvent::PublicConnection), ServerAction::DropPublicConnection);
    assert_eq!(h.step(ServerEvent::ClientPortOpened(2)), ServerAction::Ignore);
    assert_eq!(h.step(ServerEvent::ClientStreamReady), ServerAction::Ignore);
    assert_eq!(h, HandlerState::new());
    let mut h = exposed_handler();
    let before = h;
    assert_eq!(h.step(ServerEvent::PortExposed(3)), ServerAction::Ignore);
    assert_eq!(h.step(ServerEvent::ClientPortOpened(2)), ServerAction::Ignore);
    assert_eq!(h, before);
}

#[test]
fn failures_are_ignored() {
    let mut h = HandlerState::new();
    assert_eq!(h.step(ServerEvent::ClientStreamFailed), ServerAction::Ignore);
    assert_eq!(h.step(ServerEvent::MessageError), ServerAction::Ignore);
    assert_eq!(h.step(ServerEvent::PublicChannelClosed), ServerAction::Ignore);
    assert_eq!(h, HandlerState::new());
}

#[test]
fn timeout_closes_without_abort() {
    let mut h = exposed_handler();
    assert_eq!(h.step(ServerEvent::Timeout), ServerAction::Close { abort_task: false });
}

#[test]
fn disconnect_aborts_running_task() {
    let mut h = HandlerState::new();
    assert_eq!(h.step(ServerEvent::Disconnected), ServerAction::Close { abort_task: false });
    let mut h = exposed_handler();
    assert_eq!(h.step(ServerEvent::Disconnected), ServerAction::Close { abort_task: true });
}

#[test]
fn only_one_exposure_over_a_session() {
    let mut h = HandlerState::new();
    let events = [
        ServerEvent::Request(ClientRequest::Ping { seq: 1 }),
        ServerEvent::Request(ClientRequest::ClientConnect(Some(3))),
        ServerEvent::PortExposed(3),
        ServerEvent::Request(ClientRequest::ClientConnect(Some(4))),
        ServerEvent::Request(ClientRequest::ClientConnect(None)),
        ServerEvent::PublicConnection,
        ServerEvent::PortExposed(5),
    ];
    let actions: Vec<ServerAction> = events.iter().map(|e| h.step(*e)).collect();
    let exposures = actions
        .iter()
        .filter(|a| matches!(a, ServerAction::ExposePort { .. }))
        .count();
    let announcements = actions
        .iter()
        .filter(|a| matches!(a, ServerAction::ReplyAndListen { .. }))
        .count();
    assert_eq!(exposures, 1);
    assert_eq!(announcements, 1);
}

#[test]
fn no_new_connection_without_connect() {
    let mut h = HandlerState::new();
    let events = [
        ServerEvent::PublicConnection,
        ServerEvent::ClientPortOpened(7),
        ServerEvent::PortExposed(8),
        ServerEvent::ClientStreamReady,
        ServerEvent::Request(ClientRequest::Ping { seq: 1 }),
    ];
    for e in events {
        let a = h.step(e);
        assert!(!matches!(
            a,
            ServerAction::ReplyAndListen { .. } | ServerAction::RequestClientStream { .. }
        ));
    }
}
