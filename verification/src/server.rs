//! The server's handler for one connected client.
//!
//! The handler waits for three things at once: a message from the client, a
//! connection of an end user on the exposed port, and thirty seconds of
//! silence. What it decides on each of them is the transition function
//! `handler_step`; the program around it performs the actions (sending,
//! binding, accepting, spawning proxies) and reports their outcome back as
//! further events.

use vstd::prelude::*;

use crate::message::{ClientRequest, ServerResponse};

verus! {

/// Which outcome the handler waits for, if any.
#[derive(Debug, Clone, Copy, PartialEq, Eq, Structural)]
pub enum Awaiting {
    /// No outcome: the handler waits for the next message or connection.
    Nothing,
    /// The binding of the exposed port.
    ExposedPort,
    /// The binding of a port for the client's data connection.
    ClientPort,
    /// The client's data connection.
    ClientStream,
}

/// What the handler remembers between events.
#[derive(Debug, Clone, Copy, PartialEq, Eq, Structural)]
pub struct HandlerState {
    /// A `ClientConnect` was accepted; a single client connects only once.
    pub already_connected: bool,
    /// The exposed port was announced and is listened on.
    pub exposed: bool,
    /// The outcome of an action the handler waits for.
    pub awaiting: Awaiting,
    /// A spawned task (the port listener or a proxy) is held for cancellation.
    pub task_running: bool,
}

/// What the handler can be woken by.
#[derive(Debug, Clone, Copy, PartialEq, Eq, Structural)]
pub enum ServerEvent {
    /// Thirty seconds passed with neither a message nor a new connection.
    Timeout,
    /// The client's message stream ended.
    Disconnected,
    /// A frame arrived that did not hold a valid message.
    MessageError,
    /// A message from the client.
    Request(ClientRequest),
    /// An end user connected to the exposed port.
    PublicConnection,
    /// The queue of end-user connections yielded nothing.
    PublicChannelClosed,
    /// The exposed port was bound, on this port number.
    PortExposed(u16),
    /// A port was bound for the client's data connection, on this port number.
    ClientPortOpened(u16),
    /// The client opened its data connection.
    ClientStreamReady,
    /// Getting the client's data connection failed.
    ClientStreamFailed,
}

/// What the handler asks the program around it to do.
#[derive(Debug, Clone, Copy, PartialEq, Eq, Structural)]
pub enum ServerAction {
    /// Stop handling this client, cancelling the held task if asked.
    Close { abort_task: bool },
    /// Nothing to do; wait for the next event.
    Ignore,
    /// Send this response to the client.
    Reply(ServerResponse),
    /// Bind the exposed port: try `first_try` (0 meaning any port), and on
    /// failure any free port; report the result as `PortExposed`.
    ExposePort { first_try: u16 },
    /// Send `response` to the client and start accepting end users on `port`.
    ReplyAndListen { response: ServerResponse, port: u16 },
    /// Bind a fresh port for the client's data connection; report it as
    /// `ClientPortOpened` (or `ClientStreamFailed`).
    OpenClientPort,
    /// Send `request` to the client and accept its data connection; report
    /// `ClientStreamReady` or `ClientStreamFailed`.
    RequestClientStream { request: ServerResponse },
    /// Proxy between the end user and the client's data connection.
    StartProxy,
    /// Close the end user's connection: no data connection will serve it.
    DropPublicConnection,
}

/// The port to try first for a client's request: the requested one, or any (0).
pub open spec fn first_port(requested: Option<u16>) -> u16 {
    match requested {
        Some(p) => p,
        None => 0,
    }
}

/// The handler's state when a client has just connected.
pub open spec fn handler_initial() -> HandlerState {
    HandlerState {
        already_connected: false,
        exposed: false,
        awaiting: Awaiting::Nothing,
        task_running: false,
    }
}

impl HandlerState {
    /// The states the handler can be in: a port is exposed only for a
    /// connected client, its binding is awaited only before it is exposed,
    /// and data connections are set up only once it is exposed.
    pub open spec fn valid(self) -> bool {
        &&& self.exposed ==> self.already_connected
        &&& self.awaiting is ExposedPort ==> self.already_connected && !self.exposed
        &&& (self.awaiting is ClientPort || self.awaiting is ClientStream) ==> self.exposed
    }
}

/// The handler's decision on one event: its next state and its action.
pub open spec fn handler_step(s: HandlerState, e: ServerEvent) -> (HandlerState, ServerAction) {
    match e {
        ServerEvent::Timeout => (s, ServerAction::Close { abort_task: false }),
        ServerEvent::Disconnected => (s, ServerAction::Close { abort_task: s.task_running }),
        ServerEvent::MessageError => (s, ServerAction::Ignore),
        ServerEvent::Request(ClientRequest::Ping { seq }) => (
            s,
            ServerAction::Reply(ServerResponse::Pong { seq }),
        ),
        ServerEvent::Request(ClientRequest::ClientConnect(requested)) => {
            if s.already_connected {
                (s, ServerAction::Ignore)
            } else {
                (
                    HandlerState { already_connected: true, awaiting: Awaiting::ExposedPort, ..s },
                    ServerAction::ExposePort { first_try: first_port(requested) },
                )
            }
        },
        ServerEvent::PortExposed(port) => {
            if s.awaiting is ExposedPort {
                (
                    HandlerState {
                        exposed: true,
                        awaiting: Awaiting::Nothing,
                        task_running: true,
                        ..s
                    },
                    ServerAction::ReplyAndListen {
                        response: ServerResponse::Exposed { end_user_port: port },
                        port,
                    },
                )
            } else {
                (s, ServerAction::Ignore)
            }
        },
        ServerEvent::PublicConnection => {
            if s.exposed && s.awaiting is Nothing {
                (HandlerState { awaiting: Awaiting::ClientPort, ..s }, ServerAction::OpenClientPort)
            } else {
                (s, ServerAction::DropPublicConnection)
            }
        },
        ServerEvent::PublicChannelClosed => (s, ServerAction::Ignore),
        ServerEvent::ClientPortOpened(port) => {
            if s.awaiting is ClientPort {
                (
                    HandlerState { awaiting: Awaiting::ClientStream, ..s },
                    ServerAction::RequestClientStream {
                        request: ServerResponse::NewConnection { client_connect_port: port },
                    },
                )
            } else {
                (s, ServerAction::Ignore)
            }
        },
        ServerEvent::ClientStreamReady => {
            if s.awaiting is ClientStream {
                (
                    HandlerState { awaiting: Awaiting::Nothing, task_running: true, ..s },
                    ServerAction::StartProxy,
                )
            } else {
                (s, ServerAction::Ignore)
            }
        },
        ServerEvent::ClientStreamFailed => {
            if s.awaiting is ClientPort || s.awaiting is ClientStream {
                (
                    HandlerState { awaiting: Awaiting::Nothing, ..s },
                    ServerAction::DropPublicConnection,
                )
            } else {
                (s, ServerAction::Ignore)
            }
        },
    }
}

/// The state reached and the actions taken on a sequence of events.
pub open spec fn handler_run(s: HandlerState, events: Seq<ServerEvent>) -> (
    HandlerState,
    Seq<ServerAction>,
)
    decreases events.len(),
{
    if events.len() == 0 {
        (s, Seq::empty())
    } else {
        let (s1, a) = handler_step(s, events[0]);
        let (s2, rest) = handler_run(s1, events.drop_first());
        (s2, seq![a] + rest)
    }
}

/// How many of `actions` bind an exposed port.
pub open spec fn count_exposures(actions: Seq<ServerAction>) -> nat
    decreases actions.len(),
{
    if actions.len() == 0 {
        0
    } else {
        (if actions[0] is ExposePort {
            1nat
        } else {
            0nat
        }) + count_exposures(actions.drop_first())
    }
}

/// How many of `actions` announce the exposed port (the `Ok` on the wire).
pub open spec fn count_exposure_replies(actions: Seq<ServerAction>) -> nat
    decreases actions.len(),
{
    if actions.len() == 0 {
        0
    } else {
        (if actions[0] is ReplyAndListen {
            1nat
        } else {
            0nat
        }) + count_exposure_replies(actions.drop_first())
    }
}

/// How many of `actions` ask the client for a data connection.
pub open spec fn count_stream_requests(actions: Seq<ServerAction>) -> nat
    decreases actions.len(),
{
    if actions.len() == 0 {
        0
    } else {
        (if actions[0] is RequestClientStream {
            1nat
        } else {
            0nat
        }) + count_stream_requests(actions.drop_first())
    }
}

/// Data connections are set up in order: a port for one is opened only after
/// the exposed port was announced (`replied`), and each request for one
/// (`NewConnection` on the wire) follows the announcement and an end user's
/// connection whose port was opened, with no other request in between (`opened`).
pub open spec fn stream_requests_in_order(actions: Seq<ServerAction>, replied: bool, opened: bool) -> bool
    decreases actions.len(),
{
    if actions.len() == 0 {
        true
    } else {
        let a = actions[0];
        &&& a is OpenClientPort ==> replied
        &&& a is RequestClientStream ==> replied && opened
        &&& stream_requests_in_order(
            actions.drop_first(),
            replied || a is ReplyAndListen,
            match a {
                ServerAction::OpenClientPort => true,
                ServerAction::RequestClientStream { .. } => false,
                _ => opened,
            },
        )
    }
}

/// Whether some event of `events` is a `ClientConnect`.
pub open spec fn has_connect(events: Seq<ServerEvent>) -> bool {
    exists|i: int| 0 <= i < events.len() && #[trigger] events[i] matches ServerEvent::Request(
        ClientRequest::ClientConnect(_),
    )
}

impl HandlerState {
    /// The state of a handler for a newly connected client.
    pub fn new() -> (s: HandlerState)
        ensures
            s == handler_initial(),
            s.valid(),
    {
        HandlerState {
            already_connected: false,
            exposed: false,
            awaiting: Awaiting::Nothing,
            task_running: false,
        }
    }

    /// Decides on one event, updating the state.
    pub fn step(&mut self, event: ServerEvent) -> (action: ServerAction)
        ensures
            (*final(self), action) == handler_step(*old(self), event),
            old(self).valid() ==> final(self).valid(),
            old(self).task_running ==> final(self).task_running,
            old(self).already_connected ==> final(self).already_connected,
            old(self).exposed ==> final(self).exposed,
            event == ServerEvent::ClientStreamFailed ==> final(self).task_running == old(
                self,
            ).task_running && final(self).exposed == old(self).exposed
                && final(self).already_connected == old(self).already_connected,
    {
        match event {
            ServerEvent::Timeout => ServerAction::Close { abort_task: false },
            ServerEvent::Disconnected => ServerAction::Close { abort_task: self.task_running },
            ServerEvent::MessageError => ServerAction::Ignore,
            ServerEvent::Request(ClientRequest::Ping { seq }) => ServerAction::Reply(
                ServerResponse::Pong { seq },
            ),
            ServerEvent::Request(ClientRequest::ClientConnect(requested)) => {
                if self.already_connected {
                    ServerAction::Ignore
                } else {
                    self.already_connected = true;
                    self.awaiting = Awaiting::ExposedPort;
                    let first_try = match requested {
                        Some(p) => p,
                        None => 0,
                    };
                    ServerAction::ExposePort { first_try }
                }
            },
            ServerEvent::PortExposed(port) => {
                if self.awaiting == Awaiting::ExposedPort {
                    self.exposed = true;
                    self.awaiting = Awaiting::Nothing;
                    self.task_running = true;
                    ServerAction::ReplyAndListen {
                        response: ServerResponse::Exposed { end_user_port: port },
                        port,
                    }
                } else {
                    ServerAction::Ignore
                }
            },
            ServerEvent::PublicConnection => {
                if self.exposed && self.awaiting == Awaiting::Nothing {
                    self.awaiting = Awaiting::ClientPort;
                    ServerAction::OpenClientPort
                } else {
                    ServerAction::DropPublicConnection
                }
            },
            ServerEvent::PublicChannelClosed => ServerAction::Ignore,
            ServerEvent::ClientPortOpened(port) => {
                if self.awaiting == Awaiting::ClientPort {
                    self.awaiting = Awaiting::ClientStream;
                    ServerAction::RequestClientStream {
                        request: ServerResponse::NewConnection { client_connect_port: port },
                    }
                } else {
                    ServerAction::Ignore
                }
            },
            ServerEvent::ClientStreamReady => {
                if self.awaiting == Awaiting::ClientStream {
                    self.awaiting = Awaiting::Nothing;
                    self.task_running = true;
                    ServerAction::StartProxy
                } else {
                    ServerAction::Ignore
                }
            },
            ServerEvent::ClientStreamFailed => {
                if self.awaiting == Awaiting::ClientPort || self.awaiting == Awaiting::ClientStream {
                    self.awaiting = Awaiting::Nothing;
                    ServerAction::DropPublicConnection
                } else {
                    ServerAction::Ignore
                }
            },
        }
    }
}

/// Every step keeps the handler's state valid.
pub proof fn lemma_step_keeps_valid(s: HandlerState, e: ServerEvent)
    requires
        s.valid(),
    ensures
        handler_step(s, e).0.valid(),
{
}

/// Every ping is answered with a pong carrying the same sequence number, in
/// any state, and leaves the state as it was.
pub proof fn lemma_ping_answered(s: HandlerState, seq: u32)
    ensures
        handler_step(s, ServerEvent::Request(ClientRequest::Ping { seq })) == (
            s,
            ServerAction::Reply(ServerResponse::Pong { seq }),
        ),
{
}

/// The first `ClientConnect` is honoured: the port requested (or any port) is
/// tried, and the handler counts as connected from then on.
pub proof fn lemma_first_connect_exposes(s: HandlerState, requested: Option<u16>)
    requires
        !s.already_connected,
    ensures
        handler_step(s, ServerEvent::Request(ClientRequest::ClientConnect(requested))) == (
            HandlerState { already_connected: true, awaiting: Awaiting::ExposedPort, ..s },
            ServerAction::ExposePort { first_try: first_port(requested) },
        ),
{
}

/// A `ClientConnect` after the first one is ignored and changes nothing.
pub proof fn lemma_repeated_connect_ignored(s: HandlerState, requested: Option<u16>)
    requires
        s.already_connected,
    ensures
        handler_step(s, ServerEvent::Request(ClientRequest::ClientConnect(requested))) == (
            s,
            ServerAction::Ignore,
        ),
{
}

/// The port that was bound for a client's connect is the port announced to
/// the client, and the one listened on.
pub proof fn lemma_exposed_port_announced(s: HandlerState, port: u16)
    requires
        s.awaiting is ExposedPort,
    ensures
        handler_step(s, ServerEvent::PortExposed(port)).1 == (ServerAction::ReplyAndListen {
            response: ServerResponse::Exposed { end_user_port: port },
            port,
        }),
{
}

/// Thirty seconds of silence close the handler, and so does the end of the
/// client's stream, which also cancels the held task.
pub proof fn lemma_handler_closes(s: HandlerState)
    ensures
        handler_step(s, ServerEvent::Timeout) == (s, ServerAction::Close { abort_task: false }),
        handler_step(s, ServerEvent::Disconnected) == (
            s,
            ServerAction::Close { abort_task: s.task_running },
        ),
{
}

/// Runs keep the handler's state valid.
pub proof fn lemma_run_keeps_valid(s: HandlerState, events: Seq<ServerEvent>)
    requires
        s.valid(),
    ensures
        handler_run(s, events).0.valid(),
    decreases events.len(),
{
    if events.len() > 0 {
        lemma_run_keeps_valid(handler_step(s, events[0]).0, events.drop_first());
    }
}

/// Once connected, a handler stays connected and never binds another exposed port.
pub proof fn lemma_connected_stays(s: HandlerState, events: Seq<ServerEvent>)
    requires
        s.already_connected,
    ensures
        handler_run(s, events).0.already_connected,
        count_exposures(handler_run(s, events).1) == 0,
    decreases events.len(),
{
    if events.len() > 0 {
        let (s1, a) = handler_step(s, events[0]);
        lemma_connected_stays(s1, events.drop_first());
        let rest = handler_run(s1, events.drop_first()).1;
        assert((seq![a] + rest).drop_first() =~= rest);
    }
}

/// A client is exposed at most once: over any sequence of events, from any
/// state, the handler binds an exposed port at most one time.
pub proof fn lemma_single_exposure(s: HandlerState, events: Seq<ServerEvent>)
    ensures
        count_exposures(handler_run(s, events).1) <= 1,
    decreases events.len(),
{
    if events.len() > 0 {
        let (s1, a) = handler_step(s, events[0]);
        let rest = handler_run(s1, events.drop_first()).1;
        assert((seq![a] + rest).drop_first() =~= rest);
        if a is ExposePort {
            lemma_connected_stays(s1, events.drop_first());
        } else {
            lemma_single_exposure(s1, events.drop_first());
        }
    }
}

/// Once the port is announced, it is never announced again.
proof fn lemma_exposed_stays(s: HandlerState, events: Seq<ServerEvent>)
    requires
        s.valid(),
        s.exposed,
    ensures
        count_exposure_replies(handler_run(s, events).1) == 0,
    decreases events.len(),
{
    if events.len() > 0 {
        let (s1, a) = handler_step(s, events[0]);
        lemma_exposed_stays(s1, events.drop_first());
        let rest = handler_run(s1, events.drop_first()).1;
        assert((seq![a] + rest).drop_first() =~= rest);
    }
}

/// The exposed port is announced to the client at most once, over any
/// sequence of events from any valid state.
pub proof fn lemma_single_announcement(s: HandlerState, events: Seq<ServerEvent>)
    requires
        s.valid(),
    ensures
        count_exposure_replies(handler_run(s, events).1) <= 1,
    decreases events.len(),
{
    if events.len() > 0 {
        let (s1, a) = handler_step(s, events[0]);
        let rest = handler_run(s1, events.drop_first()).1;
        assert((seq![a] + rest).drop_first() =~= rest);
        if a is ReplyAndListen {
            lemma_exposed_stays(s1, events.drop_first());
        } else {
            lemma_single_announcement(s1, events.drop_first());
        }
    }
}

/// Over any sequence of events from a valid state, data connections are set
/// up in order (`stream_requests_in_order`), taking as given what the state
/// already shows: whether the port is announced, and a port opened for a
/// data connection.
pub proof fn lemma_stream_requests_in_order(s: HandlerState, events: Seq<ServerEvent>, opened: bool)
    requires
        s.valid(),
        s.awaiting is ClientPort ==> opened,
    ensures
        stream_requests_in_order(handler_run(s, events).1, s.exposed, opened),
    decreases events.len(),
{
    if events.len() > 0 {
        let (s1, a) = handler_step(s, events[0]);
        let rest = handler_run(s1, events.drop_first()).1;
        let next_opened = match a {
            ServerAction::OpenClientPort => true,
            ServerAction::RequestClientStream { .. } => false,
            _ => opened,
        };
        lemma_stream_requests_in_order(s1, events.drop_first(), next_opened);
        let all = seq![a] + rest;
        assert(all.drop_first() =~= rest);
        assert(all[0] == a);
    }
}

/// A handler that never receives a `ClientConnect` never binds, announces
/// or serves an exposed port: no `Ok` and no `NewConnection` go out.
pub proof fn lemma_no_connect_no_exposure(s: HandlerState, events: Seq<ServerEvent>)
    requires
        s.valid(),
        !s.already_connected,
        !has_connect(events),
    ensures
        !handler_run(s, events).0.already_connected,
        count_exposures(handler_run(s, events).1) == 0,
        count_exposure_replies(handler_run(s, events).1) == 0,
        count_stream_requests(handler_run(s, events).1) == 0,
    decreases events.len(),
{
    if events.len() > 0 {
        let (s1, a) = handler_step(s, events[0]);
        let tail = events.drop_first();
        assert(!has_connect(tail)) by {
            if has_connect(tail) {
                let i = choose|i: int| 0 <= i < tail.len() && #[trigger] tail[i] matches ServerEvent::Request(
                    ClientRequest::ClientConnect(_),
                );
                assert(events[i + 1] == tail[i]);
            }
        }
        assert(!(events[0] matches ServerEvent::Request(ClientRequest::ClientConnect(_))));
        lemma_no_connect_no_exposure(s1, tail);
        let rest = handler_run(s1, tail).1;
        assert((seq![a] + rest).drop_first() =~= rest);
    }
}

/// The single-client protocol seen from a fresh handler, whatever events it
/// is fed: at most one port is bound and at most one `Ok` announces it; every
/// `NewConnection` comes after that `Ok` and after an end user's connection;
/// and without a `ClientConnect` neither `Ok` nor `NewConnection` is sent.
pub proof fn lemma_handler_protocol(events: Seq<ServerEvent>)
    ensures
        count_exposures(handler_run(handler_initial(), events).1) <= 1,
        count_exposure_replies(handler_run(handler_initial(), events).1) <= 1,
        stream_requests_in_order(handler_run(handler_initial(), events).1, false, false),
        !has_connect(events) ==> count_exposure_replies(handler_run(handler_initial(), events).1)
            == 0 && count_stream_requests(handler_run(handler_initial(), events).1) == 0,
{
    lemma_single_exposure(handler_initial(), events);
    lemma_single_announcement(handler_initial(), events);
    lemma_stream_requests_in_order(handler_initial(), events, false);
    if !has_connect(events) {
        lemma_no_connect_no_exposure(handler_initial(), events);
    }
}

/// No event makes the handler forget what it holds: a held task stays held,
/// and a connected or exposed client stays so.
pub proof fn lemma_held_state_kept(s: HandlerState, e: ServerEvent)
    ensures
        s.task_running ==> handler_step(s, e).0.task_running,
        s.already_connected ==> handler_step(s, e).0.already_connected,
        s.exposed ==> handler_step(s, e).0.exposed,
{
}

/// A failed data connection only ends the wait for it: the end user is
/// dropped, and the held task, the connection and the exposure stay as they were.
pub proof fn lemma_failed_stream_only_ends_wait(s: HandlerState)
    requires
        s.awaiting is ClientPort || s.awaiting is ClientStream,
    ensures
        handler_step(s, ServerEvent::ClientStreamFailed) == (
            HandlerState {
                already_connected: s.already_connected,
                exposed: s.exposed,
                awaiting: Awaiting::Nothing,
                task_running: s.task_running,
            },
            ServerAction::DropPublicConnection,
        ),
{
}

/// Over any sequence of events, a held task stays held.
pub proof fn lemma_task_kept_over_run(s: HandlerState, events: Seq<ServerEvent>)
    requires
        s.task_running,
    ensures
        handler_run(s, events).0.task_running,
    decreases events.len(),
{
    if events.len() > 0 {
        lemma_task_kept_over_run(handler_step(s, events[0]).0, events.drop_first());
    }
}

/// Once a task is held (the listener on the exposed port, or a proxy), the
/// end of the client's stream cancels it, whatever happened in between.
pub proof fn lemma_disconnect_aborts_held_task(s: HandlerState, events: Seq<ServerEvent>)
    requires
        s.task_running,
    ensures
        handler_step(handler_run(s, events).0, ServerEvent::Disconnected).1 == (ServerAction::Close {
            abort_task: true,
        }),
{
    lemma_task_kept_over_run(s, events);
}

/// Once the exposed port is announced, any later end of the client's stream
/// cancels the listener task.
pub proof fn lemma_listener_aborted_on_disconnect(
    s: HandlerState,
    port: u16,
    events: Seq<ServerEvent>,
)
    requires
        s.awaiting is ExposedPort,
    ensures
        handler_step(
            handler_run(handler_step(s, ServerEvent::PortExposed(port)).0, events).0,
            ServerEvent::Disconnected,
        ).1 == (ServerAction::Close { abort_task: true }),
{
    lemma_disconnect_aborts_held_task(handler_step(s, ServerEvent::PortExposed(port)).0, events);
}

} // verus!
