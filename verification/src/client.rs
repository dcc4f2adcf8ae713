//! The client's session with the server.
//!
//! The client first asks to be exposed, then pings the server every ten
//! seconds of quiet and reacts to the server's responses. `client_step` is
//! its decision on each event; the program around it sends, prints, connects
//! and spawns proxies, and reports the outcome of a proxy set-up back.

use vstd::prelude::*;

use crate::message::{ClientRequest, ServerResponse};

verus! {

/// What the client remembers between events.
#[derive(Debug, Clone, Copy, PartialEq, Eq, Structural)]
pub struct ClientSession {
    /// The sequence number of the next ping.
    pub seq: u32,
    /// The port the client asked the server to expose, if any.
    pub request_port: Option<u16>,
    /// A proxy task is held for cancellation.
    pub task_running: bool,
}

/// What the client can be woken by.
#[derive(Debug, Clone, Copy, PartialEq, Eq, Structural)]
pub enum ClientEvent {
    /// Ten seconds passed without a message from the server.
    Tick,
    /// A message from the server.
    Response(ServerResponse),
    /// A frame arrived that did not hold a valid message.
    MessageError,
    /// The server's message stream ended.
    Disconnected,
    /// Both connections of a requested data channel were opened and proxied.
    ProxyStarted,
    /// Opening a requested data channel failed.
    ProxyFailed,
}

/// How the exposed port relates to the port the client asked for.
#[derive(Debug, Clone, Copy, PartialEq, Eq, Structural)]
pub enum PortGrant {
    /// The server exposed the client on `port`, as requested (or nothing was requested).
    Granted { port: u16 },
    /// The server could not use `requested` and exposed the client on `port` instead.
    Substituted { requested: u16, port: u16 },
}

/// What the client asks the program around it to do.
#[derive(Debug, Clone, Copy, PartialEq, Eq, Structural)]
pub enum ClientAction {
    /// Send this request to the server.
    Send(ClientRequest),
    /// Tell the user where the exposed service can be reached.
    Announce(PortGrant),
    /// Nothing to do; wait for the next event.
    Ignore,
    /// Open a data connection to `port` on the server and one to the local
    /// service, and proxy between them; report `ProxyStarted` or `ProxyFailed`.
    ConnectAndProxy { port: u16 },
    /// End the session, cancelling the held task if asked.
    Stop { abort_task: bool },
}

/// The sequence number after `seq`; it wraps around after `u32::MAX`.
pub open spec fn next_seq(seq: u32) -> u32 {
    if seq == u32::MAX {
        0
    } else {
        (seq + 1) as u32
    }
}

/// How the port `port` that the server exposed relates to the request.
pub open spec fn port_grant(requested: Option<u16>, port: u16) -> PortGrant {
    match requested {
        Some(r) => if r == port {
            PortGrant::Granted { port }
        } else {
            PortGrant::Substituted { requested: r, port }
        },
        None => PortGrant::Granted { port },
    }
}

/// The session right after connecting: pings are numbered from 1.
pub open spec fn client_initial(request_port: Option<u16>) -> ClientSession {
    ClientSession { seq: 1, request_port, task_running: false }
}

/// The client's decision on one event: its next state and its action.
pub open spec fn client_step(s: ClientSession, e: ClientEvent) -> (ClientSession, ClientAction) {
    match e {
        ClientEvent::Tick => (
            ClientSession { seq: next_seq(s.seq), ..s },
            ClientAction::Send(ClientRequest::Ping { seq: s.seq }),
        ),
        ClientEvent::Response(ServerResponse::Exposed { end_user_port }) => (
            s,
            ClientAction::Announce(port_grant(s.request_port, end_user_port)),
        ),
        ClientEvent::Response(ServerResponse::Pong { .. }) => (s, ClientAction::Ignore),
        ClientEvent::Response(ServerResponse::NewConnection { client_connect_port }) => (
            s,
            ClientAction::ConnectAndProxy { port: client_connect_port },
        ),
        ClientEvent::MessageError => (s, ClientAction::Ignore),
        ClientEvent::Disconnected => (s, ClientAction::Stop { abort_task: s.task_running }),
        ClientEvent::ProxyStarted => (ClientSession { task_running: true, ..s }, ClientAction::Ignore),
        ClientEvent::ProxyFailed => (s, ClientAction::Ignore),
    }
}

/// The state reached and the actions taken on a sequence of events.
pub open spec fn client_run(s: ClientSession, events: Seq<ClientEvent>) -> (
    ClientSession,
    Seq<ClientAction>,
)
    decreases events.len(),
{
    if events.len() == 0 {
        (s, Seq::empty())
    } else {
        let (s1, a) = client_step(s, events[0]);
        let (s2, rest) = client_run(s1, events.drop_first());
        (s2, seq![a] + rest)
    }
}

/// The sequence numbers of the pings among `actions`, in order.
pub open spec fn ping_seqs(actions: Seq<ClientAction>) -> Seq<u32>
    decreases actions.len(),
{
    if actions.len() == 0 {
        Seq::empty()
    } else {
        match actions[0] {
            ClientAction::Send(ClientRequest::Ping { seq }) => seq![seq] + ping_seqs(
                actions.drop_first(),
            ),
            _ => ping_seqs(actions.drop_first()),
        }
    }
}

/// How many of `events` are ticks.
pub open spec fn count_ticks(events: Seq<ClientEvent>) -> nat
    decreases events.len(),
{
    if events.len() == 0 {
        0
    } else {
        (if events[0] is Tick {
            1nat
        } else {
            0nat
        }) + count_ticks(events.drop_first())
    }
}

impl ClientSession {
    /// Starts a session: the state after connecting, and the request that
    /// asks the server to expose the client.
    pub fn start(request_port: Option<u16>) -> (res: (ClientSession, ClientRequest))
        ensures
            res.0 == client_initial(request_port),
            res.1 == ClientRequest::ClientConnect(request_port),
    {
        (
            ClientSession { seq: 1, request_port, task_running: false },
            ClientRequest::ClientConnect(request_port),
        )
    }

    /// Decides on one event, updating the state.
    pub fn step(&mut self, event: ClientEvent) -> (action: ClientAction)
        ensures
            (*final(self), action) == client_step(*old(self), event),
            final(self).request_port == old(self).request_port,
            old(self).task_running ==> final(self).task_running,
            event != ClientEvent::Tick ==> final(self).seq == old(self).seq,
            event == ClientEvent::Tick ==> final(self).task_running == old(self).task_running,
    {
        match event {
            ClientEvent::Tick => {
                let seq = self.seq;
                self.seq = if seq == u32::MAX {
                    0
                } else {
                    seq + 1
                };
                ClientAction::Send(ClientRequest::Ping { seq })
            },
            ClientEvent::Response(ServerResponse::Exposed { end_user_port }) => {
                let grant = match self.request_port {
                    Some(r) => if r == end_user_port {
                        PortGrant::Granted { port: end_user_port }
                    } else {
                        PortGrant::Substituted { requested: r, port: end_user_port }
                    },
                    None => PortGrant::Granted { port: end_user_port },
                };
                ClientAction::Announce(grant)
            },
            ClientEvent::Response(ServerResponse::Pong { .. }) => ClientAction::Ignore,
            ClientEvent::Response(ServerResponse::NewConnection { client_connect_port }) => {
                ClientAction::ConnectAndProxy { port: client_connect_port }
            },
            ClientEvent::MessageError => ClientAction::Ignore,
            ClientEvent::Disconnected => ClientAction::Stop { abort_task: self.task_running },
            ClientEvent::ProxyStarted => {
                self.task_running = true;
                ClientAction::Ignore
            },
            ClientEvent::ProxyFailed => ClientAction::Ignore,
        }
    }
}

/// Pings are numbered consecutively: over any sequence of events, the client
/// sends one ping per tick, and the `i`-th carries the session's sequence
/// number plus `i`, wrapping around after `u32::MAX`.
pub proof fn lemma_pings_consecutive(s: ClientSession, events: Seq<ClientEvent>)
    ensures
        ping_seqs(client_run(s, events).1).len() == count_ticks(events),
        forall|i: int|
            0 <= i < count_ticks(events) ==> #[trigger] ping_seqs(client_run(s, events).1)[i] == (
            s.seq + i) % 0x1_0000_0000,
    decreases events.len(),
{
    if events.len() > 0 {
        let (s1, a) = client_step(s, events[0]);
        let rest_events = events.drop_first();
        let rest = client_run(s1, rest_events).1;
        let all = seq![a] + rest;
        assert(all.drop_first() =~= rest);
        assert(all[0] == a);
        lemma_pings_consecutive(s1, rest_events);
        if events[0] is Tick {
            assert(ping_seqs(all) == seq![s.seq] + ping_seqs(rest));
            assert forall|i: int| 0 <= i < count_ticks(events) implies #[trigger] ping_seqs(
                all,
            )[i] == (s.seq + i) % 0x1_0000_0000 by {
                if i > 0 {
                    assert(ping_seqs(all)[i] == ping_seqs(rest)[i - 1]);
                    if s.seq == u32::MAX {
                        vstd::arithmetic::div_mod::lemma_mod_add_multiples_vanish(
                            i - 1,
                            0x1_0000_0000,
                        );
                    }
                }
            }
        } else {
            assert(ping_seqs(all) == ping_seqs(rest));
        }
    }
}

/// Asking for no port, or getting the port asked for, counts as granted;
/// getting another port is reported with both numbers.
pub proof fn lemma_grant_matches_request(s: ClientSession, port: u16)
    ensures
        client_step(s, ClientEvent::Response(ServerResponse::Exposed { end_user_port: port })).1
            == ClientAction::Announce(
            match s.request_port {
                Some(r) if r != port => PortGrant::Substituted { requested: r, port },
                _ => PortGrant::Granted { port },
            },
        ),
{
}

/// The session ends when the server's stream ends, cancelling a running proxy
/// task; a failed message is skipped and the session goes on unchanged.
pub proof fn lemma_client_stops(s: ClientSession)
    ensures
        client_step(s, ClientEvent::Disconnected) == (
            s,
            ClientAction::Stop { abort_task: s.task_running },
        ),
        client_step(s, ClientEvent::MessageError) == (s, ClientAction::Ignore),
{
}

/// A tick changes nothing but the ping number.
pub proof fn lemma_tick_only_numbers(s: ClientSession)
    ensures
        client_step(s, ClientEvent::Tick).0 == (ClientSession {
            seq: next_seq(s.seq),
            request_port: s.request_port,
            task_running: s.task_running,
        }),
        client_step(s, ClientEvent::Tick).0.seq == (s.seq + 1) % 0x1_0000_0000,
{
}

/// No event changes the requested port or makes the session forget a running
/// proxy task, and only ticks consume ping numbers.
pub proof fn lemma_session_kept(s: ClientSession, e: ClientEvent)
    ensures
        client_step(s, e).0.request_port == s.request_port,
        s.task_running ==> client_step(s, e).0.task_running,
        !(e is Tick) ==> client_step(s, e).0.seq == s.seq,
        client_step(s, ClientEvent::ProxyStarted).0.task_running,
{
}

/// Over any sequence of events, a running proxy task stays known.
pub proof fn lemma_task_kept_over_session(s: ClientSession, events: Seq<ClientEvent>)
    requires
        s.task_running,
    ensures
        client_run(s, events).0.task_running,
        client_run(s, events).0.request_port == s.request_port,
    decreases events.len(),
{
    if events.len() > 0 {
        lemma_task_kept_over_session(client_step(s, events[0]).0, events.drop_first());
    }
}

/// After a proxy was started, the server's disconnect aborts the proxy task,
/// whatever happened in between.
pub proof fn lemma_disconnect_aborts_proxy(s: ClientSession, events: Seq<ClientEvent>)
    ensures
        client_step(
            client_run(client_step(s, ClientEvent::ProxyStarted).0, events).0,
            ClientEvent::Disconnected,
        ).1 == (ClientAction::Stop { abort_task: true }),
{
    lemma_task_kept_over_session(client_step(s, ClientEvent::ProxyStarted).0, events);
}

} // verus!
