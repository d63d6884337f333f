//! The TCP responder: a listener that accepts connections, and for each
//! connection a handler that sends the greeting and closes its side.
//!
//! Neither touches a socket. A driver performs each operation and reports its
//! outcome as an event; the answer is the action to take next.

use crate::config::{address_text, Endpoint, EndpointView};
use crate::console::{
    accepted_notice, accepted_notice_view, fault_notice, fault_notice_view, listening_notice,
    listening_notice_view, Fault, Notice, NoticeView,
};
use crate::greeting::{peer_greeting_text, Peer, PeerView, Protocol};
use vstd::prelude::*;

verus! {

/// Where the handler of one connection stands.
#[derive(Debug, Clone, Copy, PartialEq, Eq, Structural)]
pub enum ConnectionState {
    /// The greeting is being written.
    Greeting,
    /// The write side is being shut down.
    Closing,
    /// Nothing is left to do.
    Closed,
}

/// The outcome of an operation on a connection.
#[derive(Debug, PartialEq, Eq)]
pub enum ConnectionEvent {
    /// The whole greeting was written.
    Written,
    /// Writing the greeting failed.
    WriteFailed { detail: String },
    /// The write side was shut down.
    ShutDown,
    /// Shutting down the write side failed.
    ShutdownFailed { detail: String },
}

/// The outcome of an operation on a connection, as plain values.
pub enum ConnectionEventView {
    Written,
    WriteFailed { detail: Seq<char> },
    ShutDown,
    ShutdownFailed { detail: Seq<char> },
}

impl View for ConnectionEvent {
    type V = ConnectionEventView;

    open spec fn view(&self) -> ConnectionEventView {
        match self {
            ConnectionEvent::Written => ConnectionEventView::Written,
            ConnectionEvent::WriteFailed { detail } => ConnectionEventView::WriteFailed {
                detail: detail@,
            },
            ConnectionEvent::ShutDown => ConnectionEventView::ShutDown,
            ConnectionEvent::ShutdownFailed { detail } => ConnectionEventView::ShutdownFailed {
                detail: detail@,
            },
        }
    }
}

/// What the driver of a connection does next.
#[derive(Debug, PartialEq, Eq)]
pub enum ConnectionAction {
    /// Print the notice, then shut down the write side of the connection and
    /// report `ShutDown` or `ShutdownFailed`.
    Shutdown { notice: Notice },
    /// Print the notice; the connection is done with.
    Report { notice: Notice },
    /// The connection is done with.
    Finish,
}

/// What the driver of a connection does next, as plain values.
pub enum ConnectionActionView {
    Shutdown { notice: NoticeView },
    Report { notice: NoticeView },
    Finish,
}

impl View for ConnectionAction {
    type V = ConnectionActionView;

    open spec fn view(&self) -> ConnectionActionView {
        match self {
            ConnectionAction::Shutdown { notice } => ConnectionActionView::Shutdown {
                notice: notice@,
            },
            ConnectionAction::Report { notice } => ConnectionActionView::Report { notice: notice@ },
            ConnectionAction::Finish => ConnectionActionView::Finish,
        }
    }
}

/// The handler of one accepted connection.
///
/// The driver writes `greeting()` to the connection and reports `Written` or
/// `WriteFailed`; from then on it does what `step` answers.
#[derive(Debug, PartialEq, Eq)]
pub struct Connection {
    peer: Peer,
    state: ConnectionState,
}

/// The handler of one connection, as plain values.
pub struct ConnectionView {
    pub peer: PeerView,
    pub state: ConnectionState,
}

impl View for Connection {
    type V = ConnectionView;

    closed spec fn view(&self) -> ConnectionView {
        ConnectionView { peer: self.peer@, state: self.state }
    }
}

/// The handler of a connection from `peer`, before anything was written.
pub open spec fn fresh_connection(peer: PeerView) -> ConnectionView {
    ConnectionView { peer, state: ConnectionState::Greeting }
}

/// The greeting that is written to a connection: the one message that its
/// client receives.
pub open spec fn connection_greeting_text(connection: ConnectionView) -> Seq<char> {
    peer_greeting_text(connection.peer, Protocol::Tcp)
}

/// Whether the handler of a connection in `state` is waiting for `event`.
pub open spec fn connection_awaits(state: ConnectionState, event: ConnectionEventView) -> bool {
    match (state, event) {
        (ConnectionState::Greeting, ConnectionEventView::Written) => true,
        (ConnectionState::Greeting, ConnectionEventView::WriteFailed { .. }) => true,
        (ConnectionState::Closing, ConnectionEventView::ShutDown) => true,
        (ConnectionState::Closing, ConnectionEventView::ShutdownFailed { .. }) => true,
        _ => false,
    }
}

/// The state of a connection's handler after an event.
///
/// Whether the write succeeded or failed, the write side is shut down next;
/// whether the shutdown succeeded or failed, the connection is then done
/// with. An event that the handler was not waiting for ends it.
pub open spec fn connection_next_state(
    state: ConnectionState,
    event: ConnectionEventView,
) -> ConnectionState {
    match (state, event) {
        (ConnectionState::Greeting, ConnectionEventView::Written) => ConnectionState::Closing,
        (ConnectionState::Greeting, ConnectionEventView::WriteFailed { .. }) => {
            ConnectionState::Closing
        },
        _ => ConnectionState::Closed,
    }
}

/// The action with which a connection's handler answers an event.
///
/// A written greeting is recorded on standard output, a failed write and a
/// failed shutdown are reported on standard error, and nothing is written to
/// the connection after the greeting.
pub open spec fn connection_action(
    connection: ConnectionView,
    event: ConnectionEventView,
) -> ConnectionActionView {
    match (connection.state, event) {
        (ConnectionState::Greeting, ConnectionEventView::Written) => {
            ConnectionActionView::Shutdown {
                notice: accepted_notice_view(connection.peer, Protocol::Tcp),
            }
        },
        (ConnectionState::Greeting, ConnectionEventView::WriteFailed { detail }) => {
            ConnectionActionView::Shutdown {
                notice: fault_notice_view(Protocol::Tcp, Fault::Write, detail),
            }
        },
        (ConnectionState::Closing, ConnectionEventView::ShutdownFailed { detail }) => {
            ConnectionActionView::Report {
                notice: fault_notice_view(Protocol::Tcp, Fault::Shutdown, detail),
            }
        },
        _ => ConnectionActionView::Finish,
    }
}

impl Connection {
    /// The handler of a connection that was just accepted from `peer`.
    pub fn new(peer: Peer) -> (connection: Connection)
        ensures
            connection@ == fresh_connection(peer@),
    {
        Connection { peer, state: ConnectionState::Greeting }
    }

    /// The client at the other end.
    pub fn peer(&self) -> (peer: &Peer)
        ensures
            peer@ == self@.peer,
    {
        &self.peer
    }

    /// Where the handler stands.
    pub fn state(&self) -> (state: ConnectionState)
        ensures
            state == self@.state,
    {
        self.state
    }

    /// The greeting to write to the connection: the one and only message
    /// that the client receives.
    pub fn greeting(&self) -> (msg: String)
        ensures
            msg@ == connection_greeting_text(self@),
    {
        self.peer.greeting(Protocol::Tcp)
    }

    /// Takes the outcome of the operation that the driver performed and
    /// answers with what to do next.
    pub fn step(&mut self, event: ConnectionEvent) -> (action: ConnectionAction)
        ensures
            final(self)@.peer == old(self)@.peer,
            final(self)@.state == connection_next_state(old(self)@.state, event@),
            action@ == connection_action(old(self)@, event@),
    {
        match self.state {
            ConnectionState::Greeting => match event {
                ConnectionEvent::Written => {
                    self.state = ConnectionState::Closing;
                    ConnectionAction::Shutdown {
                        notice: accepted_notice(&self.peer, Protocol::Tcp),
                    }
                },
                ConnectionEvent::WriteFailed { detail } => {
                    self.state = ConnectionState::Closing;
                    ConnectionAction::Shutdown {
                        notice: fault_notice(Protocol::Tcp, Fault::Write, detail.as_str()),
                    }
                },
                _ => {
                    self.state = ConnectionState::Closed;
                    ConnectionAction::Finish
                },
            },
            ConnectionState::Closing => {
                self.state = ConnectionState::Closed;
                match event {
                    ConnectionEvent::ShutdownFailed { detail } => ConnectionAction::Report {
                        notice: fault_notice(Protocol::Tcp, Fault::Shutdown, detail.as_str()),
                    },
                    _ => ConnectionAction::Finish,
                }
            },
            ConnectionState::Closed => ConnectionAction::Finish,
        }
    }
}

/// Whatever the outcome of the write, the write side is shut down next: the
/// client sees the end of the stream whether or not the greeting reached it.
pub proof fn lemma_write_outcome_shuts_down(peer: PeerView, event: ConnectionEventView)
    requires
        connection_awaits(ConnectionState::Greeting, event),
    ensures
        connection_action(fresh_connection(peer), event) is Shutdown,
        connection_next_state(ConnectionState::Greeting, event) == ConnectionState::Closing,
        event is Written ==> connection_action(fresh_connection(peer), event)
            == (ConnectionActionView::Shutdown {
            notice: accepted_notice_view(peer, Protocol::Tcp),
        }),
{
}

/// A handler is done after two events, whatever they are and from wherever
/// it starts, and it stays done.
pub proof fn lemma_connection_ends(
    state: ConnectionState,
    first: ConnectionEventView,
    second: ConnectionEventView,
    later: ConnectionEventView,
)
    ensures
        connection_next_state(connection_next_state(state, first), second)
            == ConnectionState::Closed,
        connection_next_state(ConnectionState::Closed, later) == ConnectionState::Closed,
{
}

/// Where the listener stands.
#[derive(Debug, Clone, Copy, PartialEq, Eq, Structural)]
pub enum ListenerState {
    /// The socket is being bound.
    Binding,
    /// The socket is bound and connections are accepted.
    Accepting,
    /// The listener has ended.
    Stopped,
}

/// The outcome of an operation of the listener.
#[derive(Debug, PartialEq, Eq)]
pub enum ListenerEvent {
    /// The socket was bound.
    Bound,
    /// Binding the socket failed.
    BindFailed { detail: String },
    /// A connection was accepted from `peer`.
    Accepted { peer: Peer },
    /// Accepting a connection failed.
    AcceptFailed { detail: String },
}

/// The outcome of an operation of the listener, as plain values.
pub enum ListenerEventView {
    Bound,
    BindFailed { detail: Seq<char> },
    Accepted { peer: PeerView },
    AcceptFailed { detail: Seq<char> },
}

impl View for ListenerEvent {
    type V = ListenerEventView;

    open spec fn view(&self) -> ListenerEventView {
        match self {
            ListenerEvent::Bound => ListenerEventView::Bound,
            ListenerEvent::BindFailed { detail } => ListenerEventView::BindFailed {
                detail: detail@,
            },
            ListenerEvent::Accepted { peer } => ListenerEventView::Accepted { peer: peer@ },
            ListenerEvent::AcceptFailed { detail } => ListenerEventView::AcceptFailed {
                detail: detail@,
            },
        }
    }
}

/// What the driver of the listener does next.
#[derive(Debug, PartialEq, Eq)]
pub enum ListenerAction {
    /// Print the notice, then accept a connection and report `Accepted` or
    /// `AcceptFailed`.
    Accept { notice: Notice },
    /// Hand the connection that was just accepted to a task of its own, which
    /// drives `connection`; without waiting for it, accept the next
    /// connection and report `Accepted` or `AcceptFailed`.
    Serve { connection: Connection },
    /// Print the notice and end the listener.
    Abort { notice: Notice },
    /// End the listener.
    Halt,
}

/// What the driver of the listener does next, as plain values.
pub enum ListenerActionView {
    Accept { notice: NoticeView },
    Serve { connection: ConnectionView },
    Abort { notice: NoticeView },
    Halt,
}

impl View for ListenerAction {
    type V = ListenerActionView;

    open spec fn view(&self) -> ListenerActionView {
        match self {
            ListenerAction::Accept { notice } => ListenerActionView::Accept { notice: notice@ },
            ListenerAction::Serve { connection } => ListenerActionView::Serve {
                connection: connection@,
            },
            ListenerAction::Abort { notice } => ListenerActionView::Abort { notice: notice@ },
            ListenerAction::Halt => ListenerActionView::Halt,
        }
    }
}

/// The listener of the TCP responder.
///
/// The driver binds a stream listener to `address()` and reports `Bound` or
/// `BindFailed`; from then on it does what `step` answers.
#[derive(Debug, PartialEq, Eq)]
pub struct Listener {
    endpoint: Endpoint,
    color: bool,
    state: ListenerState,
}

/// The listener, as plain values.
pub struct ListenerView {
    pub endpoint: EndpointView,
    pub color: bool,
    pub state: ListenerState,
}

impl View for Listener {
    type V = ListenerView;

    closed spec fn view(&self) -> ListenerView {
        ListenerView { endpoint: self.endpoint@, color: self.color, state: self.state }
    }
}

/// The state of the listener after an event.
///
/// Only a failed bind ends the listener. A failed accept does not: it is
/// reported and the next connection is accepted, as a failed receive is
/// passed over on the UDP side. An event that the listener was not waiting
/// for ends it.
pub open spec fn listener_next_state(state: ListenerState, event: ListenerEventView) -> ListenerState {
    match (state, event) {
        (ListenerState::Binding, ListenerEventView::Bound) => ListenerState::Accepting,
        (ListenerState::Accepting, ListenerEventView::Accepted { .. }) => ListenerState::Accepting,
        (ListenerState::Accepting, ListenerEventView::AcceptFailed { .. }) => {
            ListenerState::Accepting
        },
        _ => ListenerState::Stopped,
    }
}

/// The action with which the listener answers an event.
pub open spec fn listener_action(listener: ListenerView, event: ListenerEventView) -> ListenerActionView {
    match (listener.state, event) {
        (ListenerState::Binding, ListenerEventView::Bound) => ListenerActionView::Accept {
            notice: listening_notice_view(Protocol::Tcp, listener.endpoint, listener.color),
        },
        (ListenerState::Binding, ListenerEventView::BindFailed { detail }) => {
            ListenerActionView::Abort {
                notice: fault_notice_view(Protocol::Tcp, Fault::Bind, detail),
            }
        },
        (ListenerState::Accepting, ListenerEventView::Accepted { peer }) => {
            ListenerActionView::Serve { connection: fresh_connection(peer) }
        },
        (ListenerState::Accepting, ListenerEventView::AcceptFailed { detail }) => {
            ListenerActionView::Accept {
                notice: fault_notice_view(Protocol::Tcp, Fault::Accept, detail),
            }
        },
        _ => ListenerActionView::Halt,
    }
}

/// Whether the listener in `state` is waiting for `event`.
pub open spec fn listener_awaits(state: ListenerState, event: ListenerEventView) -> bool {
    match (state, event) {
        (ListenerState::Binding, ListenerEventView::Bound) => true,
        (ListenerState::Binding, ListenerEventView::BindFailed { .. }) => true,
        (ListenerState::Accepting, ListenerEventView::Accepted { .. }) => true,
        (ListenerState::Accepting, ListenerEventView::AcceptFailed { .. }) => true,
        _ => false,
    }
}

/// The state of the listener after a run of events, taken in order.
pub open spec fn listener_state_after(
    state: ListenerState,
    events: Seq<ListenerEventView>,
) -> ListenerState
    decreases events.len(),
{
    if events.len() == 0 {
        state
    } else {
        listener_next_state(listener_state_after(state, events.drop_last()), events.last())
    }
}

/// The listener as it stands after a run of events: only its state moves.
pub open spec fn listener_after(
    listener: ListenerView,
    events: Seq<ListenerEventView>,
) -> ListenerView {
    ListenerView {
        endpoint: listener.endpoint,
        color: listener.color,
        state: listener_state_after(listener.state, events),
    }
}

impl Listener {
    /// A listener for `endpoint` that has not bound its socket yet. With
    /// `color` set, the line that announces the bound socket is highlighted.
    pub fn new(endpoint: Endpoint, color: bool) -> (listener: Listener)
        ensures
            listener@ == (ListenerView {
                endpoint: endpoint@,
                color,
                state: ListenerState::Binding,
            }),
    {
        Listener { endpoint, color, state: ListenerState::Binding }
    }

    /// Where the listener stands.
    pub fn state(&self) -> (state: ListenerState)
        ensures
            state == self@.state,
    {
        self.state
    }

    /// The address to bind the socket to, `<host>:<port>`.
    pub fn address(&self) -> (address: String)
        ensures
            address@ == address_text(self@.endpoint.host, self@.endpoint.port),
    {
        self.endpoint.address()
    }

    /// Takes the outcome of the operation that the driver performed and
    /// answers with what to do next.
    pub fn step(&mut self, event: ListenerEvent) -> (action: ListenerAction)
        ensures
            final(self)@.endpoint == old(self)@.endpoint,
            final(self)@.color == old(self)@.color,
            final(self)@.state == listener_next_state(old(self)@.state, event@),
            action@ == listener_action(old(self)@, event@),
    {
        match self.state {
            ListenerState::Binding => match event {
                ListenerEvent::Bound => {
                    self.state = ListenerState::Accepting;
                    ListenerAction::Accept {
                        notice: listening_notice(Protocol::Tcp, &self.endpoint, self.color),
                    }
                },
                ListenerEvent::BindFailed { detail } => {
                    self.state = ListenerState::Stopped;
                    ListenerAction::Abort {
                        notice: fault_notice(Protocol::Tcp, Fault::Bind, detail.as_str()),
                    }
                },
                _ => {
                    self.state = ListenerState::Stopped;
                    ListenerAction::Halt
                },
            },
            ListenerState::Accepting => match event {
                ListenerEvent::Accepted { peer } => ListenerAction::Serve {
                    connection: Connection::new(peer),
                },
                ListenerEvent::AcceptFailed { detail } => ListenerAction::Accept {
                    notice: fault_notice(Protocol::Tcp, Fault::Accept, detail.as_str()),
                },
                _ => {
                    self.state = ListenerState::Stopped;
                    ListenerAction::Halt
                },
            },
            ListenerState::Stopped => ListenerAction::Halt,
        }
    }
}

/// Of the outcomes that the listener waits for, a failed bind is the only one
/// that ends it; an event that it does not wait for ends it without a word.
pub proof fn lemma_only_failed_bind_ends_listener(
    listener: ListenerView,
    event: ListenerEventView,
)
    ensures
        listener_awaits(listener.state, event) ==> (listener_next_state(listener.state, event)
            == ListenerState::Stopped <==> event is BindFailed),
        !listener_awaits(listener.state, event) ==> listener_next_state(listener.state, event)
            == ListenerState::Stopped && listener_action(listener, event)
            == ListenerActionView::Halt,
{
}

/// A listener that has ended stays so, and answers every event with `Halt`.
pub proof fn lemma_stopped_listener_stays_stopped(
    listener: ListenerView,
    events: Seq<ListenerEventView>,
    event: ListenerEventView,
)
    requires
        listener.state == ListenerState::Stopped,
    ensures
        listener_state_after(listener.state, events) == ListenerState::Stopped,
        listener_action(listener_after(listener, events), event) == ListenerActionView::Halt,
    decreases events.len(),
{
    if events.len() > 0 {
        lemma_stopped_listener_stays_stopped(listener, events.drop_last(), event);
    }
}

/// Once its socket is bound, no outcome of an accept ends the listener: it
/// accepts for as long as the driver reports what it is waiting for.
pub proof fn lemma_listener_keeps_accepting(events: Seq<ListenerEventView>)
    requires
        forall|i: int|
            0 <= i < events.len() ==> listener_awaits(
                ListenerState::Accepting,
                #[trigger] events[i],
            ),
    ensures
        listener_state_after(ListenerState::Accepting, events) == ListenerState::Accepting,
    decreases events.len(),
{
    if events.len() > 0 {
        let before = events.drop_last();
        assert forall|i: int| 0 <= i < before.len() implies listener_awaits(
            ListenerState::Accepting,
            #[trigger] before[i],
        ) by {
            assert(before[i] == events[i]);
        }
        lemma_listener_keeps_accepting(before);
        assert(listener_awaits(ListenerState::Accepting, events.last()));
    }
}

/// Each accepted connection is served on its own: however many outcomes of
/// accepts came before it, the handler it gets is a fresh one for its own
/// client, and the greeting of that handler names that client alone.
pub proof fn lemma_each_connection_greets_its_peer(
    listener: ListenerView,
    earlier: Seq<ListenerEventView>,
    peer: PeerView,
)
    requires
        listener.state == ListenerState::Accepting,
        forall|i: int|
            0 <= i < earlier.len() ==> listener_awaits(
                ListenerState::Accepting,
                #[trigger] earlier[i],
            ),
    ensures
        listener_action(listener_after(listener, earlier), ListenerEventView::Accepted { peer })
            == (ListenerActionView::Serve { connection: fresh_connection(peer) }),
        connection_greeting_text(fresh_connection(peer)) == peer_greeting_text(
            peer,
            Protocol::Tcp,
        ),
{
    lemma_listener_keeps_accepting(earlier);
}

} // verus!
