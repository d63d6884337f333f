//! The UDP responder: it answers every datagram with the greeting, one
//! datagram at a time.
//!
//! It touches no socket. A driver performs each operation and reports its
//! outcome as an event; the answer is the action to take next.

use crate::config::{address_text, Endpoint, EndpointView};
use crate::console::{
    accepted_notice, accepted_notice_view, fault_notice, fault_notice_view, listening_notice,
    listening_notice_view, Fault, Notice, NoticeView,
};
use crate::greeting::{peer_greeting_text, Peer, PeerView, Protocol};
use vstd::prelude::*;

verus! {

/// The size in bytes of the buffer into which a datagram is received. What a
/// datagram holds beyond it is dropped by the receive operation.
pub const RECEIVE_BUFFER_SIZE: usize = 1024;

/// Where the responder stands.
#[derive(Debug, PartialEq, Eq)]
pub enum UdpState {
    /// The socket is being bound.
    Binding,
    /// The socket is bound and a datagram is awaited.
    Receiving,
    /// The greeting is being sent to `peer`.
    Replying { peer: Peer },
    /// The responder has ended.
    Stopped,
}

/// Where the responder stands, as plain values.
pub enum UdpStateView {
    Binding,
    Receiving,
    Replying { peer: PeerView },
    Stopped,
}

impl View for UdpState {
    type V = UdpStateView;

    open spec fn view(&self) -> UdpStateView {
        match self {
            UdpState::Binding => UdpStateView::Binding,
            UdpState::Receiving => UdpStateView::Receiving,
            UdpState::Replying { peer } => UdpStateView::Replying { peer: peer@ },
            UdpState::Stopped => UdpStateView::Stopped,
        }
    }
}

/// The outcome of an operation of the responder.
#[derive(Debug, PartialEq, Eq)]
pub enum UdpEvent {
    /// The socket was bound.
    Bound,
    /// Binding the socket failed.
    BindFailed { detail: String },
    /// A datagram came from `from`, and `len` bytes of it were stored in the
    /// buffer.
    Received { from: Peer, len: usize },
    /// Receiving a datagram failed.
    ReceiveFailed { detail: String },
    /// The greeting was sent.
    Sent,
    /// Sending the greeting failed.
    SendFailed { detail: String },
}

/// The outcome of an operation of the responder, as plain values.
pub enum UdpEventView {
    Bound,
    BindFailed { detail: Seq<char> },
    Received { from: PeerView, len: usize },
    ReceiveFailed { detail: Seq<char> },
    Sent,
    SendFailed { detail: Seq<char> },
}

impl View for UdpEvent {
    type V = UdpEventView;

    open spec fn view(&self) -> UdpEventView {
        match self {
            UdpEvent::Bound => UdpEventView::Bound,
            UdpEvent::BindFailed { detail } => UdpEventView::BindFailed { detail: detail@ },
            UdpEvent::Received { from, len } => UdpEventView::Received { from: from@, len: *len },
            UdpEvent::ReceiveFailed { detail } => UdpEventView::ReceiveFailed { detail: detail@ },
            UdpEvent::Sent => UdpEventView::Sent,
            UdpEvent::SendFailed { detail } => UdpEventView::SendFailed { detail: detail@ },
        }
    }
}

/// What the driver of the responder does next.
#[derive(Debug, PartialEq, Eq)]
pub enum UdpAction {
    /// Print the notice, then receive a datagram into a buffer of
    /// `RECEIVE_BUFFER_SIZE` bytes and report `Received` or `ReceiveFailed`.
    Receive { notice: Notice },
    /// Send `message` as one datagram to the client at `to`, from which the
    /// last datagram came, and report `Sent` or `SendFailed`.
    Reply { message: String, to: Peer },
    /// Print the notice and end the responder.
    Abort { notice: Notice },
    /// End the responder.
    Halt,
}

/// What the driver of the responder does next, as plain values.
pub enum UdpActionView {
    Receive { notice: NoticeView },
    Reply { message: Seq<char>, to: PeerView },
    Abort { notice: NoticeView },
    Halt,
}

impl View for UdpAction {
    type V = UdpActionView;

    open spec fn view(&self) -> UdpActionView {
        match self {
            UdpAction::Receive { notice } => UdpActionView::Receive { notice: notice@ },
            UdpAction::Reply { message, to } => UdpActionView::Reply {
                message: message@,
                to: to@,
            },
            UdpAction::Abort { notice } => UdpActionView::Abort { notice: notice@ },
            UdpAction::Halt => UdpActionView::Halt,
        }
    }
}

/// The UDP responder.
///
/// The driver binds a datagram socket to `address()` and reports `Bound` or
/// `BindFailed`; from then on it does what `step` answers.
#[derive(Debug, PartialEq, Eq)]
pub struct UdpResponder {
    endpoint: Endpoint,
    color: bool,
    state: UdpState,
}

/// The responder, as plain values.
pub struct UdpResponderView {
    pub endpoint: EndpointView,
    pub color: bool,
    pub state: UdpStateView,
}

impl View for UdpResponder {
    type V = UdpResponderView;

    closed spec fn view(&self) -> UdpResponderView {
        UdpResponderView { endpoint: self.endpoint@, color: self.color, state: self.state@ }
    }
}

/// The state of the responder after an event.
///
/// Only a failed bind ends the responder: a failed receive and a failed send
/// are passed over, and the next datagram is awaited. An event that the
/// responder was not waiting for ends it.
pub open spec fn udp_next_state(state: UdpStateView, event: UdpEventView) -> UdpStateView {
    match (state, event) {
        (UdpStateView::Binding, UdpEventView::Bound) => UdpStateView::Receiving,
        (UdpStateView::Receiving, UdpEventView::Received { from, .. }) => UdpStateView::Replying {
            peer: from,
        },
        (UdpStateView::Receiving, UdpEventView::ReceiveFailed { .. }) => UdpStateView::Receiving,
        (UdpStateView::Replying { .. }, UdpEventView::Sent) => UdpStateView::Receiving,
        (UdpStateView::Replying { .. }, UdpEventView::SendFailed { .. }) => UdpStateView::Receiving,
        _ => UdpStateView::Stopped,
    }
}

/// The action with which the responder answers an event.
///
/// Every datagram is answered with the greeting for its sender, whatever it
/// holds and however long it is. A sent greeting is recorded on standard
/// output; a failed operation is reported on standard error.
pub open spec fn udp_action(responder: UdpResponderView, event: UdpEventView) -> UdpActionView {
    match (responder.state, event) {
        (UdpStateView::Binding, UdpEventView::Bound) => UdpActionView::Receive {
            notice: listening_notice_view(Protocol::Udp, responder.endpoint, responder.color),
        },
        (UdpStateView::Binding, UdpEventView::BindFailed { detail }) => UdpActionView::Abort {
            notice: fault_notice_view(Protocol::Udp, Fault::Bind, detail),
        },
        (UdpStateView::Receiving, UdpEventView::Received { from, .. }) => UdpActionView::Reply {
            message: peer_greeting_text(from, Protocol::Udp),
            to: from,
        },
        (UdpStateView::Receiving, UdpEventView::ReceiveFailed { detail }) => {
            UdpActionView::Receive {
                notice: fault_notice_view(Protocol::Udp, Fault::Receive, detail),
            }
        },
        (UdpStateView::Replying { peer }, UdpEventView::Sent) => UdpActionView::Receive {
            notice: accepted_notice_view(peer, Protocol::Udp),
        },
        (UdpStateView::Replying { .. }, UdpEventView::SendFailed { detail }) => {
            UdpActionView::Receive { notice: fault_notice_view(Protocol::Udp, Fault::Send, detail) }
        },
        _ => UdpActionView::Halt,
    }
}

impl UdpResponder {
    /// A responder for `endpoint` that has not bound its socket yet. With
    /// `color` set, the line that announces the bound socket is highlighted.
    pub fn new(endpoint: Endpoint, color: bool) -> (responder: UdpResponder)
        ensures
            responder@ == (UdpResponderView {
                endpoint: endpoint@,
                color,
                state: UdpStateView::Binding,
            }),
    {
        UdpResponder { endpoint, color, state: UdpState::Binding }
    }

    /// Where the responder stands.
    pub fn state(&self) -> (state: &UdpState)
        ensures
            state@ == self@.state,
    {
        &self.state
    }

    /// The address to bind the socket to, `<host>:<port>`.
    pub fn address(&self) -> (address: String)
        ensures
            address@ == address_text(self@.endpoint.host, self@.endpoint.port),
    {
        self.endpoint.address()
    }

    /// Takes the outcome of the operation that the driver performed and
    /// answers with what to do next.
    pub fn step(&mut self, event: UdpEvent) -> (action: UdpAction)
        ensures
            final(self)@.endpoint == old(self)@.endpoint,
            final(self)@.color == old(self)@.color,
            final(self)@.state == udp_next_state(old(self)@.state, event@),
            action@ == udp_action(old(self)@, event@),
    {
        let (state, action) = match &self.state {
            UdpState::Binding => match event {
                UdpEvent::Bound => (
                    UdpState::Receiving,
                    UdpAction::Receive {
                        notice: listening_notice(Protocol::Udp, &self.endpoint, self.color),
                    },
                ),
                UdpEvent::BindFailed { detail } => (
                    UdpState::Stopped,
                    UdpAction::Abort {
                        notice: fault_notice(Protocol::Udp, Fault::Bind, detail.as_str()),
                    },
                ),
                _ => (UdpState::Stopped, UdpAction::Halt),
            },
            UdpState::Receiving => match event {
                UdpEvent::Received { from, len: _ } => {
                    let message = from.greeting(Protocol::Udp);
                    let to = from.clone();
                    (UdpState::Replying { peer: from }, UdpAction::Reply { message, to })
                },
                UdpEvent::ReceiveFailed { detail } => (
                    UdpState::Receiving,
                    UdpAction::Receive {
                        notice: fault_notice(Protocol::Udp, Fault::Receive, detail.as_str()),
                    },
                ),
                _ => (UdpState::Stopped, UdpAction::Halt),
            },
            UdpState::Replying { peer } => match event {
                UdpEvent::Sent => (
                    UdpState::Receiving,
                    UdpAction::Receive { notice: accepted_notice(peer, Protocol::Udp) },
                ),
                UdpEvent::SendFailed { detail } => (
                    UdpState::Receiving,
                    UdpAction::Receive {
                        notice: fault_notice(Protocol::Udp, Fault::Send, detail.as_str()),
                    },
                ),
                _ => (UdpState::Stopped, UdpAction::Halt),
            },
            UdpState::Stopped => (UdpState::Stopped, UdpAction::Halt),
        };
        self.state = state;
        action
    }
}

/// Whether the responder in `state` is waiting for `event`.
pub open spec fn udp_awaits(state: UdpStateView, event: UdpEventView) -> bool {
    match (state, event) {
        (UdpStateView::Binding, UdpEventView::Bound) => true,
        (UdpStateView::Binding, UdpEventView::BindFailed { .. }) => true,
        (UdpStateView::Receiving, UdpEventView::Received { .. }) => true,
        (UdpStateView::Receiving, UdpEventView::ReceiveFailed { .. }) => true,
        (UdpStateView::Replying { .. }, UdpEventView::Sent) => true,
        (UdpStateView::Replying { .. }, UdpEventView::SendFailed { .. }) => true,
        _ => false,
    }
}

/// Whether the responder in `state` has bound its socket and not ended.
pub open spec fn udp_serving(state: UdpStateView) -> bool {
    state is Receiving || state is Replying
}

/// The state of the responder after a run of events, taken in order.
pub open spec fn udp_state_after(state: UdpStateView, events: Seq<UdpEventView>) -> UdpStateView
    decreases events.len(),
{
    if events.len() == 0 {
        state
    } else {
        udp_next_state(udp_state_after(state, events.drop_last()), events.last())
    }
}

/// The responder as it stands after a run of events: only its state moves.
pub open spec fn udp_after(responder: UdpResponderView, events: Seq<UdpEventView>) -> UdpResponderView {
    UdpResponderView {
        endpoint: responder.endpoint,
        color: responder.color,
        state: udp_state_after(responder.state, events),
    }
}

/// Whether each event of a run is one that the responder is waiting for
/// when it comes.
pub open spec fn udp_run_awaited(state: UdpStateView, events: Seq<UdpEventView>) -> bool {
    forall|i: int|
        0 <= i < events.len() ==> udp_awaits(
            udp_state_after(state, #[trigger] events.take(i)),
            events[i],
        )
}

/// Of the outcomes that the responder waits for, a failed bind is the only
/// one that ends it; an event that it does not wait for ends it without a
/// word.
pub proof fn lemma_only_failed_bind_ends_responder(
    responder: UdpResponderView,
    event: UdpEventView,
)
    ensures
        udp_awaits(responder.state, event) ==> (udp_next_state(responder.state, event) is Stopped
            <==> event is BindFailed),
        !udp_awaits(responder.state, event) ==> udp_next_state(responder.state, event) is Stopped
            && udp_action(responder, event) == UdpActionView::Halt,
{
}

/// A responder that has ended stays so, and answers every event with `Halt`.
pub proof fn lemma_stopped_responder_stays_stopped(
    responder: UdpResponderView,
    events: Seq<UdpEventView>,
    event: UdpEventView,
)
    requires
        responder.state is Stopped,
    ensures
        udp_state_after(responder.state, events) is Stopped,
        udp_action(udp_after(responder, events), event) == UdpActionView::Halt,
    decreases events.len(),
{
    if events.len() > 0 {
        lemma_stopped_responder_stays_stopped(responder, events.drop_last(), event);
    }
}

/// Once its socket is bound, no outcome of a receive or of a send ends the
/// responder: it serves for as long as the driver reports what it is
/// waiting for.
pub proof fn lemma_responder_keeps_serving(state: UdpStateView, events: Seq<UdpEventView>)
    requires
        udp_serving(state),
        udp_run_awaited(state, events),
    ensures
        udp_serving(udp_state_after(state, events)),
    decreases events.len(),
{
    if events.len() > 0 {
        let before = events.drop_last();
        assert forall|i: int| 0 <= i < before.len() implies udp_awaits(
            udp_state_after(state, #[trigger] before.take(i)),
            before[i],
        ) by {
            assert(before.take(i) =~= events.take(i));
            assert(before[i] == events[i]);
        }
        lemma_responder_keeps_serving(state, before);
        assert(events.take(events.len() - 1) =~= before);
        assert(udp_awaits(udp_state_after(state, before), events.last()));
    }
}

/// Every datagram is answered, once and to its sender: however the earlier
/// rounds went, a datagram that arrives while the responder awaits one draws
/// the greeting for its sender, addressed to that sender, and the outcome of
/// sending it, good or bad, leads back to receiving and to no second reply.
pub proof fn lemma_datagram_answered_once(
    responder: UdpResponderView,
    earlier: Seq<UdpEventView>,
    from: PeerView,
    len: usize,
    outcome: UdpEventView,
)
    requires
        udp_state_after(responder.state, earlier) is Receiving,
        outcome is Sent || outcome is SendFailed,
    ensures
        udp_action(udp_after(responder, earlier), UdpEventView::Received { from, len })
            == (UdpActionView::Reply { message: peer_greeting_text(from, Protocol::Udp), to: from }),
        udp_action(
            udp_after(responder, earlier.push(UdpEventView::Received { from, len })),
            outcome,
        ) is Receive,
        udp_state_after(
            responder.state,
            earlier.push(UdpEventView::Received { from, len }).push(outcome),
        ) is Receiving,
{
    let received = UdpEventView::Received { from, len };
    let one = earlier.push(received);
    let two = one.push(outcome);
    assert(one.drop_last() =~= earlier);
    assert(two.drop_last() =~= one);
}

/// The answer to a datagram depends on its sender alone: how many bytes of
/// it were received changes neither the reply nor the state that follows.
pub proof fn lemma_reply_ignores_length(
    responder: UdpResponderView,
    from: PeerView,
    len: usize,
    other_len: usize,
)
    ensures
        udp_action(responder, UdpEventView::Received { from, len }) == udp_action(
            responder,
            UdpEventView::Received { from, len: other_len },
        ),
        udp_next_state(responder.state, UdpEventView::Received { from, len }) == udp_next_state(
            responder.state,
            UdpEventView::Received { from, len: other_len },
        ),
{
}

} // verus!
