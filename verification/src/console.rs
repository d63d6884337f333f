//! The lines that the server prints on its console.

use crate::config::{address_text, Endpoint, EndpointView};
use crate::greeting::{Peer, PeerView, Protocol};
use crate::port::port_text;
use vstd::prelude::*;
use vstd::string::*;

verus! {

/// The stream on which a line is printed.
#[derive(Debug, Clone, Copy, PartialEq, Eq, Structural)]
pub enum Channel {
    /// Standard output: what the server did.
    Stdout,
    /// Standard error: what went wrong.
    Stderr,
}

/// The socket operation that failed.
#[derive(Debug, Clone, Copy, PartialEq, Eq, Structural)]
pub enum Fault {
    /// Binding the socket of a responder.
    Bind,
    /// Accepting a connection.
    Accept,
    /// Writing the greeting to a connection.
    Write,
    /// Shutting down the write side of a connection.
    Shutdown,
    /// Sending the greeting as a datagram.
    Send,
    /// Receiving a datagram.
    Receive,
}

impl Fault {
    /// The word that names the fault in an error line. A failed bind and a
    /// failed accept are faults of the responder as a whole.
    pub open spec fn word_text(self) -> Seq<char> {
        match self {
            Fault::Bind => "server"@,
            Fault::Accept => "server"@,
            Fault::Write => "write"@,
            Fault::Shutdown => "shutdown"@,
            Fault::Send => "send"@,
            Fault::Receive => "recv"@,
        }
    }

    /// The word that names the fault in an error line.
    pub fn word(self) -> (word: &'static str)
        ensures
            word@ == self.word_text(),
    {
        match self {
            Fault::Bind => "server",
            Fault::Accept => "server",
            Fault::Write => "write",
            Fault::Shutdown => "shutdown",
            Fault::Send => "send",
            Fault::Receive => "recv",
        }
    }
}

/// One line for the console, without its line end.
#[derive(Debug, PartialEq, Eq)]
pub struct Notice {
    pub channel: Channel,
    pub text: String,
}

/// What a notice holds, as plain values.
pub struct NoticeView {
    pub channel: Channel,
    pub text: Seq<char>,
}

impl View for Notice {
    type V = NoticeView;

    open spec fn view(&self) -> NoticeView {
        NoticeView { channel: self.channel, text: self.text@ }
    }
}

impl Clone for Notice {
    fn clone(&self) -> (copy: Notice)
        ensures
            copy@ == self@,
    {
        Notice { channel: self.channel, text: self.text.clone() }
    }
}

/// The escape sequence that turns the text after it blue.
pub open spec fn highlight_on_text() -> Seq<char> {
    "\x1b[34m"@
}

/// The escape sequence that ends the highlighting.
pub open spec fn highlight_off_text() -> Seq<char> {
    "\x1b[0m"@
}

/// The line that announces a bound responder, `<NAME> listening on
/// <host>:<port>`, between the two escape sequences where `color` is set.
pub open spec fn listening_text(protocol: Protocol, endpoint: EndpointView, color: bool) -> Seq<
    char,
> {
    let plain = protocol.name_text() + " listening on "@ + address_text(
        endpoint.host,
        endpoint.port,
    );
    if color {
        highlight_on_text() + plain + highlight_off_text()
    } else {
        plain
    }
}

/// The line that records a served client, `* Accepted from <ip>:<port>/<tag>`.
pub open spec fn accepted_text(peer: PeerView, protocol: Protocol) -> Seq<char> {
    "* Accepted from "@ + address_text(peer.ip, peer.port) + "/"@ + protocol.tag_text()
}

/// The line that reports a failed operation, `<NAME> <word> error: <detail>`.
pub open spec fn fault_text(protocol: Protocol, fault: Fault, detail: Seq<char>) -> Seq<char> {
    protocol.name_text() + " "@ + fault.word_text() + " error: "@ + detail
}

/// The notice that announces a bound responder.
pub open spec fn listening_notice_view(
    protocol: Protocol,
    endpoint: EndpointView,
    color: bool,
) -> NoticeView {
    NoticeView { channel: Channel::Stdout, text: listening_text(protocol, endpoint, color) }
}

/// The notice that records a served client.
pub open spec fn accepted_notice_view(peer: PeerView, protocol: Protocol) -> NoticeView {
    NoticeView { channel: Channel::Stdout, text: accepted_text(peer, protocol) }
}

/// The notice that reports a failed operation.
pub open spec fn fault_notice_view(protocol: Protocol, fault: Fault, detail: Seq<char>) -> NoticeView {
    NoticeView { channel: Channel::Stderr, text: fault_text(protocol, fault, detail) }
}

/// Builds the notice that announces a responder bound to `endpoint`. It goes
/// to standard output, and is highlighted where `color` says that the console
/// shows colors.
pub fn listening_notice(protocol: Protocol, endpoint: &Endpoint, color: bool) -> (notice: Notice)
    ensures
        notice@ == listening_notice_view(protocol, endpoint@, color),
{
    let mut text = String::from_str(if color {
        "\x1b[34m"
    } else {
        ""
    });
    text.append(protocol.name());
    text.append(" listening on ");
    let address = endpoint.address();
    text.append(address.as_str());
    if color {
        text.append("\x1b[0m");
    }
    proof {
        reveal_strlit("");
        let plain = protocol.name_text() + " listening on "@ + address_text(
            endpoint.host@,
            endpoint.port,
        );
        if color {
            assert(text@ =~= highlight_on_text() + plain + highlight_off_text());
        } else {
            assert(text@ =~= plain);
        }
    }
    Notice { channel: Channel::Stdout, text }
}

/// Builds the notice that records a client served over `protocol`. It goes to
/// standard output.
pub fn accepted_notice(peer: &Peer, protocol: Protocol) -> (notice: Notice)
    ensures
        notice@ == accepted_notice_view(peer@, protocol),
{
    let mut text = String::from_str("* Accepted from ");
    text.append(peer.ip.as_str());
    text.append(":");
    let port = port_text(peer.port);
    text.append(port.as_str());
    text.append("/");
    text.append(protocol.tag());
    assert(text@ =~= accepted_text(peer@, protocol));
    Notice { channel: Channel::Stdout, text }
}

/// Builds the notice that reports the failure of an operation of the
/// responder for `protocol`, with the detail that the system gave. It goes to
/// standard error.
pub fn fault_notice(protocol: Protocol, fault: Fault, detail: &str) -> (notice: Notice)
    ensures
        notice@ == fault_notice_view(protocol, fault, detail@),
{
    let mut text = String::from_str(protocol.name());
    text.append(" ");
    text.append(fault.word());
    text.append(" error: ");
    text.append(detail);
    Notice { channel: Channel::Stderr, text }
}

} // verus!
