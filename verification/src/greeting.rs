//! The greeting that every client receives.

use vstd::prelude::*;
use vstd::string::*;

verus! {

/// The two protocols on which the server answers.
#[derive(Debug, Clone, Copy, PartialEq, Eq, Structural)]
pub enum Protocol {
    Tcp,
    Udp,
}

impl Protocol {
    /// The text of the tag: `tcp` or `udp`.
    pub open spec fn tag_text(self) -> Seq<char> {
        match self {
            Protocol::Tcp => "tcp"@,
            Protocol::Udp => "udp"@,
        }
    }

    /// The text of the name: `TCP` or `UDP`.
    pub open spec fn name_text(self) -> Seq<char> {
        match self {
            Protocol::Tcp => "TCP"@,
            Protocol::Udp => "UDP"@,
        }
    }

    /// The lower-case tag under which console lines and greetings refer to
    /// the protocol.
    pub fn tag(self) -> (tag: &'static str)
        ensures
            tag@ == self.tag_text(),
    {
        match self {
            Protocol::Tcp => "tcp",
            Protocol::Udp => "udp",
        }
    }

    /// The upper-case name that opens the console lines of a responder.
    pub fn name(self) -> (name: &'static str)
        ensures
            name@ == self.name_text(),
    {
        match self {
            Protocol::Tcp => "TCP",
            Protocol::Udp => "UDP",
        }
    }
}

/// What `str::to_uppercase` returns for a text.
pub uninterp spec fn uppercase_text(text: Seq<char>) -> Seq<char>;

/// Calls `str::to_uppercase`, which maps a text to its upper-case equivalent
/// by the Unicode case tables. The mapping is not written out here: the
/// contract only gives the result its name, `uppercase_text` of the argument.
#[verifier::external_body]
fn uppercase(text: &str) -> (upper: String)
    ensures
        upper@ == uppercase_text(text@),
{
    text.to_uppercase()
}

/// The greeting line for a client at `ip`, under a label that is already in
/// the case in which it is sent: `[<label>] Hello, <ip>!` and a line feed.
pub open spec fn greeting_text(label: Seq<char>, ip: Seq<char>) -> Seq<char> {
    "["@ + label + "] Hello, "@ + ip + "!\n"@
}

/// The greeting for a client at `ip` that arrived over `protocol`: the
/// greeting line under the upper-case form of the protocol's tag.
pub open spec fn gen_msg_text(ip: Seq<char>, protocol: Seq<char>) -> Seq<char> {
    greeting_text(uppercase_text(protocol), ip)
}

/// Builds the greeting line under a label that is sent as it is given.
pub fn greeting_line(label: &str, ip: &str) -> (line: String)
    ensures
        line@ == greeting_text(label@, ip@),
{
    let mut line = String::from_str("[");
    line.append(label);
    line.append("] Hello, ");
    line.append(ip);
    line.append("!\n");
    line
}

/// Builds the greeting for a client: `[<PROTOCOL>] Hello, <ip>!` and a line
/// feed, where `<PROTOCOL>` is the protocol's tag in upper case.
///
/// The client's port is known to the caller and is left out of the message.
pub fn gen_msg(ip: &str, port: u16, protocol: &str) -> (msg: String)
    ensures
        msg@ == gen_msg_text(ip@, protocol@),
{
    let label = uppercase(protocol);
    greeting_line(label.as_str(), ip)
}

/// The address of a client: where a connection or a datagram came from.
#[derive(Debug, PartialEq, Eq)]
pub struct Peer {
    /// The client's IP address, as text.
    pub ip: String,
    /// The client's port.
    pub port: u16,
}

/// What a client address holds, as plain values.
pub struct PeerView {
    pub ip: Seq<char>,
    pub port: u16,
}

impl View for Peer {
    type V = PeerView;

    open spec fn view(&self) -> PeerView {
        PeerView { ip: self.ip@, port: self.port }
    }
}

impl Clone for Peer {
    fn clone(&self) -> (copy: Peer)
        ensures
            copy@ == self@,
    {
        Peer { ip: self.ip.clone(), port: self.port }
    }
}

/// The greeting for the client `peer` that arrived over `protocol`.
pub open spec fn peer_greeting_text(peer: PeerView, protocol: Protocol) -> Seq<char> {
    gen_msg_text(peer.ip, protocol.tag_text())
}

impl Peer {
    /// Builds the greeting that this client receives over `protocol`.
    pub fn greeting(&self, protocol: Protocol) -> (msg: String)
        ensures
            msg@ == peer_greeting_text(self@, protocol),
    {
        gen_msg(self.ip.as_str(), self.port, protocol.tag())
    }
}

/// A greeting is one line: where neither the label nor the address holds a
/// line feed, the greeting ends with one and holds no other.
pub proof fn lemma_greeting_is_one_line(label: Seq<char>, ip: Seq<char>)
    requires
        !label.contains('\n'),
        !ip.contains('\n'),
    ensures
        greeting_text(label, ip).len() > 0,
        forall|i: int|
            0 <= i < greeting_text(label, ip).len() ==> (#[trigger] greeting_text(label, ip)[i]
                == '\n' <==> i == greeting_text(label, ip).len() - 1),
{
    reveal_strlit("[");
    reveal_strlit("] Hello, ");
    reveal_strlit("!\n");
    let line = greeting_text(label, ip);
    let open = "["@;
    let middle = "] Hello, "@;
    let close = "!\n"@;
    assert(line.len() == open.len() + label.len() + middle.len() + ip.len() + close.len());
    assert forall|i: int| 0 <= i < line.len() implies (#[trigger] line[i] == '\n' <==> i
        == line.len() - 1) by {
        let a = open.len() as int;
        let b = a + label.len();
        let c = b + middle.len();
        let d = c + ip.len();
        if i < a {
            assert(line[i] == open[i]);
        } else if i < b {
            assert(line[i] == label[i - a]);
            assert(label.contains(label[i - a]));
        } else if i < c {
            assert(line[i] == middle[i - b]);
        } else if i < d {
            assert(line[i] == ip[i - c]);
            assert(ip.contains(ip[i - c]));
        } else {
            assert(line[i] == close[i - d]);
        }
    }
}

/// A greeting names one client: under one label, the greetings for two
/// addresses are the same text only if the addresses are.
pub proof fn lemma_greeting_names_one_client(label: Seq<char>, ip: Seq<char>, other: Seq<char>)
    requires
        greeting_text(label, ip) == greeting_text(label, other),
    ensures
        ip == other,
{
    let head = "["@ + label + "] Hello, "@;
    let tail = "!\n"@;
    let one = greeting_text(label, ip);
    let two = greeting_text(label, other);
    assert(one.len() == head.len() + ip.len() + tail.len());
    assert(two.len() == head.len() + other.len() + tail.len());
    assert(ip.len() == other.len());
    assert forall|i: int| 0 <= i < ip.len() implies ip[i] == other[i] by {
        assert(one[head.len() + i] == ip[i]);
        assert(two[head.len() + i] == other[i]);
    }
    assert(ip =~= other);
}

} // verus!
