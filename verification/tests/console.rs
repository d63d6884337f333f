use greeter::config::Endpoint;
use greeter::console::{accepted_notice, fault_notice, listening_notice, Channel, Fault, Notice};
use greeter::greeting::{Peer, Protocol};

fn endpoint() -> Endpoint {
    Endpoint { host: "0.0.0.0".to_string(), port: 1234 }
}

fn peer() -> Peer {
    Peer { ip: "203.0.113.5".to_string(), port: 54321 }
}

#[test]
fn listening_notice_names_protocol_and_endpoint() {
    assert_eq!(
        listening_notice(Protocol::Tcp, &endpoint(), false),
        Notice { channel: Channel::Stdout, text: "TCP listening on 0.0.0.0:1234".to_string() }
    );
    assert_eq!(
        listening_notice(Protocol::Udp, &endpoint(), false),
        Notice { channel: Channel::Stdout, text: "UDP listening on 0.0.0.0:1234".to_string() }
    );
}

#[test]
fn listening_notice_in_color_is_wrapped_in_blue() {
    assert_eq!(
        listening_notice(Protocol::Tcp, &endpoint(), true),
        Notice {
            channel: Channel::Stdout,
            text: "\x1b[34mTCP listening on 0.0.0.0:1234\x1b[0m".to_string(),
        }
    );
    assert_eq!(
        listening_notice(Protocol::Udp, &endpoint(), true).text.as_bytes(),
        b"\x1b[34mUDP listening on 0.0.0.0:1234\x1b[0m"
    );
}

#[test]
fn accepted_notice_names_client_and_protocol() {
    assert_eq!(
        accepted_notice(&peer(), Protocol::Tcp),
        Notice {
            channel: Channel::Stdout,
            text: "* Accepted from 203.0.113.5:54321/tcp".to_string(),
        }
    );
    assert_eq!(
        accepted_notice(&peer(), Protocol::Udp),
        Notice {
            channel: Channel::Stdout,
            text: "* Accepted from 203.0.113.5:54321/udp".to_string(),
        }
    );
}

#[test]
fn accepted_notice_of_port_zero() {
    let peer = Peer { ip: "::1".to_string(), port: 0 };
    assert_eq!(accepted_notice(&peer, Protocol::Udp).text, "* Accepted from ::1:0/udp");
}

#[test]
fn fault_notice_of_each_fault() {
    let cases = [
        (Protocol::Tcp, Fault::Bind, "TCP server error: boom"),
        (Protocol::Tcp, Fault::Accept, "TCP server error: boom"),
        (Protocol::Tcp, Fault::Write, "TCP write error: boom"),
        (Protocol::Tcp, Fault::Shutdown, "TCP shutdown error: boom"),
        (Protocol::Udp, Fault::Bind, "UDP server error: boom"),
        (Protocol::Udp, Fault::Send, "UDP send error: boom"),
        (Protocol::Udp, Fault::Receive, "UDP recv error: boom"),
    ];
    for (protocol, fault, text) in cases {
        assert_eq!(
            fault_notice(protocol, fault, "boom"),
            Notice { channel: Channel::Stderr, text: text.to_string() }
        );
    }
}

#[test]
fn fault_words() {
    assert_eq!(Fault::Bind.word(), "server");
    assert_eq!(Fault::Accept.word(), "server");
    assert_eq!(Fault::Write.word(), "write");
    assert_eq!(Fault::Shutdown.word(), "shutdown");
    assert_eq!(Fault::Send.word(), "send");
    assert_eq!(Fault::Receive.word(), "recv");
}

#[test]
fn fault_notice_keeps_the_detail_as_it_is_given() {
    assert_eq!(
        fault_notice(Protocol::Tcp, Fault::Bind, "Address already in use (os error 98)").text,
        "TCP server error: Address already in use (os error 98)"
    );
    assert_eq!(fault_notice(Protocol::Udp, Fault::Send, "").text, "UDP send error: ");
}

#[test]
fn clone_of_a_notice_is_equal_to_it() {
    let notice = fault_notice(Protocol::Tcp, Fault::Write, "reset");
    assert_eq!(notice.clone(), notice);
    assert_eq!(notice.clone().text, "TCP write error: reset");
}
