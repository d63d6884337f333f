use greeter::greeting::{gen_msg, greeting_line, Peer, Protocol};

#[test]
fn tcp_greeting_names_the_client() {
    assert_eq!(gen_msg("203.0.113.5", 54321, "tcp"), "[TCP] Hello, 203.0.113.5!\n");
}

#[test]
fn udp_greeting_names_the_client() {
    assert_eq!(gen_msg("203.0.113.5", 54321, "udp"), "[UDP] Hello, 203.0.113.5!\n");
}

#[test]
fn greeting_is_one_line_of_bytes() {
    let msg = gen_msg("203.0.113.5", 54321, "tcp");
    assert_eq!(msg.as_bytes(), b"[TCP] Hello, 203.0.113.5!\n");
    assert_eq!(msg.matches('\n').count(), 1);
    assert!(msg.ends_with('\n'));
}

#[test]
fn greeting_leaves_the_port_out() {
    let ip = "198.51.100.7";
    assert_eq!(gen_msg(ip, 0, "tcp"), gen_msg(ip, 65535, "tcp"));
    assert_eq!(gen_msg(ip, 1, "tcp"), "[TCP] Hello, 198.51.100.7!\n");
}

#[test]
fn greeting_puts_the_protocol_in_upper_case() {
    assert_eq!(gen_msg("10.0.0.1", 1, "Tcp"), "[TCP] Hello, 10.0.0.1!\n");
    assert_eq!(gen_msg("10.0.0.1", 1, "UDP"), "[UDP] Hello, 10.0.0.1!\n");
    assert_eq!(gen_msg("10.0.0.1", 1, "quic"), "[QUIC] Hello, 10.0.0.1!\n");
}

#[test]
fn greeting_upper_case_follows_unicode() {
    assert_eq!(gen_msg("10.0.0.1", 1, "straße"), "[STRASSE] Hello, 10.0.0.1!\n");
    assert_eq!(gen_msg("10.0.0.1", 1, "農"), "[農] Hello, 10.0.0.1!\n");
}

#[test]
fn greeting_keeps_the_address_as_it_is_given() {
    assert_eq!(gen_msg("::1", 9, "tcp"), "[TCP] Hello, ::1!\n");
    assert_eq!(gen_msg("2001:db8::a", 9, "udp"), "[UDP] Hello, 2001:db8::a!\n");
    assert_eq!(gen_msg("", 9, "udp"), "[UDP] Hello, !\n");
    assert_eq!(gen_msg("abc", 9, ""), "[] Hello, abc!\n");
}

#[test]
fn greeting_line_sends_the_label_as_given() {
    assert_eq!(greeting_line("TCP", "203.0.113.5"), "[TCP] Hello, 203.0.113.5!\n");
    assert_eq!(greeting_line("tcp", "203.0.113.5"), "[tcp] Hello, 203.0.113.5!\n");
}

#[test]
fn greetings_for_two_clients_differ() {
    assert_ne!(gen_msg("203.0.113.5", 1, "tcp"), gen_msg("203.0.113.6", 1, "tcp"));
}

#[test]
fn protocol_tags_and_names() {
    assert_eq!(Protocol::Tcp.tag(), "tcp");
    assert_eq!(Protocol::Udp.tag(), "udp");
    assert_eq!(Protocol::Tcp.name(), "TCP");
    assert_eq!(Protocol::Udp.name(), "UDP");
}

#[test]
fn peer_greeting_is_the_message_for_its_address() {
    let peer = Peer { ip: "203.0.113.5".to_string(), port: 54321 };
    assert_eq!(peer.greeting(Protocol::Tcp), "[TCP] Hello, 203.0.113.5!\n");
    assert_eq!(peer.greeting(Protocol::Udp), "[UDP] Hello, 203.0.113.5!\n");
    assert_eq!(peer.greeting(Protocol::Tcp), gen_msg("203.0.113.5", 54321, "tcp"));
}

#[test]
fn clone_of_a_peer_is_equal_to_it() {
    let peer = Peer { ip: "203.0.113.5".to_string(), port: 54321 };
    assert_eq!(peer.clone(), peer);
    assert_eq!(peer.clone().greeting(Protocol::Udp), peer.greeting(Protocol::Udp));
}
