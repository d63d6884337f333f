//! The decisions of a small greeting server, free of any I/O.
//!
//! The server listens on a TCP and on a UDP endpoint and answers every client
//! with one line that names the client's address. This crate holds what the
//! server decides: which endpoints the settings resolve to, what a greeting and
//! a console line look like, and how each responder reacts to the outcome of a
//! socket operation. A driver performs the operations and reports back.

pub mod config;
pub mod console;
pub mod greeting;
pub mod port;
pub mod tcp;
pub mod udp;

pub use config::{Endpoint, Endpoints, ListenArgs};
pub use console::{Channel, Fault, Notice};
pub use greeting::{gen_msg, Peer, Protocol};
pub use port::{parse_port, PortError};
pub use tcp::{Connection, Listener};
pub use udp::UdpResponder;
