//! The settings of the server and the endpoints they resolve to.

use crate::port::{decimal_text, port_text};
use vstd::prelude::*;
use vstd::string::*;

verus! {

/// The port on which a responder listens when the settings name none.
pub const DEFAULT_PORT: u16 = 1234;

/// The text of the host on which a responder listens when the settings name
/// none: every IPv4 address of the machine.
pub open spec fn default_host_text() -> Seq<char> {
    "0.0.0.0"@
}

/// The host on which a responder listens when the settings name none.
pub fn default_host() -> (host: &'static str)
    ensures
        host@ == default_host_text(),
{
    "0.0.0.0"
}

/// The text under which a host and a port are bound: `<host>:<port>`.
pub open spec fn address_text(host: Seq<char>, port: u16) -> Seq<char> {
    host + ":"@ + decimal_text(port as nat)
}

/// A host and a port on which one responder listens.
#[derive(Debug, PartialEq, Eq)]
pub struct Endpoint {
    pub host: String,
    pub port: u16,
}

/// What an endpoint holds, as plain values.
pub struct EndpointView {
    pub host: Seq<char>,
    pub port: u16,
}

impl View for Endpoint {
    type V = EndpointView;

    open spec fn view(&self) -> EndpointView {
        EndpointView { host: self.host@, port: self.port }
    }
}

impl Clone for Endpoint {
    fn clone(&self) -> (copy: Endpoint)
        ensures
            copy@ == self@,
    {
        Endpoint { host: self.host.clone(), port: self.port }
    }
}

impl Endpoint {
    /// The address to bind, `<host>:<port>`.
    pub fn address(&self) -> (address: String)
        ensures
            address@ == address_text(self.host@, self.port),
    {
        let mut address = self.host.clone();
        address.append(":");
        let port = port_text(self.port);
        address.append(port.as_str());
        address
    }
}

/// What the command line can say about where to listen. Each value may be
/// absent.
#[derive(Debug, PartialEq, Eq)]
pub struct ListenArgs {
    /// The host for both protocols.
    pub host: Option<String>,
    /// The host for TCP alone.
    pub tcp_host: Option<String>,
    /// The host for UDP alone.
    pub udp_host: Option<String>,
    /// The port for both protocols.
    pub port: Option<u16>,
    /// The port for TCP alone.
    pub tcp_port: Option<u16>,
    /// The port for UDP alone.
    pub udp_port: Option<u16>,
}

/// The endpoints of the two responders.
#[derive(Debug, PartialEq, Eq)]
pub struct Endpoints {
    pub tcp: Endpoint,
    pub udp: Endpoint,
}

/// The host that is in force for one protocol: its own if it has one, else
/// the shared one, else the default.
pub open spec fn effective_host(own: Option<String>, shared: Option<String>) -> Seq<char> {
    match own {
        Some(host) => host@,
        None => match shared {
            Some(host) => host@,
            None => default_host_text(),
        },
    }
}

/// The port that is in force for one protocol: its own if it has one, else
/// the shared one, else the default.
pub open spec fn effective_port(own: Option<u16>, shared: Option<u16>) -> u16 {
    match own {
        Some(port) => port,
        None => match shared {
            Some(port) => port,
            None => DEFAULT_PORT,
        },
    }
}

/// Picks the host that is in force for one protocol.
fn pick_host(own: &Option<String>, shared: &Option<String>) -> (host: String)
    ensures
        host@ == effective_host(*own, *shared),
{
    match own {
        Some(host) => host.clone(),
        None => match shared {
            Some(host) => host.clone(),
            None => String::from_str(default_host()),
        },
    }
}

/// Picks the port that is in force for one protocol.
fn pick_port(own: Option<u16>, shared: Option<u16>) -> (port: u16)
    ensures
        port == effective_port(own, shared),
{
    match own {
        Some(port) => port,
        None => match shared {
            Some(port) => port,
            None => DEFAULT_PORT,
        },
    }
}

impl ListenArgs {
    /// Settings that name nothing: both responders listen on the default
    /// host and port.
    pub fn new() -> (args: ListenArgs)
        ensures
            args.host is None,
            args.tcp_host is None,
            args.udp_host is None,
            args.port is None,
            args.tcp_port is None,
            args.udp_port is None,
    {
        ListenArgs {
            host: None,
            tcp_host: None,
            udp_host: None,
            port: None,
            tcp_port: None,
            udp_port: None,
        }
    }

    /// Resolves the settings to the endpoints of the two responders. For each
    /// protocol and for host and port alike, the protocol's own value wins
    /// where it is present, else the shared value, else the default.
    pub fn resolve(&self) -> (endpoints: Endpoints)
        ensures
            endpoints.tcp.host@ == effective_host(self.tcp_host, self.host),
            endpoints.tcp.port == effective_port(self.tcp_port, self.port),
            endpoints.udp.host@ == effective_host(self.udp_host, self.host),
            endpoints.udp.port == effective_port(self.udp_port, self.port),
    {
        Endpoints {
            tcp: Endpoint {
                host: pick_host(&self.tcp_host, &self.host),
                port: pick_port(self.tcp_port, self.port),
            },
            udp: Endpoint {
                host: pick_host(&self.udp_host, &self.host),
                port: pick_port(self.udp_port, self.port),
            },
        }
    }
}

} // verus!
