//! The parsed inbound request: the true remote endpoint a client asked for,
//! together with the transport protocol the relay must preserve. Produced by
//! the inbound listener; consumed read-only here.

use vstd::prelude::*;

verus! {

/// The transport protocol of the client's request; it decides whether the
/// relay copies a byte stream or pumps framed datagrams.
#[derive(Clone, Copy, Debug, PartialEq, Eq, Structural)]
pub enum TransportProtocol {
    Tcp,
    Udp,
}

/// The request command carried in the handshake header.
#[derive(Clone, Copy, Debug, PartialEq, Eq, Structural)]
pub enum Command {
    Connect,
    Bind,
    UdpAssociate,
}

/// A destination address as the wire formats carry it: four raw octets,
/// a domain name of at most 255 bytes, or sixteen raw octets.
#[derive(Clone, Debug, PartialEq, Eq)]
pub enum Address {
    IpV4 { octets: [u8; 4] },
    Domain { name: Vec<u8> },
    IpV6 { octets: [u8; 16] },
}

/// One parsed inbound request.
#[derive(Clone, Debug)]
pub struct InboundRequest {
    pub transport_protocol: TransportProtocol,
    pub command: Command,
    pub address: Address,
    pub port: u16,
}

/// The wire byte of a command.
pub open spec fn command_byte_spec(c: Command) -> u8 {
    match c {
        Command::Connect => 1,
        Command::Bind => 2,
        Command::UdpAssociate => 3,
    }
}

/// A byte that is the wire byte of some command.
pub open spec fn valid_command_byte(b: u8) -> bool {
    b == 1 || b == 2 || b == 3
}

/// The address-type byte of an address.
pub open spec fn atype_byte_spec(a: Address) -> u8 {
    match a {
        Address::IpV4 { .. } => 1,
        Address::Domain { .. } => 3,
        Address::IpV6 { .. } => 4,
    }
}

/// The address characters proper: the octets, or the domain-name bytes
/// without their length prefix.
pub open spec fn addr_chars(a: Address) -> Seq<u8> {
    match a {
        Address::IpV4 { octets } => octets@,
        Address::Domain { name } => name@,
        Address::IpV6 { octets } => octets@,
    }
}

/// A well-formed address: a domain name must fit its one-byte length prefix.
pub open spec fn addr_wf(a: Address) -> bool {
    match a {
        Address::Domain { name } => name@.len() <= 255,
        _ => true,
    }
}

impl Command {
    /// The wire byte of this command.
    pub fn to_byte(&self) -> (r: u8)
        ensures
            r == command_byte_spec(*self),
            valid_command_byte(r),
    {
        match self {
            Command::Connect => 1,
            Command::Bind => 2,
            Command::UdpAssociate => 3,
        }
    }
}

impl Address {
    /// The address-type byte of this address.
    pub fn atype_byte(&self) -> (r: u8)
        ensures
            r == atype_byte_spec(*self),
    {
        match self {
            Address::IpV4 { .. } => 1,
            Address::Domain { .. } => 3,
            Address::IpV6 { .. } => 4,
        }
    }
}

} // verus!
