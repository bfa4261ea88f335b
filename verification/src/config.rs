//! The outbound session configuration as the resolver receives it, and the
//! plain values a resolved handler keeps. TLS client settings and certificate
//! policies are opaque collaborator objects; only the expected peer name is
//! carried here.

use vstd::prelude::*;
use vstd::slice::slice_to_vec;

verus! {

/// The transport escalation mode of the outbound link.
#[derive(Clone, Copy, Debug, PartialEq, Eq, Structural)]
pub enum OutboundMode {
    Direct,
    Tcp,
    Grpc,
    Quic,
}

/// The application-layer protocol of the outbound link, independent of the
/// transport mode.
#[derive(Clone, Copy, Debug, PartialEq, Eq, Structural)]
pub enum SupportedProtocols {
    Trojan,
    Socks,
    Direct,
}

/// The TLS escalation settings this library needs to know about: the peer
/// name the certificate is expected to present. The client configuration
/// itself is built by the TLS collaborator.
#[derive(Clone, Debug)]
pub struct TlsSettings {
    pub host_name: Vec<u8>,
}

/// A fixed remote endpoint: host bytes (an address or a name) and a port.
#[derive(Clone, Debug)]
pub struct Destination {
    pub host: Vec<u8>,
    pub port: u16,
}

/// The outbound definition as external configuration supplies it.
#[derive(Clone, Debug)]
pub struct OutboundConfig {
    pub mode: OutboundMode,
    pub protocol: SupportedProtocols,
    pub address: Option<Vec<u8>>,
    pub port: Option<u16>,
    pub tls: Option<TlsSettings>,
    pub secret: Option<Vec<u8>>,
}

/// Whether a protocol authenticates sessions with a derived token.
pub open spec fn requires_auth(p: SupportedProtocols) -> bool {
    p is Trojan
}

/// A configuration that resolution accepts: an address and a port come
/// together or not at all, and an authenticating protocol has a secret.
pub open spec fn config_valid(c: OutboundConfig) -> bool {
    &&& (c.address is Some <==> c.port is Some)
    &&& (requires_auth(c.protocol) ==> c.secret is Some)
}

impl TlsSettings {
    /// An equal-valued copy.
    pub fn duplicate(&self) -> (r: TlsSettings)
        ensures
            r.host_name@ == self.host_name@,
    {
        TlsSettings { host_name: slice_to_vec(self.host_name.as_slice()) }
    }
}

impl Destination {
    /// An equal-valued copy.
    pub fn duplicate(&self) -> (r: Destination)
        ensures
            r.host@ == self.host@,
            r.port == self.port,
    {
        Destination { host: slice_to_vec(self.host.as_slice()), port: self.port }
    }
}

} // verus!
