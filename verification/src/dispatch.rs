//! The dispatcher: configuration resolution into an immutable handler, and
//! the per-request routing decision. A dispatch call selects exactly one
//! transport escalation, re-validates the authentication token width, and
//! yields a session plan — every byte the escalation must send and every
//! endpoint it must dial — or a terminal error. The network driver that
//! carries a plan out lives outside the library.

use vstd::prelude::*;
use vstd::slice::slice_to_vec;
use crate::config::{
    config_valid, requires_auth, Destination, OutboundConfig, OutboundMode, SupportedProtocols,
    TlsSettings,
};
use crate::codec::{encode_request, header_spec};
use crate::errors::{ConfigError, SessionError};
use crate::request::{
    addr_wf, atype_byte_spec, command_byte_spec, Address, InboundRequest, TransportProtocol,
};
use crate::token::{derive_token, is_lower_hex, token_of, TOKEN_WIDTH};

verus! {

/// A resolved, immutable session configuration. Safe to share across
/// concurrent dispatch calls: nothing here is ever mutated after resolution.
pub struct Handler {
    pub mode: OutboundMode,
    pub protocol: SupportedProtocols,
    pub destination: Option<Destination>,
    pub tls: Option<TlsSettings>,
    pub secret: Vec<u8>,
}

/// How relay bytes are framed once the escalation is up.
#[derive(Clone, Copy, Debug, PartialEq, Eq, Structural)]
pub enum FramingKind {
    /// A plain byte-stream copy in each direction.
    Stream,
    /// Discrete datagrams carried as self-describing records on the stream.
    Datagram,
}

/// The handshake-equivalent control fields sent as one structured message
/// on an RPC-tunneled link.
pub struct GrpcControl {
    pub hex: Vec<u8>,
    pub atype: u8,
    pub command: u8,
    pub address: Address,
    pub port: u16,
}

/// Everything a transport driver needs to carry one session: whom to dial,
/// whether to escalate to TLS first, the exact handshake bytes to send
/// before any relay byte, and how to frame the relay.
pub enum SessionPlan {
    /// Dial the request's own destination with its transport protocol;
    /// no TLS, no handshake, no fixed-destination override.
    Direct { transport: TransportProtocol, address: Address, port: u16 },
    /// Dial the fixed destination, TLS first when set, then send the
    /// handshake header, then relay with the given framing.
    Tcp { destination: Destination, tls: Option<TlsSettings>, header: Vec<u8>, framing: FramingKind },
    /// Open an RPC channel to the fixed destination (scheme by `tls`) and
    /// send the control message before any data message.
    Grpc { destination: Destination, tls: bool, control: GrpcControl },
    /// Connect over QUIC to the fixed destination, open one bidirectional
    /// stream, and send the handshake header on it first.
    Quic { destination: Destination, header: Vec<u8> },
}

/// The supported (mode, protocol) table: the direct mode tunnels nothing and
/// accepts any protocol; every tunneling mode speaks only the token protocol.
pub open spec fn supported(mode: OutboundMode, protocol: SupportedProtocols) -> bool {
    match mode {
        OutboundMode::Direct => true,
        _ => protocol is Trojan,
    }
}

/// Whether a mode dials the fixed destination rather than the request's own.
pub open spec fn needs_destination(mode: OutboundMode) -> bool {
    !(mode is Direct)
}

impl Handler {
    /// Resolve an outbound definition into an immutable handler. Derives the
    /// authentication token once; never touches the network. Fails, and no
    /// session is ever created, exactly when the configuration is invalid:
    /// an address without a port or a port without an address, or an
    /// authenticating protocol without a secret.
    pub fn new(outbound: OutboundConfig) -> (r: Result<Handler, ConfigError>)
        ensures
            r is Ok <==> config_valid(outbound),
            r matches Err(e) ==> e == ConfigError::InvalidConfiguration,
            r matches Ok(h) ==> {
                &&& h.mode == outbound.mode
                &&& h.protocol == outbound.protocol
                &&& match (outbound.address, outbound.port) {
                    (Some(a), Some(p)) => h.destination matches Some(d) && d.host@ == a@
                        && d.port == p,
                    _ => h.destination is None,
                }
                &&& match outbound.tls {
                    Some(t) => h.tls matches Some(ht) && ht.host_name@ == t.host_name@,
                    None => h.tls is None,
                }
                &&& if requires_auth(outbound.protocol) {
                    h.secret@ == token_of(outbound.secret->Some_0@) && h.secret@.len()
                        == TOKEN_WIDTH && forall|i: int|
                        0 <= i < h.secret@.len() ==> is_lower_hex(#[trigger] h.secret@[i])
                } else {
                    h.secret@ == Seq::<u8>::empty()
                }
            },
    {
        let OutboundConfig { mode, protocol, address, port, tls, secret } = outbound;
        let destination = match (address, port) {
            (Some(host), Some(port)) => Some(Destination { host, port }),
            (None, None) => None,
            _ => {
                return Err(ConfigError::InvalidConfiguration);
            }
        };
        let secret = match protocol {
            SupportedProtocols::Trojan => match secret {
                Some(plain) => derive_token(&plain),
                None => {
                    return Err(ConfigError::InvalidConfiguration);
                }
            },
            _ => Vec::new(),
        };
        Ok(Handler { mode, protocol, destination, tls, secret })
    }

    /// Route one inbound request: pick the transport escalation the mode
    /// names and compute everything it must do, or fail before any network
    /// work. The unsupported-pair check comes first, then the missing
    /// fixed destination, then the per-call token-width check.
    pub fn dispatch(&self, request: InboundRequest) -> (r: Result<SessionPlan, SessionError>)
        requires
            addr_wf(request.address),
        ensures
            r matches Err(SessionError::UnsupportedProtocol) <==> !supported(
                self.mode,
                self.protocol,
            ),
            r matches Err(SessionError::MissingDestination) <==> supported(
                self.mode,
                self.protocol,
            ) && needs_destination(self.mode) && self.destination is None,
            r matches Err(SessionError::AuthConfigurationError) <==> supported(
                self.mode,
                self.protocol,
            ) && needs_destination(self.mode) && self.destination is Some && self.secret@.len()
                != TOKEN_WIDTH,
            r is Ok <==> supported(self.mode, self.protocol) && (needs_destination(self.mode)
                ==> self.destination is Some && self.secret@.len() == TOKEN_WIDTH),
            r matches Ok(p) ==> match self.mode {
                OutboundMode::Direct => p matches SessionPlan::Direct { transport, address, port }
                    && transport == request.transport_protocol && address == request.address
                    && port == request.port,
                OutboundMode::Tcp => p matches SessionPlan::Tcp {
                    destination,
                    tls,
                    header,
                    framing,
                } && {
                    &&& self.destination matches Some(cd) && destination.host@ == cd.host@
                        && destination.port == cd.port
                    &&& match self.tls {
                        Some(t) => tls matches Some(pt) && pt.host_name@ == t.host_name@,
                        None => tls is None,
                    }
                    &&& header@ == header_spec(
                        self.secret@,
                        command_byte_spec(request.command),
                        request.address,
                        request.port,
                    )
                    &&& framing == (match request.transport_protocol {
                        TransportProtocol::Tcp => FramingKind::Stream,
                        TransportProtocol::Udp => FramingKind::Datagram,
                    })
                },
                OutboundMode::Grpc => p matches SessionPlan::Grpc { destination, tls, control }
                    && {
                    &&& self.destination matches Some(cd) && destination.host@ == cd.host@
                        && destination.port == cd.port
                    &&& tls == (self.tls is Some)
                    &&& control.hex@ == self.secret@
                    &&& control.atype == atype_byte_spec(request.address)
                    &&& control.command == command_byte_spec(request.command)
                    &&& control.address == request.address
                    &&& control.port == request.port
                },
                OutboundMode::Quic => p matches SessionPlan::Quic { destination, header } && {
                    &&& self.destination matches Some(cd) && destination.host@ == cd.host@
                        && destination.port == cd.port
                    &&& header@ == header_spec(
                        self.secret@,
                        command_byte_spec(request.command),
                        request.address,
                        request.port,
                    )
                },
            },
    {
        let is_direct = matches!(self.mode, OutboundMode::Direct);
        let protocol_ok = is_direct || matches!(self.protocol, SupportedProtocols::Trojan);
        if !protocol_ok {
            return Err(SessionError::UnsupportedProtocol);
        }
        if is_direct {
            return Ok(
                SessionPlan::Direct {
                    transport: request.transport_protocol,
                    address: request.address,
                    port: request.port,
                },
            );
        }
        let destination = match &self.destination {
            Some(d) => d.duplicate(),
            None => {
                return Err(SessionError::MissingDestination);
            }
        };
        if self.secret.len() != TOKEN_WIDTH {
            return Err(SessionError::AuthConfigurationError);
        }
        match self.mode {
            OutboundMode::Direct => Err(SessionError::UnsupportedProtocol),
            OutboundMode::Tcp => {
                let header = encode_request(&self.secret, &request);
                let tls = match &self.tls {
                    Some(t) => Some(t.duplicate()),
                    None => None,
                };
                let framing = match request.transport_protocol {
                    TransportProtocol::Tcp => FramingKind::Stream,
                    TransportProtocol::Udp => FramingKind::Datagram,
                };
                Ok(SessionPlan::Tcp { destination, tls, header, framing })
            }
            OutboundMode::Grpc => {
                let control = GrpcControl {
                    hex: slice_to_vec(self.secret.as_slice()),
                    atype: request.address.atype_byte(),
                    command: request.command.to_byte(),
                    address: request.address,
                    port: request.port,
                };
                Ok(SessionPlan::Grpc { destination, tls: self.tls.is_some(), control })
            }
            OutboundMode::Quic => {
                let header = encode_request(&self.secret, &request);
                Ok(SessionPlan::Quic { destination, header })
            }
        }
    }
}

} // verus!
