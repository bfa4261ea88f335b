//! Error taxonomy: configuration errors surfaced when a handler is resolved,
//! and session errors surfaced by a dispatch call.

use vstd::prelude::*;

verus! {

/// Failure of configuration resolution: the outbound definition is internally
/// inconsistent (an address without a port, a port without an address, or an
/// authenticating protocol without a secret). A session is never created from
/// such a configuration.
#[derive(Clone, Copy, Debug, PartialEq, Eq, Structural)]
pub enum ConfigError {
    InvalidConfiguration,
}

/// Terminal failure of a single dispatch call. None of these are retried.
#[derive(Clone, Copy, Debug, PartialEq, Eq, Structural)]
pub enum SessionError {
    /// The selected mode needs a fixed destination and none was configured.
    MissingDestination,
    /// The (mode, protocol) pair is not in the supported table.
    UnsupportedProtocol,
    /// A dial, connect or stream-open toward the destination failed.
    DestinationUnreachable,
    /// The configured authentication token does not have the width the
    /// protocol requires; checked per dispatch call.
    AuthConfigurationError,
    /// A malformed datagram record was met on the tunnel stream.
    FramingError,
    /// A TLS handshake or tunnel-stream transport failure.
    TransportError,
}

impl SessionError {
    /// A short human-readable description of the error.
    pub fn describe(&self) -> (r: &'static str)
        ensures
            r@.len() > 0,
    {
        let s: &'static str = match self {
            SessionError::MissingDestination => "missing address of the remote server",
            SessionError::UnsupportedProtocol => "unsupported protocol",
            SessionError::DestinationUnreachable => "failed to connect to the destination",
            SessionError::AuthConfigurationError => "authentication token has the wrong width",
            SessionError::FramingError => "malformed datagram record",
            SessionError::TransportError => "transport-level failure",
        };
        proof {
            reveal_strlit("missing address of the remote server");
            reveal_strlit("unsupported protocol");
            reveal_strlit("failed to connect to the destination");
            reveal_strlit("authentication token has the wrong width");
            reveal_strlit("malformed datagram record");
            reveal_strlit("transport-level failure");
        }
        s
    }
}

} // verus!
