//! Outbound half of a tunneling proxy: configuration resolution, the
//! authentication-token derivation, the handshake codec, the datagram framing
//! adapters, the per-request dispatch decision, and the relay-race state
//! machine, all with verified contracts. The network drivers that carry these
//! decisions out live outside the library.

pub mod codec;
pub mod config;
pub mod dispatch;
pub mod errors;
pub mod framing;
pub mod relay;
pub mod request;
pub mod token;
