//! Client-transport dispatch and tunnel-relay engine for a local proxy agent.
//!
//! The library classifies the protocol a freshly accepted client speaks
//! (SOCKS5 or HTTP), performs the protocol-specific handshake computations,
//! derives the destination address the client asked for, models the tunnel
//! initiation exchange with the upstream proxy, and drives the bidirectional
//! relay as a verified state machine with byte accounting.

pub mod address;
pub mod destination;
pub mod dispatcher;
pub mod encryption;
pub mod error;
pub mod http;
pub mod socks5;
pub mod tunnel;
