use vstd::prelude::*;

verus! {

/// Errors of one client session. Every error is scoped to the single
/// session that raised it; the accept loop and other sessions are never
/// affected.
#[derive(Clone, Copy, Debug, PartialEq, Eq, Structural)]
pub enum AgentError {
    /// The first bytes of the client connection matched neither SOCKS5 nor
    /// an HTTP request line, or the socket closed before enough bytes came.
    ClassificationError,
    /// A malformed SOCKS5 or HTTP exchange.
    HandshakeError,
    /// The requested target was unparseable or disallowed.
    AddressResolutionError,
    /// The proxy connection factory could not supply an upstream channel.
    UpstreamConnectError,
    /// The upstream proxy reported failure for the tunnel initiation, or
    /// answered with an unexpected payload, or closed before answering.
    TunnelInitError,
    /// A socket or channel read or write failed during the established phase.
    RelayIoError,
}

} // verus!
