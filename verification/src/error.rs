//! The failure taxonomy of a connection pipeline. Every failure is
//! terminal for its own connection; the variants record at which stage and
//! for what reason the pipeline stopped.

use vstd::prelude::*;

verus! {

/// Why a connection's pipeline ended.
///
/// - `ProtocolViolation`: an unrecognised version byte or malformed framing.
/// - `UnsupportedFeature`: a recognised but unimplemented protocol or field
///   (SOCKS4, HTTP CONNECT, BIND, UDP ASSOCIATE, IPv6, a non-CONNECT
///   command).
/// - `AuthNegotiationFailed`: no method proposed by the client is allowed
///   by the policy.
/// - `AuthenticationFailed`: a bad subnegotiation version byte or bad
///   credentials.
/// - `RequestParseError`: a truncated or invalid request field, including a
///   declared length that exceeds the buffer.
/// - `UpstreamConnectError`: the dial to the requested destination failed.
/// - `IOError`: a read or write on either socket failed.
/// - `TunnelTerminated`: the relay ended, gracefully or abnormally.
#[derive(Clone, Copy, Debug, PartialEq, Eq, Structural)]
pub enum Socks5Error {
    ProtocolViolation,
    UnsupportedFeature,
    AuthNegotiationFailed,
    AuthenticationFailed,
    RequestParseError,
    UpstreamConnectError,
    IOError,
    TunnelTerminated,
}

} // verus!
