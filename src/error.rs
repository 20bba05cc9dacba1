use vstd::prelude::*;

verus! {

/// Failures of the wire codec and of payload parsing.
#[derive(Clone, Copy, Debug, PartialEq, Eq, Structural)]
pub enum ProtoError {
    /// The buffer is too short for the header, or for the announced payload.
    MalformedMessage,
    /// A payload that should hold a 6-byte address does not.
    MissingAddress,
    /// A WireGuard configuration lacks a field it needs.
    MissingWireGuardField,
    /// A WireGuard configuration field holds a value of the wrong type or range.
    MalformedConfig,
}

/// Failures of the rendezvous and gateway request handling.
#[derive(Clone, Copy, Debug, PartialEq, Eq, Structural)]
pub enum ServerError {
    Unauthenticated,
    InvalidMessage,
    NoAvailablePeers,
    UnsupportedIpAddrType,
    ConnectionClosed,
    MalformedMessage,
    /// A configuration payload could not be read.
    MalformedConfig,
}

} // verus!
