//! The errors of the engine.

use crate::packet::ConnectReturnCode;
use crate::pid::PacketIdentifier;
use vstd::prelude::*;

verus! {

/// Why a read or a flush on the stream failed, as far as the engine tells
/// the reasons apart.
#[derive(Clone, Copy, Debug, PartialEq, Eq, Structural)]
pub enum IoFailure {
    WouldBlock,
    TimedOut,
    UnexpectedEof,
    ConnectionRefused,
    ConnectionReset,
    ConnectionAborted,
    Other,
}

impl IoFailure {
    /// The deadline of the stream ran out before anything arrived.
    pub open spec fn is_timeout(self) -> bool {
        self == IoFailure::WouldBlock || self == IoFailure::TimedOut
    }

    /// The peer is gone.
    pub open spec fn is_disconnect(self) -> bool {
        self == IoFailure::UnexpectedEof || self == IoFailure::ConnectionRefused || self
            == IoFailure::ConnectionReset || self == IoFailure::ConnectionAborted
    }
}

/// Why a call on the engine failed.
#[derive(Debug, PartialEq, Eq)]
pub enum Error {
    /// Nothing arrived within the keep-alive interval.
    Timeout,
    /// The link is down and is not being re-established.
    Disconnected,
    /// A packet arrived while the session had no link.
    ConnectionAbort,
    /// The stream failed.
    Io(IoFailure),
    /// Something other than CONNACK answered CONNECT.
    HandshakeFailed,
    /// The broker refused the connection.
    ConnectionRefused(ConnectReturnCode),
    /// CONNACK arrived on an established session.
    AlreadyConnected,
    /// The broker broke the order of the protocol.
    ProtocolViolation,
    /// PUBACK did not answer the oldest unacknowledged publication.
    UnhandledPuback(PacketIdentifier),
    /// PUBREC did not answer the oldest unreceived publication.
    UnhandledPubrec(PacketIdentifier),
    /// PUBREL did not release the oldest stored publication.
    UnhandledPubrel(PacketIdentifier),
    /// PUBCOMP arrived with no release outstanding.
    UnhandledPubcomp(PacketIdentifier),
    /// A packet that only a broker receives.
    UnrecognizedPacket,
    /// The session has no store for inbound publications.
    IncomingStorageAbsent,
    /// The session has no store for outbound publications.
    OutgoingStorageAbsent,
    /// The store holds nothing under the identifier.
    StorageMiss,
    /// The scheme of the address is not one of MQTT's; holds the scheme.
    InvalidUrlScheme(String),
    /// The topic is malformed, or holds a wildcard where none may stand.
    InvalidTopic,
}

} // verus!
