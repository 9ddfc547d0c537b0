//! Packet identifiers.

use vstd::prelude::*;

verus! {

/// The 16-bit number that ties an acknowledgement to the packet it answers.
///
/// Zero is never carried by a packet: it only marks a session that has not
/// issued an identifier yet.
#[derive(Clone, Copy, Debug, PartialEq, Eq, Hash, Structural)]
pub struct PacketIdentifier(pub u16);

impl PacketIdentifier {
    /// The identifier that follows `self`: one more, and 1 after 65535.
    pub open spec fn spec_next(&self) -> PacketIdentifier {
        if self.0 == u16::MAX {
            PacketIdentifier(1)
        } else {
            PacketIdentifier((self.0 + 1) as u16)
        }
    }

    /// The marker of a session that has issued no identifier.
    pub fn zero() -> (pid: PacketIdentifier)
        ensures
            pid == PacketIdentifier(0),
    {
        PacketIdentifier(0)
    }

    /// The identifier issued after `self`. It is never zero.
    #[verifier::when_used_as_spec(spec_next)]
    pub fn next(&self) -> (pid: PacketIdentifier)
        ensures
            pid == self.spec_next(),
            pid.0 != 0,
    {
        if self.0 == u16::MAX {
            PacketIdentifier(1)
        } else {
            PacketIdentifier(self.0 + 1)
        }
    }
}

} // verus!
