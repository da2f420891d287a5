use vstd::prelude::*;

verus! {

/// A decode failure for one datagram.
///
/// Decoding is all-or-nothing per packet: either the buffer holds at least
/// the packet kind's fixed byte length and decoding succeeds, or one of
/// these errors is reported and the datagram is dropped.
#[derive(Debug, Clone, Copy, PartialEq, Eq, Structural)]
pub enum PacketError {
    /// Fewer bytes were supplied than the packet kind's fixed layout requires.
    TruncatedInput,
    /// An event packet's 4-byte discriminator matches none of the known codes.
    UnknownEventCode,
}

} // verus!
