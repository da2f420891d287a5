//! A verified codec for the fixed-layout binary telemetry packets that a
//! racing simulation broadcasts over a datagram transport.
//!
//! Every packet starts with a common 29-byte header; its `packet_id` field
//! selects one of 14 payload layouts.  Thirteen of them are fixed arrays of
//! identically shaped sub-records with optional trailing scalars; the
//! fourteenth is a tagged union selected by a 4-byte ASCII code.  Each
//! codec's contract ties the decoded value to the exact bytes of the wire
//! image, and public lemmas state that a wire image determines the value
//! (so decoding an encoded packet gives it back) and that a value has
//! exactly one wire image (so re-encoding a decoded buffer reproduces it).

pub mod dispatch;
pub mod error;
pub mod packets;
pub mod wire;
