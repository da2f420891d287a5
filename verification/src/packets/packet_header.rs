//! The 29-byte header that prefixes every packet.

use vstd::prelude::*;
use crate::error::PacketError;
use crate::wire::{
    u16_b0, u16_b1, u32_b0, u32_b1, u32_b2, u32_b3, u64_b0, u64_b1, u64_b2, u64_b3, u64_b4,
    u64_b5, u64_b6, u64_b7, read_u8_at, read_u16_at, read_u32_at, read_u64_at, write_u8,
    write_u16, write_u32, write_u64, lemma_u16_reassemble, lemma_u32_reassemble,
    lemma_u64_reassemble,
};

verus! {

/// Total encoded size of a header, in bytes.
pub const PACKET_HEADER_SIZE: usize = 29;

/// The common packet header: versioning plus session and frame identifiers.
///
/// `session_time` is a 32-bit float on the wire; it is carried here as the
/// raw little-endian bit pattern, which round-trips exactly.
#[derive(Debug, Clone, Copy, PartialEq, Eq, Structural)]
pub struct PacketHeader {
    pub packet_format: u16,             // 2 Bytes
    pub game_year: u8,                  // 1 Byte
    pub game_major_version: u8,         // 1 Byte
    pub game_minor_version: u8,         // 1 Byte
    pub packet_version: u8,             // 1 Byte
    pub packet_id: u8,                  // 1 Byte
    pub session_uid: u64,               // 8 Bytes
    pub session_time: u32,              // 4 Bytes (float bits)
    pub frame_identifier: u32,          // 4 Bytes
    pub overall_frame_identifier: u32,  // 4 Bytes
    pub player_car_index: u8,           // 1 Byte
    pub secondary_player_car_index: u8, // 1 Byte
} // 29 Bytes

impl PacketHeader {
    /// `s` is exactly the wire image of this header.
    pub open spec fn encodes(self, s: Seq<u8>) -> bool {
        &&& s.len() == 29
        &&& s[0] == u16_b0(self.packet_format)
        &&& s[1] == u16_b1(self.packet_format)
        &&& s[2] == self.game_year
        &&& s[3] == self.game_major_version
        &&& s[4] == self.game_minor_version
        &&& s[5] == self.packet_version
        &&& s[6] == self.packet_id
        &&& s[7] == u64_b0(self.session_uid)
        &&& s[8] == u64_b1(self.session_uid)
        &&& s[9] == u64_b2(self.session_uid)
        &&& s[10] == u64_b3(self.session_uid)
        &&& s[11] == u64_b4(self.session_uid)
        &&& s[12] == u64_b5(self.session_uid)
        &&& s[13] == u64_b6(self.session_uid)
        &&& s[14] == u64_b7(self.session_uid)
        &&& s[15] == u32_b0(self.session_time)
        &&& s[16] == u32_b1(self.session_time)
        &&& s[17] == u32_b2(self.session_time)
        &&& s[18] == u32_b3(self.session_time)
        &&& s[19] == u32_b0(self.frame_identifier)
        &&& s[20] == u32_b1(self.frame_identifier)
        &&& s[21] == u32_b2(self.frame_identifier)
        &&& s[22] == u32_b3(self.frame_identifier)
        &&& s[23] == u32_b0(self.overall_frame_identifier)
        &&& s[24] == u32_b1(self.overall_frame_identifier)
        &&& s[25] == u32_b2(self.overall_frame_identifier)
        &&& s[26] == u32_b3(self.overall_frame_identifier)
        &&& s[27] == self.player_car_index
        &&& s[28] == self.secondary_player_car_index
    }

    /// Decode the header stored at `off`.
    pub fn read_at(b: &[u8], off: usize) -> (r: Self)
        requires
            off + PACKET_HEADER_SIZE <= b@.len(),
        ensures
            r.encodes(b@.subrange(off as int, off + PACKET_HEADER_SIZE)),
    {
        let _len = b.len(); // the verifier learns the slice length fits in usize
        let r = PacketHeader {
            packet_format: read_u16_at(b, off),
            game_year: read_u8_at(b, off + 2),
            game_major_version: read_u8_at(b, off + 3),
            game_minor_version: read_u8_at(b, off + 4),
            packet_version: read_u8_at(b, off + 5),
            packet_id: read_u8_at(b, off + 6),
            session_uid: read_u64_at(b, off + 7),
            session_time: read_u32_at(b, off + 15),
            frame_identifier: read_u32_at(b, off + 19),
            overall_frame_identifier: read_u32_at(b, off + 23),
            player_car_index: read_u8_at(b, off + 27),
            secondary_player_car_index: read_u8_at(b, off + 28),
        };
        proof {
            assert(r.encodes(b@.subrange(off as int, off + PACKET_HEADER_SIZE)));
        }
        r
    }

    /// Append the wire image of this header to `out`.
    pub fn write_into(&self, out: &mut Vec<u8>)
        ensures
            final(out)@.len() == old(out)@.len() + PACKET_HEADER_SIZE,
            final(out)@.subrange(0, old(out)@.len() as int) == old(out)@,
            self.encodes(
                final(out)@.subrange(old(out)@.len() as int, final(out)@.len() as int),
            ),
    {
        write_u16(out, self.packet_format);
        write_u8(out, self.game_year);
        write_u8(out, self.game_major_version);
        write_u8(out, self.game_minor_version);
        write_u8(out, self.packet_version);
        write_u8(out, self.packet_id);
        write_u64(out, self.session_uid);
        write_u32(out, self.session_time);
        write_u32(out, self.frame_identifier);
        write_u32(out, self.overall_frame_identifier);
        write_u8(out, self.player_car_index);
        write_u8(out, self.secondary_player_car_index);
        proof {
            let base = old(out)@.len() as int;
            assert(out@.subrange(0, base) =~= old(out)@);
            assert(self.encodes(out@.subrange(base, base + 29)));
        }
    }

    /// Encode this header as its fixed 29-byte wire image.
    pub fn serialize(&self) -> (r: Vec<u8>)
        ensures
            r@.len() == PACKET_HEADER_SIZE,
            self.encodes(r@),
    {
        let mut out: Vec<u8> = Vec::new();
        self.write_into(&mut out);
        proof {
            assert(out@.subrange(0, 29) =~= out@);
        }
        out
    }

    /// Decode a header from the first 29 bytes of `bytes`.
    ///
    /// Succeeds exactly when at least 29 bytes are supplied; trailing bytes
    /// are ignored.
    pub fn unserialize(bytes: &[u8]) -> (r: Result<Self, PacketError>)
        ensures
            match r {
                Ok(h) => bytes@.len() >= 29 && h.encodes(bytes@.subrange(0, 29)),
                Err(e) => bytes@.len() < 29 && e == PacketError::TruncatedInput,
            },
    {
        if bytes.len() < PACKET_HEADER_SIZE {
            return Err(PacketError::TruncatedInput);
        }
        Ok(Self::read_at(bytes, 0))
    }

    /// A wire image determines the header: decoding is unambiguous, and
    /// decoding the image written by `serialize` gives the value back.
    pub proof fn lemma_wire_image_determines_value(h1: Self, h2: Self, s: Seq<u8>)
        requires
            h1.encodes(s),
            h2.encodes(s),
        ensures
            h1 == h2,
    {
        lemma_u16_reassemble(h1.packet_format);
        lemma_u16_reassemble(h2.packet_format);
        lemma_u64_reassemble(h1.session_uid);
        lemma_u64_reassemble(h2.session_uid);
        lemma_u32_reassemble(h1.session_time);
        lemma_u32_reassemble(h2.session_time);
        lemma_u32_reassemble(h1.frame_identifier);
        lemma_u32_reassemble(h2.frame_identifier);
        lemma_u32_reassemble(h1.overall_frame_identifier);
        lemma_u32_reassemble(h2.overall_frame_identifier);
    }

    /// A header has exactly one wire image.
    pub proof fn lemma_encoding_unique(h: Self, s1: Seq<u8>, s2: Seq<u8>)
        requires
            h.encodes(s1),
            h.encodes(s2),
        ensures
            s1 == s2,
    {
        assert(s1 =~= s2);
    }

    /// Header decoding is prefix-independent: the same 29 leading bytes
    /// yield the same header, whatever follows them.
    pub proof fn lemma_decode_prefix_independent(
        h1: Self,
        h2: Self,
        b1: Seq<u8>,
        b2: Seq<u8>,
    )
        requires
            b1.len() >= 29,
            b2.len() >= 29,
            b1.subrange(0, 29) == b2.subrange(0, 29),
            h1.encodes(b1.subrange(0, 29)),
            h2.encodes(b2.subrange(0, 29)),
        ensures
            h1 == h2,
    {
        Self::lemma_wire_image_determines_value(h1, h2, b1.subrange(0, 29));
    }
}

impl Default for PacketHeader {
    /// The all-zero header.
    fn default() -> (r: Self)
        ensures
            (r == PacketHeader {
                packet_format: 0,
                game_year: 0,
                game_major_version: 0,
                game_minor_version: 0,
                packet_version: 0,
                packet_id: 0,
                session_uid: 0,
                session_time: 0,
                frame_identifier: 0,
                overall_frame_identifier: 0,
                player_car_index: 0,
                secondary_player_car_index: 0,
            }),
    {
        PacketHeader {
            packet_format: 0,
            game_year: 0,
            game_major_version: 0,
            game_minor_version: 0,
            packet_version: 0,
            packet_id: 0,
            session_uid: 0,
            session_time: 0,
            frame_identifier: 0,
            overall_frame_identifier: 0,
            player_car_index: 0,
            secondary_player_car_index: 0,
        }
    }
}

} // verus!
