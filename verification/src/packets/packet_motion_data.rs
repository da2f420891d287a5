//! Car motion for every car slot.

use vstd::prelude::*;
use crate::error::PacketError;
use crate::packets::packet_header::PacketHeader;
use crate::wire::{
    i16_b0,
    i16_b1,
    i16_rep,
    u32_b0,
    u32_b1,
    u32_b2,
    u32_b3,
    read_i16_at,
    read_u32_at,
    write_i16,
    write_u32,
    lemma_u16_reassemble,
    lemma_u32_reassemble,
    lemma_i16_rep_injective,
    lemma_subrange_of_prefix,
    lemma_subrange_of_subrange,
    lemma_index_in_block,
};

verus! {

/// Total encoded size of one `CarMotionData` record, in bytes.
pub const CAR_MOTION_DATA_SIZE: usize = 60;

/// Total encoded size of a `PacketMotionData` packet, in bytes.
pub const PACKET_MOTION_DATA_SIZE: usize = 1349;

/// One fixed-size `CarMotionData` sub-record (60 bytes on the wire).
///
/// Float fields are carried as their raw little-endian bit patterns,
/// which round-trip exactly.
#[derive(Debug, Clone, Copy, PartialEq, Eq, Structural)]
pub struct CarMotionData {
    pub world_position_x: u32, // 4 Bytes (float bits)
    pub world_position_y: u32, // 4 Bytes (float bits)
    pub world_position_z: u32, // 4 Bytes (float bits)
    pub world_velocity_x: u32, // 4 Bytes (float bits)
    pub world_velocity_y: u32, // 4 Bytes (float bits)
    pub world_velocity_z: u32, // 4 Bytes (float bits)
    pub world_forward_dir_x: i16, // 2 Bytes
    pub world_forward_dir_y: i16, // 2 Bytes
    pub world_forward_dir_z: i16, // 2 Bytes
    pub world_right_dir_x: i16, // 2 Bytes
    pub world_right_dir_y: i16, // 2 Bytes
    pub world_right_dir_z: i16, // 2 Bytes
    pub g_force_lateral: u32, // 4 Bytes (float bits)
    pub g_force_longitudinal: u32, // 4 Bytes (float bits)
    pub g_force_vertical: u32, // 4 Bytes (float bits)
    pub yaw: u32, // 4 Bytes (float bits)
    pub pitch: u32, // 4 Bytes (float bits)
    pub roll: u32, // 4 Bytes (float bits)
} // 60 Bytes

impl CarMotionData {
    /// `s` is exactly the wire image of this record.
    pub open spec fn encodes(self, s: Seq<u8>) -> bool {
        &&& s.len() == 60
        &&& s[0] == u32_b0(self.world_position_x)
        &&& s[1] == u32_b1(self.world_position_x)
        &&& s[2] == u32_b2(self.world_position_x)
        &&& s[3] == u32_b3(self.world_position_x)
        &&& s[4] == u32_b0(self.world_position_y)
        &&& s[5] == u32_b1(self.world_position_y)
        &&& s[6] == u32_b2(self.world_position_y)
        &&& s[7] == u32_b3(self.world_position_y)
        &&& s[8] == u32_b0(self.world_position_z)
        &&& s[9] == u32_b1(self.world_position_z)
        &&& s[10] == u32_b2(self.world_position_z)
        &&& s[11] == u32_b3(self.world_position_z)
        &&& s[12] == u32_b0(self.world_velocity_x)
        &&& s[13] == u32_b1(self.world_velocity_x)
        &&& s[14] == u32_b2(self.world_velocity_x)
        &&& s[15] == u32_b3(self.world_velocity_x)
        &&& s[16] == u32_b0(self.world_velocity_y)
        &&& s[17] == u32_b1(self.world_velocity_y)
        &&& s[18] == u32_b2(self.world_velocity_y)
        &&& s[19] == u32_b3(self.world_velocity_y)
        &&& s[20] == u32_b0(self.world_velocity_z)
        &&& s[21] == u32_b1(self.world_velocity_z)
        &&& s[22] == u32_b2(self.world_velocity_z)
        &&& s[23] == u32_b3(self.world_velocity_z)
        &&& s[24] == i16_b0(self.world_forward_dir_x)
        &&& s[25] == i16_b1(self.world_forward_dir_x)
        &&& s[26] == i16_b0(self.world_forward_dir_y)
        &&& s[27] == i16_b1(self.world_forward_dir_y)
        &&& s[28] == i16_b0(self.world_forward_dir_z)
        &&& s[29] == i16_b1(self.world_forward_dir_z)
        &&& s[30] == i16_b0(self.world_right_dir_x)
        &&& s[31] == i16_b1(self.world_right_dir_x)
        &&& s[32] == i16_b0(self.world_right_dir_y)
        &&& s[33] == i16_b1(self.world_right_dir_y)
        &&& s[34] == i16_b0(self.world_right_dir_z)
        &&& s[35] == i16_b1(self.world_right_dir_z)
        &&& s[36] == u32_b0(self.g_force_lateral)
        &&& s[37] == u32_b1(self.g_force_lateral)
        &&& s[38] == u32_b2(self.g_force_lateral)
        &&& s[39] == u32_b3(self.g_force_lateral)
        &&& s[40] == u32_b0(self.g_force_longitudinal)
        &&& s[41] == u32_b1(self.g_force_longitudinal)
        &&& s[42] == u32_b2(self.g_force_longitudinal)
        &&& s[43] == u32_b3(self.g_force_longitudinal)
        &&& s[44] == u32_b0(self.g_force_vertical)
        &&& s[45] == u32_b1(self.g_force_vertical)
        &&& s[46] == u32_b2(self.g_force_vertical)
        &&& s[47] == u32_b3(self.g_force_vertical)
        &&& s[48] == u32_b0(self.yaw)
        &&& s[49] == u32_b1(self.yaw)
        &&& s[50] == u32_b2(self.yaw)
        &&& s[51] == u32_b3(self.yaw)
        &&& s[52] == u32_b0(self.pitch)
        &&& s[53] == u32_b1(self.pitch)
        &&& s[54] == u32_b2(self.pitch)
        &&& s[55] == u32_b3(self.pitch)
        &&& s[56] == u32_b0(self.roll)
        &&& s[57] == u32_b1(self.roll)
        &&& s[58] == u32_b2(self.roll)
        &&& s[59] == u32_b3(self.roll)
    }

    /// Decode the record stored at `off`.
    #[verifier::rlimit(100)]
    pub fn read_at(b: &[u8], off: usize) -> (r: Self)
        requires
            off + CAR_MOTION_DATA_SIZE <= b@.len(),
        ensures
            r.encodes(b@.subrange(off as int, off + CAR_MOTION_DATA_SIZE)),
    {
        let _len = b.len(); // the verifier learns the slice length fits in usize
        let world_position_x = read_u32_at(b, off);
        let world_position_y = read_u32_at(b, off + 4);
        let world_position_z = read_u32_at(b, off + 8);
        let world_velocity_x = read_u32_at(b, off + 12);
        let world_velocity_y = read_u32_at(b, off + 16);
        let world_velocity_z = read_u32_at(b, off + 20);
        let world_forward_dir_x = read_i16_at(b, off + 24);
        let world_forward_dir_y = read_i16_at(b, off + 26);
        let world_forward_dir_z = read_i16_at(b, off + 28);
        let world_right_dir_x = read_i16_at(b, off + 30);
        let world_right_dir_y = read_i16_at(b, off + 32);
        let world_right_dir_z = read_i16_at(b, off + 34);
        let g_force_lateral = read_u32_at(b, off + 36);
        let g_force_longitudinal = read_u32_at(b, off + 40);
        let g_force_vertical = read_u32_at(b, off + 44);
        let yaw = read_u32_at(b, off + 48);
        let pitch = read_u32_at(b, off + 52);
        let roll = read_u32_at(b, off + 56);
        let r = CarMotionData {
            world_position_x,
            world_position_y,
            world_position_z,
            world_velocity_x,
            world_velocity_y,
            world_velocity_z,
            world_forward_dir_x,
            world_forward_dir_y,
            world_forward_dir_z,
            world_right_dir_x,
            world_right_dir_y,
            world_right_dir_z,
            g_force_lateral,
            g_force_longitudinal,
            g_force_vertical,
            yaw,
            pitch,
            roll,
        };
        proof {
            assert(r.encodes(b@.subrange(off as int, off + CAR_MOTION_DATA_SIZE)));
        }
        r
    }

    /// Append the wire image of this record to `out`.
    #[verifier::rlimit(100)]
    pub fn write_into(&self, out: &mut Vec<u8>)
        ensures
            final(out)@.len() == old(out)@.len() + CAR_MOTION_DATA_SIZE,
            final(out)@.subrange(0, old(out)@.len() as int) == old(out)@,
            self.encodes(
                final(out)@.subrange(old(out)@.len() as int, final(out)@.len() as int),
            ),
    {
        write_u32(out, self.world_position_x);
        write_u32(out, self.world_position_y);
        write_u32(out, self.world_position_z);
        write_u32(out, self.world_velocity_x);
        write_u32(out, self.world_velocity_y);
        write_u32(out, self.world_velocity_z);
        write_i16(out, self.world_forward_dir_x);
        write_i16(out, self.world_forward_dir_y);
        write_i16(out, self.world_forward_dir_z);
        write_i16(out, self.world_right_dir_x);
        write_i16(out, self.world_right_dir_y);
        write_i16(out, self.world_right_dir_z);
        write_u32(out, self.g_force_lateral);
        write_u32(out, self.g_force_longitudinal);
        write_u32(out, self.g_force_vertical);
        write_u32(out, self.yaw);
        write_u32(out, self.pitch);
        write_u32(out, self.roll);
        proof {
            let base = old(out)@.len() as int;
            assert(out@.subrange(0, base) =~= old(out)@);
            assert(self.encodes(out@.subrange(base, base + 60)));
        }
    }

    /// Encode this record as its fixed 60-byte wire image.
    pub fn serialize(&self) -> (r: Vec<u8>)
        ensures
            r@.len() == CAR_MOTION_DATA_SIZE,
            self.encodes(r@),
    {
        let mut out: Vec<u8> = Vec::new();
        self.write_into(&mut out);
        proof {
            assert(out@.subrange(0, 60) =~= out@);
        }
        out
    }

    /// Decode a record from the first 60 bytes of `bytes`.
    ///
    /// Succeeds exactly when at least 60 bytes are supplied; trailing
    /// bytes are ignored.
    pub fn unserialize(bytes: &[u8]) -> (r: Result<Self, PacketError>)
        ensures
            match r {
                Ok(p) => bytes@.len() >= 60 && p.encodes(
                    bytes@.subrange(0, 60),
                ),
                Err(e) => bytes@.len() < 60 && e == PacketError::TruncatedInput,
            },
    {
        if bytes.len() < CAR_MOTION_DATA_SIZE {
            return Err(PacketError::TruncatedInput);
        }
        Ok(Self::read_at(bytes, 0))
    }

    /// A wire image determines the record: decoding is unambiguous, and
    /// decoding the image written by `serialize` gives the value back.
    pub proof fn lemma_wire_image_determines_value(r1: Self, r2: Self, s: Seq<u8>)
        requires
            r1.encodes(s),
            r2.encodes(s),
        ensures
            r1 == r2,
    {
        lemma_u32_reassemble(r1.world_position_x);
        lemma_u32_reassemble(r2.world_position_x);
        lemma_u32_reassemble(r1.world_position_y);
        lemma_u32_reassemble(r2.world_position_y);
        lemma_u32_reassemble(r1.world_position_z);
        lemma_u32_reassemble(r2.world_position_z);
        lemma_u32_reassemble(r1.world_velocity_x);
        lemma_u32_reassemble(r2.world_velocity_x);
        lemma_u32_reassemble(r1.world_velocity_y);
        lemma_u32_reassemble(r2.world_velocity_y);
        lemma_u32_reassemble(r1.world_velocity_z);
        lemma_u32_reassemble(r2.world_velocity_z);
        lemma_u16_reassemble(i16_rep(r1.world_forward_dir_x));
        lemma_u16_reassemble(i16_rep(r2.world_forward_dir_x));
        lemma_i16_rep_injective(r1.world_forward_dir_x, r2.world_forward_dir_x);
        lemma_u16_reassemble(i16_rep(r1.world_forward_dir_y));
        lemma_u16_reassemble(i16_rep(r2.world_forward_dir_y));
        lemma_i16_rep_injective(r1.world_forward_dir_y, r2.world_forward_dir_y);
        lemma_u16_reassemble(i16_rep(r1.world_forward_dir_z));
        lemma_u16_reassemble(i16_rep(r2.world_forward_dir_z));
        lemma_i16_rep_injective(r1.world_forward_dir_z, r2.world_forward_dir_z);
        lemma_u16_reassemble(i16_rep(r1.world_right_dir_x));
        lemma_u16_reassemble(i16_rep(r2.world_right_dir_x));
        lemma_i16_rep_injective(r1.world_right_dir_x, r2.world_right_dir_x);
        lemma_u16_reassemble(i16_rep(r1.world_right_dir_y));
        lemma_u16_reassemble(i16_rep(r2.world_right_dir_y));
        lemma_i16_rep_injective(r1.world_right_dir_y, r2.world_right_dir_y);
        lemma_u16_reassemble(i16_rep(r1.world_right_dir_z));
        lemma_u16_reassemble(i16_rep(r2.world_right_dir_z));
        lemma_i16_rep_injective(r1.world_right_dir_z, r2.world_right_dir_z);
        lemma_u32_reassemble(r1.g_force_lateral);
        lemma_u32_reassemble(r2.g_force_lateral);
        lemma_u32_reassemble(r1.g_force_longitudinal);
        lemma_u32_reassemble(r2.g_force_longitudinal);
        lemma_u32_reassemble(r1.g_force_vertical);
        lemma_u32_reassemble(r2.g_force_vertical);
        lemma_u32_reassemble(r1.yaw);
        lemma_u32_reassemble(r2.yaw);
        lemma_u32_reassemble(r1.pitch);
        lemma_u32_reassemble(r2.pitch);
        lemma_u32_reassemble(r1.roll);
        lemma_u32_reassemble(r2.roll);
    }

    /// A record has exactly one wire image.
    pub proof fn lemma_encoding_unique(r: Self, s1: Seq<u8>, s2: Seq<u8>)
        requires
            r.encodes(s1),
            r.encodes(s2),
        ensures
            s1 == s2,
    {
        assert(s1 =~= s2);
    }
}

impl Default for CarMotionData {
    /// The all-zero record.
    fn default() -> (r: Self)
        ensures
            (r == CarMotionData {
                world_position_x: 0,
                world_position_y: 0,
                world_position_z: 0,
                world_velocity_x: 0,
                world_velocity_y: 0,
                world_velocity_z: 0,
                world_forward_dir_x: 0,
                world_forward_dir_y: 0,
                world_forward_dir_z: 0,
                world_right_dir_x: 0,
                world_right_dir_y: 0,
                world_right_dir_z: 0,
                g_force_lateral: 0,
                g_force_longitudinal: 0,
                g_force_vertical: 0,
                yaw: 0,
                pitch: 0,
                roll: 0,
            }),
    {
        CarMotionData {
            world_position_x: 0,
            world_position_y: 0,
            world_position_z: 0,
            world_velocity_x: 0,
            world_velocity_y: 0,
            world_velocity_z: 0,
            world_forward_dir_x: 0,
            world_forward_dir_y: 0,
            world_forward_dir_z: 0,
            world_right_dir_x: 0,
            world_right_dir_y: 0,
            world_right_dir_z: 0,
            g_force_lateral: 0,
            g_force_longitudinal: 0,
            g_force_vertical: 0,
            yaw: 0,
            pitch: 0,
            roll: 0,
        }
    }
}

/// Car motion for every car slot. (1349 bytes on the wire).
#[derive(Debug, Clone)]
pub struct PacketMotionData {
    pub header: PacketHeader, // 29 Bytes
    pub car_motion_data: Vec<CarMotionData>, // 22 x 60 Bytes
} // 1349 Bytes

impl PacketMotionData {
    /// The fixed element counts that the wire layout prescribes.
    pub open spec fn wf(self) -> bool {
        &&& self.car_motion_data@.len() == 22
    }

    /// `s` is exactly the wire image of this packet.
    pub open spec fn encodes(self, s: Seq<u8>) -> bool {
        &&& s.len() == 1349
        &&& self.header.encodes(s.subrange(0, 29))
        &&& forall|j: int| 0 <= j < 22 ==> (#[trigger] self.car_motion_data@[j]).encodes(
            s.subrange(29 + j * 60, 29 + (j + 1) * 60),
        )
    }

    /// Field-for-field equality; record arrays compare element-wise.
    pub open spec fn same_as(self, other: Self) -> bool {
        &&& self.header == other.header
        &&& self.car_motion_data@ == other.car_motion_data@
    }

    /// Decode a packet from the first 1349 bytes of `bytes`.
    ///
    /// Succeeds exactly when at least 1349 bytes are supplied; trailing
    /// bytes are ignored.
    pub fn unserialize(bytes: &[u8]) -> (r: Result<Self, PacketError>)
        ensures
            match r {
                Ok(p) => bytes@.len() >= 1349 && p.wf() && p.encodes(
                    bytes@.subrange(0, 1349),
                ),
                Err(e) => bytes@.len() < 1349 && e == PacketError::TruncatedInput,
            },
    {
        if bytes.len() < PACKET_MOTION_DATA_SIZE {
            return Err(PacketError::TruncatedInput);
        }
        let header = PacketHeader::read_at(bytes, 0);
        let mut car_motion_data: Vec<CarMotionData> = Vec::new();
        let mut i: usize = 0;
        while i < 22
            invariant
                bytes@.len() >= 1349,
                i <= 22,
                car_motion_data@.len() == i,
                forall|j: int| 0 <= j < i ==> (#[trigger] car_motion_data@[j]).encodes(
                    bytes@.subrange(29 + j * 60, 29 + (j + 1) * 60),
                ),
            decreases 22 - i,
        {
            car_motion_data.push(CarMotionData::read_at(bytes, 29 + i * 60));
            i += 1;
        }
        let p = PacketMotionData {
            header,
            car_motion_data,
        };
        proof {
            let s = bytes@.subrange(0, 1349);
            lemma_subrange_of_subrange(bytes@, 0, 1349, 0, 29);
            assert forall|j: int| 0 <= j < 22 implies (#[trigger] p.car_motion_data@[j]).encodes(
                s.subrange(29 + j * 60, 29 + (j + 1) * 60),
            ) by {
                lemma_subrange_of_subrange(bytes@, 0, 1349, 29 + j * 60, 29 + (j + 1) * 60);
            }
            assert(p.encodes(s));
        }
        Ok(p)
    }

    /// Append the wire image of this packet to `out`.
    #[verifier::rlimit(100)]
    pub fn write_into(&self, out: &mut Vec<u8>)
        requires
            self.wf(),
        ensures
            final(out)@.len() == old(out)@.len() + PACKET_MOTION_DATA_SIZE,
            final(out)@.subrange(0, old(out)@.len() as int) == old(out)@,
            self.encodes(
                final(out)@.subrange(old(out)@.len() as int, final(out)@.len() as int),
            ),
    {
        let ghost base: int = out@.len() as int;
        let ghost start = out@;
        self.header.write_into(out);
        let mut i: usize = 0;
        while i < 22
            invariant
                self.wf(),
                i <= 22,
                0 <= base,
                out@.len() == base + 29 + i * 60,
                out@.subrange(0, base) == start,
                self.header.encodes(out@.subrange(base, base + 29)),
                forall|j: int| 0 <= j < i ==> (#[trigger] self.car_motion_data@[j]).encodes(
                    out@.subrange(base + 29 + j * 60, base + 29 + (j + 1) * 60),
                ),
            decreases 22 - i,
        {
            let ghost prev = out@;
            self.car_motion_data[i].write_into(out);
            proof {
                assert forall|t: int| 0 <= t < prev.len() implies (#[trigger] out@[t]) == prev[t] by {
                    assert(prev[t] == out@.subrange(0, prev.len() as int)[t]);
                }
                lemma_subrange_of_prefix(out@, prev, 0, base);
                lemma_subrange_of_prefix(out@, prev, base, base + 29);
            }
            i += 1;
        }
        proof {
            let s = out@.subrange(base, base + 1349);
            lemma_subrange_of_subrange(out@, base, 1349, 0, 29);
            assert forall|j: int| 0 <= j < 22 implies (#[trigger] self.car_motion_data@[j]).encodes(
                s.subrange(29 + j * 60, 29 + (j + 1) * 60),
            ) by {
                lemma_subrange_of_subrange(out@, base, 1349, 29 + j * 60, 29 + (j + 1) * 60);
            }
            assert(self.encodes(s));
            assert(out@.subrange(0, base) =~= start);
        }
    }

    /// Encode this packet as its fixed 1349-byte wire image.
    pub fn serialize(&self) -> (r: Vec<u8>)
        requires
            self.wf(),
        ensures
            r@.len() == PACKET_MOTION_DATA_SIZE,
            self.encodes(r@),
    {
        let mut out: Vec<u8> = Vec::new();
        self.write_into(&mut out);
        proof {
            assert(out@.subrange(0, 1349) =~= out@);
        }
        out
    }

    /// A wire image determines the packet: decoding is unambiguous, and
    /// decoding the image written by `serialize` gives the value back.
    pub proof fn lemma_wire_image_determines_value(p1: Self, p2: Self, s: Seq<u8>)
        requires
            p1.wf(),
            p2.wf(),
            p1.encodes(s),
            p2.encodes(s),
        ensures
            p1.same_as(p2),
    {
        PacketHeader::lemma_wire_image_determines_value(
            p1.header, p2.header, s.subrange(0, 29));
        assert forall|j: int| 0 <= j < 22 implies
            #[trigger] p1.car_motion_data@[j] == p2.car_motion_data@[j] by {
            CarMotionData::lemma_wire_image_determines_value(
                p1.car_motion_data@[j], p2.car_motion_data@[j],
                s.subrange(29 + j * 60, 29 + (j + 1) * 60));
        }
        assert(p1.car_motion_data@ =~= p2.car_motion_data@);
    }

    /// A packet has exactly one wire image.
    pub proof fn lemma_encoding_unique(p: Self, s1: Seq<u8>, s2: Seq<u8>)
        requires
            p.wf(),
            p.encodes(s1),
            p.encodes(s2),
        ensures
            s1 == s2,
    {
        assert forall|i: int| 0 <= i < 1349 implies s1[i] == s2[i] by {
            if i < 29 {
                PacketHeader::lemma_encoding_unique(
                    p.header, s1.subrange(0, 29), s2.subrange(0, 29));
                assert(s1.subrange(0, 29)[i] == s2.subrange(0, 29)[i]);
            }
            if 29 <= i < 1349 {
                lemma_index_in_block(29, 60, 22, i);
                let j = (i - 29) / 60;
                CarMotionData::lemma_encoding_unique(
                    p.car_motion_data@[j],
                    s1.subrange(29 + j * 60, 29 + (j + 1) * 60),
                    s2.subrange(29 + j * 60, 29 + (j + 1) * 60));
                assert(s1.subrange(29 + j * 60, 29 + (j + 1) * 60)[i - 29 - j * 60]
                    == s2.subrange(29 + j * 60, 29 + (j + 1) * 60)[i - 29 - j * 60]);
            }
        }
        assert(s1 =~= s2);
    }
}

impl PartialEq for PacketMotionData {
    fn eq(&self, other: &Self) -> (r: bool) {
        self.header == other.header
            && eq_vec_car_motion_data(&self.car_motion_data, &other.car_motion_data)
    }
}

impl vstd::std_specs::cmp::PartialEqSpecImpl for PacketMotionData {
    open spec fn obeys_eq_spec() -> bool {
        true
    }

    open spec fn eq_spec(&self, other: &Self) -> bool {
        self.same_as(*other)
    }
}

impl Default for PacketMotionData {
    /// The all-zero packet, with every array at its fixed length.
    fn default() -> (r: Self)
        ensures
            r.wf(),
    {
        let mut car_motion_data: Vec<CarMotionData> = Vec::new();
        let mut i: usize = 0;
        while i < 22
            invariant
                i <= 22,
                car_motion_data@.len() == i,
            decreases 22 - i,
        {
            car_motion_data.push(CarMotionData::default());
            i += 1;
        }
        PacketMotionData {
            header: PacketHeader::default(),
            car_motion_data,
        }
    }
}

/// Element-wise equality of two `CarMotionData` vectors.
fn eq_vec_car_motion_data(a: &Vec<CarMotionData>, b: &Vec<CarMotionData>) -> (r: bool)
    ensures
        r == (a@ == b@),
{
    if a.len() != b.len() {
        return false;
    }
    let mut i: usize = 0;
    while i < a.len()
        invariant
            a@.len() == b@.len(),
            i <= a@.len(),
            forall|j: int| 0 <= j < i ==> #[trigger] a@[j] == b@[j],
        decreases a@.len() - i,
    {
        if !(a[i] == b[i]) {
            return false;
        }
        i += 1;
    }
    proof {
        assert(a@ =~= b@);
    }
    true
}

} // verus!
