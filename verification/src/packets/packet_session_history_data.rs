//! Lap and tyre-stint history for one car.

use vstd::prelude::*;
use crate::error::PacketError;
use crate::packets::packet_header::PacketHeader;
use crate::wire::{
    u16_b0,
    u16_b1,
    u32_b0,
    u32_b1,
    u32_b2,
    u32_b3,
    read_u8_at,
    read_u16_at,
    read_u32_at,
    write_u8,
    write_u16,
    write_u32,
    lemma_u16_reassemble,
    lemma_u32_reassemble,
    lemma_subrange_of_prefix,
    lemma_subrange_of_subrange,
    lemma_index_in_block,
};

verus! {

/// Total encoded size of one `LapHistoryData` record, in bytes.
pub const LAP_HISTORY_DATA_SIZE: usize = 14;

/// Total encoded size of one `TyreStintHistoryData` record, in bytes.
pub const TYRE_STINT_HISTORY_DATA_SIZE: usize = 3;

/// Total encoded size of a `PacketSessionHistoryData` packet, in bytes.
pub const PACKET_SESSION_HISTORY_DATA_SIZE: usize = 1460;

/// One fixed-size `LapHistoryData` sub-record (14 bytes on the wire).
#[derive(Debug, Clone, Copy, PartialEq, Eq, Structural)]
pub struct LapHistoryData {
    pub lap_time_in_ms: u32, // 4 Bytes
    pub sector1_time_in_ms: u16, // 2 Bytes
    pub sector1_time_minutes: u8, // 1 Byte
    pub sector2_time_in_ms: u16, // 2 Bytes
    pub sector2_time_minutes: u8, // 1 Byte
    pub sector3_time_in_ms: u16, // 2 Bytes
    pub sector3_time_minutes: u8, // 1 Byte
    pub lap_valid_bit_flags: u8, // 1 Byte
} // 14 Bytes

impl LapHistoryData {
    /// `s` is exactly the wire image of this record.
    pub open spec fn encodes(self, s: Seq<u8>) -> bool {
        &&& s.len() == 14
        &&& s[0] == u32_b0(self.lap_time_in_ms)
        &&& s[1] == u32_b1(self.lap_time_in_ms)
        &&& s[2] == u32_b2(self.lap_time_in_ms)
        &&& s[3] == u32_b3(self.lap_time_in_ms)
        &&& s[4] == u16_b0(self.sector1_time_in_ms)
        &&& s[5] == u16_b1(self.sector1_time_in_ms)
        &&& s[6] == self.sector1_time_minutes
        &&& s[7] == u16_b0(self.sector2_time_in_ms)
        &&& s[8] == u16_b1(self.sector2_time_in_ms)
        &&& s[9] == self.sector2_time_minutes
        &&& s[10] == u16_b0(self.sector3_time_in_ms)
        &&& s[11] == u16_b1(self.sector3_time_in_ms)
        &&& s[12] == self.sector3_time_minutes
        &&& s[13] == self.lap_valid_bit_flags
    }

    /// Decode the record stored at `off`.
    pub fn read_at(b: &[u8], off: usize) -> (r: Self)
        requires
            off + LAP_HISTORY_DATA_SIZE <= b@.len(),
        ensures
            r.encodes(b@.subrange(off as int, off + LAP_HISTORY_DATA_SIZE)),
    {
        let _len = b.len(); // the verifier learns the slice length fits in usize
        let lap_time_in_ms = read_u32_at(b, off);
        let sector1_time_in_ms = read_u16_at(b, off + 4);
        let sector1_time_minutes = read_u8_at(b, off + 6);
        let sector2_time_in_ms = read_u16_at(b, off + 7);
        let sector2_time_minutes = read_u8_at(b, off + 9);
        let sector3_time_in_ms = read_u16_at(b, off + 10);
        let sector3_time_minutes = read_u8_at(b, off + 12);
        let lap_valid_bit_flags = read_u8_at(b, off + 13);
        let r = LapHistoryData {
            lap_time_in_ms,
            sector1_time_in_ms,
            sector1_time_minutes,
            sector2_time_in_ms,
            sector2_time_minutes,
            sector3_time_in_ms,
            sector3_time_minutes,
            lap_valid_bit_flags,
        };
        proof {
            assert(r.encodes(b@.subrange(off as int, off + LAP_HISTORY_DATA_SIZE)));
        }
        r
    }

    /// Append the wire image of this record to `out`.
    pub fn write_into(&self, out: &mut Vec<u8>)
        ensures
            final(out)@.len() == old(out)@.len() + LAP_HISTORY_DATA_SIZE,
            final(out)@.subrange(0, old(out)@.len() as int) == old(out)@,
            self.encodes(
                final(out)@.subrange(old(out)@.len() as int, final(out)@.len() as int),
            ),
    {
        write_u32(out, self.lap_time_in_ms);
        write_u16(out, self.sector1_time_in_ms);
        write_u8(out, self.sector1_time_minutes);
        write_u16(out, self.sector2_time_in_ms);
        write_u8(out, self.sector2_time_minutes);
        write_u16(out, self.sector3_time_in_ms);
        write_u8(out, self.sector3_time_minutes);
        write_u8(out, self.lap_valid_bit_flags);
        proof {
            let base = old(out)@.len() as int;
            assert(out@.subrange(0, base) =~= old(out)@);
            assert(self.encodes(out@.subrange(base, base + 14)));
        }
    }

    /// Encode this record as its fixed 14-byte wire image.
    pub fn serialize(&self) -> (r: Vec<u8>)
        ensures
            r@.len() == LAP_HISTORY_DATA_SIZE,
            self.encodes(r@),
    {
        let mut out: Vec<u8> = Vec::new();
        self.write_into(&mut out);
        proof {
            assert(out@.subrange(0, 14) =~= out@);
        }
        out
    }

    /// Decode a record from the first 14 bytes of `bytes`.
    ///
    /// Succeeds exactly when at least 14 bytes are supplied; trailing
    /// bytes are ignored.
    pub fn unserialize(bytes: &[u8]) -> (r: Result<Self, PacketError>)
        ensures
            match r {
                Ok(p) => bytes@.len() >= 14 && p.encodes(
                    bytes@.subrange(0, 14),
                ),
                Err(e) => bytes@.len() < 14 && e == PacketError::TruncatedInput,
            },
    {
        if bytes.len() < LAP_HISTORY_DATA_SIZE {
            return Err(PacketError::TruncatedInput);
        }
        Ok(Self::read_at(bytes, 0))
    }

    /// A wire image determines the record: decoding is unambiguous, and
    /// decoding the image written by `serialize` gives the value back.
    pub proof fn lemma_wire_image_determines_value(r1: Self, r2: Self, s: Seq<u8>)
        requires
            r1.encodes(s),
            r2.encodes(s),
        ensures
            r1 == r2,
    {
        lemma_u32_reassemble(r1.lap_time_in_ms);
        lemma_u32_reassemble(r2.lap_time_in_ms);
        lemma_u16_reassemble(r1.sector1_time_in_ms);
        lemma_u16_reassemble(r2.sector1_time_in_ms);
        lemma_u16_reassemble(r1.sector2_time_in_ms);
        lemma_u16_reassemble(r2.sector2_time_in_ms);
        lemma_u16_reassemble(r1.sector3_time_in_ms);
        lemma_u16_reassemble(r2.sector3_time_in_ms);
    }

    /// A record has exactly one wire image.
    pub proof fn lemma_encoding_unique(r: Self, s1: Seq<u8>, s2: Seq<u8>)
        requires
            r.encodes(s1),
            r.encodes(s2),
        ensures
            s1 == s2,
    {
        assert(s1 =~= s2);
    }
}

impl Default for LapHistoryData {
    /// The all-zero record.
    fn default() -> (r: Self)
        ensures
            (r == LapHistoryData {
                lap_time_in_ms: 0,
                sector1_time_in_ms: 0,
                sector1_time_minutes: 0,
                sector2_time_in_ms: 0,
                sector2_time_minutes: 0,
                sector3_time_in_ms: 0,
                sector3_time_minutes: 0,
                lap_valid_bit_flags: 0,
            }),
    {
        LapHistoryData {
            lap_time_in_ms: 0,
            sector1_time_in_ms: 0,
            sector1_time_minutes: 0,
            sector2_time_in_ms: 0,
            sector2_time_minutes: 0,
            sector3_time_in_ms: 0,
            sector3_time_minutes: 0,
            lap_valid_bit_flags: 0,
        }
    }
}

/// One fixed-size `TyreStintHistoryData` sub-record (3 bytes on the wire).
#[derive(Debug, Clone, Copy, PartialEq, Eq, Structural)]
pub struct TyreStintHistoryData {
    pub end_lap: u8, // 1 Byte
    pub tyre_actual_compound: u8, // 1 Byte
    pub tyre_visual_compound: u8, // 1 Byte
} // 3 Bytes

impl TyreStintHistoryData {
    /// `s` is exactly the wire image of this record.
    pub open spec fn encodes(self, s: Seq<u8>) -> bool {
        &&& s.len() == 3
        &&& s[0] == self.end_lap
        &&& s[1] == self.tyre_actual_compound
        &&& s[2] == self.tyre_visual_compound
    }

    /// Decode the record stored at `off`.
    pub fn read_at(b: &[u8], off: usize) -> (r: Self)
        requires
            off + TYRE_STINT_HISTORY_DATA_SIZE <= b@.len(),
        ensures
            r.encodes(b@.subrange(off as int, off + TYRE_STINT_HISTORY_DATA_SIZE)),
    {
        let _len = b.len(); // the verifier learns the slice length fits in usize
        let end_lap = read_u8_at(b, off);
        let tyre_actual_compound = read_u8_at(b, off + 1);
        let tyre_visual_compound = read_u8_at(b, off + 2);
        let r = TyreStintHistoryData {
            end_lap,
            tyre_actual_compound,
            tyre_visual_compound,
        };
        proof {
            assert(r.encodes(b@.subrange(off as int, off + TYRE_STINT_HISTORY_DATA_SIZE)));
        }
        r
    }

    /// Append the wire image of this record to `out`.
    pub fn write_into(&self, out: &mut Vec<u8>)
        ensures
            final(out)@.len() == old(out)@.len() + TYRE_STINT_HISTORY_DATA_SIZE,
            final(out)@.subrange(0, old(out)@.len() as int) == old(out)@,
            self.encodes(
                final(out)@.subrange(old(out)@.len() as int, final(out)@.len() as int),
            ),
    {
        write_u8(out, self.end_lap);
        write_u8(out, self.tyre_actual_compound);
        write_u8(out, self.tyre_visual_compound);
        proof {
            let base = old(out)@.len() as int;
            assert(out@.subrange(0, base) =~= old(out)@);
            assert(self.encodes(out@.subrange(base, base + 3)));
        }
    }

    /// Encode this record as its fixed 3-byte wire image.
    pub fn serialize(&self) -> (r: Vec<u8>)
        ensures
            r@.len() == TYRE_STINT_HISTORY_DATA_SIZE,
            self.encodes(r@),
    {
        let mut out: Vec<u8> = Vec::new();
        self.write_into(&mut out);
        proof {
            assert(out@.subrange(0, 3) =~= out@);
        }
        out
    }

    /// Decode a record from the first 3 bytes of `bytes`.
    ///
    /// Succeeds exactly when at least 3 bytes are supplied; trailing
    /// bytes are ignored.
    pub fn unserialize(bytes: &[u8]) -> (r: Result<Self, PacketError>)
        ensures
            match r {
                Ok(p) => bytes@.len() >= 3 && p.encodes(
                    bytes@.subrange(0, 3),
                ),
                Err(e) => bytes@.len() < 3 && e == PacketError::TruncatedInput,
            },
    {
        if bytes.len() < TYRE_STINT_HISTORY_DATA_SIZE {
            return Err(PacketError::TruncatedInput);
        }
        Ok(Self::read_at(bytes, 0))
    }

    /// A wire image determines the record: decoding is unambiguous, and
    /// decoding the image written by `serialize` gives the value back.
    pub proof fn lemma_wire_image_determines_value(r1: Self, r2: Self, s: Seq<u8>)
        requires
            r1.encodes(s),
            r2.encodes(s),
        ensures
            r1 == r2,
    {
    }

    /// A record has exactly one wire image.
    pub proof fn lemma_encoding_unique(r: Self, s1: Seq<u8>, s2: Seq<u8>)
        requires
            r.encodes(s1),
            r.encodes(s2),
        ensures
            s1 == s2,
    {
        assert(s1 =~= s2);
    }
}

impl Default for TyreStintHistoryData {
    /// The all-zero record.
    fn default() -> (r: Self)
        ensures
            (r == TyreStintHistoryData {
                end_lap: 0,
                tyre_actual_compound: 0,
                tyre_visual_compound: 0,
            }),
    {
        TyreStintHistoryData {
            end_lap: 0,
            tyre_actual_compound: 0,
            tyre_visual_compound: 0,
        }
    }
}

/// Lap and tyre-stint history for one car. (1460 bytes on the wire).
#[derive(Debug, Clone)]
pub struct PacketSessionHistoryData {
    pub header: PacketHeader, // 29 Bytes
    pub car_idx: u8, // 1 Byte
    pub num_laps: u8, // 1 Byte
    pub num_tyre_stints: u8, // 1 Byte
    pub best_lap_time_lap_num: u8, // 1 Byte
    pub best_sector1_lap_num: u8, // 1 Byte
    pub best_sector2_lap_num: u8, // 1 Byte
    pub best_sector3_lap_num: u8, // 1 Byte
    pub lap_history_data: Vec<LapHistoryData>, // 100 x 14 Bytes
    pub tyre_stints_history_data: Vec<TyreStintHistoryData>, // 8 x 3 Bytes
} // 1460 Bytes

impl PacketSessionHistoryData {
    /// The fixed element counts that the wire layout prescribes.
    pub open spec fn wf(self) -> bool {
        &&& self.lap_history_data@.len() == 100
        &&& self.tyre_stints_history_data@.len() == 8
    }

    /// `s` is exactly the wire image of this packet.
    pub open spec fn encodes(self, s: Seq<u8>) -> bool {
        &&& s.len() == 1460
        &&& self.header.encodes(s.subrange(0, 29))
        &&& s[29] == self.car_idx
        &&& s[30] == self.num_laps
        &&& s[31] == self.num_tyre_stints
        &&& s[32] == self.best_lap_time_lap_num
        &&& s[33] == self.best_sector1_lap_num
        &&& s[34] == self.best_sector2_lap_num
        &&& s[35] == self.best_sector3_lap_num
        &&& forall|j: int| 0 <= j < 100 ==> (#[trigger] self.lap_history_data@[j]).encodes(
            s.subrange(36 + j * 14, 36 + (j + 1) * 14),
        )
        &&& forall|j: int| 0 <= j < 8 ==> (#[trigger] self.tyre_stints_history_data@[j]).encodes(
            s.subrange(1436 + j * 3, 1436 + (j + 1) * 3),
        )
    }

    /// Field-for-field equality; record arrays compare element-wise.
    pub open spec fn same_as(self, other: Self) -> bool {
        &&& self.header == other.header
        &&& self.car_idx == other.car_idx
        &&& self.num_laps == other.num_laps
        &&& self.num_tyre_stints == other.num_tyre_stints
        &&& self.best_lap_time_lap_num == other.best_lap_time_lap_num
        &&& self.best_sector1_lap_num == other.best_sector1_lap_num
        &&& self.best_sector2_lap_num == other.best_sector2_lap_num
        &&& self.best_sector3_lap_num == other.best_sector3_lap_num
        &&& self.lap_history_data@ == other.lap_history_data@
        &&& self.tyre_stints_history_data@ == other.tyre_stints_history_data@
    }

    /// Decode a packet from the first 1460 bytes of `bytes`.
    ///
    /// Succeeds exactly when at least 1460 bytes are supplied; trailing
    /// bytes are ignored.
    pub fn unserialize(bytes: &[u8]) -> (r: Result<Self, PacketError>)
        ensures
            match r {
                Ok(p) => bytes@.len() >= 1460 && p.wf() && p.encodes(
                    bytes@.subrange(0, 1460),
                ),
                Err(e) => bytes@.len() < 1460 && e == PacketError::TruncatedInput,
            },
    {
        if bytes.len() < PACKET_SESSION_HISTORY_DATA_SIZE {
            return Err(PacketError::TruncatedInput);
        }
        let header = PacketHeader::read_at(bytes, 0);
        let car_idx = read_u8_at(bytes, 29);
        let num_laps = read_u8_at(bytes, 30);
        let num_tyre_stints = read_u8_at(bytes, 31);
        let best_lap_time_lap_num = read_u8_at(bytes, 32);
        let best_sector1_lap_num = read_u8_at(bytes, 33);
        let best_sector2_lap_num = read_u8_at(bytes, 34);
        let best_sector3_lap_num = read_u8_at(bytes, 35);
        let mut lap_history_data: Vec<LapHistoryData> = Vec::new();
        let mut i: usize = 0;
        while i < 100
            invariant
                bytes@.len() >= 1460,
                i <= 100,
                lap_history_data@.len() == i,
                forall|j: int| 0 <= j < i ==> (#[trigger] lap_history_data@[j]).encodes(
                    bytes@.subrange(36 + j * 14, 36 + (j + 1) * 14),
                ),
            decreases 100 - i,
        {
            lap_history_data.push(LapHistoryData::read_at(bytes, 36 + i * 14));
            i += 1;
        }
        let mut tyre_stints_history_data: Vec<TyreStintHistoryData> = Vec::new();
        let mut i: usize = 0;
        while i < 8
            invariant
                bytes@.len() >= 1460,
                i <= 8,
                tyre_stints_history_data@.len() == i,
                forall|j: int| 0 <= j < i ==> (#[trigger] tyre_stints_history_data@[j]).encodes(
                    bytes@.subrange(1436 + j * 3, 1436 + (j + 1) * 3),
                ),
            decreases 8 - i,
        {
            tyre_stints_history_data.push(TyreStintHistoryData::read_at(bytes, 1436 + i * 3));
            i += 1;
        }
        let p = PacketSessionHistoryData {
            header,
            car_idx,
            num_laps,
            num_tyre_stints,
            best_lap_time_lap_num,
            best_sector1_lap_num,
            best_sector2_lap_num,
            best_sector3_lap_num,
            lap_history_data,
            tyre_stints_history_data,
        };
        proof {
            let s = bytes@.subrange(0, 1460);
            lemma_subrange_of_subrange(bytes@, 0, 1460, 0, 29);
            assert forall|j: int| 0 <= j < 100 implies (#[trigger] p.lap_history_data@[j]).encodes(
                s.subrange(36 + j * 14, 36 + (j + 1) * 14),
            ) by {
                lemma_subrange_of_subrange(bytes@, 0, 1460, 36 + j * 14, 36 + (j + 1) * 14);
            }
            assert forall|j: int| 0 <= j < 8 implies (#[trigger] p.tyre_stints_history_data@[j]).encodes(
                s.subrange(1436 + j * 3, 1436 + (j + 1) * 3),
            ) by {
                lemma_subrange_of_subrange(bytes@, 0, 1460, 1436 + j * 3, 1436 + (j + 1) * 3);
            }
            assert(p.encodes(s));
        }
        Ok(p)
    }

    /// Append the wire image of this packet to `out`.
    #[verifier::rlimit(100)]
    pub fn write_into(&self, out: &mut Vec<u8>)
        requires
            self.wf(),
        ensures
            final(out)@.len() == old(out)@.len() + PACKET_SESSION_HISTORY_DATA_SIZE,
            final(out)@.subrange(0, old(out)@.len() as int) == old(out)@,
            self.encodes(
                final(out)@.subrange(old(out)@.len() as int, final(out)@.len() as int),
            ),
    {
        let ghost base: int = out@.len() as int;
        let ghost start = out@;
        self.header.write_into(out);
        write_u8(out, self.car_idx);
        write_u8(out, self.num_laps);
        write_u8(out, self.num_tyre_stints);
        write_u8(out, self.best_lap_time_lap_num);
        write_u8(out, self.best_sector1_lap_num);
        write_u8(out, self.best_sector2_lap_num);
        write_u8(out, self.best_sector3_lap_num);
        let mut i: usize = 0;
        while i < 100
            invariant
                self.wf(),
                i <= 100,
                0 <= base,
                out@.len() == base + 36 + i * 14,
                out@.subrange(0, base) == start,
                self.header.encodes(out@.subrange(base, base + 29)),
                out@[base + 29] == self.car_idx,
                out@[base + 30] == self.num_laps,
                out@[base + 31] == self.num_tyre_stints,
                out@[base + 32] == self.best_lap_time_lap_num,
                out@[base + 33] == self.best_sector1_lap_num,
                out@[base + 34] == self.best_sector2_lap_num,
                out@[base + 35] == self.best_sector3_lap_num,
                forall|j: int| 0 <= j < i ==> (#[trigger] self.lap_history_data@[j]).encodes(
                    out@.subrange(base + 36 + j * 14, base + 36 + (j + 1) * 14),
                ),
            decreases 100 - i,
        {
            let ghost prev = out@;
            self.lap_history_data[i].write_into(out);
            proof {
                assert forall|t: int| 0 <= t < prev.len() implies (#[trigger] out@[t]) == prev[t] by {
                    assert(prev[t] == out@.subrange(0, prev.len() as int)[t]);
                }
                lemma_subrange_of_prefix(out@, prev, 0, base);
                lemma_subrange_of_prefix(out@, prev, base, base + 29);
            }
            i += 1;
        }
        let mut i: usize = 0;
        while i < 8
            invariant
                self.wf(),
                i <= 8,
                0 <= base,
                out@.len() == base + 1436 + i * 3,
                out@.subrange(0, base) == start,
                self.header.encodes(out@.subrange(base, base + 29)),
                out@[base + 29] == self.car_idx,
                out@[base + 30] == self.num_laps,
                out@[base + 31] == self.num_tyre_stints,
                out@[base + 32] == self.best_lap_time_lap_num,
                out@[base + 33] == self.best_sector1_lap_num,
                out@[base + 34] == self.best_sector2_lap_num,
                out@[base + 35] == self.best_sector3_lap_num,
                forall|j: int| 0 <= j < 100 ==> (#[trigger] self.lap_history_data@[j]).encodes(
                    out@.subrange(base + 36 + j * 14, base + 36 + (j + 1) * 14),
                ),
                forall|j: int| 0 <= j < i ==> (#[trigger] self.tyre_stints_history_data@[j]).encodes(
                    out@.subrange(base + 1436 + j * 3, base + 1436 + (j + 1) * 3),
                ),
            decreases 8 - i,
        {
            let ghost prev = out@;
            self.tyre_stints_history_data[i].write_into(out);
            proof {
                assert forall|t: int| 0 <= t < prev.len() implies (#[trigger] out@[t]) == prev[t] by {
                    assert(prev[t] == out@.subrange(0, prev.len() as int)[t]);
                }
                lemma_subrange_of_prefix(out@, prev, 0, base);
                lemma_subrange_of_prefix(out@, prev, base, base + 29);
                assert forall|j: int| 0 <= j < 100 implies (#[trigger] self.lap_history_data@[j]).encodes(
                    out@.subrange(base + 36 + j * 14, base + 36 + (j + 1) * 14),
                ) by {
                    lemma_subrange_of_prefix(out@, prev, base + 36 + j * 14, base + 36 + (j + 1) * 14);
                }
            }
            i += 1;
        }
        proof {
            let s = out@.subrange(base, base + 1460);
            lemma_subrange_of_subrange(out@, base, 1460, 0, 29);
            assert forall|j: int| 0 <= j < 100 implies (#[trigger] self.lap_history_data@[j]).encodes(
                s.subrange(36 + j * 14, 36 + (j + 1) * 14),
            ) by {
                lemma_subrange_of_subrange(out@, base, 1460, 36 + j * 14, 36 + (j + 1) * 14);
            }
            assert forall|j: int| 0 <= j < 8 implies (#[trigger] self.tyre_stints_history_data@[j]).encodes(
                s.subrange(1436 + j * 3, 1436 + (j + 1) * 3),
            ) by {
                lemma_subrange_of_subrange(out@, base, 1460, 1436 + j * 3, 1436 + (j + 1) * 3);
            }
            assert(self.encodes(s));
            assert(out@.subrange(0, base) =~= start);
        }
    }

    /// Encode this packet as its fixed 1460-byte wire image.
    pub fn serialize(&self) -> (r: Vec<u8>)
        requires
            self.wf(),
        ensures
            r@.len() == PACKET_SESSION_HISTORY_DATA_SIZE,
            self.encodes(r@),
    {
        let mut out: Vec<u8> = Vec::new();
        self.write_into(&mut out);
        proof {
            assert(out@.subrange(0, 1460) =~= out@);
        }
        out
    }

    /// A wire image determines the packet: decoding is unambiguous, and
    /// decoding the image written by `serialize` gives the value back.
    pub proof fn lemma_wire_image_determines_value(p1: Self, p2: Self, s: Seq<u8>)
        requires
            p1.wf(),
            p2.wf(),
            p1.encodes(s),
            p2.encodes(s),
        ensures
            p1.same_as(p2),
    {
        PacketHeader::lemma_wire_image_determines_value(
            p1.header, p2.header, s.subrange(0, 29));
        assert forall|j: int| 0 <= j < 100 implies
            #[trigger] p1.lap_history_data@[j] == p2.lap_history_data@[j] by {
            LapHistoryData::lemma_wire_image_determines_value(
                p1.lap_history_data@[j], p2.lap_history_data@[j],
                s.subrange(36 + j * 14, 36 + (j + 1) * 14));
        }
        assert(p1.lap_history_data@ =~= p2.lap_history_data@);
        assert forall|j: int| 0 <= j < 8 implies
            #[trigger] p1.tyre_stints_history_data@[j] == p2.tyre_stints_history_data@[j] by {
            TyreStintHistoryData::lemma_wire_image_determines_value(
                p1.tyre_stints_history_data@[j], p2.tyre_stints_history_data@[j],
                s.subrange(1436 + j * 3, 1436 + (j + 1) * 3));
        }
        assert(p1.tyre_stints_history_data@ =~= p2.tyre_stints_history_data@);
    }

    /// A packet has exactly one wire image.
    pub proof fn lemma_encoding_unique(p: Self, s1: Seq<u8>, s2: Seq<u8>)
        requires
            p.wf(),
            p.encodes(s1),
            p.encodes(s2),
        ensures
            s1 == s2,
    {
        assert forall|i: int| 0 <= i < 1460 implies s1[i] == s2[i] by {
            if i < 29 {
                PacketHeader::lemma_encoding_unique(
                    p.header, s1.subrange(0, 29), s2.subrange(0, 29));
                assert(s1.subrange(0, 29)[i] == s2.subrange(0, 29)[i]);
            }
            if 36 <= i < 1436 {
                lemma_index_in_block(36, 14, 100, i);
                let j = (i - 36) / 14;
                LapHistoryData::lemma_encoding_unique(
                    p.lap_history_data@[j],
                    s1.subrange(36 + j * 14, 36 + (j + 1) * 14),
                    s2.subrange(36 + j * 14, 36 + (j + 1) * 14));
                assert(s1.subrange(36 + j * 14, 36 + (j + 1) * 14)[i - 36 - j * 14]
                    == s2.subrange(36 + j * 14, 36 + (j + 1) * 14)[i - 36 - j * 14]);
            }
            if 1436 <= i < 1460 {
                lemma_index_in_block(1436, 3, 8, i);
                let j = (i - 1436) / 3;
                TyreStintHistoryData::lemma_encoding_unique(
                    p.tyre_stints_history_data@[j],
                    s1.subrange(1436 + j * 3, 1436 + (j + 1) * 3),
                    s2.subrange(1436 + j * 3, 1436 + (j + 1) * 3));
                assert(s1.subrange(1436 + j * 3, 1436 + (j + 1) * 3)[i - 1436 - j * 3]
                    == s2.subrange(1436 + j * 3, 1436 + (j + 1) * 3)[i - 1436 - j * 3]);
            }
        }
        assert(s1 =~= s2);
    }
}

impl PartialEq for PacketSessionHistoryData {
    fn eq(&self, other: &Self) -> (r: bool) {
        self.header == other.header
            && self.car_idx == other.car_idx
            && self.num_laps == other.num_laps
            && self.num_tyre_stints == other.num_tyre_stints
            && self.best_lap_time_lap_num == other.best_lap_time_lap_num
            && self.best_sector1_lap_num == other.best_sector1_lap_num
            && self.best_sector2_lap_num == other.best_sector2_lap_num
            && self.best_sector3_lap_num == other.best_sector3_lap_num
            && eq_vec_lap_history_data(&self.lap_history_data, &other.lap_history_data)
            && eq_vec_tyre_stint_history_data(&self.tyre_stints_history_data, &other.tyre_stints_history_data)
    }
}

impl vstd::std_specs::cmp::PartialEqSpecImpl for PacketSessionHistoryData {
    open spec fn obeys_eq_spec() -> bool {
        true
    }

    open spec fn eq_spec(&self, other: &Self) -> bool {
        self.same_as(*other)
    }
}

impl Default for PacketSessionHistoryData {
    /// The all-zero packet, with every array at its fixed length.
    fn default() -> (r: Self)
        ensures
            r.wf(),
    {
        let mut lap_history_data: Vec<LapHistoryData> = Vec::new();
        let mut i: usize = 0;
        while i < 100
            invariant
                i <= 100,
                lap_history_data@.len() == i,
            decreases 100 - i,
        {
            lap_history_data.push(LapHistoryData::default());
            i += 1;
        }
        let mut tyre_stints_history_data: Vec<TyreStintHistoryData> = Vec::new();
        let mut i: usize = 0;
        while i < 8
            invariant
                i <= 8,
                tyre_stints_history_data@.len() == i,
            decreases 8 - i,
        {
            tyre_stints_history_data.push(TyreStintHistoryData::default());
            i += 1;
        }
        PacketSessionHistoryData {
            header: PacketHeader::default(),
            car_idx: 0,
            num_laps: 0,
            num_tyre_stints: 0,
            best_lap_time_lap_num: 0,
            best_sector1_lap_num: 0,
            best_sector2_lap_num: 0,
            best_sector3_lap_num: 0,
            lap_history_data,
            tyre_stints_history_data,
        }
    }
}

/// Element-wise equality of two `LapHistoryData` vectors.
fn eq_vec_lap_history_data(a: &Vec<LapHistoryData>, b: &Vec<LapHistoryData>) -> (r: bool)
    ensures
        r == (a@ == b@),
{
    if a.len() != b.len() {
        return false;
    }
    let mut i: usize = 0;
    while i < a.len()
        invariant
            a@.len() == b@.len(),
            i <= a@.len(),
            forall|j: int| 0 <= j < i ==> #[trigger] a@[j] == b@[j],
        decreases a@.len() - i,
    {
        if !(a[i] == b[i]) {
            return false;
        }
        i += 1;
    }
    proof {
        assert(a@ =~= b@);
    }
    true
}

/// Element-wise equality of two `TyreStintHistoryData` vectors.
fn eq_vec_tyre_stint_history_data(a: &Vec<TyreStintHistoryData>, b: &Vec<TyreStintHistoryData>) -> (r: bool)
    ensures
        r == (a@ == b@),
{
    if a.len() != b.len() {
        return false;
    }
    let mut i: usize = 0;
    while i < a.len()
        invariant
            a@.len() == b@.len(),
            i <= a@.len(),
            forall|j: int| 0 <= j < i ==> #[trigger] a@[j] == b@[j],
        decreases a@.len() - i,
    {
        if !(a[i] == b[i]) {
            return false;
        }
        i += 1;
    }
    proof {
        assert(a@ =~= b@);
    }
    true
}

} // verus!
