//! The final classification at the end of a session.

use vstd::prelude::*;
use crate::error::PacketError;
use crate::packets::packet_header::PacketHeader;
use crate::wire::{
    u32_b0,
    u32_b1,
    u32_b2,
    u32_b3,
    u64_b0,
    u64_b1,
    u64_b2,
    u64_b3,
    u64_b4,
    u64_b5,
    u64_b6,
    u64_b7,
    read_u8_at,
    read_u32_at,
    read_u64_at,
    write_u8,
    write_u32,
    write_u64,
    lemma_u32_reassemble,
    lemma_u64_reassemble,
    lemma_subrange_of_prefix,
    lemma_subrange_of_subrange,
    lemma_index_in_block,
    eq_vec_u8,
};

verus! {

/// Total encoded size of one `FinalClassificationData` record, in bytes.
pub const FINAL_CLASSIFICATION_DATA_SIZE: usize = 45;

/// Total encoded size of a `PacketFinalClassificationData` packet, in bytes.
pub const PACKET_FINAL_CLASSIFICATION_DATA_SIZE: usize = 1020;

/// One fixed-size `FinalClassificationData` sub-record (45 bytes on the wire).
///
/// Float fields are carried as their raw little-endian bit patterns,
/// which round-trip exactly.
#[derive(Debug, Clone)]
pub struct FinalClassificationData {
    pub position: u8, // 1 Byte
    pub num_laps: u8, // 1 Byte
    pub grid_position: u8, // 1 Byte
    pub points: u8, // 1 Byte
    pub num_pit_stops: u8, // 1 Byte
    pub result_status: u8, // 1 Byte
    pub best_lap_time_in_ms: u32, // 4 Bytes
    pub total_race_time: u64, // 8 Bytes (float bits)
    pub penalties_time: u8, // 1 Byte
    pub num_penalties: u8, // 1 Byte
    pub num_tyre_stints: u8, // 1 Byte
    pub tyre_stints_actual: Vec<u8>, // 8 x 1 Byte
    pub tyre_stints_visual: Vec<u8>, // 8 x 1 Byte
    pub tyre_stints_end_laps: Vec<u8>, // 8 x 1 Byte
} // 45 Bytes

impl FinalClassificationData {
    /// The fixed element counts that the wire layout prescribes.
    pub open spec fn wf(self) -> bool {
        &&& self.tyre_stints_actual@.len() == 8
        &&& self.tyre_stints_visual@.len() == 8
        &&& self.tyre_stints_end_laps@.len() == 8
    }

    /// `s` is exactly the wire image of this record.
    pub open spec fn encodes(self, s: Seq<u8>) -> bool {
        &&& s.len() == 45
        &&& s[0] == self.position
        &&& s[1] == self.num_laps
        &&& s[2] == self.grid_position
        &&& s[3] == self.points
        &&& s[4] == self.num_pit_stops
        &&& s[5] == self.result_status
        &&& s[6] == u32_b0(self.best_lap_time_in_ms)
        &&& s[7] == u32_b1(self.best_lap_time_in_ms)
        &&& s[8] == u32_b2(self.best_lap_time_in_ms)
        &&& s[9] == u32_b3(self.best_lap_time_in_ms)
        &&& s[10] == u64_b0(self.total_race_time)
        &&& s[11] == u64_b1(self.total_race_time)
        &&& s[12] == u64_b2(self.total_race_time)
        &&& s[13] == u64_b3(self.total_race_time)
        &&& s[14] == u64_b4(self.total_race_time)
        &&& s[15] == u64_b5(self.total_race_time)
        &&& s[16] == u64_b6(self.total_race_time)
        &&& s[17] == u64_b7(self.total_race_time)
        &&& s[18] == self.penalties_time
        &&& s[19] == self.num_penalties
        &&& s[20] == self.num_tyre_stints
        &&& s[21] == self.tyre_stints_actual@[0]
        &&& s[22] == self.tyre_stints_actual@[1]
        &&& s[23] == self.tyre_stints_actual@[2]
        &&& s[24] == self.tyre_stints_actual@[3]
        &&& s[25] == self.tyre_stints_actual@[4]
        &&& s[26] == self.tyre_stints_actual@[5]
        &&& s[27] == self.tyre_stints_actual@[6]
        &&& s[28] == self.tyre_stints_actual@[7]
        &&& s[29] == self.tyre_stints_visual@[0]
        &&& s[30] == self.tyre_stints_visual@[1]
        &&& s[31] == self.tyre_stints_visual@[2]
        &&& s[32] == self.tyre_stints_visual@[3]
        &&& s[33] == self.tyre_stints_visual@[4]
        &&& s[34] == self.tyre_stints_visual@[5]
        &&& s[35] == self.tyre_stints_visual@[6]
        &&& s[36] == self.tyre_stints_visual@[7]
        &&& s[37] == self.tyre_stints_end_laps@[0]
        &&& s[38] == self.tyre_stints_end_laps@[1]
        &&& s[39] == self.tyre_stints_end_laps@[2]
        &&& s[40] == self.tyre_stints_end_laps@[3]
        &&& s[41] == self.tyre_stints_end_laps@[4]
        &&& s[42] == self.tyre_stints_end_laps@[5]
        &&& s[43] == self.tyre_stints_end_laps@[6]
        &&& s[44] == self.tyre_stints_end_laps@[7]
    }

    /// Field-for-field equality; vector fields compare element-wise.
    pub open spec fn same_as(self, other: Self) -> bool {
        &&& self.position == other.position
        &&& self.num_laps == other.num_laps
        &&& self.grid_position == other.grid_position
        &&& self.points == other.points
        &&& self.num_pit_stops == other.num_pit_stops
        &&& self.result_status == other.result_status
        &&& self.best_lap_time_in_ms == other.best_lap_time_in_ms
        &&& self.total_race_time == other.total_race_time
        &&& self.penalties_time == other.penalties_time
        &&& self.num_penalties == other.num_penalties
        &&& self.num_tyre_stints == other.num_tyre_stints
        &&& self.tyre_stints_actual@ == other.tyre_stints_actual@
        &&& self.tyre_stints_visual@ == other.tyre_stints_visual@
        &&& self.tyre_stints_end_laps@ == other.tyre_stints_end_laps@
    }

    /// Decode the record stored at `off`.
    #[verifier::rlimit(100)]
    pub fn read_at(b: &[u8], off: usize) -> (r: Self)
        requires
            off + FINAL_CLASSIFICATION_DATA_SIZE <= b@.len(),
        ensures
            r.wf(),
            r.encodes(b@.subrange(off as int, off + FINAL_CLASSIFICATION_DATA_SIZE)),
    {
        let _len = b.len(); // the verifier learns the slice length fits in usize
        let position = read_u8_at(b, off);
        let num_laps = read_u8_at(b, off + 1);
        let grid_position = read_u8_at(b, off + 2);
        let points = read_u8_at(b, off + 3);
        let num_pit_stops = read_u8_at(b, off + 4);
        let result_status = read_u8_at(b, off + 5);
        let best_lap_time_in_ms = read_u32_at(b, off + 6);
        let total_race_time = read_u64_at(b, off + 10);
        let penalties_time = read_u8_at(b, off + 18);
        let num_penalties = read_u8_at(b, off + 19);
        let num_tyre_stints = read_u8_at(b, off + 20);
        let mut tyre_stints_actual: Vec<u8> = Vec::new();
        tyre_stints_actual.push(read_u8_at(b, off + 21));
        tyre_stints_actual.push(read_u8_at(b, off + 22));
        tyre_stints_actual.push(read_u8_at(b, off + 23));
        tyre_stints_actual.push(read_u8_at(b, off + 24));
        tyre_stints_actual.push(read_u8_at(b, off + 25));
        tyre_stints_actual.push(read_u8_at(b, off + 26));
        tyre_stints_actual.push(read_u8_at(b, off + 27));
        tyre_stints_actual.push(read_u8_at(b, off + 28));
        let mut tyre_stints_visual: Vec<u8> = Vec::new();
        tyre_stints_visual.push(read_u8_at(b, off + 29));
        tyre_stints_visual.push(read_u8_at(b, off + 30));
        tyre_stints_visual.push(read_u8_at(b, off + 31));
        tyre_stints_visual.push(read_u8_at(b, off + 32));
        tyre_stints_visual.push(read_u8_at(b, off + 33));
        tyre_stints_visual.push(read_u8_at(b, off + 34));
        tyre_stints_visual.push(read_u8_at(b, off + 35));
        tyre_stints_visual.push(read_u8_at(b, off + 36));
        let mut tyre_stints_end_laps: Vec<u8> = Vec::new();
        tyre_stints_end_laps.push(read_u8_at(b, off + 37));
        tyre_stints_end_laps.push(read_u8_at(b, off + 38));
        tyre_stints_end_laps.push(read_u8_at(b, off + 39));
        tyre_stints_end_laps.push(read_u8_at(b, off + 40));
        tyre_stints_end_laps.push(read_u8_at(b, off + 41));
        tyre_stints_end_laps.push(read_u8_at(b, off + 42));
        tyre_stints_end_laps.push(read_u8_at(b, off + 43));
        tyre_stints_end_laps.push(read_u8_at(b, off + 44));
        let r = FinalClassificationData {
            position,
            num_laps,
            grid_position,
            points,
            num_pit_stops,
            result_status,
            best_lap_time_in_ms,
            total_race_time,
            penalties_time,
            num_penalties,
            num_tyre_stints,
            tyre_stints_actual,
            tyre_stints_visual,
            tyre_stints_end_laps,
        };
        proof {
            assert(r.encodes(b@.subrange(off as int, off + FINAL_CLASSIFICATION_DATA_SIZE)));
        }
        r
    }

    /// Append the wire image of this record to `out`.
    #[verifier::rlimit(100)]
    pub fn write_into(&self, out: &mut Vec<u8>)
        requires
            self.wf(),
        ensures
            final(out)@.len() == old(out)@.len() + FINAL_CLASSIFICATION_DATA_SIZE,
            final(out)@.subrange(0, old(out)@.len() as int) == old(out)@,
            self.encodes(
                final(out)@.subrange(old(out)@.len() as int, final(out)@.len() as int),
            ),
    {
        write_u8(out, self.position);
        write_u8(out, self.num_laps);
        write_u8(out, self.grid_position);
        write_u8(out, self.points);
        write_u8(out, self.num_pit_stops);
        write_u8(out, self.result_status);
        write_u32(out, self.best_lap_time_in_ms);
        write_u64(out, self.total_race_time);
        write_u8(out, self.penalties_time);
        write_u8(out, self.num_penalties);
        write_u8(out, self.num_tyre_stints);
        write_u8(out, self.tyre_stints_actual[0]);
        write_u8(out, self.tyre_stints_actual[1]);
        write_u8(out, self.tyre_stints_actual[2]);
        write_u8(out, self.tyre_stints_actual[3]);
        write_u8(out, self.tyre_stints_actual[4]);
        write_u8(out, self.tyre_stints_actual[5]);
        write_u8(out, self.tyre_stints_actual[6]);
        write_u8(out, self.tyre_stints_actual[7]);
        write_u8(out, self.tyre_stints_visual[0]);
        write_u8(out, self.tyre_stints_visual[1]);
        write_u8(out, self.tyre_stints_visual[2]);
        write_u8(out, self.tyre_stints_visual[3]);
        write_u8(out, self.tyre_stints_visual[4]);
        write_u8(out, self.tyre_stints_visual[5]);
        write_u8(out, self.tyre_stints_visual[6]);
        write_u8(out, self.tyre_stints_visual[7]);
        write_u8(out, self.tyre_stints_end_laps[0]);
        write_u8(out, self.tyre_stints_end_laps[1]);
        write_u8(out, self.tyre_stints_end_laps[2]);
        write_u8(out, self.tyre_stints_end_laps[3]);
        write_u8(out, self.tyre_stints_end_laps[4]);
        write_u8(out, self.tyre_stints_end_laps[5]);
        write_u8(out, self.tyre_stints_end_laps[6]);
        write_u8(out, self.tyre_stints_end_laps[7]);
        proof {
            let base = old(out)@.len() as int;
            assert(out@.subrange(0, base) =~= old(out)@);
            assert(self.encodes(out@.subrange(base, base + 45)));
        }
    }

    /// Encode this record as its fixed 45-byte wire image.
    pub fn serialize(&self) -> (r: Vec<u8>)
        requires
            self.wf(),
        ensures
            r@.len() == FINAL_CLASSIFICATION_DATA_SIZE,
            self.encodes(r@),
    {
        let mut out: Vec<u8> = Vec::new();
        self.write_into(&mut out);
        proof {
            assert(out@.subrange(0, 45) =~= out@);
        }
        out
    }

    /// Decode a record from the first 45 bytes of `bytes`.
    ///
    /// Succeeds exactly when at least 45 bytes are supplied; trailing
    /// bytes are ignored.
    pub fn unserialize(bytes: &[u8]) -> (r: Result<Self, PacketError>)
        ensures
            match r {
                Ok(p) => bytes@.len() >= 45 && p.wf() && p.encodes(
                    bytes@.subrange(0, 45),
                ),
                Err(e) => bytes@.len() < 45 && e == PacketError::TruncatedInput,
            },
    {
        if bytes.len() < FINAL_CLASSIFICATION_DATA_SIZE {
            return Err(PacketError::TruncatedInput);
        }
        Ok(Self::read_at(bytes, 0))
    }

    /// A wire image determines the record: decoding is unambiguous, and
    /// decoding the image written by `serialize` gives the value back.
    pub proof fn lemma_wire_image_determines_value(r1: Self, r2: Self, s: Seq<u8>)
        requires
            r1.wf(),
            r2.wf(),
            r1.encodes(s),
            r2.encodes(s),
        ensures
            r1.same_as(r2),
    {
        lemma_u32_reassemble(r1.best_lap_time_in_ms);
        lemma_u32_reassemble(r2.best_lap_time_in_ms);
        lemma_u64_reassemble(r1.total_race_time);
        lemma_u64_reassemble(r2.total_race_time);
        assert(r1.tyre_stints_actual@ =~= r2.tyre_stints_actual@);
        assert(r1.tyre_stints_visual@ =~= r2.tyre_stints_visual@);
        assert(r1.tyre_stints_end_laps@ =~= r2.tyre_stints_end_laps@);
    }

    /// A record has exactly one wire image.
    pub proof fn lemma_encoding_unique(r: Self, s1: Seq<u8>, s2: Seq<u8>)
        requires
            r.encodes(s1),
            r.encodes(s2),
        ensures
            s1 == s2,
    {
        assert(s1 =~= s2);
    }
}

impl PartialEq for FinalClassificationData {
    fn eq(&self, other: &Self) -> (r: bool) {
        self.position == other.position
            && self.num_laps == other.num_laps
            && self.grid_position == other.grid_position
            && self.points == other.points
            && self.num_pit_stops == other.num_pit_stops
            && self.result_status == other.result_status
            && self.best_lap_time_in_ms == other.best_lap_time_in_ms
            && self.total_race_time == other.total_race_time
            && self.penalties_time == other.penalties_time
            && self.num_penalties == other.num_penalties
            && self.num_tyre_stints == other.num_tyre_stints
            && eq_vec_u8(&self.tyre_stints_actual, &other.tyre_stints_actual)
            && eq_vec_u8(&self.tyre_stints_visual, &other.tyre_stints_visual)
            && eq_vec_u8(&self.tyre_stints_end_laps, &other.tyre_stints_end_laps)
    }
}

impl vstd::std_specs::cmp::PartialEqSpecImpl for FinalClassificationData {
    open spec fn obeys_eq_spec() -> bool {
        true
    }

    open spec fn eq_spec(&self, other: &Self) -> bool {
        self.same_as(*other)
    }
}

impl Default for FinalClassificationData {
    /// The all-zero record.
    fn default() -> (r: Self)
        ensures
            r.wf(),
            r.position == 0,
            r.num_laps == 0,
            r.grid_position == 0,
            r.points == 0,
            r.num_pit_stops == 0,
            r.result_status == 0,
            r.best_lap_time_in_ms == 0,
            r.total_race_time == 0,
            r.penalties_time == 0,
            r.num_penalties == 0,
            r.num_tyre_stints == 0,
            forall|k: int| 0 <= k < 8 ==> #[trigger] r.tyre_stints_actual@[k] == 0,
            forall|k: int| 0 <= k < 8 ==> #[trigger] r.tyre_stints_visual@[k] == 0,
            forall|k: int| 0 <= k < 8 ==> #[trigger] r.tyre_stints_end_laps@[k] == 0,
    {
        let mut tyre_stints_actual: Vec<u8> = Vec::new();
        tyre_stints_actual.push(0);
        tyre_stints_actual.push(0);
        tyre_stints_actual.push(0);
        tyre_stints_actual.push(0);
        tyre_stints_actual.push(0);
        tyre_stints_actual.push(0);
        tyre_stints_actual.push(0);
        tyre_stints_actual.push(0);
        let mut tyre_stints_visual: Vec<u8> = Vec::new();
        tyre_stints_visual.push(0);
        tyre_stints_visual.push(0);
        tyre_stints_visual.push(0);
        tyre_stints_visual.push(0);
        tyre_stints_visual.push(0);
        tyre_stints_visual.push(0);
        tyre_stints_visual.push(0);
        tyre_stints_visual.push(0);
        let mut tyre_stints_end_laps: Vec<u8> = Vec::new();
        tyre_stints_end_laps.push(0);
        tyre_stints_end_laps.push(0);
        tyre_stints_end_laps.push(0);
        tyre_stints_end_laps.push(0);
        tyre_stints_end_laps.push(0);
        tyre_stints_end_laps.push(0);
        tyre_stints_end_laps.push(0);
        tyre_stints_end_laps.push(0);
        FinalClassificationData {
            position: 0,
            num_laps: 0,
            grid_position: 0,
            points: 0,
            num_pit_stops: 0,
            result_status: 0,
            best_lap_time_in_ms: 0,
            total_race_time: 0,
            penalties_time: 0,
            num_penalties: 0,
            num_tyre_stints: 0,
            tyre_stints_actual,
            tyre_stints_visual,
            tyre_stints_end_laps,
        }
    }
}

/// The final classification at the end of a session. (1020 bytes on the wire).
#[derive(Debug, Clone)]
pub struct PacketFinalClassificationData {
    pub header: PacketHeader, // 29 Bytes
    pub num_cars: u8, // 1 Byte
    pub classification_data: Vec<FinalClassificationData>, // 22 x 45 Bytes
} // 1020 Bytes

impl PacketFinalClassificationData {
    /// The fixed element counts that the wire layout prescribes.
    pub open spec fn wf(self) -> bool {
        &&& self.classification_data@.len() == 22
        &&& forall|j: int| 0 <= j < 22 ==> (#[trigger] self.classification_data@[j]).wf()
    }

    /// `s` is exactly the wire image of this packet.
    pub open spec fn encodes(self, s: Seq<u8>) -> bool {
        &&& s.len() == 1020
        &&& self.header.encodes(s.subrange(0, 29))
        &&& s[29] == self.num_cars
        &&& forall|j: int| 0 <= j < 22 ==> (#[trigger] self.classification_data@[j]).encodes(
            s.subrange(30 + j * 45, 30 + (j + 1) * 45),
        )
    }

    /// Field-for-field equality; record arrays compare element-wise.
    pub open spec fn same_as(self, other: Self) -> bool {
        &&& self.header == other.header
        &&& self.num_cars == other.num_cars
        &&& self.classification_data@.len() == other.classification_data@.len()
        &&& forall|j: int| 0 <= j < self.classification_data@.len() ==>
            (#[trigger] self.classification_data@[j]).same_as(other.classification_data@[j])
    }

    /// Decode a packet from the first 1020 bytes of `bytes`.
    ///
    /// Succeeds exactly when at least 1020 bytes are supplied; trailing
    /// bytes are ignored.
    pub fn unserialize(bytes: &[u8]) -> (r: Result<Self, PacketError>)
        ensures
            match r {
                Ok(p) => bytes@.len() >= 1020 && p.wf() && p.encodes(
                    bytes@.subrange(0, 1020),
                ),
                Err(e) => bytes@.len() < 1020 && e == PacketError::TruncatedInput,
            },
    {
        if bytes.len() < PACKET_FINAL_CLASSIFICATION_DATA_SIZE {
            return Err(PacketError::TruncatedInput);
        }
        let header = PacketHeader::read_at(bytes, 0);
        let num_cars = read_u8_at(bytes, 29);
        let mut classification_data: Vec<FinalClassificationData> = Vec::new();
        let mut i: usize = 0;
        while i < 22
            invariant
                bytes@.len() >= 1020,
                i <= 22,
                classification_data@.len() == i,
                forall|j: int| 0 <= j < i ==> (#[trigger] classification_data@[j]).wf() && classification_data@[j].encodes(
                    bytes@.subrange(30 + j * 45, 30 + (j + 1) * 45),
                ),
            decreases 22 - i,
        {
            classification_data.push(FinalClassificationData::read_at(bytes, 30 + i * 45));
            i += 1;
        }
        let p = PacketFinalClassificationData {
            header,
            num_cars,
            classification_data,
        };
        proof {
            let s = bytes@.subrange(0, 1020);
            lemma_subrange_of_subrange(bytes@, 0, 1020, 0, 29);
            assert forall|j: int| 0 <= j < 22 implies (#[trigger] p.classification_data@[j]).encodes(
                s.subrange(30 + j * 45, 30 + (j + 1) * 45),
            ) by {
                lemma_subrange_of_subrange(bytes@, 0, 1020, 30 + j * 45, 30 + (j + 1) * 45);
            }
            assert(p.encodes(s));
        }
        Ok(p)
    }

    /// Append the wire image of this packet to `out`.
    #[verifier::rlimit(100)]
    pub fn write_into(&self, out: &mut Vec<u8>)
        requires
            self.wf(),
        ensures
            final(out)@.len() == old(out)@.len() + PACKET_FINAL_CLASSIFICATION_DATA_SIZE,
            final(out)@.subrange(0, old(out)@.len() as int) == old(out)@,
            self.encodes(
                final(out)@.subrange(old(out)@.len() as int, final(out)@.len() as int),
            ),
    {
        let ghost base: int = out@.len() as int;
        let ghost start = out@;
        self.header.write_into(out);
        write_u8(out, self.num_cars);
        let mut i: usize = 0;
        while i < 22
            invariant
                self.wf(),
                i <= 22,
                0 <= base,
                out@.len() == base + 30 + i * 45,
                out@.subrange(0, base) == start,
                self.header.encodes(out@.subrange(base, base + 29)),
                out@[base + 29] == self.num_cars,
                forall|j: int| 0 <= j < i ==> (#[trigger] self.classification_data@[j]).encodes(
                    out@.subrange(base + 30 + j * 45, base + 30 + (j + 1) * 45),
                ),
            decreases 22 - i,
        {
            let ghost prev = out@;
            self.classification_data[i].write_into(out);
            proof {
                assert forall|t: int| 0 <= t < prev.len() implies (#[trigger] out@[t]) == prev[t] by {
                    assert(prev[t] == out@.subrange(0, prev.len() as int)[t]);
                }
                lemma_subrange_of_prefix(out@, prev, 0, base);
                lemma_subrange_of_prefix(out@, prev, base, base + 29);
            }
            i += 1;
        }
        proof {
            let s = out@.subrange(base, base + 1020);
            lemma_subrange_of_subrange(out@, base, 1020, 0, 29);
            assert forall|j: int| 0 <= j < 22 implies (#[trigger] self.classification_data@[j]).encodes(
                s.subrange(30 + j * 45, 30 + (j + 1) * 45),
            ) by {
                lemma_subrange_of_subrange(out@, base, 1020, 30 + j * 45, 30 + (j + 1) * 45);
            }
            assert(self.encodes(s));
            assert(out@.subrange(0, base) =~= start);
        }
    }

    /// Encode this packet as its fixed 1020-byte wire image.
    pub fn serialize(&self) -> (r: Vec<u8>)
        requires
            self.wf(),
        ensures
            r@.len() == PACKET_FINAL_CLASSIFICATION_DATA_SIZE,
            self.encodes(r@),
    {
        let mut out: Vec<u8> = Vec::new();
        self.write_into(&mut out);
        proof {
            assert(out@.subrange(0, 1020) =~= out@);
        }
        out
    }

    /// A wire image determines the packet: decoding is unambiguous, and
    /// decoding the image written by `serialize` gives the value back.
    pub proof fn lemma_wire_image_determines_value(p1: Self, p2: Self, s: Seq<u8>)
        requires
            p1.wf(),
            p2.wf(),
            p1.encodes(s),
            p2.encodes(s),
        ensures
            p1.same_as(p2),
    {
        PacketHeader::lemma_wire_image_determines_value(
            p1.header, p2.header, s.subrange(0, 29));
        assert forall|j: int| 0 <= j < p1.classification_data@.len() implies
            (#[trigger] p1.classification_data@[j]).same_as(p2.classification_data@[j]) by {
            FinalClassificationData::lemma_wire_image_determines_value(
                p1.classification_data@[j], p2.classification_data@[j],
                s.subrange(30 + j * 45, 30 + (j + 1) * 45));
        }
    }

    /// A packet has exactly one wire image.
    pub proof fn lemma_encoding_unique(p: Self, s1: Seq<u8>, s2: Seq<u8>)
        requires
            p.wf(),
            p.encodes(s1),
            p.encodes(s2),
        ensures
            s1 == s2,
    {
        assert forall|i: int| 0 <= i < 1020 implies s1[i] == s2[i] by {
            if i < 29 {
                PacketHeader::lemma_encoding_unique(
                    p.header, s1.subrange(0, 29), s2.subrange(0, 29));
                assert(s1.subrange(0, 29)[i] == s2.subrange(0, 29)[i]);
            }
            if 30 <= i < 1020 {
                lemma_index_in_block(30, 45, 22, i);
                let j = (i - 30) / 45;
                FinalClassificationData::lemma_encoding_unique(
                    p.classification_data@[j],
                    s1.subrange(30 + j * 45, 30 + (j + 1) * 45),
                    s2.subrange(30 + j * 45, 30 + (j + 1) * 45));
                assert(s1.subrange(30 + j * 45, 30 + (j + 1) * 45)[i - 30 - j * 45]
                    == s2.subrange(30 + j * 45, 30 + (j + 1) * 45)[i - 30 - j * 45]);
            }
        }
        assert(s1 =~= s2);
    }
}

impl PartialEq for PacketFinalClassificationData {
    fn eq(&self, other: &Self) -> (r: bool) {
        self.header == other.header
            && self.num_cars == other.num_cars
            && eq_vec_final_classification_data(&self.classification_data, &other.classification_data)
    }
}

impl vstd::std_specs::cmp::PartialEqSpecImpl for PacketFinalClassificationData {
    open spec fn obeys_eq_spec() -> bool {
        true
    }

    open spec fn eq_spec(&self, other: &Self) -> bool {
        self.same_as(*other)
    }
}

impl Default for PacketFinalClassificationData {
    /// The all-zero packet, with every array at its fixed length.
    fn default() -> (r: Self)
        ensures
            r.wf(),
    {
        let mut classification_data: Vec<FinalClassificationData> = Vec::new();
        let mut i: usize = 0;
        while i < 22
            invariant
                i <= 22,
                classification_data@.len() == i,
                forall|j: int| 0 <= j < i ==> (#[trigger] classification_data@[j]).wf(),
            decreases 22 - i,
        {
            classification_data.push(FinalClassificationData::default());
            i += 1;
        }
        PacketFinalClassificationData {
            header: PacketHeader::default(),
            num_cars: 0,
            classification_data,
        }
    }
}

/// Element-wise equality of two `FinalClassificationData` vectors.
fn eq_vec_final_classification_data(a: &Vec<FinalClassificationData>, b: &Vec<FinalClassificationData>) -> (r: bool)
    ensures
        r == (a@.len() == b@.len() && forall|j: int| 0 <= j < a@.len() ==>
            (#[trigger] a@[j]).same_as(b@[j])),
{
    if a.len() != b.len() {
        return false;
    }
    let mut i: usize = 0;
    while i < a.len()
        invariant
            a@.len() == b@.len(),
            i <= a@.len(),
            forall|j: int| 0 <= j < i ==> (#[trigger] a@[j]).same_as(b@[j]),
        decreases a@.len() - i,
    {
        if !(a[i] == b[i]) {
            return false;
        }
        i += 1;
    }
    true
}

} // verus!
