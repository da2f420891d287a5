//! Lap timing for every car slot.

use vstd::prelude::*;
use crate::error::PacketError;
use crate::packets::packet_header::PacketHeader;
use crate::wire::{
    u16_b0,
    u16_b1,
    u32_b0,
    u32_b1,
    u32_b2,
    u32_b3,
    read_u8_at,
    read_u16_at,
    read_u32_at,
    write_u8,
    write_u16,
    write_u32,
    lemma_u16_reassemble,
    lemma_u32_reassemble,
    lemma_subrange_of_prefix,
    lemma_subrange_of_subrange,
    lemma_index_in_block,
};

verus! {

/// Total encoded size of one `LapData` record, in bytes.
pub const LAP_DATA_SIZE: usize = 50;

/// Total encoded size of a `PacketLapData` packet, in bytes.
pub const PACKET_LAP_DATA_SIZE: usize = 1131;

/// One fixed-size `LapData` sub-record (50 bytes on the wire).
///
/// Float fields are carried as their raw little-endian bit patterns,
/// which round-trip exactly.
#[derive(Debug, Clone, Copy, PartialEq, Eq, Structural)]
pub struct LapData {
    pub last_lap_time_in_ms: u32, // 4 Bytes
    pub current_lap_time_in_ms: u32, // 4 Bytes
    pub sector1_time_in_ms: u16, // 2 Bytes
    pub sector1_time_minutes: u8, // 1 Byte
    pub sector2_time_in_ms: u16, // 2 Bytes
    pub sector2_time_minutes: u8, // 1 Byte
    pub delta_to_car_in_front_in_ms: u16, // 2 Bytes
    pub delta_to_race_leader_in_ms: u16, // 2 Bytes
    pub lap_distance: u32, // 4 Bytes (float bits)
    pub total_distance: u32, // 4 Bytes (float bits)
    pub safety_car_delta: u32, // 4 Bytes (float bits)
    pub car_position: u8, // 1 Byte
    pub current_lap_num: u8, // 1 Byte
    pub pit_status: u8, // 1 Byte
    pub num_pit_stops: u8, // 1 Byte
    pub sector: u8, // 1 Byte
    pub current_lap_invalid: u8, // 1 Byte
    pub penalties: u8, // 1 Byte
    pub total_warnings: u8, // 1 Byte
    pub corner_cutting_warnings: u8, // 1 Byte
    pub num_unserved_drive_through_pens: u8, // 1 Byte
    pub num_unserved_stop_go_pens: u8, // 1 Byte
    pub grid_position: u8, // 1 Byte
    pub driver_status: u8, // 1 Byte
    pub result_status: u8, // 1 Byte
    pub pit_lane_timer_active: u8, // 1 Byte
    pub pit_lane_time_in_lane_in_ms: u16, // 2 Bytes
    pub pit_stop_timer_in_ms: u16, // 2 Bytes
    pub pit_stop_should_serve_pen: u8, // 1 Byte
} // 50 Bytes

impl LapData {
    /// `s` is exactly the wire image of this record.
    pub open spec fn encodes(self, s: Seq<u8>) -> bool {
        &&& s.len() == 50
        &&& s[0] == u32_b0(self.last_lap_time_in_ms)
        &&& s[1] == u32_b1(self.last_lap_time_in_ms)
        &&& s[2] == u32_b2(self.last_lap_time_in_ms)
        &&& s[3] == u32_b3(self.last_lap_time_in_ms)
        &&& s[4] == u32_b0(self.current_lap_time_in_ms)
        &&& s[5] == u32_b1(self.current_lap_time_in_ms)
        &&& s[6] == u32_b2(self.current_lap_time_in_ms)
        &&& s[7] == u32_b3(self.current_lap_time_in_ms)
        &&& s[8] == u16_b0(self.sector1_time_in_ms)
        &&& s[9] == u16_b1(self.sector1_time_in_ms)
        &&& s[10] == self.sector1_time_minutes
        &&& s[11] == u16_b0(self.sector2_time_in_ms)
        &&& s[12] == u16_b1(self.sector2_time_in_ms)
        &&& s[13] == self.sector2_time_minutes
        &&& s[14] == u16_b0(self.delta_to_car_in_front_in_ms)
        &&& s[15] == u16_b1(self.delta_to_car_in_front_in_ms)
        &&& s[16] == u16_b0(self.delta_to_race_leader_in_ms)
        &&& s[17] == u16_b1(self.delta_to_race_leader_in_ms)
        &&& s[18] == u32_b0(self.lap_distance)
        &&& s[19] == u32_b1(self.lap_distance)
        &&& s[20] == u32_b2(self.lap_distance)
        &&& s[21] == u32_b3(self.lap_distance)
        &&& s[22] == u32_b0(self.total_distance)
        &&& s[23] == u32_b1(self.total_distance)
        &&& s[24] == u32_b2(self.total_distance)
        &&& s[25] == u32_b3(self.total_distance)
        &&& s[26] == u32_b0(self.safety_car_delta)
        &&& s[27] == u32_b1(self.safety_car_delta)
        &&& s[28] == u32_b2(self.safety_car_delta)
        &&& s[29] == u32_b3(self.safety_car_delta)
        &&& s[30] == self.car_position
        &&& s[31] == self.current_lap_num
        &&& s[32] == self.pit_status
        &&& s[33] == self.num_pit_stops
        &&& s[34] == self.sector
        &&& s[35] == self.current_lap_invalid
        &&& s[36] == self.penalties
        &&& s[37] == self.total_warnings
        &&& s[38] == self.corner_cutting_warnings
        &&& s[39] == self.num_unserved_drive_through_pens
        &&& s[40] == self.num_unserved_stop_go_pens
        &&& s[41] == self.grid_position
        &&& s[42] == self.driver_status
        &&& s[43] == self.result_status
        &&& s[44] == self.pit_lane_timer_active
        &&& s[45] == u16_b0(self.pit_lane_time_in_lane_in_ms)
        &&& s[46] == u16_b1(self.pit_lane_time_in_lane_in_ms)
        &&& s[47] == u16_b0(self.pit_stop_timer_in_ms)
        &&& s[48] == u16_b1(self.pit_stop_timer_in_ms)
        &&& s[49] == self.pit_stop_should_serve_pen
    }

    /// Decode the record stored at `off`.
    #[verifier::rlimit(100)]
    pub fn read_at(b: &[u8], off: usize) -> (r: Self)
        requires
            off + LAP_DATA_SIZE <= b@.len(),
        ensures
            r.encodes(b@.subrange(off as int, off + LAP_DATA_SIZE)),
    {
        let _len = b.len(); // the verifier learns the slice length fits in usize
        let last_lap_time_in_ms = read_u32_at(b, off);
        let current_lap_time_in_ms = read_u32_at(b, off + 4);
        let sector1_time_in_ms = read_u16_at(b, off + 8);
        let sector1_time_minutes = read_u8_at(b, off + 10);
        let sector2_time_in_ms = read_u16_at(b, off + 11);
        let sector2_time_minutes = read_u8_at(b, off + 13);
        let delta_to_car_in_front_in_ms = read_u16_at(b, off + 14);
        let delta_to_race_leader_in_ms = read_u16_at(b, off + 16);
        let lap_distance = read_u32_at(b, off + 18);
        let total_distance = read_u32_at(b, off + 22);
        let safety_car_delta = read_u32_at(b, off + 26);
        let car_position = read_u8_at(b, off + 30);
        let current_lap_num = read_u8_at(b, off + 31);
        let pit_status = read_u8_at(b, off + 32);
        let num_pit_stops = read_u8_at(b, off + 33);
        let sector = read_u8_at(b, off + 34);
        let current_lap_invalid = read_u8_at(b, off + 35);
        let penalties = read_u8_at(b, off + 36);
        let total_warnings = read_u8_at(b, off + 37);
        let corner_cutting_warnings = read_u8_at(b, off + 38);
        let num_unserved_drive_through_pens = read_u8_at(b, off + 39);
        let num_unserved_stop_go_pens = read_u8_at(b, off + 40);
        let grid_position = read_u8_at(b, off + 41);
        let driver_status = read_u8_at(b, off + 42);
        let result_status = read_u8_at(b, off + 43);
        let pit_lane_timer_active = read_u8_at(b, off + 44);
        let pit_lane_time_in_lane_in_ms = read_u16_at(b, off + 45);
        let pit_stop_timer_in_ms = read_u16_at(b, off + 47);
        let pit_stop_should_serve_pen = read_u8_at(b, off + 49);
        let r = LapData {
            last_lap_time_in_ms,
            current_lap_time_in_ms,
            sector1_time_in_ms,
            sector1_time_minutes,
            sector2_time_in_ms,
            sector2_time_minutes,
            delta_to_car_in_front_in_ms,
            delta_to_race_leader_in_ms,
            lap_distance,
            total_distance,
            safety_car_delta,
            car_position,
            current_lap_num,
            pit_status,
            num_pit_stops,
            sector,
            current_lap_invalid,
            penalties,
            total_warnings,
            corner_cutting_warnings,
            num_unserved_drive_through_pens,
            num_unserved_stop_go_pens,
            grid_position,
            driver_status,
            result_status,
            pit_lane_timer_active,
            pit_lane_time_in_lane_in_ms,
            pit_stop_timer_in_ms,
            pit_stop_should_serve_pen,
        };
        proof {
            assert(r.encodes(b@.subrange(off as int, off + LAP_DATA_SIZE)));
        }
        r
    }

    /// Append the wire image of this record to `out`.
    #[verifier::rlimit(100)]
    pub fn write_into(&self, out: &mut Vec<u8>)
        ensures
            final(out)@.len() == old(out)@.len() + LAP_DATA_SIZE,
            final(out)@.subrange(0, old(out)@.len() as int) == old(out)@,
            self.encodes(
                final(out)@.subrange(old(out)@.len() as int, final(out)@.len() as int),
            ),
    {
        write_u32(out, self.last_lap_time_in_ms);
        write_u32(out, self.current_lap_time_in_ms);
        write_u16(out, self.sector1_time_in_ms);
        write_u8(out, self.sector1_time_minutes);
        write_u16(out, self.sector2_time_in_ms);
        write_u8(out, self.sector2_time_minutes);
        write_u16(out, self.delta_to_car_in_front_in_ms);
        write_u16(out, self.delta_to_race_leader_in_ms);
        write_u32(out, self.lap_distance);
        write_u32(out, self.total_distance);
        write_u32(out, self.safety_car_delta);
        write_u8(out, self.car_position);
        write_u8(out, self.current_lap_num);
        write_u8(out, self.pit_status);
        write_u8(out, self.num_pit_stops);
        write_u8(out, self.sector);
        write_u8(out, self.current_lap_invalid);
        write_u8(out, self.penalties);
        write_u8(out, self.total_warnings);
        write_u8(out, self.corner_cutting_warnings);
        write_u8(out, self.num_unserved_drive_through_pens);
        write_u8(out, self.num_unserved_stop_go_pens);
        write_u8(out, self.grid_position);
        write_u8(out, self.driver_status);
        write_u8(out, self.result_status);
        write_u8(out, self.pit_lane_timer_active);
        write_u16(out, self.pit_lane_time_in_lane_in_ms);
        write_u16(out, self.pit_stop_timer_in_ms);
        write_u8(out, self.pit_stop_should_serve_pen);
        proof {
            let base = old(out)@.len() as int;
            assert(out@.subrange(0, base) =~= old(out)@);
            assert(self.encodes(out@.subrange(base, base + 50)));
        }
    }

    /// Encode this record as its fixed 50-byte wire image.
    pub fn serialize(&self) -> (r: Vec<u8>)
        ensures
            r@.len() == LAP_DATA_SIZE,
            self.encodes(r@),
    {
        let mut out: Vec<u8> = Vec::new();
        self.write_into(&mut out);
        proof {
            assert(out@.subrange(0, 50) =~= out@);
        }
        out
    }

    /// Decode a record from the first 50 bytes of `bytes`.
    ///
    /// Succeeds exactly when at least 50 bytes are supplied; trailing
    /// bytes are ignored.
    pub fn unserialize(bytes: &[u8]) -> (r: Result<Self, PacketError>)
        ensures
            match r {
                Ok(p) => bytes@.len() >= 50 && p.encodes(
                    bytes@.subrange(0, 50),
                ),
                Err(e) => bytes@.len() < 50 && e == PacketError::TruncatedInput,
            },
    {
        if bytes.len() < LAP_DATA_SIZE {
            return Err(PacketError::TruncatedInput);
        }
        Ok(Self::read_at(bytes, 0))
    }

    /// A wire image determines the record: decoding is unambiguous, and
    /// decoding the image written by `serialize` gives the value back.
    pub proof fn lemma_wire_image_determines_value(r1: Self, r2: Self, s: Seq<u8>)
        requires
            r1.encodes(s),
            r2.encodes(s),
        ensures
            r1 == r2,
    {
        lemma_u32_reassemble(r1.last_lap_time_in_ms);
        lemma_u32_reassemble(r2.last_lap_time_in_ms);
        lemma_u32_reassemble(r1.current_lap_time_in_ms);
        lemma_u32_reassemble(r2.current_lap_time_in_ms);
        lemma_u16_reassemble(r1.sector1_time_in_ms);
        lemma_u16_reassemble(r2.sector1_time_in_ms);
        lemma_u16_reassemble(r1.sector2_time_in_ms);
        lemma_u16_reassemble(r2.sector2_time_in_ms);
        lemma_u16_reassemble(r1.delta_to_car_in_front_in_ms);
        lemma_u16_reassemble(r2.delta_to_car_in_front_in_ms);
        lemma_u16_reassemble(r1.delta_to_race_leader_in_ms);
        lemma_u16_reassemble(r2.delta_to_race_leader_in_ms);
        lemma_u32_reassemble(r1.lap_distance);
        lemma_u32_reassemble(r2.lap_distance);
        lemma_u32_reassemble(r1.total_distance);
        lemma_u32_reassemble(r2.total_distance);
        lemma_u32_reassemble(r1.safety_car_delta);
        lemma_u32_reassemble(r2.safety_car_delta);
        lemma_u16_reassemble(r1.pit_lane_time_in_lane_in_ms);
        lemma_u16_reassemble(r2.pit_lane_time_in_lane_in_ms);
        lemma_u16_reassemble(r1.pit_stop_timer_in_ms);
        lemma_u16_reassemble(r2.pit_stop_timer_in_ms);
    }

    /// A record has exactly one wire image.
    pub proof fn lemma_encoding_unique(r: Self, s1: Seq<u8>, s2: Seq<u8>)
        requires
            r.encodes(s1),
            r.encodes(s2),
        ensures
            s1 == s2,
    {
        assert(s1 =~= s2);
    }
}

impl Default for LapData {
    /// The all-zero record.
    fn default() -> (r: Self)
        ensures
            (r == LapData {
                last_lap_time_in_ms: 0,
                current_lap_time_in_ms: 0,
                sector1_time_in_ms: 0,
                sector1_time_minutes: 0,
                sector2_time_in_ms: 0,
                sector2_time_minutes: 0,
                delta_to_car_in_front_in_ms: 0,
                delta_to_race_leader_in_ms: 0,
                lap_distance: 0,
                total_distance: 0,
                safety_car_delta: 0,
                car_position: 0,
                current_lap_num: 0,
                pit_status: 0,
                num_pit_stops: 0,
                sector: 0,
                current_lap_invalid: 0,
                penalties: 0,
                total_warnings: 0,
                corner_cutting_warnings: 0,
                num_unserved_drive_through_pens: 0,
                num_unserved_stop_go_pens: 0,
                grid_position: 0,
                driver_status: 0,
                result_status: 0,
                pit_lane_timer_active: 0,
                pit_lane_time_in_lane_in_ms: 0,
                pit_stop_timer_in_ms: 0,
                pit_stop_should_serve_pen: 0,
            }),
    {
        LapData {
            last_lap_time_in_ms: 0,
            current_lap_time_in_ms: 0,
            sector1_time_in_ms: 0,
            sector1_time_minutes: 0,
            sector2_time_in_ms: 0,
            sector2_time_minutes: 0,
            delta_to_car_in_front_in_ms: 0,
            delta_to_race_leader_in_ms: 0,
            lap_distance: 0,
            total_distance: 0,
            safety_car_delta: 0,
            car_position: 0,
            current_lap_num: 0,
            pit_status: 0,
            num_pit_stops: 0,
            sector: 0,
            current_lap_invalid: 0,
            penalties: 0,
            total_warnings: 0,
            corner_cutting_warnings: 0,
            num_unserved_drive_through_pens: 0,
            num_unserved_stop_go_pens: 0,
            grid_position: 0,
            driver_status: 0,
            result_status: 0,
            pit_lane_timer_active: 0,
            pit_lane_time_in_lane_in_ms: 0,
            pit_stop_timer_in_ms: 0,
            pit_stop_should_serve_pen: 0,
        }
    }
}

/// Lap timing for every car slot. (1131 bytes on the wire).
#[derive(Debug, Clone)]
pub struct PacketLapData {
    pub header: PacketHeader, // 29 Bytes
    pub lap_data: Vec<LapData>, // 22 x 50 Bytes
    pub time_trial_pb_car_idx: u8, // 1 Byte
    pub time_trial_rival_car_idx: u8, // 1 Byte
} // 1131 Bytes

impl PacketLapData {
    /// The fixed element counts that the wire layout prescribes.
    pub open spec fn wf(self) -> bool {
        &&& self.lap_data@.len() == 22
    }

    /// `s` is exactly the wire image of this packet.
    pub open spec fn encodes(self, s: Seq<u8>) -> bool {
        &&& s.len() == 1131
        &&& self.header.encodes(s.subrange(0, 29))
        &&& forall|j: int| 0 <= j < 22 ==> (#[trigger] self.lap_data@[j]).encodes(
            s.subrange(29 + j * 50, 29 + (j + 1) * 50),
        )
        &&& s[1129] == self.time_trial_pb_car_idx
        &&& s[1130] == self.time_trial_rival_car_idx
    }

    /// Field-for-field equality; record arrays compare element-wise.
    pub open spec fn same_as(self, other: Self) -> bool {
        &&& self.header == other.header
        &&& self.lap_data@ == other.lap_data@
        &&& self.time_trial_pb_car_idx == other.time_trial_pb_car_idx
        &&& self.time_trial_rival_car_idx == other.time_trial_rival_car_idx
    }

    /// Decode a packet from the first 1131 bytes of `bytes`.
    ///
    /// Succeeds exactly when at least 1131 bytes are supplied; trailing
    /// bytes are ignored.
    pub fn unserialize(bytes: &[u8]) -> (r: Result<Self, PacketError>)
        ensures
            match r {
                Ok(p) => bytes@.len() >= 1131 && p.wf() && p.encodes(
                    bytes@.subrange(0, 1131),
                ),
                Err(e) => bytes@.len() < 1131 && e == PacketError::TruncatedInput,
            },
    {
        if bytes.len() < PACKET_LAP_DATA_SIZE {
            return Err(PacketError::TruncatedInput);
        }
        let header = PacketHeader::read_at(bytes, 0);
        let mut lap_data: Vec<LapData> = Vec::new();
        let mut i: usize = 0;
        while i < 22
            invariant
                bytes@.len() >= 1131,
                i <= 22,
                lap_data@.len() == i,
                forall|j: int| 0 <= j < i ==> (#[trigger] lap_data@[j]).encodes(
                    bytes@.subrange(29 + j * 50, 29 + (j + 1) * 50),
                ),
            decreases 22 - i,
        {
            lap_data.push(LapData::read_at(bytes, 29 + i * 50));
            i += 1;
        }
        let time_trial_pb_car_idx = read_u8_at(bytes, 1129);
        let time_trial_rival_car_idx = read_u8_at(bytes, 1130);
        let p = PacketLapData {
            header,
            lap_data,
            time_trial_pb_car_idx,
            time_trial_rival_car_idx,
        };
        proof {
            let s = bytes@.subrange(0, 1131);
            lemma_subrange_of_subrange(bytes@, 0, 1131, 0, 29);
            assert forall|j: int| 0 <= j < 22 implies (#[trigger] p.lap_data@[j]).encodes(
                s.subrange(29 + j * 50, 29 + (j + 1) * 50),
            ) by {
                lemma_subrange_of_subrange(bytes@, 0, 1131, 29 + j * 50, 29 + (j + 1) * 50);
            }
            assert(p.encodes(s));
        }
        Ok(p)
    }

    /// Append the wire image of this packet to `out`.
    #[verifier::rlimit(100)]
    pub fn write_into(&self, out: &mut Vec<u8>)
        requires
            self.wf(),
        ensures
            final(out)@.len() == old(out)@.len() + PACKET_LAP_DATA_SIZE,
            final(out)@.subrange(0, old(out)@.len() as int) == old(out)@,
            self.encodes(
                final(out)@.subrange(old(out)@.len() as int, final(out)@.len() as int),
            ),
    {
        let ghost base: int = out@.len() as int;
        let ghost start = out@;
        self.header.write_into(out);
        let mut i: usize = 0;
        while i < 22
            invariant
                self.wf(),
                i <= 22,
                0 <= base,
                out@.len() == base + 29 + i * 50,
                out@.subrange(0, base) == start,
                self.header.encodes(out@.subrange(base, base + 29)),
                forall|j: int| 0 <= j < i ==> (#[trigger] self.lap_data@[j]).encodes(
                    out@.subrange(base + 29 + j * 50, base + 29 + (j + 1) * 50),
                ),
            decreases 22 - i,
        {
            let ghost prev = out@;
            self.lap_data[i].write_into(out);
            proof {
                assert forall|t: int| 0 <= t < prev.len() implies (#[trigger] out@[t]) == prev[t] by {
                    assert(prev[t] == out@.subrange(0, prev.len() as int)[t]);
                }
                lemma_subrange_of_prefix(out@, prev, 0, base);
                lemma_subrange_of_prefix(out@, prev, base, base + 29);
            }
            i += 1;
        }
        write_u8(out, self.time_trial_pb_car_idx);
        write_u8(out, self.time_trial_rival_car_idx);
        proof {
            let s = out@.subrange(base, base + 1131);
            lemma_subrange_of_subrange(out@, base, 1131, 0, 29);
            assert forall|j: int| 0 <= j < 22 implies (#[trigger] self.lap_data@[j]).encodes(
                s.subrange(29 + j * 50, 29 + (j + 1) * 50),
            ) by {
                lemma_subrange_of_subrange(out@, base, 1131, 29 + j * 50, 29 + (j + 1) * 50);
            }
            assert(self.encodes(s));
            assert(out@.subrange(0, base) =~= start);
        }
    }

    /// Encode this packet as its fixed 1131-byte wire image.
    pub fn serialize(&self) -> (r: Vec<u8>)
        requires
            self.wf(),
        ensures
            r@.len() == PACKET_LAP_DATA_SIZE,
            self.encodes(r@),
    {
        let mut out: Vec<u8> = Vec::new();
        self.write_into(&mut out);
        proof {
            assert(out@.subrange(0, 1131) =~= out@);
        }
        out
    }

    /// A wire image determines the packet: decoding is unambiguous, and
    /// decoding the image written by `serialize` gives the value back.
    pub proof fn lemma_wire_image_determines_value(p1: Self, p2: Self, s: Seq<u8>)
        requires
            p1.wf(),
            p2.wf(),
            p1.encodes(s),
            p2.encodes(s),
        ensures
            p1.same_as(p2),
    {
        PacketHeader::lemma_wire_image_determines_value(
            p1.header, p2.header, s.subrange(0, 29));
        assert forall|j: int| 0 <= j < 22 implies
            #[trigger] p1.lap_data@[j] == p2.lap_data@[j] by {
            LapData::lemma_wire_image_determines_value(
                p1.lap_data@[j], p2.lap_data@[j],
                s.subrange(29 + j * 50, 29 + (j + 1) * 50));
        }
        assert(p1.lap_data@ =~= p2.lap_data@);
    }

    /// A packet has exactly one wire image.
    pub proof fn lemma_encoding_unique(p: Self, s1: Seq<u8>, s2: Seq<u8>)
        requires
            p.wf(),
            p.encodes(s1),
            p.encodes(s2),
        ensures
            s1 == s2,
    {
        assert forall|i: int| 0 <= i < 1131 implies s1[i] == s2[i] by {
            if i < 29 {
                PacketHeader::lemma_encoding_unique(
                    p.header, s1.subrange(0, 29), s2.subrange(0, 29));
                assert(s1.subrange(0, 29)[i] == s2.subrange(0, 29)[i]);
            }
            if 29 <= i < 1129 {
                lemma_index_in_block(29, 50, 22, i);
                let j = (i - 29) / 50;
                LapData::lemma_encoding_unique(
                    p.lap_data@[j],
                    s1.subrange(29 + j * 50, 29 + (j + 1) * 50),
                    s2.subrange(29 + j * 50, 29 + (j + 1) * 50));
                assert(s1.subrange(29 + j * 50, 29 + (j + 1) * 50)[i - 29 - j * 50]
                    == s2.subrange(29 + j * 50, 29 + (j + 1) * 50)[i - 29 - j * 50]);
            }
        }
        assert(s1 =~= s2);
    }
}

impl PartialEq for PacketLapData {
    fn eq(&self, other: &Self) -> (r: bool) {
        self.header == other.header
            && eq_vec_lap_data(&self.lap_data, &other.lap_data)
            && self.time_trial_pb_car_idx == other.time_trial_pb_car_idx
            && self.time_trial_rival_car_idx == other.time_trial_rival_car_idx
    }
}

impl vstd::std_specs::cmp::PartialEqSpecImpl for PacketLapData {
    open spec fn obeys_eq_spec() -> bool {
        true
    }

    open spec fn eq_spec(&self, other: &Self) -> bool {
        self.same_as(*other)
    }
}

impl Default for PacketLapData {
    /// The all-zero packet, with every array at its fixed length.
    fn default() -> (r: Self)
        ensures
            r.wf(),
    {
        let mut lap_data: Vec<LapData> = Vec::new();
        let mut i: usize = 0;
        while i < 22
            invariant
                i <= 22,
                lap_data@.len() == i,
            decreases 22 - i,
        {
            lap_data.push(LapData::default());
            i += 1;
        }
        PacketLapData {
            header: PacketHeader::default(),
            lap_data,
            time_trial_pb_car_idx: 0,
            time_trial_rival_car_idx: 0,
        }
    }
}

/// Element-wise equality of two `LapData` vectors.
fn eq_vec_lap_data(a: &Vec<LapData>, b: &Vec<LapData>) -> (r: bool)
    ensures
        r == (a@ == b@),
{
    if a.len() != b.len() {
        return false;
    }
    let mut i: usize = 0;
    while i < a.len()
        invariant
            a@.len() == b@.len(),
            i <= a@.len(),
            forall|j: int| 0 <= j < i ==> #[trigger] a@[j] == b@[j],
        decreases a@.len() - i,
    {
        if !(a[i] == b[i]) {
            return false;
        }
        i += 1;
    }
    proof {
        assert(a@ =~= b@);
    }
    true
}

} // verus!
