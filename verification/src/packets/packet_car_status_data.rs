//! Car status for every car slot.

use vstd::prelude::*;
use crate::error::PacketError;
use crate::packets::packet_header::PacketHeader;
use crate::wire::{
    i8_b0,
    u16_b0,
    u16_b1,
    u32_b0,
    u32_b1,
    u32_b2,
    u32_b3,
    read_u8_at,
    read_i8_at,
    read_u16_at,
    read_u32_at,
    write_u8,
    write_i8,
    write_u16,
    write_u32,
    lemma_u16_reassemble,
    lemma_u32_reassemble,
    lemma_i8_b0_injective,
    lemma_subrange_of_prefix,
    lemma_subrange_of_subrange,
    lemma_index_in_block,
};

verus! {

/// Total encoded size of one `CarStatusData` record, in bytes.
pub const CAR_STATUS_DATA_SIZE: usize = 55;

/// Total encoded size of a `PacketCarStatusData` packet, in bytes.
pub const PACKET_CAR_STATUS_DATA_SIZE: usize = 1239;

/// One fixed-size `CarStatusData` sub-record (55 bytes on the wire).
///
/// Float fields are carried as their raw little-endian bit patterns,
/// which round-trip exactly.
#[derive(Debug, Clone, Copy, PartialEq, Eq, Structural)]
pub struct CarStatusData {
    pub traction_control: u8, // 1 Byte
    pub anti_lock_brakes: u8, // 1 Byte
    pub fuel_mix: u8, // 1 Byte
    pub front_brake_bias: u8, // 1 Byte
    pub pit_limiter_status: u8, // 1 Byte
    pub fuel_in_tank: u32, // 4 Bytes (float bits)
    pub fuel_capacity: u32, // 4 Bytes (float bits)
    pub fuel_remaining_laps: u32, // 4 Bytes (float bits)
    pub max_rpm: u16, // 2 Bytes
    pub idle_rpm: u16, // 2 Bytes
    pub max_gears: u8, // 1 Byte
    pub drs_allowed: u8, // 1 Byte
    pub drs_activation_distance: u16, // 2 Bytes
    pub actual_tyre_compound: u8, // 1 Byte
    pub visual_tyre_compound: u8, // 1 Byte
    pub tyres_age_laps: u8, // 1 Byte
    pub vehicle_fia_flags: i8, // 1 Byte
    pub engine_power_ice: u32, // 4 Bytes (float bits)
    pub engine_power_mguk: u32, // 4 Bytes (float bits)
    pub ers_store_energy: u32, // 4 Bytes (float bits)
    pub ers_deploy_mode: u8, // 1 Byte
    pub ers_harvested_this_lap_mguk: u32, // 4 Bytes (float bits)
    pub ers_harvested_this_lap_mguh: u32, // 4 Bytes (float bits)
    pub ers_deployed_this_lap: u32, // 4 Bytes (float bits)
    pub network_paused: u8, // 1 Byte
} // 55 Bytes

impl CarStatusData {
    /// `s` is exactly the wire image of this record.
    pub open spec fn encodes(self, s: Seq<u8>) -> bool {
        &&& s.len() == 55
        &&& s[0] == self.traction_control
        &&& s[1] == self.anti_lock_brakes
        &&& s[2] == self.fuel_mix
        &&& s[3] == self.front_brake_bias
        &&& s[4] == self.pit_limiter_status
        &&& s[5] == u32_b0(self.fuel_in_tank)
        &&& s[6] == u32_b1(self.fuel_in_tank)
        &&& s[7] == u32_b2(self.fuel_in_tank)
        &&& s[8] == u32_b3(self.fuel_in_tank)
        &&& s[9] == u32_b0(self.fuel_capacity)
        &&& s[10] == u32_b1(self.fuel_capacity)
        &&& s[11] == u32_b2(self.fuel_capacity)
        &&& s[12] == u32_b3(self.fuel_capacity)
        &&& s[13] == u32_b0(self.fuel_remaining_laps)
        &&& s[14] == u32_b1(self.fuel_remaining_laps)
        &&& s[15] == u32_b2(self.fuel_remaining_laps)
        &&& s[16] == u32_b3(self.fuel_remaining_laps)
        &&& s[17] == u16_b0(self.max_rpm)
        &&& s[18] == u16_b1(self.max_rpm)
        &&& s[19] == u16_b0(self.idle_rpm)
        &&& s[20] == u16_b1(self.idle_rpm)
        &&& s[21] == self.max_gears
        &&& s[22] == self.drs_allowed
        &&& s[23] == u16_b0(self.drs_activation_distance)
        &&& s[24] == u16_b1(self.drs_activation_distance)
        &&& s[25] == self.actual_tyre_compound
        &&& s[26] == self.visual_tyre_compound
        &&& s[27] == self.tyres_age_laps
        &&& s[28] == i8_b0(self.vehicle_fia_flags)
        &&& s[29] == u32_b0(self.engine_power_ice)
        &&& s[30] == u32_b1(self.engine_power_ice)
        &&& s[31] == u32_b2(self.engine_power_ice)
        &&& s[32] == u32_b3(self.engine_power_ice)
        &&& s[33] == u32_b0(self.engine_power_mguk)
        &&& s[34] == u32_b1(self.engine_power_mguk)
        &&& s[35] == u32_b2(self.engine_power_mguk)
        &&& s[36] == u32_b3(self.engine_power_mguk)
        &&& s[37] == u32_b0(self.ers_store_energy)
        &&& s[38] == u32_b1(self.ers_store_energy)
        &&& s[39] == u32_b2(self.ers_store_energy)
        &&& s[40] == u32_b3(self.ers_store_energy)
        &&& s[41] == self.ers_deploy_mode
        &&& s[42] == u32_b0(self.ers_harvested_this_lap_mguk)
        &&& s[43] == u32_b1(self.ers_harvested_this_lap_mguk)
        &&& s[44] == u32_b2(self.ers_harvested_this_lap_mguk)
        &&& s[45] == u32_b3(self.ers_harvested_this_lap_mguk)
        &&& s[46] == u32_b0(self.ers_harvested_this_lap_mguh)
        &&& s[47] == u32_b1(self.ers_harvested_this_lap_mguh)
        &&& s[48] == u32_b2(self.ers_harvested_this_lap_mguh)
        &&& s[49] == u32_b3(self.ers_harvested_this_lap_mguh)
        &&& s[50] == u32_b0(self.ers_deployed_this_lap)
        &&& s[51] == u32_b1(self.ers_deployed_this_lap)
        &&& s[52] == u32_b2(self.ers_deployed_this_lap)
        &&& s[53] == u32_b3(self.ers_deployed_this_lap)
        &&& s[54] == self.network_paused
    }

    /// Decode the record stored at `off`.
    #[verifier::rlimit(100)]
    pub fn read_at(b: &[u8], off: usize) -> (r: Self)
        requires
            off + CAR_STATUS_DATA_SIZE <= b@.len(),
        ensures
            r.encodes(b@.subrange(off as int, off + CAR_STATUS_DATA_SIZE)),
    {
        let _len = b.len(); // the verifier learns the slice length fits in usize
        let traction_control = read_u8_at(b, off);
        let anti_lock_brakes = read_u8_at(b, off + 1);
        let fuel_mix = read_u8_at(b, off + 2);
        let front_brake_bias = read_u8_at(b, off + 3);
        let pit_limiter_status = read_u8_at(b, off + 4);
        let fuel_in_tank = read_u32_at(b, off + 5);
        let fuel_capacity = read_u32_at(b, off + 9);
        let fuel_remaining_laps = read_u32_at(b, off + 13);
        let max_rpm = read_u16_at(b, off + 17);
        let idle_rpm = read_u16_at(b, off + 19);
        let max_gears = read_u8_at(b, off + 21);
        let drs_allowed = read_u8_at(b, off + 22);
        let drs_activation_distance = read_u16_at(b, off + 23);
        let actual_tyre_compound = read_u8_at(b, off + 25);
        let visual_tyre_compound = read_u8_at(b, off + 26);
        let tyres_age_laps = read_u8_at(b, off + 27);
        let vehicle_fia_flags = read_i8_at(b, off + 28);
        let engine_power_ice = read_u32_at(b, off + 29);
        let engine_power_mguk = read_u32_at(b, off + 33);
        let ers_store_energy = read_u32_at(b, off + 37);
        let ers_deploy_mode = read_u8_at(b, off + 41);
        let ers_harvested_this_lap_mguk = read_u32_at(b, off + 42);
        let ers_harvested_this_lap_mguh = read_u32_at(b, off + 46);
        let ers_deployed_this_lap = read_u32_at(b, off + 50);
        let network_paused = read_u8_at(b, off + 54);
        let r = CarStatusData {
            traction_control,
            anti_lock_brakes,
            fuel_mix,
            front_brake_bias,
            pit_limiter_status,
            fuel_in_tank,
            fuel_capacity,
            fuel_remaining_laps,
            max_rpm,
            idle_rpm,
            max_gears,
            drs_allowed,
            drs_activation_distance,
            actual_tyre_compound,
            visual_tyre_compound,
            tyres_age_laps,
            vehicle_fia_flags,
            engine_power_ice,
            engine_power_mguk,
            ers_store_energy,
            ers_deploy_mode,
            ers_harvested_this_lap_mguk,
            ers_harvested_this_lap_mguh,
            ers_deployed_this_lap,
            network_paused,
        };
        proof {
            assert(r.encodes(b@.subrange(off as int, off + CAR_STATUS_DATA_SIZE)));
        }
        r
    }

    /// Append the wire image of this record to `out`.
    #[verifier::rlimit(100)]
    pub fn write_into(&self, out: &mut Vec<u8>)
        ensures
            final(out)@.len() == old(out)@.len() + CAR_STATUS_DATA_SIZE,
            final(out)@.subrange(0, old(out)@.len() as int) == old(out)@,
            self.encodes(
                final(out)@.subrange(old(out)@.len() as int, final(out)@.len() as int),
            ),
    {
        write_u8(out, self.traction_control);
        write_u8(out, self.anti_lock_brakes);
        write_u8(out, self.fuel_mix);
        write_u8(out, self.front_brake_bias);
        write_u8(out, self.pit_limiter_status);
        write_u32(out, self.fuel_in_tank);
        write_u32(out, self.fuel_capacity);
        write_u32(out, self.fuel_remaining_laps);
        write_u16(out, self.max_rpm);
        write_u16(out, self.idle_rpm);
        write_u8(out, self.max_gears);
        write_u8(out, self.drs_allowed);
        write_u16(out, self.drs_activation_distance);
        write_u8(out, self.actual_tyre_compound);
        write_u8(out, self.visual_tyre_compound);
        write_u8(out, self.tyres_age_laps);
        write_i8(out, self.vehicle_fia_flags);
        write_u32(out, self.engine_power_ice);
        write_u32(out, self.engine_power_mguk);
        write_u32(out, self.ers_store_energy);
        write_u8(out, self.ers_deploy_mode);
        write_u32(out, self.ers_harvested_this_lap_mguk);
        write_u32(out, self.ers_harvested_this_lap_mguh);
        write_u32(out, self.ers_deployed_this_lap);
        write_u8(out, self.network_paused);
        proof {
            let base = old(out)@.len() as int;
            assert(out@.subrange(0, base) =~= old(out)@);
            assert(self.encodes(out@.subrange(base, base + 55)));
        }
    }

    /// Encode this record as its fixed 55-byte wire image.
    pub fn serialize(&self) -> (r: Vec<u8>)
        ensures
            r@.len() == CAR_STATUS_DATA_SIZE,
            self.encodes(r@),
    {
        let mut out: Vec<u8> = Vec::new();
        self.write_into(&mut out);
        proof {
            assert(out@.subrange(0, 55) =~= out@);
        }
        out
    }

    /// Decode a record from the first 55 bytes of `bytes`.
    ///
    /// Succeeds exactly when at least 55 bytes are supplied; trailing
    /// bytes are ignored.
    pub fn unserialize(bytes: &[u8]) -> (r: Result<Self, PacketError>)
        ensures
            match r {
                Ok(p) => bytes@.len() >= 55 && p.encodes(
                    bytes@.subrange(0, 55),
                ),
                Err(e) => bytes@.len() < 55 && e == PacketError::TruncatedInput,
            },
    {
        if bytes.len() < CAR_STATUS_DATA_SIZE {
            return Err(PacketError::TruncatedInput);
        }
        Ok(Self::read_at(bytes, 0))
    }

    /// A wire image determines the record: decoding is unambiguous, and
    /// decoding the image written by `serialize` gives the value back.
    pub proof fn lemma_wire_image_determines_value(r1: Self, r2: Self, s: Seq<u8>)
        requires
            r1.encodes(s),
            r2.encodes(s),
        ensures
            r1 == r2,
    {
        lemma_u32_reassemble(r1.fuel_in_tank);
        lemma_u32_reassemble(r2.fuel_in_tank);
        lemma_u32_reassemble(r1.fuel_capacity);
        lemma_u32_reassemble(r2.fuel_capacity);
        lemma_u32_reassemble(r1.fuel_remaining_laps);
        lemma_u32_reassemble(r2.fuel_remaining_laps);
        lemma_u16_reassemble(r1.max_rpm);
        lemma_u16_reassemble(r2.max_rpm);
        lemma_u16_reassemble(r1.idle_rpm);
        lemma_u16_reassemble(r2.idle_rpm);
        lemma_u16_reassemble(r1.drs_activation_distance);
        lemma_u16_reassemble(r2.drs_activation_distance);
        lemma_i8_b0_injective(r1.vehicle_fia_flags, r2.vehicle_fia_flags);
        lemma_u32_reassemble(r1.engine_power_ice);
        lemma_u32_reassemble(r2.engine_power_ice);
        lemma_u32_reassemble(r1.engine_power_mguk);
        lemma_u32_reassemble(r2.engine_power_mguk);
        lemma_u32_reassemble(r1.ers_store_energy);
        lemma_u32_reassemble(r2.ers_store_energy);
        lemma_u32_reassemble(r1.ers_harvested_this_lap_mguk);
        lemma_u32_reassemble(r2.ers_harvested_this_lap_mguk);
        lemma_u32_reassemble(r1.ers_harvested_this_lap_mguh);
        lemma_u32_reassemble(r2.ers_harvested_this_lap_mguh);
        lemma_u32_reassemble(r1.ers_deployed_this_lap);
        lemma_u32_reassemble(r2.ers_deployed_this_lap);
    }

    /// A record has exactly one wire image.
    pub proof fn lemma_encoding_unique(r: Self, s1: Seq<u8>, s2: Seq<u8>)
        requires
            r.encodes(s1),
            r.encodes(s2),
        ensures
            s1 == s2,
    {
        assert(s1 =~= s2);
    }
}

impl Default for CarStatusData {
    /// The all-zero record.
    fn default() -> (r: Self)
        ensures
            (r == CarStatusData {
                traction_control: 0,
                anti_lock_brakes: 0,
                fuel_mix: 0,
                front_brake_bias: 0,
                pit_limiter_status: 0,
                fuel_in_tank: 0,
                fuel_capacity: 0,
                fuel_remaining_laps: 0,
                max_rpm: 0,
                idle_rpm: 0,
                max_gears: 0,
                drs_allowed: 0,
                drs_activation_distance: 0,
                actual_tyre_compound: 0,
                visual_tyre_compound: 0,
                tyres_age_laps: 0,
                vehicle_fia_flags: 0,
                engine_power_ice: 0,
                engine_power_mguk: 0,
                ers_store_energy: 0,
                ers_deploy_mode: 0,
                ers_harvested_this_lap_mguk: 0,
                ers_harvested_this_lap_mguh: 0,
                ers_deployed_this_lap: 0,
                network_paused: 0,
            }),
    {
        CarStatusData {
            traction_control: 0,
            anti_lock_brakes: 0,
            fuel_mix: 0,
            front_brake_bias: 0,
            pit_limiter_status: 0,
            fuel_in_tank: 0,
            fuel_capacity: 0,
            fuel_remaining_laps: 0,
            max_rpm: 0,
            idle_rpm: 0,
            max_gears: 0,
            drs_allowed: 0,
            drs_activation_distance: 0,
            actual_tyre_compound: 0,
            visual_tyre_compound: 0,
            tyres_age_laps: 0,
            vehicle_fia_flags: 0,
            engine_power_ice: 0,
            engine_power_mguk: 0,
            ers_store_energy: 0,
            ers_deploy_mode: 0,
            ers_harvested_this_lap_mguk: 0,
            ers_harvested_this_lap_mguh: 0,
            ers_deployed_this_lap: 0,
            network_paused: 0,
        }
    }
}

/// Car status for every car slot. (1239 bytes on the wire).
#[derive(Debug, Clone)]
pub struct PacketCarStatusData {
    pub header: PacketHeader, // 29 Bytes
    pub car_status_data: Vec<CarStatusData>, // 22 x 55 Bytes
} // 1239 Bytes

impl PacketCarStatusData {
    /// The fixed element counts that the wire layout prescribes.
    pub open spec fn wf(self) -> bool {
        &&& self.car_status_data@.len() == 22
    }

    /// `s` is exactly the wire image of this packet.
    pub open spec fn encodes(self, s: Seq<u8>) -> bool {
        &&& s.len() == 1239
        &&& self.header.encodes(s.subrange(0, 29))
        &&& forall|j: int| 0 <= j < 22 ==> (#[trigger] self.car_status_data@[j]).encodes(
            s.subrange(29 + j * 55, 29 + (j + 1) * 55),
        )
    }

    /// Field-for-field equality; record arrays compare element-wise.
    pub open spec fn same_as(self, other: Self) -> bool {
        &&& self.header == other.header
        &&& self.car_status_data@ == other.car_status_data@
    }

    /// Decode a packet from the first 1239 bytes of `bytes`.
    ///
    /// Succeeds exactly when at least 1239 bytes are supplied; trailing
    /// bytes are ignored.
    pub fn unserialize(bytes: &[u8]) -> (r: Result<Self, PacketError>)
        ensures
            match r {
                Ok(p) => bytes@.len() >= 1239 && p.wf() && p.encodes(
                    bytes@.subrange(0, 1239),
                ),
                Err(e) => bytes@.len() < 1239 && e == PacketError::TruncatedInput,
            },
    {
        if bytes.len() < PACKET_CAR_STATUS_DATA_SIZE {
            return Err(PacketError::TruncatedInput);
        }
        let header = PacketHeader::read_at(bytes, 0);
        let mut car_status_data: Vec<CarStatusData> = Vec::new();
        let mut i: usize = 0;
        while i < 22
            invariant
                bytes@.len() >= 1239,
                i <= 22,
                car_status_data@.len() == i,
                forall|j: int| 0 <= j < i ==> (#[trigger] car_status_data@[j]).encodes(
                    bytes@.subrange(29 + j * 55, 29 + (j + 1) * 55),
                ),
            decreases 22 - i,
        {
            car_status_data.push(CarStatusData::read_at(bytes, 29 + i * 55));
            i += 1;
        }
        let p = PacketCarStatusData {
            header,
            car_status_data,
        };
        proof {
            let s = bytes@.subrange(0, 1239);
            lemma_subrange_of_subrange(bytes@, 0, 1239, 0, 29);
            assert forall|j: int| 0 <= j < 22 implies (#[trigger] p.car_status_data@[j]).encodes(
                s.subrange(29 + j * 55, 29 + (j + 1) * 55),
            ) by {
                lemma_subrange_of_subrange(bytes@, 0, 1239, 29 + j * 55, 29 + (j + 1) * 55);
            }
            assert(p.encodes(s));
        }
        Ok(p)
    }

    /// Append the wire image of this packet to `out`.
    #[verifier::rlimit(100)]
    pub fn write_into(&self, out: &mut Vec<u8>)
        requires
            self.wf(),
        ensures
            final(out)@.len() == old(out)@.len() + PACKET_CAR_STATUS_DATA_SIZE,
            final(out)@.subrange(0, old(out)@.len() as int) == old(out)@,
            self.encodes(
                final(out)@.subrange(old(out)@.len() as int, final(out)@.len() as int),
            ),
    {
        let ghost base: int = out@.len() as int;
        let ghost start = out@;
        self.header.write_into(out);
        let mut i: usize = 0;
        while i < 22
            invariant
                self.wf(),
                i <= 22,
                0 <= base,
                out@.len() == base + 29 + i * 55,
                out@.subrange(0, base) == start,
                self.header.encodes(out@.subrange(base, base + 29)),
                forall|j: int| 0 <= j < i ==> (#[trigger] self.car_status_data@[j]).encodes(
                    out@.subrange(base + 29 + j * 55, base + 29 + (j + 1) * 55),
                ),
            decreases 22 - i,
        {
            let ghost prev = out@;
            self.car_status_data[i].write_into(out);
            proof {
                assert forall|t: int| 0 <= t < prev.len() implies (#[trigger] out@[t]) == prev[t] by {
                    assert(prev[t] == out@.subrange(0, prev.len() as int)[t]);
                }
                lemma_subrange_of_prefix(out@, prev, 0, base);
                lemma_subrange_of_prefix(out@, prev, base, base + 29);
            }
            i += 1;
        }
        proof {
            let s = out@.subrange(base, base + 1239);
            lemma_subrange_of_subrange(out@, base, 1239, 0, 29);
            assert forall|j: int| 0 <= j < 22 implies (#[trigger] self.car_status_data@[j]).encodes(
                s.subrange(29 + j * 55, 29 + (j + 1) * 55),
            ) by {
                lemma_subrange_of_subrange(out@, base, 1239, 29 + j * 55, 29 + (j + 1) * 55);
            }
            assert(self.encodes(s));
            assert(out@.subrange(0, base) =~= start);
        }
    }

    /// Encode this packet as its fixed 1239-byte wire image.
    pub fn serialize(&self) -> (r: Vec<u8>)
        requires
            self.wf(),
        ensures
            r@.len() == PACKET_CAR_STATUS_DATA_SIZE,
            self.encodes(r@),
    {
        let mut out: Vec<u8> = Vec::new();
        self.write_into(&mut out);
        proof {
            assert(out@.subrange(0, 1239) =~= out@);
        }
        out
    }

    /// A wire image determines the packet: decoding is unambiguous, and
    /// decoding the image written by `serialize` gives the value back.
    pub proof fn lemma_wire_image_determines_value(p1: Self, p2: Self, s: Seq<u8>)
        requires
            p1.wf(),
            p2.wf(),
            p1.encodes(s),
            p2.encodes(s),
        ensures
            p1.same_as(p2),
    {
        PacketHeader::lemma_wire_image_determines_value(
            p1.header, p2.header, s.subrange(0, 29));
        assert forall|j: int| 0 <= j < 22 implies
            #[trigger] p1.car_status_data@[j] == p2.car_status_data@[j] by {
            CarStatusData::lemma_wire_image_determines_value(
                p1.car_status_data@[j], p2.car_status_data@[j],
                s.subrange(29 + j * 55, 29 + (j + 1) * 55));
        }
        assert(p1.car_status_data@ =~= p2.car_status_data@);
    }

    /// A packet has exactly one wire image.
    pub proof fn lemma_encoding_unique(p: Self, s1: Seq<u8>, s2: Seq<u8>)
        requires
            p.wf(),
            p.encodes(s1),
            p.encodes(s2),
        ensures
            s1 == s2,
    {
        assert forall|i: int| 0 <= i < 1239 implies s1[i] == s2[i] by {
            if i < 29 {
                PacketHeader::lemma_encoding_unique(
                    p.header, s1.subrange(0, 29), s2.subrange(0, 29));
                assert(s1.subrange(0, 29)[i] == s2.subrange(0, 29)[i]);
            }
            if 29 <= i < 1239 {
                lemma_index_in_block(29, 55, 22, i);
                let j = (i - 29) / 55;
                CarStatusData::lemma_encoding_unique(
                    p.car_status_data@[j],
                    s1.subrange(29 + j * 55, 29 + (j + 1) * 55),
                    s2.subrange(29 + j * 55, 29 + (j + 1) * 55));
                assert(s1.subrange(29 + j * 55, 29 + (j + 1) * 55)[i - 29 - j * 55]
                    == s2.subrange(29 + j * 55, 29 + (j + 1) * 55)[i - 29 - j * 55]);
            }
        }
        assert(s1 =~= s2);
    }
}

impl PartialEq for PacketCarStatusData {
    fn eq(&self, other: &Self) -> (r: bool) {
        self.header == other.header
            && eq_vec_car_status_data(&self.car_status_data, &other.car_status_data)
    }
}

impl vstd::std_specs::cmp::PartialEqSpecImpl for PacketCarStatusData {
    open spec fn obeys_eq_spec() -> bool {
        true
    }

    open spec fn eq_spec(&self, other: &Self) -> bool {
        self.same_as(*other)
    }
}

impl Default for PacketCarStatusData {
    /// The all-zero packet, with every array at its fixed length.
    fn default() -> (r: Self)
        ensures
            r.wf(),
    {
        let mut car_status_data: Vec<CarStatusData> = Vec::new();
        let mut i: usize = 0;
        while i < 22
            invariant
                i <= 22,
                car_status_data@.len() == i,
            decreases 22 - i,
        {
            car_status_data.push(CarStatusData::default());
            i += 1;
        }
        PacketCarStatusData {
            header: PacketHeader::default(),
            car_status_data,
        }
    }
}

/// Element-wise equality of two `CarStatusData` vectors.
fn eq_vec_car_status_data(a: &Vec<CarStatusData>, b: &Vec<CarStatusData>) -> (r: bool)
    ensures
        r == (a@ == b@),
{
    if a.len() != b.len() {
        return false;
    }
    let mut i: usize = 0;
    while i < a.len()
        invariant
            a@.len() == b@.len(),
            i <= a@.len(),
            forall|j: int| 0 <= j < i ==> #[trigger] a@[j] == b@[j],
        decreases a@.len() - i,
    {
        if !(a[i] == b[i]) {
            return false;
        }
        i += 1;
    }
    proof {
        assert(a@ =~= b@);
    }
    true
}

} // verus!
