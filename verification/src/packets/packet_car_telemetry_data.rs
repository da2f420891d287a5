//! Live telemetry for every car slot plus cockpit display state.

use vstd::prelude::*;
use crate::error::PacketError;
use crate::packets::packet_header::PacketHeader;
use crate::wire::{
    i8_b0,
    u16_b0,
    u16_b1,
    u32_b0,
    u32_b1,
    u32_b2,
    u32_b3,
    read_u8_at,
    read_i8_at,
    read_u16_at,
    read_u32_at,
    write_u8,
    write_i8,
    write_u16,
    write_u32,
    lemma_u16_reassemble,
    lemma_u32_reassemble,
    lemma_i8_b0_injective,
    lemma_subrange_of_prefix,
    lemma_subrange_of_subrange,
    lemma_index_in_block,
    eq_vec_u8,
    eq_vec_u16,
    eq_vec_u32,
};

verus! {

/// Total encoded size of one `CarTelemetryData` record, in bytes.
pub const CAR_TELEMETRY_DATA_SIZE: usize = 60;

/// Total encoded size of a `PacketCarTelemetryData` packet, in bytes.
pub const PACKET_CAR_TELEMETRY_DATA_SIZE: usize = 1352;

/// One fixed-size `CarTelemetryData` sub-record (60 bytes on the wire).
///
/// Float fields are carried as their raw little-endian bit patterns,
/// which round-trip exactly.
#[derive(Debug, Clone)]
pub struct CarTelemetryData {
    pub speed: u16, // 2 Bytes
    pub throttle: u32, // 4 Bytes (float bits)
    pub steer: u32, // 4 Bytes (float bits)
    pub brake: u32, // 4 Bytes (float bits)
    pub clutch: u8, // 1 Byte
    pub gear: i8, // 1 Byte
    pub engine_rpm: u16, // 2 Bytes
    pub drs: u8, // 1 Byte
    pub rev_lights_percent: u8, // 1 Byte
    pub rev_lights_bit_value: u16, // 2 Bytes
    pub brakes_temperature: Vec<u16>, // 4 x 2 Bytes
    pub tyres_surface_temperature: Vec<u8>, // 4 x 1 Byte
    pub tyres_inner_temperature: Vec<u8>, // 4 x 1 Byte
    pub engine_temperature: u16, // 2 Bytes
    pub tyres_pressure: Vec<u32>, // 4 x 4 Bytes
    pub surface_type: Vec<u8>, // 4 x 1 Byte
} // 60 Bytes

impl CarTelemetryData {
    /// The fixed element counts that the wire layout prescribes.
    pub open spec fn wf(self) -> bool {
        &&& self.brakes_temperature@.len() == 4
        &&& self.tyres_surface_temperature@.len() == 4
        &&& self.tyres_inner_temperature@.len() == 4
        &&& self.tyres_pressure@.len() == 4
        &&& self.surface_type@.len() == 4
    }

    /// `s` is exactly the wire image of this record.
    pub open spec fn encodes(self, s: Seq<u8>) -> bool {
        &&& s.len() == 60
        &&& s[0] == u16_b0(self.speed)
        &&& s[1] == u16_b1(self.speed)
        &&& s[2] == u32_b0(self.throttle)
        &&& s[3] == u32_b1(self.throttle)
        &&& s[4] == u32_b2(self.throttle)
        &&& s[5] == u32_b3(self.throttle)
        &&& s[6] == u32_b0(self.steer)
        &&& s[7] == u32_b1(self.steer)
        &&& s[8] == u32_b2(self.steer)
        &&& s[9] == u32_b3(self.steer)
        &&& s[10] == u32_b0(self.brake)
        &&& s[11] == u32_b1(self.brake)
        &&& s[12] == u32_b2(self.brake)
        &&& s[13] == u32_b3(self.brake)
        &&& s[14] == self.clutch
        &&& s[15] == i8_b0(self.gear)
        &&& s[16] == u16_b0(self.engine_rpm)
        &&& s[17] == u16_b1(self.engine_rpm)
        &&& s[18] == self.drs
        &&& s[19] == self.rev_lights_percent
        &&& s[20] == u16_b0(self.rev_lights_bit_value)
        &&& s[21] == u16_b1(self.rev_lights_bit_value)
        &&& s[22] == u16_b0(self.brakes_temperature@[0])
        &&& s[23] == u16_b1(self.brakes_temperature@[0])
        &&& s[24] == u16_b0(self.brakes_temperature@[1])
        &&& s[25] == u16_b1(self.brakes_temperature@[1])
        &&& s[26] == u16_b0(self.brakes_temperature@[2])
        &&& s[27] == u16_b1(self.brakes_temperature@[2])
        &&& s[28] == u16_b0(self.brakes_temperature@[3])
        &&& s[29] == u16_b1(self.brakes_temperature@[3])
        &&& s[30] == self.tyres_surface_temperature@[0]
        &&& s[31] == self.tyres_surface_temperature@[1]
        &&& s[32] == self.tyres_surface_temperature@[2]
        &&& s[33] == self.tyres_surface_temperature@[3]
        &&& s[34] == self.tyres_inner_temperature@[0]
        &&& s[35] == self.tyres_inner_temperature@[1]
        &&& s[36] == self.tyres_inner_temperature@[2]
        &&& s[37] == self.tyres_inner_temperature@[3]
        &&& s[38] == u16_b0(self.engine_temperature)
        &&& s[39] == u16_b1(self.engine_temperature)
        &&& s[40] == u32_b0(self.tyres_pressure@[0])
        &&& s[41] == u32_b1(self.tyres_pressure@[0])
        &&& s[42] == u32_b2(self.tyres_pressure@[0])
        &&& s[43] == u32_b3(self.tyres_pressure@[0])
        &&& s[44] == u32_b0(self.tyres_pressure@[1])
        &&& s[45] == u32_b1(self.tyres_pressure@[1])
        &&& s[46] == u32_b2(self.tyres_pressure@[1])
        &&& s[47] == u32_b3(self.tyres_pressure@[1])
        &&& s[48] == u32_b0(self.tyres_pressure@[2])
        &&& s[49] == u32_b1(self.tyres_pressure@[2])
        &&& s[50] == u32_b2(self.tyres_pressure@[2])
        &&& s[51] == u32_b3(self.tyres_pressure@[2])
        &&& s[52] == u32_b0(self.tyres_pressure@[3])
        &&& s[53] == u32_b1(self.tyres_pressure@[3])
        &&& s[54] == u32_b2(self.tyres_pressure@[3])
        &&& s[55] == u32_b3(self.tyres_pressure@[3])
        &&& s[56] == self.surface_type@[0]
        &&& s[57] == self.surface_type@[1]
        &&& s[58] == self.surface_type@[2]
        &&& s[59] == self.surface_type@[3]
    }

    /// Field-for-field equality; vector fields compare element-wise.
    pub open spec fn same_as(self, other: Self) -> bool {
        &&& self.speed == other.speed
        &&& self.throttle == other.throttle
        &&& self.steer == other.steer
        &&& self.brake == other.brake
        &&& self.clutch == other.clutch
        &&& self.gear == other.gear
        &&& self.engine_rpm == other.engine_rpm
        &&& self.drs == other.drs
        &&& self.rev_lights_percent == other.rev_lights_percent
        &&& self.rev_lights_bit_value == other.rev_lights_bit_value
        &&& self.brakes_temperature@ == other.brakes_temperature@
        &&& self.tyres_surface_temperature@ == other.tyres_surface_temperature@
        &&& self.tyres_inner_temperature@ == other.tyres_inner_temperature@
        &&& self.engine_temperature == other.engine_temperature
        &&& self.tyres_pressure@ == other.tyres_pressure@
        &&& self.surface_type@ == other.surface_type@
    }

    /// Decode the record stored at `off`.
    #[verifier::rlimit(100)]
    pub fn read_at(b: &[u8], off: usize) -> (r: Self)
        requires
            off + CAR_TELEMETRY_DATA_SIZE <= b@.len(),
        ensures
            r.wf(),
            r.encodes(b@.subrange(off as int, off + CAR_TELEMETRY_DATA_SIZE)),
    {
        let _len = b.len(); // the verifier learns the slice length fits in usize
        let speed = read_u16_at(b, off);
        let throttle = read_u32_at(b, off + 2);
        let steer = read_u32_at(b, off + 6);
        let brake = read_u32_at(b, off + 10);
        let clutch = read_u8_at(b, off + 14);
        let gear = read_i8_at(b, off + 15);
        let engine_rpm = read_u16_at(b, off + 16);
        let drs = read_u8_at(b, off + 18);
        let rev_lights_percent = read_u8_at(b, off + 19);
        let rev_lights_bit_value = read_u16_at(b, off + 20);
        let mut brakes_temperature: Vec<u16> = Vec::new();
        brakes_temperature.push(read_u16_at(b, off + 22));
        brakes_temperature.push(read_u16_at(b, off + 24));
        brakes_temperature.push(read_u16_at(b, off + 26));
        brakes_temperature.push(read_u16_at(b, off + 28));
        let mut tyres_surface_temperature: Vec<u8> = Vec::new();
        tyres_surface_temperature.push(read_u8_at(b, off + 30));
        tyres_surface_temperature.push(read_u8_at(b, off + 31));
        tyres_surface_temperature.push(read_u8_at(b, off + 32));
        tyres_surface_temperature.push(read_u8_at(b, off + 33));
        let mut tyres_inner_temperature: Vec<u8> = Vec::new();
        tyres_inner_temperature.push(read_u8_at(b, off + 34));
        tyres_inner_temperature.push(read_u8_at(b, off + 35));
        tyres_inner_temperature.push(read_u8_at(b, off + 36));
        tyres_inner_temperature.push(read_u8_at(b, off + 37));
        let engine_temperature = read_u16_at(b, off + 38);
        let mut tyres_pressure: Vec<u32> = Vec::new();
        tyres_pressure.push(read_u32_at(b, off + 40));
        tyres_pressure.push(read_u32_at(b, off + 44));
        tyres_pressure.push(read_u32_at(b, off + 48));
        tyres_pressure.push(read_u32_at(b, off + 52));
        let mut surface_type: Vec<u8> = Vec::new();
        surface_type.push(read_u8_at(b, off + 56));
        surface_type.push(read_u8_at(b, off + 57));
        surface_type.push(read_u8_at(b, off + 58));
        surface_type.push(read_u8_at(b, off + 59));
        let r = CarTelemetryData {
            speed,
            throttle,
            steer,
            brake,
            clutch,
            gear,
            engine_rpm,
            drs,
            rev_lights_percent,
            rev_lights_bit_value,
            brakes_temperature,
            tyres_surface_temperature,
            tyres_inner_temperature,
            engine_temperature,
            tyres_pressure,
            surface_type,
        };
        proof {
            assert(r.encodes(b@.subrange(off as int, off + CAR_TELEMETRY_DATA_SIZE)));
        }
        r
    }

    /// Append the wire image of this record to `out`.
    #[verifier::rlimit(100)]
    pub fn write_into(&self, out: &mut Vec<u8>)
        requires
            self.wf(),
        ensures
            final(out)@.len() == old(out)@.len() + CAR_TELEMETRY_DATA_SIZE,
            final(out)@.subrange(0, old(out)@.len() as int) == old(out)@,
            self.encodes(
                final(out)@.subrange(old(out)@.len() as int, final(out)@.len() as int),
            ),
    {
        write_u16(out, self.speed);
        write_u32(out, self.throttle);
        write_u32(out, self.steer);
        write_u32(out, self.brake);
        write_u8(out, self.clutch);
        write_i8(out, self.gear);
        write_u16(out, self.engine_rpm);
        write_u8(out, self.drs);
        write_u8(out, self.rev_lights_percent);
        write_u16(out, self.rev_lights_bit_value);
        write_u16(out, self.brakes_temperature[0]);
        write_u16(out, self.brakes_temperature[1]);
        write_u16(out, self.brakes_temperature[2]);
        write_u16(out, self.brakes_temperature[3]);
        write_u8(out, self.tyres_surface_temperature[0]);
        write_u8(out, self.tyres_surface_temperature[1]);
        write_u8(out, self.tyres_surface_temperature[2]);
        write_u8(out, self.tyres_surface_temperature[3]);
        write_u8(out, self.tyres_inner_temperature[0]);
        write_u8(out, self.tyres_inner_temperature[1]);
        write_u8(out, self.tyres_inner_temperature[2]);
        write_u8(out, self.tyres_inner_temperature[3]);
        write_u16(out, self.engine_temperature);
        write_u32(out, self.tyres_pressure[0]);
        write_u32(out, self.tyres_pressure[1]);
        write_u32(out, self.tyres_pressure[2]);
        write_u32(out, self.tyres_pressure[3]);
        write_u8(out, self.surface_type[0]);
        write_u8(out, self.surface_type[1]);
        write_u8(out, self.surface_type[2]);
        write_u8(out, self.surface_type[3]);
        proof {
            let base = old(out)@.len() as int;
            assert(out@.subrange(0, base) =~= old(out)@);
            assert(self.encodes(out@.subrange(base, base + 60)));
        }
    }

    /// Encode this record as its fixed 60-byte wire image.
    pub fn serialize(&self) -> (r: Vec<u8>)
        requires
            self.wf(),
        ensures
            r@.len() == CAR_TELEMETRY_DATA_SIZE,
            self.encodes(r@),
    {
        let mut out: Vec<u8> = Vec::new();
        self.write_into(&mut out);
        proof {
            assert(out@.subrange(0, 60) =~= out@);
        }
        out
    }

    /// Decode a record from the first 60 bytes of `bytes`.
    ///
    /// Succeeds exactly when at least 60 bytes are supplied; trailing
    /// bytes are ignored.
    pub fn unserialize(bytes: &[u8]) -> (r: Result<Self, PacketError>)
        ensures
            match r {
                Ok(p) => bytes@.len() >= 60 && p.wf() && p.encodes(
                    bytes@.subrange(0, 60),
                ),
                Err(e) => bytes@.len() < 60 && e == PacketError::TruncatedInput,
            },
    {
        if bytes.len() < CAR_TELEMETRY_DATA_SIZE {
            return Err(PacketError::TruncatedInput);
        }
        Ok(Self::read_at(bytes, 0))
    }

    /// A wire image determines the record: decoding is unambiguous, and
    /// decoding the image written by `serialize` gives the value back.
    pub proof fn lemma_wire_image_determines_value(r1: Self, r2: Self, s: Seq<u8>)
        requires
            r1.wf(),
            r2.wf(),
            r1.encodes(s),
            r2.encodes(s),
        ensures
            r1.same_as(r2),
    {
        lemma_u16_reassemble(r1.speed);
        lemma_u16_reassemble(r2.speed);
        lemma_u32_reassemble(r1.throttle);
        lemma_u32_reassemble(r2.throttle);
        lemma_u32_reassemble(r1.steer);
        lemma_u32_reassemble(r2.steer);
        lemma_u32_reassemble(r1.brake);
        lemma_u32_reassemble(r2.brake);
        lemma_i8_b0_injective(r1.gear, r2.gear);
        lemma_u16_reassemble(r1.engine_rpm);
        lemma_u16_reassemble(r2.engine_rpm);
        lemma_u16_reassemble(r1.rev_lights_bit_value);
        lemma_u16_reassemble(r2.rev_lights_bit_value);
        lemma_u16_reassemble(r1.brakes_temperature@[0]);
        lemma_u16_reassemble(r2.brakes_temperature@[0]);
        lemma_u16_reassemble(r1.brakes_temperature@[1]);
        lemma_u16_reassemble(r2.brakes_temperature@[1]);
        lemma_u16_reassemble(r1.brakes_temperature@[2]);
        lemma_u16_reassemble(r2.brakes_temperature@[2]);
        lemma_u16_reassemble(r1.brakes_temperature@[3]);
        lemma_u16_reassemble(r2.brakes_temperature@[3]);
        assert(r1.brakes_temperature@ =~= r2.brakes_temperature@);
        assert(r1.tyres_surface_temperature@ =~= r2.tyres_surface_temperature@);
        assert(r1.tyres_inner_temperature@ =~= r2.tyres_inner_temperature@);
        lemma_u16_reassemble(r1.engine_temperature);
        lemma_u16_reassemble(r2.engine_temperature);
        lemma_u32_reassemble(r1.tyres_pressure@[0]);
        lemma_u32_reassemble(r2.tyres_pressure@[0]);
        lemma_u32_reassemble(r1.tyres_pressure@[1]);
        lemma_u32_reassemble(r2.tyres_pressure@[1]);
        lemma_u32_reassemble(r1.tyres_pressure@[2]);
        lemma_u32_reassemble(r2.tyres_pressure@[2]);
        lemma_u32_reassemble(r1.tyres_pressure@[3]);
        lemma_u32_reassemble(r2.tyres_pressure@[3]);
        assert(r1.tyres_pressure@ =~= r2.tyres_pressure@);
        assert(r1.surface_type@ =~= r2.surface_type@);
    }

    /// A record has exactly one wire image.
    pub proof fn lemma_encoding_unique(r: Self, s1: Seq<u8>, s2: Seq<u8>)
        requires
            r.encodes(s1),
            r.encodes(s2),
        ensures
            s1 == s2,
    {
        assert(s1 =~= s2);
    }
}

impl PartialEq for CarTelemetryData {
    fn eq(&self, other: &Self) -> (r: bool) {
        self.speed == other.speed
            && self.throttle == other.throttle
            && self.steer == other.steer
            && self.brake == other.brake
            && self.clutch == other.clutch
            && self.gear == other.gear
            && self.engine_rpm == other.engine_rpm
            && self.drs == other.drs
            && self.rev_lights_percent == other.rev_lights_percent
            && self.rev_lights_bit_value == other.rev_lights_bit_value
            && eq_vec_u16(&self.brakes_temperature, &other.brakes_temperature)
            && eq_vec_u8(&self.tyres_surface_temperature, &other.tyres_surface_temperature)
            && eq_vec_u8(&self.tyres_inner_temperature, &other.tyres_inner_temperature)
            && self.engine_temperature == other.engine_temperature
            && eq_vec_u32(&self.tyres_pressure, &other.tyres_pressure)
            && eq_vec_u8(&self.surface_type, &other.surface_type)
    }
}

impl vstd::std_specs::cmp::PartialEqSpecImpl for CarTelemetryData {
    open spec fn obeys_eq_spec() -> bool {
        true
    }

    open spec fn eq_spec(&self, other: &Self) -> bool {
        self.same_as(*other)
    }
}

impl Default for CarTelemetryData {
    /// The all-zero record.
    fn default() -> (r: Self)
        ensures
            r.wf(),
            r.speed == 0,
            r.throttle == 0,
            r.steer == 0,
            r.brake == 0,
            r.clutch == 0,
            r.gear == 0,
            r.engine_rpm == 0,
            r.drs == 0,
            r.rev_lights_percent == 0,
            r.rev_lights_bit_value == 0,
            forall|k: int| 0 <= k < 4 ==> #[trigger] r.brakes_temperature@[k] == 0,
            forall|k: int| 0 <= k < 4 ==> #[trigger] r.tyres_surface_temperature@[k] == 0,
            forall|k: int| 0 <= k < 4 ==> #[trigger] r.tyres_inner_temperature@[k] == 0,
            r.engine_temperature == 0,
            forall|k: int| 0 <= k < 4 ==> #[trigger] r.tyres_pressure@[k] == 0,
            forall|k: int| 0 <= k < 4 ==> #[trigger] r.surface_type@[k] == 0,
    {
        let mut brakes_temperature: Vec<u16> = Vec::new();
        brakes_temperature.push(0);
        brakes_temperature.push(0);
        brakes_temperature.push(0);
        brakes_temperature.push(0);
        let mut tyres_surface_temperature: Vec<u8> = Vec::new();
        tyres_surface_temperature.push(0);
        tyres_surface_temperature.push(0);
        tyres_surface_temperature.push(0);
        tyres_surface_temperature.push(0);
        let mut tyres_inner_temperature: Vec<u8> = Vec::new();
        tyres_inner_temperature.push(0);
        tyres_inner_temperature.push(0);
        tyres_inner_temperature.push(0);
        tyres_inner_temperature.push(0);
        let mut tyres_pressure: Vec<u32> = Vec::new();
        tyres_pressure.push(0);
        tyres_pressure.push(0);
        tyres_pressure.push(0);
        tyres_pressure.push(0);
        let mut surface_type: Vec<u8> = Vec::new();
        surface_type.push(0);
        surface_type.push(0);
        surface_type.push(0);
        surface_type.push(0);
        CarTelemetryData {
            speed: 0,
            throttle: 0,
            steer: 0,
            brake: 0,
            clutch: 0,
            gear: 0,
            engine_rpm: 0,
            drs: 0,
            rev_lights_percent: 0,
            rev_lights_bit_value: 0,
            brakes_temperature,
            tyres_surface_temperature,
            tyres_inner_temperature,
            engine_temperature: 0,
            tyres_pressure,
            surface_type,
        }
    }
}

/// Live telemetry for every car slot plus cockpit display state. (1352 bytes on the wire).
#[derive(Debug, Clone)]
pub struct PacketCarTelemetryData {
    pub header: PacketHeader, // 29 Bytes
    pub car_telemetry_data: Vec<CarTelemetryData>, // 22 x 60 Bytes
    pub mfd_panel_index: u8, // 1 Byte
    pub mfd_panel_index_secondary_player: u8, // 1 Byte
    pub suggested_gear: i8, // 1 Byte
} // 1352 Bytes

impl PacketCarTelemetryData {
    /// The fixed element counts that the wire layout prescribes.
    pub open spec fn wf(self) -> bool {
        &&& self.car_telemetry_data@.len() == 22
        &&& forall|j: int| 0 <= j < 22 ==> (#[trigger] self.car_telemetry_data@[j]).wf()
    }

    /// `s` is exactly the wire image of this packet.
    pub open spec fn encodes(self, s: Seq<u8>) -> bool {
        &&& s.len() == 1352
        &&& self.header.encodes(s.subrange(0, 29))
        &&& forall|j: int| 0 <= j < 22 ==> (#[trigger] self.car_telemetry_data@[j]).encodes(
            s.subrange(29 + j * 60, 29 + (j + 1) * 60),
        )
        &&& s[1349] == self.mfd_panel_index
        &&& s[1350] == self.mfd_panel_index_secondary_player
        &&& s[1351] == i8_b0(self.suggested_gear)
    }

    /// Field-for-field equality; record arrays compare element-wise.
    pub open spec fn same_as(self, other: Self) -> bool {
        &&& self.header == other.header
        &&& self.car_telemetry_data@.len() == other.car_telemetry_data@.len()
        &&& forall|j: int| 0 <= j < self.car_telemetry_data@.len() ==>
            (#[trigger] self.car_telemetry_data@[j]).same_as(other.car_telemetry_data@[j])
        &&& self.mfd_panel_index == other.mfd_panel_index
        &&& self.mfd_panel_index_secondary_player == other.mfd_panel_index_secondary_player
        &&& self.suggested_gear == other.suggested_gear
    }

    /// Decode a packet from the first 1352 bytes of `bytes`.
    ///
    /// Succeeds exactly when at least 1352 bytes are supplied; trailing
    /// bytes are ignored.
    pub fn unserialize(bytes: &[u8]) -> (r: Result<Self, PacketError>)
        ensures
            match r {
                Ok(p) => bytes@.len() >= 1352 && p.wf() && p.encodes(
                    bytes@.subrange(0, 1352),
                ),
                Err(e) => bytes@.len() < 1352 && e == PacketError::TruncatedInput,
            },
    {
        if bytes.len() < PACKET_CAR_TELEMETRY_DATA_SIZE {
            return Err(PacketError::TruncatedInput);
        }
        let header = PacketHeader::read_at(bytes, 0);
        let mut car_telemetry_data: Vec<CarTelemetryData> = Vec::new();
        let mut i: usize = 0;
        while i < 22
            invariant
                bytes@.len() >= 1352,
                i <= 22,
                car_telemetry_data@.len() == i,
                forall|j: int| 0 <= j < i ==> (#[trigger] car_telemetry_data@[j]).wf() && car_telemetry_data@[j].encodes(
                    bytes@.subrange(29 + j * 60, 29 + (j + 1) * 60),
                ),
            decreases 22 - i,
        {
            car_telemetry_data.push(CarTelemetryData::read_at(bytes, 29 + i * 60));
            i += 1;
        }
        let mfd_panel_index = read_u8_at(bytes, 1349);
        let mfd_panel_index_secondary_player = read_u8_at(bytes, 1350);
        let suggested_gear = read_i8_at(bytes, 1351);
        let p = PacketCarTelemetryData {
            header,
            car_telemetry_data,
            mfd_panel_index,
            mfd_panel_index_secondary_player,
            suggested_gear,
        };
        proof {
            let s = bytes@.subrange(0, 1352);
            lemma_subrange_of_subrange(bytes@, 0, 1352, 0, 29);
            assert forall|j: int| 0 <= j < 22 implies (#[trigger] p.car_telemetry_data@[j]).encodes(
                s.subrange(29 + j * 60, 29 + (j + 1) * 60),
            ) by {
                lemma_subrange_of_subrange(bytes@, 0, 1352, 29 + j * 60, 29 + (j + 1) * 60);
            }
            assert(p.encodes(s));
        }
        Ok(p)
    }

    /// Append the wire image of this packet to `out`.
    #[verifier::rlimit(100)]
    pub fn write_into(&self, out: &mut Vec<u8>)
        requires
            self.wf(),
        ensures
            final(out)@.len() == old(out)@.len() + PACKET_CAR_TELEMETRY_DATA_SIZE,
            final(out)@.subrange(0, old(out)@.len() as int) == old(out)@,
            self.encodes(
                final(out)@.subrange(old(out)@.len() as int, final(out)@.len() as int),
            ),
    {
        let ghost base: int = out@.len() as int;
        let ghost start = out@;
        self.header.write_into(out);
        let mut i: usize = 0;
        while i < 22
            invariant
                self.wf(),
                i <= 22,
                0 <= base,
                out@.len() == base + 29 + i * 60,
                out@.subrange(0, base) == start,
                self.header.encodes(out@.subrange(base, base + 29)),
                forall|j: int| 0 <= j < i ==> (#[trigger] self.car_telemetry_data@[j]).encodes(
                    out@.subrange(base + 29 + j * 60, base + 29 + (j + 1) * 60),
                ),
            decreases 22 - i,
        {
            let ghost prev = out@;
            self.car_telemetry_data[i].write_into(out);
            proof {
                assert forall|t: int| 0 <= t < prev.len() implies (#[trigger] out@[t]) == prev[t] by {
                    assert(prev[t] == out@.subrange(0, prev.len() as int)[t]);
                }
                lemma_subrange_of_prefix(out@, prev, 0, base);
                lemma_subrange_of_prefix(out@, prev, base, base + 29);
            }
            i += 1;
        }
        write_u8(out, self.mfd_panel_index);
        write_u8(out, self.mfd_panel_index_secondary_player);
        write_i8(out, self.suggested_gear);
        proof {
            let s = out@.subrange(base, base + 1352);
            lemma_subrange_of_subrange(out@, base, 1352, 0, 29);
            assert forall|j: int| 0 <= j < 22 implies (#[trigger] self.car_telemetry_data@[j]).encodes(
                s.subrange(29 + j * 60, 29 + (j + 1) * 60),
            ) by {
                lemma_subrange_of_subrange(out@, base, 1352, 29 + j * 60, 29 + (j + 1) * 60);
            }
            assert(self.encodes(s));
            assert(out@.subrange(0, base) =~= start);
        }
    }

    /// Encode this packet as its fixed 1352-byte wire image.
    pub fn serialize(&self) -> (r: Vec<u8>)
        requires
            self.wf(),
        ensures
            r@.len() == PACKET_CAR_TELEMETRY_DATA_SIZE,
            self.encodes(r@),
    {
        let mut out: Vec<u8> = Vec::new();
        self.write_into(&mut out);
        proof {
            assert(out@.subrange(0, 1352) =~= out@);
        }
        out
    }

    /// A wire image determines the packet: decoding is unambiguous, and
    /// decoding the image written by `serialize` gives the value back.
    pub proof fn lemma_wire_image_determines_value(p1: Self, p2: Self, s: Seq<u8>)
        requires
            p1.wf(),
            p2.wf(),
            p1.encodes(s),
            p2.encodes(s),
        ensures
            p1.same_as(p2),
    {
        PacketHeader::lemma_wire_image_determines_value(
            p1.header, p2.header, s.subrange(0, 29));
        assert forall|j: int| 0 <= j < p1.car_telemetry_data@.len() implies
            (#[trigger] p1.car_telemetry_data@[j]).same_as(p2.car_telemetry_data@[j]) by {
            CarTelemetryData::lemma_wire_image_determines_value(
                p1.car_telemetry_data@[j], p2.car_telemetry_data@[j],
                s.subrange(29 + j * 60, 29 + (j + 1) * 60));
        }
        lemma_i8_b0_injective(p1.suggested_gear, p2.suggested_gear);
    }

    /// A packet has exactly one wire image.
    pub proof fn lemma_encoding_unique(p: Self, s1: Seq<u8>, s2: Seq<u8>)
        requires
            p.wf(),
            p.encodes(s1),
            p.encodes(s2),
        ensures
            s1 == s2,
    {
        assert forall|i: int| 0 <= i < 1352 implies s1[i] == s2[i] by {
            if i < 29 {
                PacketHeader::lemma_encoding_unique(
                    p.header, s1.subrange(0, 29), s2.subrange(0, 29));
                assert(s1.subrange(0, 29)[i] == s2.subrange(0, 29)[i]);
            }
            if 29 <= i < 1349 {
                lemma_index_in_block(29, 60, 22, i);
                let j = (i - 29) / 60;
                CarTelemetryData::lemma_encoding_unique(
                    p.car_telemetry_data@[j],
                    s1.subrange(29 + j * 60, 29 + (j + 1) * 60),
                    s2.subrange(29 + j * 60, 29 + (j + 1) * 60));
                assert(s1.subrange(29 + j * 60, 29 + (j + 1) * 60)[i - 29 - j * 60]
                    == s2.subrange(29 + j * 60, 29 + (j + 1) * 60)[i - 29 - j * 60]);
            }
        }
        assert(s1 =~= s2);
    }
}

impl PartialEq for PacketCarTelemetryData {
    fn eq(&self, other: &Self) -> (r: bool) {
        self.header == other.header
            && eq_vec_car_telemetry_data(&self.car_telemetry_data, &other.car_telemetry_data)
            && self.mfd_panel_index == other.mfd_panel_index
            && self.mfd_panel_index_secondary_player == other.mfd_panel_index_secondary_player
            && self.suggested_gear == other.suggested_gear
    }
}

impl vstd::std_specs::cmp::PartialEqSpecImpl for PacketCarTelemetryData {
    open spec fn obeys_eq_spec() -> bool {
        true
    }

    open spec fn eq_spec(&self, other: &Self) -> bool {
        self.same_as(*other)
    }
}

impl Default for PacketCarTelemetryData {
    /// The all-zero packet, with every array at its fixed length.
    fn default() -> (r: Self)
        ensures
            r.wf(),
    {
        let mut car_telemetry_data: Vec<CarTelemetryData> = Vec::new();
        let mut i: usize = 0;
        while i < 22
            invariant
                i <= 22,
                car_telemetry_data@.len() == i,
                forall|j: int| 0 <= j < i ==> (#[trigger] car_telemetry_data@[j]).wf(),
            decreases 22 - i,
        {
            car_telemetry_data.push(CarTelemetryData::default());
            i += 1;
        }
        PacketCarTelemetryData {
            header: PacketHeader::default(),
            car_telemetry_data,
            mfd_panel_index: 0,
            mfd_panel_index_secondary_player: 0,
            suggested_gear: 0,
        }
    }
}

/// Element-wise equality of two `CarTelemetryData` vectors.
fn eq_vec_car_telemetry_data(a: &Vec<CarTelemetryData>, b: &Vec<CarTelemetryData>) -> (r: bool)
    ensures
        r == (a@.len() == b@.len() && forall|j: int| 0 <= j < a@.len() ==>
            (#[trigger] a@[j]).same_as(b@[j])),
{
    if a.len() != b.len() {
        return false;
    }
    let mut i: usize = 0;
    while i < a.len()
        invariant
            a@.len() == b@.len(),
            i <= a@.len(),
            forall|j: int| 0 <= j < i ==> (#[trigger] a@[j]).same_as(b@[j]),
        decreases a@.len() - i,
    {
        if !(a[i] == b[i]) {
            return false;
        }
        i += 1;
    }
    true
}

} // verus!
