//! Car damage for every car slot.

use vstd::prelude::*;
use crate::error::PacketError;
use crate::packets::packet_header::PacketHeader;
use crate::wire::{
    u32_b0,
    u32_b1,
    u32_b2,
    u32_b3,
    read_u8_at,
    read_u32_at,
    write_u8,
    write_u32,
    lemma_u32_reassemble,
    lemma_subrange_of_prefix,
    lemma_subrange_of_subrange,
    lemma_index_in_block,
    eq_vec_u8,
    eq_vec_u32,
};

verus! {

/// Total encoded size of one `CarDamageData` record, in bytes.
pub const CAR_DAMAGE_DATA_SIZE: usize = 42;

/// Total encoded size of a `PacketCarDamageData` packet, in bytes.
pub const PACKET_CAR_DAMAGE_DATA_SIZE: usize = 953;

/// One fixed-size `CarDamageData` sub-record (42 bytes on the wire).
///
/// Float fields are carried as their raw little-endian bit patterns,
/// which round-trip exactly.
#[derive(Debug, Clone)]
pub struct CarDamageData {
    pub tyres_wear: Vec<u32>, // 4 x 4 Bytes
    pub tyres_damage: Vec<u8>, // 4 x 1 Byte
    pub brakes_damage: Vec<u8>, // 4 x 1 Byte
    pub front_left_wing_damage: u8, // 1 Byte
    pub front_right_wing_damage: u8, // 1 Byte
    pub rear_wing_damage: u8, // 1 Byte
    pub floor_damage: u8, // 1 Byte
    pub diffuser_damage: u8, // 1 Byte
    pub sidepod_damage: u8, // 1 Byte
    pub drs_fault: u8, // 1 Byte
    pub ers_fault: u8, // 1 Byte
    pub gearbox_damage: u8, // 1 Byte
    pub engine_damage: u8, // 1 Byte
    pub engine_mguh_wear: u8, // 1 Byte
    pub engine_es_wear: u8, // 1 Byte
    pub engine_ce_wear: u8, // 1 Byte
    pub engine_ice_wear: u8, // 1 Byte
    pub engine_mguk_wear: u8, // 1 Byte
    pub engine_tc_wear: u8, // 1 Byte
    pub engine_blown: u8, // 1 Byte
    pub engine_seized: u8, // 1 Byte
} // 42 Bytes

impl CarDamageData {
    /// The fixed element counts that the wire layout prescribes.
    pub open spec fn wf(self) -> bool {
        &&& self.tyres_wear@.len() == 4
        &&& self.tyres_damage@.len() == 4
        &&& self.brakes_damage@.len() == 4
    }

    /// `s` is exactly the wire image of this record.
    pub open spec fn encodes(self, s: Seq<u8>) -> bool {
        &&& s.len() == 42
        &&& s[0] == u32_b0(self.tyres_wear@[0])
        &&& s[1] == u32_b1(self.tyres_wear@[0])
        &&& s[2] == u32_b2(self.tyres_wear@[0])
        &&& s[3] == u32_b3(self.tyres_wear@[0])
        &&& s[4] == u32_b0(self.tyres_wear@[1])
        &&& s[5] == u32_b1(self.tyres_wear@[1])
        &&& s[6] == u32_b2(self.tyres_wear@[1])
        &&& s[7] == u32_b3(self.tyres_wear@[1])
        &&& s[8] == u32_b0(self.tyres_wear@[2])
        &&& s[9] == u32_b1(self.tyres_wear@[2])
        &&& s[10] == u32_b2(self.tyres_wear@[2])
        &&& s[11] == u32_b3(self.tyres_wear@[2])
        &&& s[12] == u32_b0(self.tyres_wear@[3])
        &&& s[13] == u32_b1(self.tyres_wear@[3])
        &&& s[14] == u32_b2(self.tyres_wear@[3])
        &&& s[15] == u32_b3(self.tyres_wear@[3])
        &&& s[16] == self.tyres_damage@[0]
        &&& s[17] == self.tyres_damage@[1]
        &&& s[18] == self.tyres_damage@[2]
        &&& s[19] == self.tyres_damage@[3]
        &&& s[20] == self.brakes_damage@[0]
        &&& s[21] == self.brakes_damage@[1]
        &&& s[22] == self.brakes_damage@[2]
        &&& s[23] == self.brakes_damage@[3]
        &&& s[24] == self.front_left_wing_damage
        &&& s[25] == self.front_right_wing_damage
        &&& s[26] == self.rear_wing_damage
        &&& s[27] == self.floor_damage
        &&& s[28] == self.diffuser_damage
        &&& s[29] == self.sidepod_damage
        &&& s[30] == self.drs_fault
        &&& s[31] == self.ers_fault
        &&& s[32] == self.gearbox_damage
        &&& s[33] == self.engine_damage
        &&& s[34] == self.engine_mguh_wear
        &&& s[35] == self.engine_es_wear
        &&& s[36] == self.engine_ce_wear
        &&& s[37] == self.engine_ice_wear
        &&& s[38] == self.engine_mguk_wear
        &&& s[39] == self.engine_tc_wear
        &&& s[40] == self.engine_blown
        &&& s[41] == self.engine_seized
    }

    /// Field-for-field equality; vector fields compare element-wise.
    pub open spec fn same_as(self, other: Self) -> bool {
        &&& self.tyres_wear@ == other.tyres_wear@
        &&& self.tyres_damage@ == other.tyres_damage@
        &&& self.brakes_damage@ == other.brakes_damage@
        &&& self.front_left_wing_damage == other.front_left_wing_damage
        &&& self.front_right_wing_damage == other.front_right_wing_damage
        &&& self.rear_wing_damage == other.rear_wing_damage
        &&& self.floor_damage == other.floor_damage
        &&& self.diffuser_damage == other.diffuser_damage
        &&& self.sidepod_damage == other.sidepod_damage
        &&& self.drs_fault == other.drs_fault
        &&& self.ers_fault == other.ers_fault
        &&& self.gearbox_damage == other.gearbox_damage
        &&& self.engine_damage == other.engine_damage
        &&& self.engine_mguh_wear == other.engine_mguh_wear
        &&& self.engine_es_wear == other.engine_es_wear
        &&& self.engine_ce_wear == other.engine_ce_wear
        &&& self.engine_ice_wear == other.engine_ice_wear
        &&& self.engine_mguk_wear == other.engine_mguk_wear
        &&& self.engine_tc_wear == other.engine_tc_wear
        &&& self.engine_blown == other.engine_blown
        &&& self.engine_seized == other.engine_seized
    }

    /// Decode the record stored at `off`.
    #[verifier::rlimit(100)]
    pub fn read_at(b: &[u8], off: usize) -> (r: Self)
        requires
            off + CAR_DAMAGE_DATA_SIZE <= b@.len(),
        ensures
            r.wf(),
            r.encodes(b@.subrange(off as int, off + CAR_DAMAGE_DATA_SIZE)),
    {
        let _len = b.len(); // the verifier learns the slice length fits in usize
        let mut tyres_wear: Vec<u32> = Vec::new();
        tyres_wear.push(read_u32_at(b, off + 0));
        tyres_wear.push(read_u32_at(b, off + 4));
        tyres_wear.push(read_u32_at(b, off + 8));
        tyres_wear.push(read_u32_at(b, off + 12));
        let mut tyres_damage: Vec<u8> = Vec::new();
        tyres_damage.push(read_u8_at(b, off + 16));
        tyres_damage.push(read_u8_at(b, off + 17));
        tyres_damage.push(read_u8_at(b, off + 18));
        tyres_damage.push(read_u8_at(b, off + 19));
        let mut brakes_damage: Vec<u8> = Vec::new();
        brakes_damage.push(read_u8_at(b, off + 20));
        brakes_damage.push(read_u8_at(b, off + 21));
        brakes_damage.push(read_u8_at(b, off + 22));
        brakes_damage.push(read_u8_at(b, off + 23));
        let front_left_wing_damage = read_u8_at(b, off + 24);
        let front_right_wing_damage = read_u8_at(b, off + 25);
        let rear_wing_damage = read_u8_at(b, off + 26);
        let floor_damage = read_u8_at(b, off + 27);
        let diffuser_damage = read_u8_at(b, off + 28);
        let sidepod_damage = read_u8_at(b, off + 29);
        let drs_fault = read_u8_at(b, off + 30);
        let ers_fault = read_u8_at(b, off + 31);
        let gearbox_damage = read_u8_at(b, off + 32);
        let engine_damage = read_u8_at(b, off + 33);
        let engine_mguh_wear = read_u8_at(b, off + 34);
        let engine_es_wear = read_u8_at(b, off + 35);
        let engine_ce_wear = read_u8_at(b, off + 36);
        let engine_ice_wear = read_u8_at(b, off + 37);
        let engine_mguk_wear = read_u8_at(b, off + 38);
        let engine_tc_wear = read_u8_at(b, off + 39);
        let engine_blown = read_u8_at(b, off + 40);
        let engine_seized = read_u8_at(b, off + 41);
        let r = CarDamageData {
            tyres_wear,
            tyres_damage,
            brakes_damage,
            front_left_wing_damage,
            front_right_wing_damage,
            rear_wing_damage,
            floor_damage,
            diffuser_damage,
            sidepod_damage,
            drs_fault,
            ers_fault,
            gearbox_damage,
            engine_damage,
            engine_mguh_wear,
            engine_es_wear,
            engine_ce_wear,
            engine_ice_wear,
            engine_mguk_wear,
            engine_tc_wear,
            engine_blown,
            engine_seized,
        };
        proof {
            assert(r.encodes(b@.subrange(off as int, off + CAR_DAMAGE_DATA_SIZE)));
        }
        r
    }

    /// Append the wire image of this record to `out`.
    #[verifier::rlimit(100)]
    pub fn write_into(&self, out: &mut Vec<u8>)
        requires
            self.wf(),
        ensures
            final(out)@.len() == old(out)@.len() + CAR_DAMAGE_DATA_SIZE,
            final(out)@.subrange(0, old(out)@.len() as int) == old(out)@,
            self.encodes(
                final(out)@.subrange(old(out)@.len() as int, final(out)@.len() as int),
            ),
    {
        write_u32(out, self.tyres_wear[0]);
        write_u32(out, self.tyres_wear[1]);
        write_u32(out, self.tyres_wear[2]);
        write_u32(out, self.tyres_wear[3]);
        write_u8(out, self.tyres_damage[0]);
        write_u8(out, self.tyres_damage[1]);
        write_u8(out, self.tyres_damage[2]);
        write_u8(out, self.tyres_damage[3]);
        write_u8(out, self.brakes_damage[0]);
        write_u8(out, self.brakes_damage[1]);
        write_u8(out, self.brakes_damage[2]);
        write_u8(out, self.brakes_damage[3]);
        write_u8(out, self.front_left_wing_damage);
        write_u8(out, self.front_right_wing_damage);
        write_u8(out, self.rear_wing_damage);
        write_u8(out, self.floor_damage);
        write_u8(out, self.diffuser_damage);
        write_u8(out, self.sidepod_damage);
        write_u8(out, self.drs_fault);
        write_u8(out, self.ers_fault);
        write_u8(out, self.gearbox_damage);
        write_u8(out, self.engine_damage);
        write_u8(out, self.engine_mguh_wear);
        write_u8(out, self.engine_es_wear);
        write_u8(out, self.engine_ce_wear);
        write_u8(out, self.engine_ice_wear);
        write_u8(out, self.engine_mguk_wear);
        write_u8(out, self.engine_tc_wear);
        write_u8(out, self.engine_blown);
        write_u8(out, self.engine_seized);
        proof {
            let base = old(out)@.len() as int;
            assert(out@.subrange(0, base) =~= old(out)@);
            assert(self.encodes(out@.subrange(base, base + 42)));
        }
    }

    /// Encode this record as its fixed 42-byte wire image.
    pub fn serialize(&self) -> (r: Vec<u8>)
        requires
            self.wf(),
        ensures
            r@.len() == CAR_DAMAGE_DATA_SIZE,
            self.encodes(r@),
    {
        let mut out: Vec<u8> = Vec::new();
        self.write_into(&mut out);
        proof {
            assert(out@.subrange(0, 42) =~= out@);
        }
        out
    }

    /// Decode a record from the first 42 bytes of `bytes`.
    ///
    /// Succeeds exactly when at least 42 bytes are supplied; trailing
    /// bytes are ignored.
    pub fn unserialize(bytes: &[u8]) -> (r: Result<Self, PacketError>)
        ensures
            match r {
                Ok(p) => bytes@.len() >= 42 && p.wf() && p.encodes(
                    bytes@.subrange(0, 42),
                ),
                Err(e) => bytes@.len() < 42 && e == PacketError::TruncatedInput,
            },
    {
        if bytes.len() < CAR_DAMAGE_DATA_SIZE {
            return Err(PacketError::TruncatedInput);
        }
        Ok(Self::read_at(bytes, 0))
    }

    /// A wire image determines the record: decoding is unambiguous, and
    /// decoding the image written by `serialize` gives the value back.
    pub proof fn lemma_wire_image_determines_value(r1: Self, r2: Self, s: Seq<u8>)
        requires
            r1.wf(),
            r2.wf(),
            r1.encodes(s),
            r2.encodes(s),
        ensures
            r1.same_as(r2),
    {
        lemma_u32_reassemble(r1.tyres_wear@[0]);
        lemma_u32_reassemble(r2.tyres_wear@[0]);
        lemma_u32_reassemble(r1.tyres_wear@[1]);
        lemma_u32_reassemble(r2.tyres_wear@[1]);
        lemma_u32_reassemble(r1.tyres_wear@[2]);
        lemma_u32_reassemble(r2.tyres_wear@[2]);
        lemma_u32_reassemble(r1.tyres_wear@[3]);
        lemma_u32_reassemble(r2.tyres_wear@[3]);
        assert(r1.tyres_wear@ =~= r2.tyres_wear@);
        assert(r1.tyres_damage@ =~= r2.tyres_damage@);
        assert(r1.brakes_damage@ =~= r2.brakes_damage@);
    }

    /// A record has exactly one wire image.
    pub proof fn lemma_encoding_unique(r: Self, s1: Seq<u8>, s2: Seq<u8>)
        requires
            r.encodes(s1),
            r.encodes(s2),
        ensures
            s1 == s2,
    {
        assert(s1 =~= s2);
    }
}

impl PartialEq for CarDamageData {
    fn eq(&self, other: &Self) -> (r: bool) {
        eq_vec_u32(&self.tyres_wear, &other.tyres_wear)
            && eq_vec_u8(&self.tyres_damage, &other.tyres_damage)
            && eq_vec_u8(&self.brakes_damage, &other.brakes_damage)
            && self.front_left_wing_damage == other.front_left_wing_damage
            && self.front_right_wing_damage == other.front_right_wing_damage
            && self.rear_wing_damage == other.rear_wing_damage
            && self.floor_damage == other.floor_damage
            && self.diffuser_damage == other.diffuser_damage
            && self.sidepod_damage == other.sidepod_damage
            && self.drs_fault == other.drs_fault
            && self.ers_fault == other.ers_fault
            && self.gearbox_damage == other.gearbox_damage
            && self.engine_damage == other.engine_damage
            && self.engine_mguh_wear == other.engine_mguh_wear
            && self.engine_es_wear == other.engine_es_wear
            && self.engine_ce_wear == other.engine_ce_wear
            && self.engine_ice_wear == other.engine_ice_wear
            && self.engine_mguk_wear == other.engine_mguk_wear
            && self.engine_tc_wear == other.engine_tc_wear
            && self.engine_blown == other.engine_blown
            && self.engine_seized == other.engine_seized
    }
}

impl vstd::std_specs::cmp::PartialEqSpecImpl for CarDamageData {
    open spec fn obeys_eq_spec() -> bool {
        true
    }

    open spec fn eq_spec(&self, other: &Self) -> bool {
        self.same_as(*other)
    }
}

impl Default for CarDamageData {
    /// The all-zero record.
    fn default() -> (r: Self)
        ensures
            r.wf(),
            forall|k: int| 0 <= k < 4 ==> #[trigger] r.tyres_wear@[k] == 0,
            forall|k: int| 0 <= k < 4 ==> #[trigger] r.tyres_damage@[k] == 0,
            forall|k: int| 0 <= k < 4 ==> #[trigger] r.brakes_damage@[k] == 0,
            r.front_left_wing_damage == 0,
            r.front_right_wing_damage == 0,
            r.rear_wing_damage == 0,
            r.floor_damage == 0,
            r.diffuser_damage == 0,
            r.sidepod_damage == 0,
            r.drs_fault == 0,
            r.ers_fault == 0,
            r.gearbox_damage == 0,
            r.engine_damage == 0,
            r.engine_mguh_wear == 0,
            r.engine_es_wear == 0,
            r.engine_ce_wear == 0,
            r.engine_ice_wear == 0,
            r.engine_mguk_wear == 0,
            r.engine_tc_wear == 0,
            r.engine_blown == 0,
            r.engine_seized == 0,
    {
        let mut tyres_wear: Vec<u32> = Vec::new();
        tyres_wear.push(0);
        tyres_wear.push(0);
        tyres_wear.push(0);
        tyres_wear.push(0);
        let mut tyres_damage: Vec<u8> = Vec::new();
        tyres_damage.push(0);
        tyres_damage.push(0);
        tyres_damage.push(0);
        tyres_damage.push(0);
        let mut brakes_damage: Vec<u8> = Vec::new();
        brakes_damage.push(0);
        brakes_damage.push(0);
        brakes_damage.push(0);
        brakes_damage.push(0);
        CarDamageData {
            tyres_wear,
            tyres_damage,
            brakes_damage,
            front_left_wing_damage: 0,
            front_right_wing_damage: 0,
            rear_wing_damage: 0,
            floor_damage: 0,
            diffuser_damage: 0,
            sidepod_damage: 0,
            drs_fault: 0,
            ers_fault: 0,
            gearbox_damage: 0,
            engine_damage: 0,
            engine_mguh_wear: 0,
            engine_es_wear: 0,
            engine_ce_wear: 0,
            engine_ice_wear: 0,
            engine_mguk_wear: 0,
            engine_tc_wear: 0,
            engine_blown: 0,
            engine_seized: 0,
        }
    }
}

/// Car damage for every car slot. (953 bytes on the wire).
#[derive(Debug, Clone)]
pub struct PacketCarDamageData {
    pub header: PacketHeader, // 29 Bytes
    pub car_damage_data: Vec<CarDamageData>, // 22 x 42 Bytes
} // 953 Bytes

impl PacketCarDamageData {
    /// The fixed element counts that the wire layout prescribes.
    pub open spec fn wf(self) -> bool {
        &&& self.car_damage_data@.len() == 22
        &&& forall|j: int| 0 <= j < 22 ==> (#[trigger] self.car_damage_data@[j]).wf()
    }

    /// `s` is exactly the wire image of this packet.
    pub open spec fn encodes(self, s: Seq<u8>) -> bool {
        &&& s.len() == 953
        &&& self.header.encodes(s.subrange(0, 29))
        &&& forall|j: int| 0 <= j < 22 ==> (#[trigger] self.car_damage_data@[j]).encodes(
            s.subrange(29 + j * 42, 29 + (j + 1) * 42),
        )
    }

    /// Field-for-field equality; record arrays compare element-wise.
    pub open spec fn same_as(self, other: Self) -> bool {
        &&& self.header == other.header
        &&& self.car_damage_data@.len() == other.car_damage_data@.len()
        &&& forall|j: int| 0 <= j < self.car_damage_data@.len() ==>
            (#[trigger] self.car_damage_data@[j]).same_as(other.car_damage_data@[j])
    }

    /// Decode a packet from the first 953 bytes of `bytes`.
    ///
    /// Succeeds exactly when at least 953 bytes are supplied; trailing
    /// bytes are ignored.
    pub fn unserialize(bytes: &[u8]) -> (r: Result<Self, PacketError>)
        ensures
            match r {
                Ok(p) => bytes@.len() >= 953 && p.wf() && p.encodes(
                    bytes@.subrange(0, 953),
                ),
                Err(e) => bytes@.len() < 953 && e == PacketError::TruncatedInput,
            },
    {
        if bytes.len() < PACKET_CAR_DAMAGE_DATA_SIZE {
            return Err(PacketError::TruncatedInput);
        }
        let header = PacketHeader::read_at(bytes, 0);
        let mut car_damage_data: Vec<CarDamageData> = Vec::new();
        let mut i: usize = 0;
        while i < 22
            invariant
                bytes@.len() >= 953,
                i <= 22,
                car_damage_data@.len() == i,
                forall|j: int| 0 <= j < i ==> (#[trigger] car_damage_data@[j]).wf() && car_damage_data@[j].encodes(
                    bytes@.subrange(29 + j * 42, 29 + (j + 1) * 42),
                ),
            decreases 22 - i,
        {
            car_damage_data.push(CarDamageData::read_at(bytes, 29 + i * 42));
            i += 1;
        }
        let p = PacketCarDamageData {
            header,
            car_damage_data,
        };
        proof {
            let s = bytes@.subrange(0, 953);
            lemma_subrange_of_subrange(bytes@, 0, 953, 0, 29);
            assert forall|j: int| 0 <= j < 22 implies (#[trigger] p.car_damage_data@[j]).encodes(
                s.subrange(29 + j * 42, 29 + (j + 1) * 42),
            ) by {
                lemma_subrange_of_subrange(bytes@, 0, 953, 29 + j * 42, 29 + (j + 1) * 42);
            }
            assert(p.encodes(s));
        }
        Ok(p)
    }

    /// Append the wire image of this packet to `out`.
    #[verifier::rlimit(100)]
    pub fn write_into(&self, out: &mut Vec<u8>)
        requires
            self.wf(),
        ensures
            final(out)@.len() == old(out)@.len() + PACKET_CAR_DAMAGE_DATA_SIZE,
            final(out)@.subrange(0, old(out)@.len() as int) == old(out)@,
            self.encodes(
                final(out)@.subrange(old(out)@.len() as int, final(out)@.len() as int),
            ),
    {
        let ghost base: int = out@.len() as int;
        let ghost start = out@;
        self.header.write_into(out);
        let mut i: usize = 0;
        while i < 22
            invariant
                self.wf(),
                i <= 22,
                0 <= base,
                out@.len() == base + 29 + i * 42,
                out@.subrange(0, base) == start,
                self.header.encodes(out@.subrange(base, base + 29)),
                forall|j: int| 0 <= j < i ==> (#[trigger] self.car_damage_data@[j]).encodes(
                    out@.subrange(base + 29 + j * 42, base + 29 + (j + 1) * 42),
                ),
            decreases 22 - i,
        {
            let ghost prev = out@;
            self.car_damage_data[i].write_into(out);
            proof {
                assert forall|t: int| 0 <= t < prev.len() implies (#[trigger] out@[t]) == prev[t] by {
                    assert(prev[t] == out@.subrange(0, prev.len() as int)[t]);
                }
                lemma_subrange_of_prefix(out@, prev, 0, base);
                lemma_subrange_of_prefix(out@, prev, base, base + 29);
            }
            i += 1;
        }
        proof {
            let s = out@.subrange(base, base + 953);
            lemma_subrange_of_subrange(out@, base, 953, 0, 29);
            assert forall|j: int| 0 <= j < 22 implies (#[trigger] self.car_damage_data@[j]).encodes(
                s.subrange(29 + j * 42, 29 + (j + 1) * 42),
            ) by {
                lemma_subrange_of_subrange(out@, base, 953, 29 + j * 42, 29 + (j + 1) * 42);
            }
            assert(self.encodes(s));
            assert(out@.subrange(0, base) =~= start);
        }
    }

    /// Encode this packet as its fixed 953-byte wire image.
    pub fn serialize(&self) -> (r: Vec<u8>)
        requires
            self.wf(),
        ensures
            r@.len() == PACKET_CAR_DAMAGE_DATA_SIZE,
            self.encodes(r@),
    {
        let mut out: Vec<u8> = Vec::new();
        self.write_into(&mut out);
        proof {
            assert(out@.subrange(0, 953) =~= out@);
        }
        out
    }

    /// A wire image determines the packet: decoding is unambiguous, and
    /// decoding the image written by `serialize` gives the value back.
    pub proof fn lemma_wire_image_determines_value(p1: Self, p2: Self, s: Seq<u8>)
        requires
            p1.wf(),
            p2.wf(),
            p1.encodes(s),
            p2.encodes(s),
        ensures
            p1.same_as(p2),
    {
        PacketHeader::lemma_wire_image_determines_value(
            p1.header, p2.header, s.subrange(0, 29));
        assert forall|j: int| 0 <= j < p1.car_damage_data@.len() implies
            (#[trigger] p1.car_damage_data@[j]).same_as(p2.car_damage_data@[j]) by {
            CarDamageData::lemma_wire_image_determines_value(
                p1.car_damage_data@[j], p2.car_damage_data@[j],
                s.subrange(29 + j * 42, 29 + (j + 1) * 42));
        }
    }

    /// A packet has exactly one wire image.
    pub proof fn lemma_encoding_unique(p: Self, s1: Seq<u8>, s2: Seq<u8>)
        requires
            p.wf(),
            p.encodes(s1),
            p.encodes(s2),
        ensures
            s1 == s2,
    {
        assert forall|i: int| 0 <= i < 953 implies s1[i] == s2[i] by {
            if i < 29 {
                PacketHeader::lemma_encoding_unique(
                    p.header, s1.subrange(0, 29), s2.subrange(0, 29));
                assert(s1.subrange(0, 29)[i] == s2.subrange(0, 29)[i]);
            }
            if 29 <= i < 953 {
                lemma_index_in_block(29, 42, 22, i);
                let j = (i - 29) / 42;
                CarDamageData::lemma_encoding_unique(
                    p.car_damage_data@[j],
                    s1.subrange(29 + j * 42, 29 + (j + 1) * 42),
                    s2.subrange(29 + j * 42, 29 + (j + 1) * 42));
                assert(s1.subrange(29 + j * 42, 29 + (j + 1) * 42)[i - 29 - j * 42]
                    == s2.subrange(29 + j * 42, 29 + (j + 1) * 42)[i - 29 - j * 42]);
            }
        }
        assert(s1 =~= s2);
    }
}

impl PartialEq for PacketCarDamageData {
    fn eq(&self, other: &Self) -> (r: bool) {
        self.header == other.header
            && eq_vec_car_damage_data(&self.car_damage_data, &other.car_damage_data)
    }
}

impl vstd::std_specs::cmp::PartialEqSpecImpl for PacketCarDamageData {
    open spec fn obeys_eq_spec() -> bool {
        true
    }

    open spec fn eq_spec(&self, other: &Self) -> bool {
        self.same_as(*other)
    }
}

impl Default for PacketCarDamageData {
    /// The all-zero packet, with every array at its fixed length.
    fn default() -> (r: Self)
        ensures
            r.wf(),
    {
        let mut car_damage_data: Vec<CarDamageData> = Vec::new();
        let mut i: usize = 0;
        while i < 22
            invariant
                i <= 22,
                car_damage_data@.len() == i,
                forall|j: int| 0 <= j < i ==> (#[trigger] car_damage_data@[j]).wf(),
            decreases 22 - i,
        {
            car_damage_data.push(CarDamageData::default());
            i += 1;
        }
        PacketCarDamageData {
            header: PacketHeader::default(),
            car_damage_data,
        }
    }
}

/// Element-wise equality of two `CarDamageData` vectors.
fn eq_vec_car_damage_data(a: &Vec<CarDamageData>, b: &Vec<CarDamageData>) -> (r: bool)
    ensures
        r == (a@.len() == b@.len() && forall|j: int| 0 <= j < a@.len() ==>
            (#[trigger] a@[j]).same_as(b@[j])),
{
    if a.len() != b.len() {
        return false;
    }
    let mut i: usize = 0;
    while i < a.len()
        invariant
            a@.len() == b@.len(),
            i <= a@.len(),
            forall|j: int| 0 <= j < i ==> (#[trigger] a@[j]).same_as(b@[j]),
        decreases a@.len() - i,
    {
        if !(a[i] == b[i]) {
            return false;
        }
        i += 1;
    }
    true
}

} // verus!
