//! Car setups for every car slot.

use vstd::prelude::*;
use crate::error::PacketError;
use crate::packets::packet_header::PacketHeader;
use crate::wire::{
    u32_b0,
    u32_b1,
    u32_b2,
    u32_b3,
    read_u8_at,
    read_u32_at,
    write_u8,
    write_u32,
    lemma_u32_reassemble,
    lemma_subrange_of_prefix,
    lemma_subrange_of_subrange,
    lemma_index_in_block,
};

verus! {

/// Total encoded size of one `CarSetupData` record, in bytes.
pub const CAR_SETUP_DATA_SIZE: usize = 49;

/// Total encoded size of a `PacketCarSetupData` packet, in bytes.
pub const PACKET_CAR_SETUP_DATA_SIZE: usize = 1107;

/// One fixed-size `CarSetupData` sub-record (49 bytes on the wire).
///
/// Float fields are carried as their raw little-endian bit patterns,
/// which round-trip exactly.
#[derive(Debug, Clone, Copy, PartialEq, Eq, Structural)]
pub struct CarSetupData {
    pub front_wing: u8, // 1 Byte
    pub rear_wing: u8, // 1 Byte
    pub on_throttle: u8, // 1 Byte
    pub off_throttle: u8, // 1 Byte
    pub front_camber: u32, // 4 Bytes (float bits)
    pub rear_camber: u32, // 4 Bytes (float bits)
    pub front_toe: u32, // 4 Bytes (float bits)
    pub rear_toe: u32, // 4 Bytes (float bits)
    pub front_suspension: u8, // 1 Byte
    pub rear_suspension: u8, // 1 Byte
    pub front_anti_roll_bar: u8, // 1 Byte
    pub rear_anti_roll_bar: u8, // 1 Byte
    pub front_suspension_height: u8, // 1 Byte
    pub rear_suspension_height: u8, // 1 Byte
    pub brake_pressure: u8, // 1 Byte
    pub brake_bias: u8, // 1 Byte
    pub rear_left_tyre_pressure: u32, // 4 Bytes (float bits)
    pub rear_right_tyre_pressure: u32, // 4 Bytes (float bits)
    pub front_left_tyre_pressure: u32, // 4 Bytes (float bits)
    pub front_right_tyre_pressure: u32, // 4 Bytes (float bits)
    pub ballast: u8, // 1 Byte
    pub fuel_load: u32, // 4 Bytes (float bits)
} // 49 Bytes

impl CarSetupData {
    /// `s` is exactly the wire image of this record.
    pub open spec fn encodes(self, s: Seq<u8>) -> bool {
        &&& s.len() == 49
        &&& s[0] == self.front_wing
        &&& s[1] == self.rear_wing
        &&& s[2] == self.on_throttle
        &&& s[3] == self.off_throttle
        &&& s[4] == u32_b0(self.front_camber)
        &&& s[5] == u32_b1(self.front_camber)
        &&& s[6] == u32_b2(self.front_camber)
        &&& s[7] == u32_b3(self.front_camber)
        &&& s[8] == u32_b0(self.rear_camber)
        &&& s[9] == u32_b1(self.rear_camber)
        &&& s[10] == u32_b2(self.rear_camber)
        &&& s[11] == u32_b3(self.rear_camber)
        &&& s[12] == u32_b0(self.front_toe)
        &&& s[13] == u32_b1(self.front_toe)
        &&& s[14] == u32_b2(self.front_toe)
        &&& s[15] == u32_b3(self.front_toe)
        &&& s[16] == u32_b0(self.rear_toe)
        &&& s[17] == u32_b1(self.rear_toe)
        &&& s[18] == u32_b2(self.rear_toe)
        &&& s[19] == u32_b3(self.rear_toe)
        &&& s[20] == self.front_suspension
        &&& s[21] == self.rear_suspension
        &&& s[22] == self.front_anti_roll_bar
        &&& s[23] == self.rear_anti_roll_bar
        &&& s[24] == self.front_suspension_height
        &&& s[25] == self.rear_suspension_height
        &&& s[26] == self.brake_pressure
        &&& s[27] == self.brake_bias
        &&& s[28] == u32_b0(self.rear_left_tyre_pressure)
        &&& s[29] == u32_b1(self.rear_left_tyre_pressure)
        &&& s[30] == u32_b2(self.rear_left_tyre_pressure)
        &&& s[31] == u32_b3(self.rear_left_tyre_pressure)
        &&& s[32] == u32_b0(self.rear_right_tyre_pressure)
        &&& s[33] == u32_b1(self.rear_right_tyre_pressure)
        &&& s[34] == u32_b2(self.rear_right_tyre_pressure)
        &&& s[35] == u32_b3(self.rear_right_tyre_pressure)
        &&& s[36] == u32_b0(self.front_left_tyre_pressure)
        &&& s[37] == u32_b1(self.front_left_tyre_pressure)
        &&& s[38] == u32_b2(self.front_left_tyre_pressure)
        &&& s[39] == u32_b3(self.front_left_tyre_pressure)
        &&& s[40] == u32_b0(self.front_right_tyre_pressure)
        &&& s[41] == u32_b1(self.front_right_tyre_pressure)
        &&& s[42] == u32_b2(self.front_right_tyre_pressure)
        &&& s[43] == u32_b3(self.front_right_tyre_pressure)
        &&& s[44] == self.ballast
        &&& s[45] == u32_b0(self.fuel_load)
        &&& s[46] == u32_b1(self.fuel_load)
        &&& s[47] == u32_b2(self.fuel_load)
        &&& s[48] == u32_b3(self.fuel_load)
    }

    /// Decode the record stored at `off`.
    #[verifier::rlimit(100)]
    pub fn read_at(b: &[u8], off: usize) -> (r: Self)
        requires
            off + CAR_SETUP_DATA_SIZE <= b@.len(),
        ensures
            r.encodes(b@.subrange(off as int, off + CAR_SETUP_DATA_SIZE)),
    {
        let _len = b.len(); // the verifier learns the slice length fits in usize
        let front_wing = read_u8_at(b, off);
        let rear_wing = read_u8_at(b, off + 1);
        let on_throttle = read_u8_at(b, off + 2);
        let off_throttle = read_u8_at(b, off + 3);
        let front_camber = read_u32_at(b, off + 4);
        let rear_camber = read_u32_at(b, off + 8);
        let front_toe = read_u32_at(b, off + 12);
        let rear_toe = read_u32_at(b, off + 16);
        let front_suspension = read_u8_at(b, off + 20);
        let rear_suspension = read_u8_at(b, off + 21);
        let front_anti_roll_bar = read_u8_at(b, off + 22);
        let rear_anti_roll_bar = read_u8_at(b, off + 23);
        let front_suspension_height = read_u8_at(b, off + 24);
        let rear_suspension_height = read_u8_at(b, off + 25);
        let brake_pressure = read_u8_at(b, off + 26);
        let brake_bias = read_u8_at(b, off + 27);
        let rear_left_tyre_pressure = read_u32_at(b, off + 28);
        let rear_right_tyre_pressure = read_u32_at(b, off + 32);
        let front_left_tyre_pressure = read_u32_at(b, off + 36);
        let front_right_tyre_pressure = read_u32_at(b, off + 40);
        let ballast = read_u8_at(b, off + 44);
        let fuel_load = read_u32_at(b, off + 45);
        let r = CarSetupData {
            front_wing,
            rear_wing,
            on_throttle,
            off_throttle,
            front_camber,
            rear_camber,
            front_toe,
            rear_toe,
            front_suspension,
            rear_suspension,
            front_anti_roll_bar,
            rear_anti_roll_bar,
            front_suspension_height,
            rear_suspension_height,
            brake_pressure,
            brake_bias,
            rear_left_tyre_pressure,
            rear_right_tyre_pressure,
            front_left_tyre_pressure,
            front_right_tyre_pressure,
            ballast,
            fuel_load,
        };
        proof {
            assert(r.encodes(b@.subrange(off as int, off + CAR_SETUP_DATA_SIZE)));
        }
        r
    }

    /// Append the wire image of this record to `out`.
    #[verifier::rlimit(100)]
    pub fn write_into(&self, out: &mut Vec<u8>)
        ensures
            final(out)@.len() == old(out)@.len() + CAR_SETUP_DATA_SIZE,
            final(out)@.subrange(0, old(out)@.len() as int) == old(out)@,
            self.encodes(
                final(out)@.subrange(old(out)@.len() as int, final(out)@.len() as int),
            ),
    {
        write_u8(out, self.front_wing);
        write_u8(out, self.rear_wing);
        write_u8(out, self.on_throttle);
        write_u8(out, self.off_throttle);
        write_u32(out, self.front_camber);
        write_u32(out, self.rear_camber);
        write_u32(out, self.front_toe);
        write_u32(out, self.rear_toe);
        write_u8(out, self.front_suspension);
        write_u8(out, self.rear_suspension);
        write_u8(out, self.front_anti_roll_bar);
        write_u8(out, self.rear_anti_roll_bar);
        write_u8(out, self.front_suspension_height);
        write_u8(out, self.rear_suspension_height);
        write_u8(out, self.brake_pressure);
        write_u8(out, self.brake_bias);
        write_u32(out, self.rear_left_tyre_pressure);
        write_u32(out, self.rear_right_tyre_pressure);
        write_u32(out, self.front_left_tyre_pressure);
        write_u32(out, self.front_right_tyre_pressure);
        write_u8(out, self.ballast);
        write_u32(out, self.fuel_load);
        proof {
            let base = old(out)@.len() as int;
            assert(out@.subrange(0, base) =~= old(out)@);
            assert(self.encodes(out@.subrange(base, base + 49)));
        }
    }

    /// Encode this record as its fixed 49-byte wire image.
    pub fn serialize(&self) -> (r: Vec<u8>)
        ensures
            r@.len() == CAR_SETUP_DATA_SIZE,
            self.encodes(r@),
    {
        let mut out: Vec<u8> = Vec::new();
        self.write_into(&mut out);
        proof {
            assert(out@.subrange(0, 49) =~= out@);
        }
        out
    }

    /// Decode a record from the first 49 bytes of `bytes`.
    ///
    /// Succeeds exactly when at least 49 bytes are supplied; trailing
    /// bytes are ignored.
    pub fn unserialize(bytes: &[u8]) -> (r: Result<Self, PacketError>)
        ensures
            match r {
                Ok(p) => bytes@.len() >= 49 && p.encodes(
                    bytes@.subrange(0, 49),
                ),
                Err(e) => bytes@.len() < 49 && e == PacketError::TruncatedInput,
            },
    {
        if bytes.len() < CAR_SETUP_DATA_SIZE {
            return Err(PacketError::TruncatedInput);
        }
        Ok(Self::read_at(bytes, 0))
    }

    /// A wire image determines the record: decoding is unambiguous, and
    /// decoding the image written by `serialize` gives the value back.
    pub proof fn lemma_wire_image_determines_value(r1: Self, r2: Self, s: Seq<u8>)
        requires
            r1.encodes(s),
            r2.encodes(s),
        ensures
            r1 == r2,
    {
        lemma_u32_reassemble(r1.front_camber);
        lemma_u32_reassemble(r2.front_camber);
        lemma_u32_reassemble(r1.rear_camber);
        lemma_u32_reassemble(r2.rear_camber);
        lemma_u32_reassemble(r1.front_toe);
        lemma_u32_reassemble(r2.front_toe);
        lemma_u32_reassemble(r1.rear_toe);
        lemma_u32_reassemble(r2.rear_toe);
        lemma_u32_reassemble(r1.rear_left_tyre_pressure);
        lemma_u32_reassemble(r2.rear_left_tyre_pressure);
        lemma_u32_reassemble(r1.rear_right_tyre_pressure);
        lemma_u32_reassemble(r2.rear_right_tyre_pressure);
        lemma_u32_reassemble(r1.front_left_tyre_pressure);
        lemma_u32_reassemble(r2.front_left_tyre_pressure);
        lemma_u32_reassemble(r1.front_right_tyre_pressure);
        lemma_u32_reassemble(r2.front_right_tyre_pressure);
        lemma_u32_reassemble(r1.fuel_load);
        lemma_u32_reassemble(r2.fuel_load);
    }

    /// A record has exactly one wire image.
    pub proof fn lemma_encoding_unique(r: Self, s1: Seq<u8>, s2: Seq<u8>)
        requires
            r.encodes(s1),
            r.encodes(s2),
        ensures
            s1 == s2,
    {
        assert(s1 =~= s2);
    }
}

impl Default for CarSetupData {
    /// The all-zero record.
    fn default() -> (r: Self)
        ensures
            (r == CarSetupData {
                front_wing: 0,
                rear_wing: 0,
                on_throttle: 0,
                off_throttle: 0,
                front_camber: 0,
                rear_camber: 0,
                front_toe: 0,
                rear_toe: 0,
                front_suspension: 0,
                rear_suspension: 0,
                front_anti_roll_bar: 0,
                rear_anti_roll_bar: 0,
                front_suspension_height: 0,
                rear_suspension_height: 0,
                brake_pressure: 0,
                brake_bias: 0,
                rear_left_tyre_pressure: 0,
                rear_right_tyre_pressure: 0,
                front_left_tyre_pressure: 0,
                front_right_tyre_pressure: 0,
                ballast: 0,
                fuel_load: 0,
            }),
    {
        CarSetupData {
            front_wing: 0,
            rear_wing: 0,
            on_throttle: 0,
            off_throttle: 0,
            front_camber: 0,
            rear_camber: 0,
            front_toe: 0,
            rear_toe: 0,
            front_suspension: 0,
            rear_suspension: 0,
            front_anti_roll_bar: 0,
            rear_anti_roll_bar: 0,
            front_suspension_height: 0,
            rear_suspension_height: 0,
            brake_pressure: 0,
            brake_bias: 0,
            rear_left_tyre_pressure: 0,
            rear_right_tyre_pressure: 0,
            front_left_tyre_pressure: 0,
            front_right_tyre_pressure: 0,
            ballast: 0,
            fuel_load: 0,
        }
    }
}

/// Car setups for every car slot. (1107 bytes on the wire).
#[derive(Debug, Clone)]
pub struct PacketCarSetupData {
    pub header: PacketHeader, // 29 Bytes
    pub car_setups: Vec<CarSetupData>, // 22 x 49 Bytes
} // 1107 Bytes

impl PacketCarSetupData {
    /// The fixed element counts that the wire layout prescribes.
    pub open spec fn wf(self) -> bool {
        &&& self.car_setups@.len() == 22
    }

    /// `s` is exactly the wire image of this packet.
    pub open spec fn encodes(self, s: Seq<u8>) -> bool {
        &&& s.len() == 1107
        &&& self.header.encodes(s.subrange(0, 29))
        &&& forall|j: int| 0 <= j < 22 ==> (#[trigger] self.car_setups@[j]).encodes(
            s.subrange(29 + j * 49, 29 + (j + 1) * 49),
        )
    }

    /// Field-for-field equality; record arrays compare element-wise.
    pub open spec fn same_as(self, other: Self) -> bool {
        &&& self.header == other.header
        &&& self.car_setups@ == other.car_setups@
    }

    /// Decode a packet from the first 1107 bytes of `bytes`.
    ///
    /// Succeeds exactly when at least 1107 bytes are supplied; trailing
    /// bytes are ignored.
    pub fn unserialize(bytes: &[u8]) -> (r: Result<Self, PacketError>)
        ensures
            match r {
                Ok(p) => bytes@.len() >= 1107 && p.wf() && p.encodes(
                    bytes@.subrange(0, 1107),
                ),
                Err(e) => bytes@.len() < 1107 && e == PacketError::TruncatedInput,
            },
    {
        if bytes.len() < PACKET_CAR_SETUP_DATA_SIZE {
            return Err(PacketError::TruncatedInput);
        }
        let header = PacketHeader::read_at(bytes, 0);
        let mut car_setups: Vec<CarSetupData> = Vec::new();
        let mut i: usize = 0;
        while i < 22
            invariant
                bytes@.len() >= 1107,
                i <= 22,
                car_setups@.len() == i,
                forall|j: int| 0 <= j < i ==> (#[trigger] car_setups@[j]).encodes(
                    bytes@.subrange(29 + j * 49, 29 + (j + 1) * 49),
                ),
            decreases 22 - i,
        {
            car_setups.push(CarSetupData::read_at(bytes, 29 + i * 49));
            i += 1;
        }
        let p = PacketCarSetupData {
            header,
            car_setups,
        };
        proof {
            let s = bytes@.subrange(0, 1107);
            lemma_subrange_of_subrange(bytes@, 0, 1107, 0, 29);
            assert forall|j: int| 0 <= j < 22 implies (#[trigger] p.car_setups@[j]).encodes(
                s.subrange(29 + j * 49, 29 + (j + 1) * 49),
            ) by {
                lemma_subrange_of_subrange(bytes@, 0, 1107, 29 + j * 49, 29 + (j + 1) * 49);
            }
            assert(p.encodes(s));
        }
        Ok(p)
    }

    /// Append the wire image of this packet to `out`.
    #[verifier::rlimit(100)]
    pub fn write_into(&self, out: &mut Vec<u8>)
        requires
            self.wf(),
        ensures
            final(out)@.len() == old(out)@.len() + PACKET_CAR_SETUP_DATA_SIZE,
            final(out)@.subrange(0, old(out)@.len() as int) == old(out)@,
            self.encodes(
                final(out)@.subrange(old(out)@.len() as int, final(out)@.len() as int),
            ),
    {
        let ghost base: int = out@.len() as int;
        let ghost start = out@;
        self.header.write_into(out);
        let mut i: usize = 0;
        while i < 22
            invariant
                self.wf(),
                i <= 22,
                0 <= base,
                out@.len() == base + 29 + i * 49,
                out@.subrange(0, base) == start,
                self.header.encodes(out@.subrange(base, base + 29)),
                forall|j: int| 0 <= j < i ==> (#[trigger] self.car_setups@[j]).encodes(
                    out@.subrange(base + 29 + j * 49, base + 29 + (j + 1) * 49),
                ),
            decreases 22 - i,
        {
            let ghost prev = out@;
            self.car_setups[i].write_into(out);
            proof {
                assert forall|t: int| 0 <= t < prev.len() implies (#[trigger] out@[t]) == prev[t] by {
                    assert(prev[t] == out@.subrange(0, prev.len() as int)[t]);
                }
                lemma_subrange_of_prefix(out@, prev, 0, base);
                lemma_subrange_of_prefix(out@, prev, base, base + 29);
            }
            i += 1;
        }
        proof {
            let s = out@.subrange(base, base + 1107);
            lemma_subrange_of_subrange(out@, base, 1107, 0, 29);
            assert forall|j: int| 0 <= j < 22 implies (#[trigger] self.car_setups@[j]).encodes(
                s.subrange(29 + j * 49, 29 + (j + 1) * 49),
            ) by {
                lemma_subrange_of_subrange(out@, base, 1107, 29 + j * 49, 29 + (j + 1) * 49);
            }
            assert(self.encodes(s));
            assert(out@.subrange(0, base) =~= start);
        }
    }

    /// Encode this packet as its fixed 1107-byte wire image.
    pub fn serialize(&self) -> (r: Vec<u8>)
        requires
            self.wf(),
        ensures
            r@.len() == PACKET_CAR_SETUP_DATA_SIZE,
            self.encodes(r@),
    {
        let mut out: Vec<u8> = Vec::new();
        self.write_into(&mut out);
        proof {
            assert(out@.subrange(0, 1107) =~= out@);
        }
        out
    }

    /// A wire image determines the packet: decoding is unambiguous, and
    /// decoding the image written by `serialize` gives the value back.
    pub proof fn lemma_wire_image_determines_value(p1: Self, p2: Self, s: Seq<u8>)
        requires
            p1.wf(),
            p2.wf(),
            p1.encodes(s),
            p2.encodes(s),
        ensures
            p1.same_as(p2),
    {
        PacketHeader::lemma_wire_image_determines_value(
            p1.header, p2.header, s.subrange(0, 29));
        assert forall|j: int| 0 <= j < 22 implies
            #[trigger] p1.car_setups@[j] == p2.car_setups@[j] by {
            CarSetupData::lemma_wire_image_determines_value(
                p1.car_setups@[j], p2.car_setups@[j],
                s.subrange(29 + j * 49, 29 + (j + 1) * 49));
        }
        assert(p1.car_setups@ =~= p2.car_setups@);
    }

    /// A packet has exactly one wire image.
    pub proof fn lemma_encoding_unique(p: Self, s1: Seq<u8>, s2: Seq<u8>)
        requires
            p.wf(),
            p.encodes(s1),
            p.encodes(s2),
        ensures
            s1 == s2,
    {
        assert forall|i: int| 0 <= i < 1107 implies s1[i] == s2[i] by {
            if i < 29 {
                PacketHeader::lemma_encoding_unique(
                    p.header, s1.subrange(0, 29), s2.subrange(0, 29));
                assert(s1.subrange(0, 29)[i] == s2.subrange(0, 29)[i]);
            }
            if 29 <= i < 1107 {
                lemma_index_in_block(29, 49, 22, i);
                let j = (i - 29) / 49;
                CarSetupData::lemma_encoding_unique(
                    p.car_setups@[j],
                    s1.subrange(29 + j * 49, 29 + (j + 1) * 49),
                    s2.subrange(29 + j * 49, 29 + (j + 1) * 49));
                assert(s1.subrange(29 + j * 49, 29 + (j + 1) * 49)[i - 29 - j * 49]
                    == s2.subrange(29 + j * 49, 29 + (j + 1) * 49)[i - 29 - j * 49]);
            }
        }
        assert(s1 =~= s2);
    }
}

impl PartialEq for PacketCarSetupData {
    fn eq(&self, other: &Self) -> (r: bool) {
        self.header == other.header
            && eq_vec_car_setup_data(&self.car_setups, &other.car_setups)
    }
}

impl vstd::std_specs::cmp::PartialEqSpecImpl for PacketCarSetupData {
    open spec fn obeys_eq_spec() -> bool {
        true
    }

    open spec fn eq_spec(&self, other: &Self) -> bool {
        self.same_as(*other)
    }
}

impl Default for PacketCarSetupData {
    /// The all-zero packet, with every array at its fixed length.
    fn default() -> (r: Self)
        ensures
            r.wf(),
    {
        let mut car_setups: Vec<CarSetupData> = Vec::new();
        let mut i: usize = 0;
        while i < 22
            invariant
                i <= 22,
                car_setups@.len() == i,
            decreases 22 - i,
        {
            car_setups.push(CarSetupData::default());
            i += 1;
        }
        PacketCarSetupData {
            header: PacketHeader::default(),
            car_setups,
        }
    }
}

/// Element-wise equality of two `CarSetupData` vectors.
fn eq_vec_car_setup_data(a: &Vec<CarSetupData>, b: &Vec<CarSetupData>) -> (r: bool)
    ensures
        r == (a@ == b@),
{
    if a.len() != b.len() {
        return false;
    }
    let mut i: usize = 0;
    while i < a.len()
        invariant
            a@.len() == b@.len(),
            i <= a@.len(),
            forall|j: int| 0 <= j < i ==> #[trigger] a@[j] == b@[j],
        decreases a@.len() - i,
    {
        if !(a[i] == b[i]) {
            return false;
        }
        i += 1;
    }
    proof {
        assert(a@ =~= b@);
    }
    true
}

} // verus!
