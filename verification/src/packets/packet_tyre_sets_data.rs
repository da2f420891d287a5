//! The tyre sets available to one car.

use vstd::prelude::*;
use crate::error::PacketError;
use crate::packets::packet_header::PacketHeader;
use crate::wire::{
    i16_b0,
    i16_b1,
    i16_rep,
    read_u8_at,
    read_i16_at,
    write_u8,
    write_i16,
    lemma_u16_reassemble,
    lemma_i16_rep_injective,
    lemma_subrange_of_prefix,
    lemma_subrange_of_subrange,
    lemma_index_in_block,
};

verus! {

/// Total encoded size of one `TyreSetData` record, in bytes.
pub const TYRE_SET_DATA_SIZE: usize = 10;

/// Total encoded size of a `PacketTyreSetsData` packet, in bytes.
pub const PACKET_TYRE_SETS_DATA_SIZE: usize = 231;

/// One fixed-size `TyreSetData` sub-record (10 bytes on the wire).
#[derive(Debug, Clone, Copy, PartialEq, Eq, Structural)]
pub struct TyreSetData {
    pub actual_tyre_compound: u8, // 1 Byte
    pub visual_tyre_compound: u8, // 1 Byte
    pub wear: u8, // 1 Byte
    pub available: u8, // 1 Byte
    pub recommended_session: u8, // 1 Byte
    pub life_span: u8, // 1 Byte
    pub usable_life: u8, // 1 Byte
    pub lap_delta_time: i16, // 2 Bytes
    pub fitted: u8, // 1 Byte
} // 10 Bytes

impl TyreSetData {
    /// `s` is exactly the wire image of this record.
    pub open spec fn encodes(self, s: Seq<u8>) -> bool {
        &&& s.len() == 10
        &&& s[0] == self.actual_tyre_compound
        &&& s[1] == self.visual_tyre_compound
        &&& s[2] == self.wear
        &&& s[3] == self.available
        &&& s[4] == self.recommended_session
        &&& s[5] == self.life_span
        &&& s[6] == self.usable_life
        &&& s[7] == i16_b0(self.lap_delta_time)
        &&& s[8] == i16_b1(self.lap_delta_time)
        &&& s[9] == self.fitted
    }

    /// Decode the record stored at `off`.
    pub fn read_at(b: &[u8], off: usize) -> (r: Self)
        requires
            off + TYRE_SET_DATA_SIZE <= b@.len(),
        ensures
            r.encodes(b@.subrange(off as int, off + TYRE_SET_DATA_SIZE)),
    {
        let _len = b.len(); // the verifier learns the slice length fits in usize
        let actual_tyre_compound = read_u8_at(b, off);
        let visual_tyre_compound = read_u8_at(b, off + 1);
        let wear = read_u8_at(b, off + 2);
        let available = read_u8_at(b, off + 3);
        let recommended_session = read_u8_at(b, off + 4);
        let life_span = read_u8_at(b, off + 5);
        let usable_life = read_u8_at(b, off + 6);
        let lap_delta_time = read_i16_at(b, off + 7);
        let fitted = read_u8_at(b, off + 9);
        let r = TyreSetData {
            actual_tyre_compound,
            visual_tyre_compound,
            wear,
            available,
            recommended_session,
            life_span,
            usable_life,
            lap_delta_time,
            fitted,
        };
        proof {
            assert(r.encodes(b@.subrange(off as int, off + TYRE_SET_DATA_SIZE)));
        }
        r
    }

    /// Append the wire image of this record to `out`.
    pub fn write_into(&self, out: &mut Vec<u8>)
        ensures
            final(out)@.len() == old(out)@.len() + TYRE_SET_DATA_SIZE,
            final(out)@.subrange(0, old(out)@.len() as int) == old(out)@,
            self.encodes(
                final(out)@.subrange(old(out)@.len() as int, final(out)@.len() as int),
            ),
    {
        write_u8(out, self.actual_tyre_compound);
        write_u8(out, self.visual_tyre_compound);
        write_u8(out, self.wear);
        write_u8(out, self.available);
        write_u8(out, self.recommended_session);
        write_u8(out, self.life_span);
        write_u8(out, self.usable_life);
        write_i16(out, self.lap_delta_time);
        write_u8(out, self.fitted);
        proof {
            let base = old(out)@.len() as int;
            assert(out@.subrange(0, base) =~= old(out)@);
            assert(self.encodes(out@.subrange(base, base + 10)));
        }
    }

    /// Encode this record as its fixed 10-byte wire image.
    pub fn serialize(&self) -> (r: Vec<u8>)
        ensures
            r@.len() == TYRE_SET_DATA_SIZE,
            self.encodes(r@),
    {
        let mut out: Vec<u8> = Vec::new();
        self.write_into(&mut out);
        proof {
            assert(out@.subrange(0, 10) =~= out@);
        }
        out
    }

    /// Decode a record from the first 10 bytes of `bytes`.
    ///
    /// Succeeds exactly when at least 10 bytes are supplied; trailing
    /// bytes are ignored.
    pub fn unserialize(bytes: &[u8]) -> (r: Result<Self, PacketError>)
        ensures
            match r {
                Ok(p) => bytes@.len() >= 10 && p.encodes(
                    bytes@.subrange(0, 10),
                ),
                Err(e) => bytes@.len() < 10 && e == PacketError::TruncatedInput,
            },
    {
        if bytes.len() < TYRE_SET_DATA_SIZE {
            return Err(PacketError::TruncatedInput);
        }
        Ok(Self::read_at(bytes, 0))
    }

    /// A wire image determines the record: decoding is unambiguous, and
    /// decoding the image written by `serialize` gives the value back.
    pub proof fn lemma_wire_image_determines_value(r1: Self, r2: Self, s: Seq<u8>)
        requires
            r1.encodes(s),
            r2.encodes(s),
        ensures
            r1 == r2,
    {
        lemma_u16_reassemble(i16_rep(r1.lap_delta_time));
        lemma_u16_reassemble(i16_rep(r2.lap_delta_time));
        lemma_i16_rep_injective(r1.lap_delta_time, r2.lap_delta_time);
    }

    /// A record has exactly one wire image.
    pub proof fn lemma_encoding_unique(r: Self, s1: Seq<u8>, s2: Seq<u8>)
        requires
            r.encodes(s1),
            r.encodes(s2),
        ensures
            s1 == s2,
    {
        assert(s1 =~= s2);
    }
}

impl Default for TyreSetData {
    /// The all-zero record.
    fn default() -> (r: Self)
        ensures
            (r == TyreSetData {
                actual_tyre_compound: 0,
                visual_tyre_compound: 0,
                wear: 0,
                available: 0,
                recommended_session: 0,
                life_span: 0,
                usable_life: 0,
                lap_delta_time: 0,
                fitted: 0,
            }),
    {
        TyreSetData {
            actual_tyre_compound: 0,
            visual_tyre_compound: 0,
            wear: 0,
            available: 0,
            recommended_session: 0,
            life_span: 0,
            usable_life: 0,
            lap_delta_time: 0,
            fitted: 0,
        }
    }
}

/// The tyre sets available to one car. (231 bytes on the wire).
#[derive(Debug, Clone)]
pub struct PacketTyreSetsData {
    pub header: PacketHeader, // 29 Bytes
    pub car_idx: u8, // 1 Byte
    pub tyre_set_data: Vec<TyreSetData>, // 20 x 10 Bytes
    pub fitted_idx: u8, // 1 Byte
} // 231 Bytes

impl PacketTyreSetsData {
    /// The fixed element counts that the wire layout prescribes.
    pub open spec fn wf(self) -> bool {
        &&& self.tyre_set_data@.len() == 20
    }

    /// `s` is exactly the wire image of this packet.
    pub open spec fn encodes(self, s: Seq<u8>) -> bool {
        &&& s.len() == 231
        &&& self.header.encodes(s.subrange(0, 29))
        &&& s[29] == self.car_idx
        &&& forall|j: int| 0 <= j < 20 ==> (#[trigger] self.tyre_set_data@[j]).encodes(
            s.subrange(30 + j * 10, 30 + (j + 1) * 10),
        )
        &&& s[230] == self.fitted_idx
    }

    /// Field-for-field equality; record arrays compare element-wise.
    pub open spec fn same_as(self, other: Self) -> bool {
        &&& self.header == other.header
        &&& self.car_idx == other.car_idx
        &&& self.tyre_set_data@ == other.tyre_set_data@
        &&& self.fitted_idx == other.fitted_idx
    }

    /// Decode a packet from the first 231 bytes of `bytes`.
    ///
    /// Succeeds exactly when at least 231 bytes are supplied; trailing
    /// bytes are ignored.
    pub fn unserialize(bytes: &[u8]) -> (r: Result<Self, PacketError>)
        ensures
            match r {
                Ok(p) => bytes@.len() >= 231 && p.wf() && p.encodes(
                    bytes@.subrange(0, 231),
                ),
                Err(e) => bytes@.len() < 231 && e == PacketError::TruncatedInput,
            },
    {
        if bytes.len() < PACKET_TYRE_SETS_DATA_SIZE {
            return Err(PacketError::TruncatedInput);
        }
        let header = PacketHeader::read_at(bytes, 0);
        let car_idx = read_u8_at(bytes, 29);
        let mut tyre_set_data: Vec<TyreSetData> = Vec::new();
        let mut i: usize = 0;
        while i < 20
            invariant
                bytes@.len() >= 231,
                i <= 20,
                tyre_set_data@.len() == i,
                forall|j: int| 0 <= j < i ==> (#[trigger] tyre_set_data@[j]).encodes(
                    bytes@.subrange(30 + j * 10, 30 + (j + 1) * 10),
                ),
            decreases 20 - i,
        {
            tyre_set_data.push(TyreSetData::read_at(bytes, 30 + i * 10));
            i += 1;
        }
        let fitted_idx = read_u8_at(bytes, 230);
        let p = PacketTyreSetsData {
            header,
            car_idx,
            tyre_set_data,
            fitted_idx,
        };
        proof {
            let s = bytes@.subrange(0, 231);
            lemma_subrange_of_subrange(bytes@, 0, 231, 0, 29);
            assert forall|j: int| 0 <= j < 20 implies (#[trigger] p.tyre_set_data@[j]).encodes(
                s.subrange(30 + j * 10, 30 + (j + 1) * 10),
            ) by {
                lemma_subrange_of_subrange(bytes@, 0, 231, 30 + j * 10, 30 + (j + 1) * 10);
            }
            assert(p.encodes(s));
        }
        Ok(p)
    }

    /// Append the wire image of this packet to `out`.
    #[verifier::rlimit(100)]
    pub fn write_into(&self, out: &mut Vec<u8>)
        requires
            self.wf(),
        ensures
            final(out)@.len() == old(out)@.len() + PACKET_TYRE_SETS_DATA_SIZE,
            final(out)@.subrange(0, old(out)@.len() as int) == old(out)@,
            self.encodes(
                final(out)@.subrange(old(out)@.len() as int, final(out)@.len() as int),
            ),
    {
        let ghost base: int = out@.len() as int;
        let ghost start = out@;
        self.header.write_into(out);
        write_u8(out, self.car_idx);
        let mut i: usize = 0;
        while i < 20
            invariant
                self.wf(),
                i <= 20,
                0 <= base,
                out@.len() == base + 30 + i * 10,
                out@.subrange(0, base) == start,
                self.header.encodes(out@.subrange(base, base + 29)),
                out@[base + 29] == self.car_idx,
                forall|j: int| 0 <= j < i ==> (#[trigger] self.tyre_set_data@[j]).encodes(
                    out@.subrange(base + 30 + j * 10, base + 30 + (j + 1) * 10),
                ),
            decreases 20 - i,
        {
            let ghost prev = out@;
            self.tyre_set_data[i].write_into(out);
            proof {
                assert forall|t: int| 0 <= t < prev.len() implies (#[trigger] out@[t]) == prev[t] by {
                    assert(prev[t] == out@.subrange(0, prev.len() as int)[t]);
                }
                lemma_subrange_of_prefix(out@, prev, 0, base);
                lemma_subrange_of_prefix(out@, prev, base, base + 29);
            }
            i += 1;
        }
        write_u8(out, self.fitted_idx);
        proof {
            let s = out@.subrange(base, base + 231);
            lemma_subrange_of_subrange(out@, base, 231, 0, 29);
            assert forall|j: int| 0 <= j < 20 implies (#[trigger] self.tyre_set_data@[j]).encodes(
                s.subrange(30 + j * 10, 30 + (j + 1) * 10),
            ) by {
                lemma_subrange_of_subrange(out@, base, 231, 30 + j * 10, 30 + (j + 1) * 10);
            }
            assert(self.encodes(s));
            assert(out@.subrange(0, base) =~= start);
        }
    }

    /// Encode this packet as its fixed 231-byte wire image.
    pub fn serialize(&self) -> (r: Vec<u8>)
        requires
            self.wf(),
        ensures
            r@.len() == PACKET_TYRE_SETS_DATA_SIZE,
            self.encodes(r@),
    {
        let mut out: Vec<u8> = Vec::new();
        self.write_into(&mut out);
        proof {
            assert(out@.subrange(0, 231) =~= out@);
        }
        out
    }

    /// A wire image determines the packet: decoding is unambiguous, and
    /// decoding the image written by `serialize` gives the value back.
    pub proof fn lemma_wire_image_determines_value(p1: Self, p2: Self, s: Seq<u8>)
        requires
            p1.wf(),
            p2.wf(),
            p1.encodes(s),
            p2.encodes(s),
        ensures
            p1.same_as(p2),
    {
        PacketHeader::lemma_wire_image_determines_value(
            p1.header, p2.header, s.subrange(0, 29));
        assert forall|j: int| 0 <= j < 20 implies
            #[trigger] p1.tyre_set_data@[j] == p2.tyre_set_data@[j] by {
            TyreSetData::lemma_wire_image_determines_value(
                p1.tyre_set_data@[j], p2.tyre_set_data@[j],
                s.subrange(30 + j * 10, 30 + (j + 1) * 10));
        }
        assert(p1.tyre_set_data@ =~= p2.tyre_set_data@);
    }

    /// A packet has exactly one wire image.
    pub proof fn lemma_encoding_unique(p: Self, s1: Seq<u8>, s2: Seq<u8>)
        requires
            p.wf(),
            p.encodes(s1),
            p.encodes(s2),
        ensures
            s1 == s2,
    {
        assert forall|i: int| 0 <= i < 231 implies s1[i] == s2[i] by {
            if i < 29 {
                PacketHeader::lemma_encoding_unique(
                    p.header, s1.subrange(0, 29), s2.subrange(0, 29));
                assert(s1.subrange(0, 29)[i] == s2.subrange(0, 29)[i]);
            }
            if 30 <= i < 230 {
                lemma_index_in_block(30, 10, 20, i);
                let j = (i - 30) / 10;
                TyreSetData::lemma_encoding_unique(
                    p.tyre_set_data@[j],
                    s1.subrange(30 + j * 10, 30 + (j + 1) * 10),
                    s2.subrange(30 + j * 10, 30 + (j + 1) * 10));
                assert(s1.subrange(30 + j * 10, 30 + (j + 1) * 10)[i - 30 - j * 10]
                    == s2.subrange(30 + j * 10, 30 + (j + 1) * 10)[i - 30 - j * 10]);
            }
        }
        assert(s1 =~= s2);
    }
}

impl PartialEq for PacketTyreSetsData {
    fn eq(&self, other: &Self) -> (r: bool) {
        self.header == other.header
            && self.car_idx == other.car_idx
            && eq_vec_tyre_set_data(&self.tyre_set_data, &other.tyre_set_data)
            && self.fitted_idx == other.fitted_idx
    }
}

impl vstd::std_specs::cmp::PartialEqSpecImpl for PacketTyreSetsData {
    open spec fn obeys_eq_spec() -> bool {
        true
    }

    open spec fn eq_spec(&self, other: &Self) -> bool {
        self.same_as(*other)
    }
}

impl Default for PacketTyreSetsData {
    /// The all-zero packet, with every array at its fixed length.
    fn default() -> (r: Self)
        ensures
            r.wf(),
    {
        let mut tyre_set_data: Vec<TyreSetData> = Vec::new();
        let mut i: usize = 0;
        while i < 20
            invariant
                i <= 20,
                tyre_set_data@.len() == i,
            decreases 20 - i,
        {
            tyre_set_data.push(TyreSetData::default());
            i += 1;
        }
        PacketTyreSetsData {
            header: PacketHeader::default(),
            car_idx: 0,
            tyre_set_data,
            fitted_idx: 0,
        }
    }
}

/// Element-wise equality of two `TyreSetData` vectors.
fn eq_vec_tyre_set_data(a: &Vec<TyreSetData>, b: &Vec<TyreSetData>) -> (r: bool)
    ensures
        r == (a@ == b@),
{
    if a.len() != b.len() {
        return false;
    }
    let mut i: usize = 0;
    while i < a.len()
        invariant
            a@.len() == b@.len(),
            i <= a@.len(),
            forall|j: int| 0 <= j < i ==> #[trigger] a@[j] == b@[j],
        decreases a@.len() - i,
    {
        if !(a[i] == b[i]) {
            return false;
        }
        i += 1;
    }
    proof {
        assert(a@ =~= b@);
    }
    true
}

} // verus!
