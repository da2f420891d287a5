//! The participants in the session.

use vstd::prelude::*;
use crate::error::PacketError;
use crate::packets::packet_header::PacketHeader;
use crate::wire::{
    read_u8_at,
    write_u8,
    lemma_subrange_of_prefix,
    lemma_subrange_of_subrange,
    lemma_index_in_block,
    eq_vec_u8,
};

verus! {

/// Total encoded size of one `ParticipantData` record, in bytes.
pub const PARTICIPANT_DATA_SIZE: usize = 58;

/// Total encoded size of a `PacketParticipantsData` packet, in bytes.
pub const PACKET_PARTICIPANTS_DATA_SIZE: usize = 1306;

/// One fixed-size `ParticipantData` sub-record (58 bytes on the wire).
#[derive(Debug, Clone)]
pub struct ParticipantData {
    pub ai_controlled: u8, // 1 Byte
    pub driver_id: u8, // 1 Byte
    pub network_id: u8, // 1 Byte
    pub team_id: u8, // 1 Byte
    pub my_team: u8, // 1 Byte
    pub race_number: u8, // 1 Byte
    pub nationality: u8, // 1 Byte
    pub name: Vec<u8>, // 48 x 1 Byte
    pub your_telemetry: u8, // 1 Byte
    pub show_online_names: u8, // 1 Byte
    pub platform: u8, // 1 Byte
} // 58 Bytes

impl ParticipantData {
    /// The fixed element counts that the wire layout prescribes.
    pub open spec fn wf(self) -> bool {
        &&& self.name@.len() == 48
    }

    /// `s` is exactly the wire image of this record.
    pub open spec fn encodes(self, s: Seq<u8>) -> bool {
        &&& s.len() == 58
        &&& s[0] == self.ai_controlled
        &&& s[1] == self.driver_id
        &&& s[2] == self.network_id
        &&& s[3] == self.team_id
        &&& s[4] == self.my_team
        &&& s[5] == self.race_number
        &&& s[6] == self.nationality
        &&& forall|k: int| 0 <= k < 48 ==> s[7 + k] == self.name@[k]
        &&& s[55] == self.your_telemetry
        &&& s[56] == self.show_online_names
        &&& s[57] == self.platform
    }

    /// Field-for-field equality; vector fields compare element-wise.
    pub open spec fn same_as(self, other: Self) -> bool {
        &&& self.ai_controlled == other.ai_controlled
        &&& self.driver_id == other.driver_id
        &&& self.network_id == other.network_id
        &&& self.team_id == other.team_id
        &&& self.my_team == other.my_team
        &&& self.race_number == other.race_number
        &&& self.nationality == other.nationality
        &&& self.name@ == other.name@
        &&& self.your_telemetry == other.your_telemetry
        &&& self.show_online_names == other.show_online_names
        &&& self.platform == other.platform
    }

    /// Decode the record stored at `off`.
    #[verifier::rlimit(100)]
    pub fn read_at(b: &[u8], off: usize) -> (r: Self)
        requires
            off + PARTICIPANT_DATA_SIZE <= b@.len(),
        ensures
            r.wf(),
            r.encodes(b@.subrange(off as int, off + PARTICIPANT_DATA_SIZE)),
    {
        let _len = b.len(); // the verifier learns the slice length fits in usize
        let ai_controlled = read_u8_at(b, off);
        let driver_id = read_u8_at(b, off + 1);
        let network_id = read_u8_at(b, off + 2);
        let team_id = read_u8_at(b, off + 3);
        let my_team = read_u8_at(b, off + 4);
        let race_number = read_u8_at(b, off + 5);
        let nationality = read_u8_at(b, off + 6);
        let mut name: Vec<u8> = Vec::new();
        let mut k: usize = 0;
        while k < 48
            invariant
                off + PARTICIPANT_DATA_SIZE <= b@.len(),
                b@.len() <= usize::MAX,
                k <= 48,
                name@.len() == k,
                forall|j: int| 0 <= j < k ==> name@[j] == b@[off + 7 + j],
            decreases 48 - k,
        {
            name.push(read_u8_at(b, off + 7 + k));
            k += 1;
        }
        let your_telemetry = read_u8_at(b, off + 55);
        let show_online_names = read_u8_at(b, off + 56);
        let platform = read_u8_at(b, off + 57);
        let r = ParticipantData {
            ai_controlled,
            driver_id,
            network_id,
            team_id,
            my_team,
            race_number,
            nationality,
            name,
            your_telemetry,
            show_online_names,
            platform,
        };
        proof {
            assert(r.encodes(b@.subrange(off as int, off + PARTICIPANT_DATA_SIZE)));
        }
        r
    }

    /// Append the wire image of this record to `out`.
    #[verifier::rlimit(100)]
    pub fn write_into(&self, out: &mut Vec<u8>)
        requires
            self.wf(),
        ensures
            final(out)@.len() == old(out)@.len() + PARTICIPANT_DATA_SIZE,
            final(out)@.subrange(0, old(out)@.len() as int) == old(out)@,
            self.encodes(
                final(out)@.subrange(old(out)@.len() as int, final(out)@.len() as int),
            ),
    {
        let ghost start = out@;
        let ghost base: int = out@.len() as int;
        write_u8(out, self.ai_controlled);
        write_u8(out, self.driver_id);
        write_u8(out, self.network_id);
        write_u8(out, self.team_id);
        write_u8(out, self.my_team);
        write_u8(out, self.race_number);
        write_u8(out, self.nationality);
        let mut k: usize = 0;
        while k < 48
            invariant
                self.wf(),
                k <= 48,
                0 <= base,
                out@.len() == base + 7 + k,
                out@.subrange(0, base) == start,
                out@[base + 0] == self.ai_controlled,
                out@[base + 1] == self.driver_id,
                out@[base + 2] == self.network_id,
                out@[base + 3] == self.team_id,
                out@[base + 4] == self.my_team,
                out@[base + 5] == self.race_number,
                out@[base + 6] == self.nationality,
                forall|j: int| 0 <= j < k ==> out@[base + 7 + j] == self.name@[j],
            decreases 48 - k,
        {
            let ghost prev = out@;
            write_u8(out, self.name[k]);
            proof {
                assert(out@.subrange(0, base) =~= prev.subrange(0, base));
            }
            k += 1;
        }
        write_u8(out, self.your_telemetry);
        write_u8(out, self.show_online_names);
        write_u8(out, self.platform);
        proof {
            assert(out@.subrange(0, base) =~= start);
            assert(self.encodes(out@.subrange(base, base + 58)));
        }
    }

    /// Encode this record as its fixed 58-byte wire image.
    pub fn serialize(&self) -> (r: Vec<u8>)
        requires
            self.wf(),
        ensures
            r@.len() == PARTICIPANT_DATA_SIZE,
            self.encodes(r@),
    {
        let mut out: Vec<u8> = Vec::new();
        self.write_into(&mut out);
        proof {
            assert(out@.subrange(0, 58) =~= out@);
        }
        out
    }

    /// Decode a record from the first 58 bytes of `bytes`.
    ///
    /// Succeeds exactly when at least 58 bytes are supplied; trailing
    /// bytes are ignored.
    pub fn unserialize(bytes: &[u8]) -> (r: Result<Self, PacketError>)
        ensures
            match r {
                Ok(p) => bytes@.len() >= 58 && p.wf() && p.encodes(
                    bytes@.subrange(0, 58),
                ),
                Err(e) => bytes@.len() < 58 && e == PacketError::TruncatedInput,
            },
    {
        if bytes.len() < PARTICIPANT_DATA_SIZE {
            return Err(PacketError::TruncatedInput);
        }
        Ok(Self::read_at(bytes, 0))
    }

    /// A wire image determines the record: decoding is unambiguous, and
    /// decoding the image written by `serialize` gives the value back.
    pub proof fn lemma_wire_image_determines_value(r1: Self, r2: Self, s: Seq<u8>)
        requires
            r1.wf(),
            r2.wf(),
            r1.encodes(s),
            r2.encodes(s),
        ensures
            r1.same_as(r2),
    {
        assert(r1.name@ =~= r2.name@);
    }

    /// A record has exactly one wire image.
    pub proof fn lemma_encoding_unique(r: Self, s1: Seq<u8>, s2: Seq<u8>)
        requires
            r.encodes(s1),
            r.encodes(s2),
        ensures
            s1 == s2,
    {
        assert forall|i: int| 0 <= i < 58 implies s1[i] == s2[i] by {
            if 7 <= i < 55 {
                let k = i - 7;
                assert(s1[7 + k] == r.name@[k]);
                assert(s2[7 + k] == r.name@[k]);
            }
        }
        assert(s1 =~= s2);
    }
}

impl PartialEq for ParticipantData {
    fn eq(&self, other: &Self) -> (r: bool) {
        self.ai_controlled == other.ai_controlled
            && self.driver_id == other.driver_id
            && self.network_id == other.network_id
            && self.team_id == other.team_id
            && self.my_team == other.my_team
            && self.race_number == other.race_number
            && self.nationality == other.nationality
            && eq_vec_u8(&self.name, &other.name)
            && self.your_telemetry == other.your_telemetry
            && self.show_online_names == other.show_online_names
            && self.platform == other.platform
    }
}

impl vstd::std_specs::cmp::PartialEqSpecImpl for ParticipantData {
    open spec fn obeys_eq_spec() -> bool {
        true
    }

    open spec fn eq_spec(&self, other: &Self) -> bool {
        self.same_as(*other)
    }
}

impl Default for ParticipantData {
    /// The all-zero record.
    fn default() -> (r: Self)
        ensures
            r.wf(),
            r.ai_controlled == 0,
            r.driver_id == 0,
            r.network_id == 0,
            r.team_id == 0,
            r.my_team == 0,
            r.race_number == 0,
            r.nationality == 0,
            forall|k: int| 0 <= k < 48 ==> #[trigger] r.name@[k] == 0,
            r.your_telemetry == 0,
            r.show_online_names == 0,
            r.platform == 0,
    {
        let mut name: Vec<u8> = Vec::new();
        let mut k: usize = 0;
        while k < 48
            invariant
                k <= 48,
                name@.len() == k,
                forall|j: int| 0 <= j < k ==> #[trigger] name@[j] == 0,
            decreases 48 - k,
        {
            name.push(0);
            k += 1;
        }
        ParticipantData {
            ai_controlled: 0,
            driver_id: 0,
            network_id: 0,
            team_id: 0,
            my_team: 0,
            race_number: 0,
            nationality: 0,
            name,
            your_telemetry: 0,
            show_online_names: 0,
            platform: 0,
        }
    }
}

/// The participants in the session. (1306 bytes on the wire).
#[derive(Debug, Clone)]
pub struct PacketParticipantsData {
    pub header: PacketHeader, // 29 Bytes
    pub num_active_cars: u8, // 1 Byte
    pub participants: Vec<ParticipantData>, // 22 x 58 Bytes
} // 1306 Bytes

impl PacketParticipantsData {
    /// The fixed element counts that the wire layout prescribes.
    pub open spec fn wf(self) -> bool {
        &&& self.participants@.len() == 22
        &&& forall|j: int| 0 <= j < 22 ==> (#[trigger] self.participants@[j]).wf()
    }

    /// `s` is exactly the wire image of this packet.
    pub open spec fn encodes(self, s: Seq<u8>) -> bool {
        &&& s.len() == 1306
        &&& self.header.encodes(s.subrange(0, 29))
        &&& s[29] == self.num_active_cars
        &&& forall|j: int| 0 <= j < 22 ==> (#[trigger] self.participants@[j]).encodes(
            s.subrange(30 + j * 58, 30 + (j + 1) * 58),
        )
    }

    /// Field-for-field equality; record arrays compare element-wise.
    pub open spec fn same_as(self, other: Self) -> bool {
        &&& self.header == other.header
        &&& self.num_active_cars == other.num_active_cars
        &&& self.participants@.len() == other.participants@.len()
        &&& forall|j: int| 0 <= j < self.participants@.len() ==>
            (#[trigger] self.participants@[j]).same_as(other.participants@[j])
    }

    /// Decode a packet from the first 1306 bytes of `bytes`.
    ///
    /// Succeeds exactly when at least 1306 bytes are supplied; trailing
    /// bytes are ignored.
    pub fn unserialize(bytes: &[u8]) -> (r: Result<Self, PacketError>)
        ensures
            match r {
                Ok(p) => bytes@.len() >= 1306 && p.wf() && p.encodes(
                    bytes@.subrange(0, 1306),
                ),
                Err(e) => bytes@.len() < 1306 && e == PacketError::TruncatedInput,
            },
    {
        if bytes.len() < PACKET_PARTICIPANTS_DATA_SIZE {
            return Err(PacketError::TruncatedInput);
        }
        let header = PacketHeader::read_at(bytes, 0);
        let num_active_cars = read_u8_at(bytes, 29);
        let mut participants: Vec<ParticipantData> = Vec::new();
        let mut i: usize = 0;
        while i < 22
            invariant
                bytes@.len() >= 1306,
                i <= 22,
                participants@.len() == i,
                forall|j: int| 0 <= j < i ==> (#[trigger] participants@[j]).wf() && participants@[j].encodes(
                    bytes@.subrange(30 + j * 58, 30 + (j + 1) * 58),
                ),
            decreases 22 - i,
        {
            participants.push(ParticipantData::read_at(bytes, 30 + i * 58));
            i += 1;
        }
        let p = PacketParticipantsData {
            header,
            num_active_cars,
            participants,
        };
        proof {
            let s = bytes@.subrange(0, 1306);
            lemma_subrange_of_subrange(bytes@, 0, 1306, 0, 29);
            assert forall|j: int| 0 <= j < 22 implies (#[trigger] p.participants@[j]).encodes(
                s.subrange(30 + j * 58, 30 + (j + 1) * 58),
            ) by {
                lemma_subrange_of_subrange(bytes@, 0, 1306, 30 + j * 58, 30 + (j + 1) * 58);
            }
            assert(p.encodes(s));
        }
        Ok(p)
    }

    /// Append the wire image of this packet to `out`.
    #[verifier::rlimit(100)]
    pub fn write_into(&self, out: &mut Vec<u8>)
        requires
            self.wf(),
        ensures
            final(out)@.len() == old(out)@.len() + PACKET_PARTICIPANTS_DATA_SIZE,
            final(out)@.subrange(0, old(out)@.len() as int) == old(out)@,
            self.encodes(
                final(out)@.subrange(old(out)@.len() as int, final(out)@.len() as int),
            ),
    {
        let ghost base: int = out@.len() as int;
        let ghost start = out@;
        self.header.write_into(out);
        write_u8(out, self.num_active_cars);
        let mut i: usize = 0;
        while i < 22
            invariant
                self.wf(),
                i <= 22,
                0 <= base,
                out@.len() == base + 30 + i * 58,
                out@.subrange(0, base) == start,
                self.header.encodes(out@.subrange(base, base + 29)),
                out@[base + 29] == self.num_active_cars,
                forall|j: int| 0 <= j < i ==> (#[trigger] self.participants@[j]).encodes(
                    out@.subrange(base + 30 + j * 58, base + 30 + (j + 1) * 58),
                ),
            decreases 22 - i,
        {
            let ghost prev = out@;
            self.participants[i].write_into(out);
            proof {
                assert forall|t: int| 0 <= t < prev.len() implies (#[trigger] out@[t]) == prev[t] by {
                    assert(prev[t] == out@.subrange(0, prev.len() as int)[t]);
                }
                lemma_subrange_of_prefix(out@, prev, 0, base);
                lemma_subrange_of_prefix(out@, prev, base, base + 29);
            }
            i += 1;
        }
        proof {
            let s = out@.subrange(base, base + 1306);
            lemma_subrange_of_subrange(out@, base, 1306, 0, 29);
            assert forall|j: int| 0 <= j < 22 implies (#[trigger] self.participants@[j]).encodes(
                s.subrange(30 + j * 58, 30 + (j + 1) * 58),
            ) by {
                lemma_subrange_of_subrange(out@, base, 1306, 30 + j * 58, 30 + (j + 1) * 58);
            }
            assert(self.encodes(s));
            assert(out@.subrange(0, base) =~= start);
        }
    }

    /// Encode this packet as its fixed 1306-byte wire image.
    pub fn serialize(&self) -> (r: Vec<u8>)
        requires
            self.wf(),
        ensures
            r@.len() == PACKET_PARTICIPANTS_DATA_SIZE,
            self.encodes(r@),
    {
        let mut out: Vec<u8> = Vec::new();
        self.write_into(&mut out);
        proof {
            assert(out@.subrange(0, 1306) =~= out@);
        }
        out
    }

    /// A wire image determines the packet: decoding is unambiguous, and
    /// decoding the image written by `serialize` gives the value back.
    pub proof fn lemma_wire_image_determines_value(p1: Self, p2: Self, s: Seq<u8>)
        requires
            p1.wf(),
            p2.wf(),
            p1.encodes(s),
            p2.encodes(s),
        ensures
            p1.same_as(p2),
    {
        PacketHeader::lemma_wire_image_determines_value(
            p1.header, p2.header, s.subrange(0, 29));
        assert forall|j: int| 0 <= j < p1.participants@.len() implies
            (#[trigger] p1.participants@[j]).same_as(p2.participants@[j]) by {
            ParticipantData::lemma_wire_image_determines_value(
                p1.participants@[j], p2.participants@[j],
                s.subrange(30 + j * 58, 30 + (j + 1) * 58));
        }
    }

    /// A packet has exactly one wire image.
    pub proof fn lemma_encoding_unique(p: Self, s1: Seq<u8>, s2: Seq<u8>)
        requires
            p.wf(),
            p.encodes(s1),
            p.encodes(s2),
        ensures
            s1 == s2,
    {
        assert forall|i: int| 0 <= i < 1306 implies s1[i] == s2[i] by {
            if i < 29 {
                PacketHeader::lemma_encoding_unique(
                    p.header, s1.subrange(0, 29), s2.subrange(0, 29));
                assert(s1.subrange(0, 29)[i] == s2.subrange(0, 29)[i]);
            }
            if 30 <= i < 1306 {
                lemma_index_in_block(30, 58, 22, i);
                let j = (i - 30) / 58;
                ParticipantData::lemma_encoding_unique(
                    p.participants@[j],
                    s1.subrange(30 + j * 58, 30 + (j + 1) * 58),
                    s2.subrange(30 + j * 58, 30 + (j + 1) * 58));
                assert(s1.subrange(30 + j * 58, 30 + (j + 1) * 58)[i - 30 - j * 58]
                    == s2.subrange(30 + j * 58, 30 + (j + 1) * 58)[i - 30 - j * 58]);
            }
        }
        assert(s1 =~= s2);
    }
}

impl PartialEq for PacketParticipantsData {
    fn eq(&self, other: &Self) -> (r: bool) {
        self.header == other.header
            && self.num_active_cars == other.num_active_cars
            && eq_vec_participant_data(&self.participants, &other.participants)
    }
}

impl vstd::std_specs::cmp::PartialEqSpecImpl for PacketParticipantsData {
    open spec fn obeys_eq_spec() -> bool {
        true
    }

    open spec fn eq_spec(&self, other: &Self) -> bool {
        self.same_as(*other)
    }
}

impl Default for PacketParticipantsData {
    /// The all-zero packet, with every array at its fixed length.
    fn default() -> (r: Self)
        ensures
            r.wf(),
    {
        let mut participants: Vec<ParticipantData> = Vec::new();
        let mut i: usize = 0;
        while i < 22
            invariant
                i <= 22,
                participants@.len() == i,
                forall|j: int| 0 <= j < i ==> (#[trigger] participants@[j]).wf(),
            decreases 22 - i,
        {
            participants.push(ParticipantData::default());
            i += 1;
        }
        PacketParticipantsData {
            header: PacketHeader::default(),
            num_active_cars: 0,
            participants,
        }
    }
}

/// Element-wise equality of two `ParticipantData` vectors.
fn eq_vec_participant_data(a: &Vec<ParticipantData>, b: &Vec<ParticipantData>) -> (r: bool)
    ensures
        r == (a@.len() == b@.len() && forall|j: int| 0 <= j < a@.len() ==>
            (#[trigger] a@[j]).same_as(b@[j])),
{
    if a.len() != b.len() {
        return false;
    }
    let mut i: usize = 0;
    while i < a.len()
        invariant
            a@.len() == b@.len(),
            i <= a@.len(),
            forall|j: int| 0 <= j < i ==> (#[trigger] a@[j]).same_as(b@[j]),
        decreases a@.len() - i,
    {
        if !(a[i] == b[i]) {
            return false;
        }
        i += 1;
    }
    true
}

} // verus!
