//! The players in a multiplayer lobby.

use vstd::prelude::*;
use crate::error::PacketError;
use crate::packets::packet_header::PacketHeader;
use crate::wire::{
    read_u8_at,
    write_u8,
    lemma_subrange_of_prefix,
    lemma_subrange_of_subrange,
    lemma_index_in_block,
    eq_vec_u8,
};

verus! {

/// Total encoded size of one `LobbyInfoData` record, in bytes.
pub const LOBBY_INFO_DATA_SIZE: usize = 54;

/// Total encoded size of a `PacketLobbyInfoData` packet, in bytes.
pub const PACKET_LOBBY_INFO_DATA_SIZE: usize = 1218;

/// One fixed-size `LobbyInfoData` sub-record (54 bytes on the wire).
#[derive(Debug, Clone)]
pub struct LobbyInfoData {
    pub ai_controlled: u8, // 1 Byte
    pub team_id: u8, // 1 Byte
    pub nationality: u8, // 1 Byte
    pub platform: u8, // 1 Byte
    pub name: Vec<u8>, // 48 x 1 Byte
    pub car_number: u8, // 1 Byte
    pub ready_status: u8, // 1 Byte
} // 54 Bytes

impl LobbyInfoData {
    /// The fixed element counts that the wire layout prescribes.
    pub open spec fn wf(self) -> bool {
        &&& self.name@.len() == 48
    }

    /// `s` is exactly the wire image of this record.
    pub open spec fn encodes(self, s: Seq<u8>) -> bool {
        &&& s.len() == 54
        &&& s[0] == self.ai_controlled
        &&& s[1] == self.team_id
        &&& s[2] == self.nationality
        &&& s[3] == self.platform
        &&& forall|k: int| 0 <= k < 48 ==> s[4 + k] == self.name@[k]
        &&& s[52] == self.car_number
        &&& s[53] == self.ready_status
    }

    /// Field-for-field equality; vector fields compare element-wise.
    pub open spec fn same_as(self, other: Self) -> bool {
        &&& self.ai_controlled == other.ai_controlled
        &&& self.team_id == other.team_id
        &&& self.nationality == other.nationality
        &&& self.platform == other.platform
        &&& self.name@ == other.name@
        &&& self.car_number == other.car_number
        &&& self.ready_status == other.ready_status
    }

    /// Decode the record stored at `off`.
    #[verifier::rlimit(100)]
    pub fn read_at(b: &[u8], off: usize) -> (r: Self)
        requires
            off + LOBBY_INFO_DATA_SIZE <= b@.len(),
        ensures
            r.wf(),
            r.encodes(b@.subrange(off as int, off + LOBBY_INFO_DATA_SIZE)),
    {
        let _len = b.len(); // the verifier learns the slice length fits in usize
        let ai_controlled = read_u8_at(b, off);
        let team_id = read_u8_at(b, off + 1);
        let nationality = read_u8_at(b, off + 2);
        let platform = read_u8_at(b, off + 3);
        let mut name: Vec<u8> = Vec::new();
        let mut k: usize = 0;
        while k < 48
            invariant
                off + LOBBY_INFO_DATA_SIZE <= b@.len(),
                b@.len() <= usize::MAX,
                k <= 48,
                name@.len() == k,
                forall|j: int| 0 <= j < k ==> name@[j] == b@[off + 4 + j],
            decreases 48 - k,
        {
            name.push(read_u8_at(b, off + 4 + k));
            k += 1;
        }
        let car_number = read_u8_at(b, off + 52);
        let ready_status = read_u8_at(b, off + 53);
        let r = LobbyInfoData {
            ai_controlled,
            team_id,
            nationality,
            platform,
            name,
            car_number,
            ready_status,
        };
        proof {
            assert(r.encodes(b@.subrange(off as int, off + LOBBY_INFO_DATA_SIZE)));
        }
        r
    }

    /// Append the wire image of this record to `out`.
    #[verifier::rlimit(100)]
    pub fn write_into(&self, out: &mut Vec<u8>)
        requires
            self.wf(),
        ensures
            final(out)@.len() == old(out)@.len() + LOBBY_INFO_DATA_SIZE,
            final(out)@.subrange(0, old(out)@.len() as int) == old(out)@,
            self.encodes(
                final(out)@.subrange(old(out)@.len() as int, final(out)@.len() as int),
            ),
    {
        let ghost start = out@;
        let ghost base: int = out@.len() as int;
        write_u8(out, self.ai_controlled);
        write_u8(out, self.team_id);
        write_u8(out, self.nationality);
        write_u8(out, self.platform);
        let mut k: usize = 0;
        while k < 48
            invariant
                self.wf(),
                k <= 48,
                0 <= base,
                out@.len() == base + 4 + k,
                out@.subrange(0, base) == start,
                out@[base + 0] == self.ai_controlled,
                out@[base + 1] == self.team_id,
                out@[base + 2] == self.nationality,
                out@[base + 3] == self.platform,
                forall|j: int| 0 <= j < k ==> out@[base + 4 + j] == self.name@[j],
            decreases 48 - k,
        {
            let ghost prev = out@;
            write_u8(out, self.name[k]);
            proof {
                assert(out@.subrange(0, base) =~= prev.subrange(0, base));
            }
            k += 1;
        }
        write_u8(out, self.car_number);
        write_u8(out, self.ready_status);
        proof {
            assert(out@.subrange(0, base) =~= start);
            assert(self.encodes(out@.subrange(base, base + 54)));
        }
    }

    /// Encode this record as its fixed 54-byte wire image.
    pub fn serialize(&self) -> (r: Vec<u8>)
        requires
            self.wf(),
        ensures
            r@.len() == LOBBY_INFO_DATA_SIZE,
            self.encodes(r@),
    {
        let mut out: Vec<u8> = Vec::new();
        self.write_into(&mut out);
        proof {
            assert(out@.subrange(0, 54) =~= out@);
        }
        out
    }

    /// Decode a record from the first 54 bytes of `bytes`.
    ///
    /// Succeeds exactly when at least 54 bytes are supplied; trailing
    /// bytes are ignored.
    pub fn unserialize(bytes: &[u8]) -> (r: Result<Self, PacketError>)
        ensures
            match r {
                Ok(p) => bytes@.len() >= 54 && p.wf() && p.encodes(
                    bytes@.subrange(0, 54),
                ),
                Err(e) => bytes@.len() < 54 && e == PacketError::TruncatedInput,
            },
    {
        if bytes.len() < LOBBY_INFO_DATA_SIZE {
            return Err(PacketError::TruncatedInput);
        }
        Ok(Self::read_at(bytes, 0))
    }

    /// A wire image determines the record: decoding is unambiguous, and
    /// decoding the image written by `serialize` gives the value back.
    pub proof fn lemma_wire_image_determines_value(r1: Self, r2: Self, s: Seq<u8>)
        requires
            r1.wf(),
            r2.wf(),
            r1.encodes(s),
            r2.encodes(s),
        ensures
            r1.same_as(r2),
    {
        assert(r1.name@ =~= r2.name@);
    }

    /// A record has exactly one wire image.
    pub proof fn lemma_encoding_unique(r: Self, s1: Seq<u8>, s2: Seq<u8>)
        requires
            r.encodes(s1),
            r.encodes(s2),
        ensures
            s1 == s2,
    {
        assert forall|i: int| 0 <= i < 54 implies s1[i] == s2[i] by {
            if 4 <= i < 52 {
                let k = i - 4;
                assert(s1[4 + k] == r.name@[k]);
                assert(s2[4 + k] == r.name@[k]);
            }
        }
        assert(s1 =~= s2);
    }
}

impl PartialEq for LobbyInfoData {
    fn eq(&self, other: &Self) -> (r: bool) {
        self.ai_controlled == other.ai_controlled
            && self.team_id == other.team_id
            && self.nationality == other.nationality
            && self.platform == other.platform
            && eq_vec_u8(&self.name, &other.name)
            && self.car_number == other.car_number
            && self.ready_status == other.ready_status
    }
}

impl vstd::std_specs::cmp::PartialEqSpecImpl for LobbyInfoData {
    open spec fn obeys_eq_spec() -> bool {
        true
    }

    open spec fn eq_spec(&self, other: &Self) -> bool {
        self.same_as(*other)
    }
}

impl Default for LobbyInfoData {
    /// The all-zero record.
    fn default() -> (r: Self)
        ensures
            r.wf(),
            r.ai_controlled == 0,
            r.team_id == 0,
            r.nationality == 0,
            r.platform == 0,
            forall|k: int| 0 <= k < 48 ==> #[trigger] r.name@[k] == 0,
            r.car_number == 0,
            r.ready_status == 0,
    {
        let mut name: Vec<u8> = Vec::new();
        let mut k: usize = 0;
        while k < 48
            invariant
                k <= 48,
                name@.len() == k,
                forall|j: int| 0 <= j < k ==> #[trigger] name@[j] == 0,
            decreases 48 - k,
        {
            name.push(0);
            k += 1;
        }
        LobbyInfoData {
            ai_controlled: 0,
            team_id: 0,
            nationality: 0,
            platform: 0,
            name,
            car_number: 0,
            ready_status: 0,
        }
    }
}

/// The players in a multiplayer lobby. (1218 bytes on the wire).
#[derive(Debug, Clone)]
pub struct PacketLobbyInfoData {
    pub header: PacketHeader, // 29 Bytes
    pub num_players: u8, // 1 Byte
    pub lobby_players: Vec<LobbyInfoData>, // 22 x 54 Bytes
} // 1218 Bytes

impl PacketLobbyInfoData {
    /// The fixed element counts that the wire layout prescribes.
    pub open spec fn wf(self) -> bool {
        &&& self.lobby_players@.len() == 22
        &&& forall|j: int| 0 <= j < 22 ==> (#[trigger] self.lobby_players@[j]).wf()
    }

    /// `s` is exactly the wire image of this packet.
    pub open spec fn encodes(self, s: Seq<u8>) -> bool {
        &&& s.len() == 1218
        &&& self.header.encodes(s.subrange(0, 29))
        &&& s[29] == self.num_players
        &&& forall|j: int| 0 <= j < 22 ==> (#[trigger] self.lobby_players@[j]).encodes(
            s.subrange(30 + j * 54, 30 + (j + 1) * 54),
        )
    }

    /// Field-for-field equality; record arrays compare element-wise.
    pub open spec fn same_as(self, other: Self) -> bool {
        &&& self.header == other.header
        &&& self.num_players == other.num_players
        &&& self.lobby_players@.len() == other.lobby_players@.len()
        &&& forall|j: int| 0 <= j < self.lobby_players@.len() ==>
            (#[trigger] self.lobby_players@[j]).same_as(other.lobby_players@[j])
    }

    /// Decode a packet from the first 1218 bytes of `bytes`.
    ///
    /// Succeeds exactly when at least 1218 bytes are supplied; trailing
    /// bytes are ignored.
    pub fn unserialize(bytes: &[u8]) -> (r: Result<Self, PacketError>)
        ensures
            match r {
                Ok(p) => bytes@.len() >= 1218 && p.wf() && p.encodes(
                    bytes@.subrange(0, 1218),
                ),
                Err(e) => bytes@.len() < 1218 && e == PacketError::TruncatedInput,
            },
    {
        if bytes.len() < PACKET_LOBBY_INFO_DATA_SIZE {
            return Err(PacketError::TruncatedInput);
        }
        let header = PacketHeader::read_at(bytes, 0);
        let num_players = read_u8_at(bytes, 29);
        let mut lobby_players: Vec<LobbyInfoData> = Vec::new();
        let mut i: usize = 0;
        while i < 22
            invariant
                bytes@.len() >= 1218,
                i <= 22,
                lobby_players@.len() == i,
                forall|j: int| 0 <= j < i ==> (#[trigger] lobby_players@[j]).wf() && lobby_players@[j].encodes(
                    bytes@.subrange(30 + j * 54, 30 + (j + 1) * 54),
                ),
            decreases 22 - i,
        {
            lobby_players.push(LobbyInfoData::read_at(bytes, 30 + i * 54));
            i += 1;
        }
        let p = PacketLobbyInfoData {
            header,
            num_players,
            lobby_players,
        };
        proof {
            let s = bytes@.subrange(0, 1218);
            lemma_subrange_of_subrange(bytes@, 0, 1218, 0, 29);
            assert forall|j: int| 0 <= j < 22 implies (#[trigger] p.lobby_players@[j]).encodes(
                s.subrange(30 + j * 54, 30 + (j + 1) * 54),
            ) by {
                lemma_subrange_of_subrange(bytes@, 0, 1218, 30 + j * 54, 30 + (j + 1) * 54);
            }
            assert(p.encodes(s));
        }
        Ok(p)
    }

    /// Append the wire image of this packet to `out`.
    #[verifier::rlimit(100)]
    pub fn write_into(&self, out: &mut Vec<u8>)
        requires
            self.wf(),
        ensures
            final(out)@.len() == old(out)@.len() + PACKET_LOBBY_INFO_DATA_SIZE,
            final(out)@.subrange(0, old(out)@.len() as int) == old(out)@,
            self.encodes(
                final(out)@.subrange(old(out)@.len() as int, final(out)@.len() as int),
            ),
    {
        let ghost base: int = out@.len() as int;
        let ghost start = out@;
        self.header.write_into(out);
        write_u8(out, self.num_players);
        let mut i: usize = 0;
        while i < 22
            invariant
                self.wf(),
                i <= 22,
                0 <= base,
                out@.len() == base + 30 + i * 54,
                out@.subrange(0, base) == start,
                self.header.encodes(out@.subrange(base, base + 29)),
                out@[base + 29] == self.num_players,
                forall|j: int| 0 <= j < i ==> (#[trigger] self.lobby_players@[j]).encodes(
                    out@.subrange(base + 30 + j * 54, base + 30 + (j + 1) * 54),
                ),
            decreases 22 - i,
        {
            let ghost prev = out@;
            self.lobby_players[i].write_into(out);
            proof {
                assert forall|t: int| 0 <= t < prev.len() implies (#[trigger] out@[t]) == prev[t] by {
                    assert(prev[t] == out@.subrange(0, prev.len() as int)[t]);
                }
                lemma_subrange_of_prefix(out@, prev, 0, base);
                lemma_subrange_of_prefix(out@, prev, base, base + 29);
            }
            i += 1;
        }
        proof {
            let s = out@.subrange(base, base + 1218);
            lemma_subrange_of_subrange(out@, base, 1218, 0, 29);
            assert forall|j: int| 0 <= j < 22 implies (#[trigger] self.lobby_players@[j]).encodes(
                s.subrange(30 + j * 54, 30 + (j + 1) * 54),
            ) by {
                lemma_subrange_of_subrange(out@, base, 1218, 30 + j * 54, 30 + (j + 1) * 54);
            }
            assert(self.encodes(s));
            assert(out@.subrange(0, base) =~= start);
        }
    }

    /// Encode this packet as its fixed 1218-byte wire image.
    pub fn serialize(&self) -> (r: Vec<u8>)
        requires
            self.wf(),
        ensures
            r@.len() == PACKET_LOBBY_INFO_DATA_SIZE,
            self.encodes(r@),
    {
        let mut out: Vec<u8> = Vec::new();
        self.write_into(&mut out);
        proof {
            assert(out@.subrange(0, 1218) =~= out@);
        }
        out
    }

    /// A wire image determines the packet: decoding is unambiguous, and
    /// decoding the image written by `serialize` gives the value back.
    pub proof fn lemma_wire_image_determines_value(p1: Self, p2: Self, s: Seq<u8>)
        requires
            p1.wf(),
            p2.wf(),
            p1.encodes(s),
            p2.encodes(s),
        ensures
            p1.same_as(p2),
    {
        PacketHeader::lemma_wire_image_determines_value(
            p1.header, p2.header, s.subrange(0, 29));
        assert forall|j: int| 0 <= j < p1.lobby_players@.len() implies
            (#[trigger] p1.lobby_players@[j]).same_as(p2.lobby_players@[j]) by {
            LobbyInfoData::lemma_wire_image_determines_value(
                p1.lobby_players@[j], p2.lobby_players@[j],
                s.subrange(30 + j * 54, 30 + (j + 1) * 54));
        }
    }

    /// A packet has exactly one wire image.
    pub proof fn lemma_encoding_unique(p: Self, s1: Seq<u8>, s2: Seq<u8>)
        requires
            p.wf(),
            p.encodes(s1),
            p.encodes(s2),
        ensures
            s1 == s2,
    {
        assert forall|i: int| 0 <= i < 1218 implies s1[i] == s2[i] by {
            if i < 29 {
                PacketHeader::lemma_encoding_unique(
                    p.header, s1.subrange(0, 29), s2.subrange(0, 29));
                assert(s1.subrange(0, 29)[i] == s2.subrange(0, 29)[i]);
            }
            if 30 <= i < 1218 {
                lemma_index_in_block(30, 54, 22, i);
                let j = (i - 30) / 54;
                LobbyInfoData::lemma_encoding_unique(
                    p.lobby_players@[j],
                    s1.subrange(30 + j * 54, 30 + (j + 1) * 54),
                    s2.subrange(30 + j * 54, 30 + (j + 1) * 54));
                assert(s1.subrange(30 + j * 54, 30 + (j + 1) * 54)[i - 30 - j * 54]
                    == s2.subrange(30 + j * 54, 30 + (j + 1) * 54)[i - 30 - j * 54]);
            }
        }
        assert(s1 =~= s2);
    }
}

impl PartialEq for PacketLobbyInfoData {
    fn eq(&self, other: &Self) -> (r: bool) {
        self.header == other.header
            && self.num_players == other.num_players
            && eq_vec_lobby_info_data(&self.lobby_players, &other.lobby_players)
    }
}

impl vstd::std_specs::cmp::PartialEqSpecImpl for PacketLobbyInfoData {
    open spec fn obeys_eq_spec() -> bool {
        true
    }

    open spec fn eq_spec(&self, other: &Self) -> bool {
        self.same_as(*other)
    }
}

impl Default for PacketLobbyInfoData {
    /// The all-zero packet, with every array at its fixed length.
    fn default() -> (r: Self)
        ensures
            r.wf(),
    {
        let mut lobby_players: Vec<LobbyInfoData> = Vec::new();
        let mut i: usize = 0;
        while i < 22
            invariant
                i <= 22,
                lobby_players@.len() == i,
                forall|j: int| 0 <= j < i ==> (#[trigger] lobby_players@[j]).wf(),
            decreases 22 - i,
        {
            lobby_players.push(LobbyInfoData::default());
            i += 1;
        }
        PacketLobbyInfoData {
            header: PacketHeader::default(),
            num_players: 0,
            lobby_players,
        }
    }
}

/// Element-wise equality of two `LobbyInfoData` vectors.
fn eq_vec_lobby_info_data(a: &Vec<LobbyInfoData>, b: &Vec<LobbyInfoData>) -> (r: bool)
    ensures
        r == (a@.len() == b@.len() && forall|j: int| 0 <= j < a@.len() ==>
            (#[trigger] a@[j]).same_as(b@[j])),
{
    if a.len() != b.len() {
        return false;
    }
    let mut i: usize = 0;
    while i < a.len()
        invariant
            a@.len() == b@.len(),
            i <= a@.len(),
            forall|j: int| 0 <= j < i ==> (#[trigger] a@[j]).same_as(b@[j]),
        decreases a@.len() - i,
    {
        if !(a[i] == b[i]) {
            return false;
        }
        i += 1;
    }
    true
}

} // verus!
