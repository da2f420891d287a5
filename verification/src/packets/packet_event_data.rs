//! The event packet: a tagged union of 12 payload shapes and 7 empty
//! notifications, selected by a 4-byte ASCII code after the header.

use vstd::prelude::*;
use crate::error::PacketError;
use crate::packets::packet_header::PacketHeader;
use crate::wire::{
    u32_b0,
    u32_b1,
    u32_b2,
    u32_b3,
    read_u8_at,
    read_u32_at,
    write_u8,
    write_u32,
    lemma_u32_reassemble,
    lemma_subrange_of_subrange,
    eq_vec_u8,
};

verus! {

/// Total encoded size of one `FastestLap` payload, in bytes.
pub const FASTEST_LAP_SIZE: usize = 5;

/// Total encoded size of one `Retirement` payload, in bytes.
pub const RETIREMENT_SIZE: usize = 1;

/// Total encoded size of one `TeamMateInPits` payload, in bytes.
pub const TEAM_MATE_IN_PITS_SIZE: usize = 1;

/// Total encoded size of one `RaceWinner` payload, in bytes.
pub const RACE_WINNER_SIZE: usize = 1;

/// Total encoded size of one `Penalty` payload, in bytes.
pub const PENALTY_SIZE: usize = 7;

/// Total encoded size of one `SpeedTrap` payload, in bytes.
pub const SPEED_TRAP_SIZE: usize = 12;

/// Total encoded size of one `StartLights` payload, in bytes.
pub const START_LIGHTS_SIZE: usize = 1;

/// Total encoded size of one `DriveThroughPenaltyServed` payload, in bytes.
pub const DRIVE_THROUGH_PENALTY_SERVED_SIZE: usize = 1;

/// Total encoded size of one `StopGoPenaltyServed` payload, in bytes.
pub const STOP_GO_PENALTY_SERVED_SIZE: usize = 1;

/// Total encoded size of one `Flashback` payload, in bytes.
pub const FLASHBACK_SIZE: usize = 8;

/// Total encoded size of one `Buttons` payload, in bytes.
pub const BUTTONS_SIZE: usize = 4;

/// Total encoded size of one `Overtake` payload, in bytes.
pub const OVERTAKE_SIZE: usize = 2;

/// One fixed-size `FastestLap` sub-record (5 bytes on the wire).
///
/// Float fields are carried as their raw little-endian bit patterns,
/// which round-trip exactly.
#[derive(Debug, Clone, Copy, PartialEq, Eq, Structural)]
pub struct FastestLap {
    pub vehicle_idx: u8, // 1 Byte
    pub lap_time: u32, // 4 Bytes (float bits)
} // 5 Bytes

impl FastestLap {
    /// `s` is exactly the wire image of this record.
    pub open spec fn encodes(self, s: Seq<u8>) -> bool {
        &&& s.len() == 5
        &&& s[0] == self.vehicle_idx
        &&& s[1] == u32_b0(self.lap_time)
        &&& s[2] == u32_b1(self.lap_time)
        &&& s[3] == u32_b2(self.lap_time)
        &&& s[4] == u32_b3(self.lap_time)
    }

    /// Decode the record stored at `off`.
    pub fn read_at(b: &[u8], off: usize) -> (r: Self)
        requires
            off + FASTEST_LAP_SIZE <= b@.len(),
        ensures
            r.encodes(b@.subrange(off as int, off + FASTEST_LAP_SIZE)),
    {
        let _len = b.len(); // the verifier learns the slice length fits in usize
        let vehicle_idx = read_u8_at(b, off);
        let lap_time = read_u32_at(b, off + 1);
        let r = FastestLap {
            vehicle_idx,
            lap_time,
        };
        proof {
            assert(r.encodes(b@.subrange(off as int, off + FASTEST_LAP_SIZE)));
        }
        r
    }

    /// Append the wire image of this record to `out`.
    pub fn write_into(&self, out: &mut Vec<u8>)
        ensures
            final(out)@.len() == old(out)@.len() + FASTEST_LAP_SIZE,
            final(out)@.subrange(0, old(out)@.len() as int) == old(out)@,
            self.encodes(
                final(out)@.subrange(old(out)@.len() as int, final(out)@.len() as int),
            ),
    {
        write_u8(out, self.vehicle_idx);
        write_u32(out, self.lap_time);
        proof {
            let base = old(out)@.len() as int;
            assert(out@.subrange(0, base) =~= old(out)@);
            assert(self.encodes(out@.subrange(base, base + 5)));
        }
    }

    /// Encode this record as its fixed 5-byte wire image.
    pub fn serialize(&self) -> (r: Vec<u8>)
        ensures
            r@.len() == FASTEST_LAP_SIZE,
            self.encodes(r@),
    {
        let mut out: Vec<u8> = Vec::new();
        self.write_into(&mut out);
        proof {
            assert(out@.subrange(0, 5) =~= out@);
        }
        out
    }

    /// Decode a record from the first 5 bytes of `bytes`.
    ///
    /// Succeeds exactly when at least 5 bytes are supplied; trailing
    /// bytes are ignored.
    pub fn unserialize(bytes: &[u8]) -> (r: Result<Self, PacketError>)
        ensures
            match r {
                Ok(p) => bytes@.len() >= 5 && p.encodes(
                    bytes@.subrange(0, 5),
                ),
                Err(e) => bytes@.len() < 5 && e == PacketError::TruncatedInput,
            },
    {
        if bytes.len() < FASTEST_LAP_SIZE {
            return Err(PacketError::TruncatedInput);
        }
        Ok(Self::read_at(bytes, 0))
    }

    /// A wire image determines the record: decoding is unambiguous, and
    /// decoding the image written by `serialize` gives the value back.
    pub proof fn lemma_wire_image_determines_value(r1: Self, r2: Self, s: Seq<u8>)
        requires
            r1.encodes(s),
            r2.encodes(s),
        ensures
            r1 == r2,
    {
        lemma_u32_reassemble(r1.lap_time);
        lemma_u32_reassemble(r2.lap_time);
    }

    /// A record has exactly one wire image.
    pub proof fn lemma_encoding_unique(r: Self, s1: Seq<u8>, s2: Seq<u8>)
        requires
            r.encodes(s1),
            r.encodes(s2),
        ensures
            s1 == s2,
    {
        assert(s1 =~= s2);
    }
}

/// One fixed-size `Retirement` sub-record (1 bytes on the wire).
#[derive(Debug, Clone, Copy, PartialEq, Eq, Structural)]
pub struct Retirement {
    pub vehicle_idx: u8, // 1 Byte
} // 1 Bytes

impl Retirement {
    /// `s` is exactly the wire image of this record.
    pub open spec fn encodes(self, s: Seq<u8>) -> bool {
        &&& s.len() == 1
        &&& s[0] == self.vehicle_idx
    }

    /// Decode the record stored at `off`.
    pub fn read_at(b: &[u8], off: usize) -> (r: Self)
        requires
            off + RETIREMENT_SIZE <= b@.len(),
        ensures
            r.encodes(b@.subrange(off as int, off + RETIREMENT_SIZE)),
    {
        let _len = b.len(); // the verifier learns the slice length fits in usize
        let vehicle_idx = read_u8_at(b, off);
        let r = Retirement {
            vehicle_idx,
        };
        proof {
            assert(r.encodes(b@.subrange(off as int, off + RETIREMENT_SIZE)));
        }
        r
    }

    /// Append the wire image of this record to `out`.
    pub fn write_into(&self, out: &mut Vec<u8>)
        ensures
            final(out)@.len() == old(out)@.len() + RETIREMENT_SIZE,
            final(out)@.subrange(0, old(out)@.len() as int) == old(out)@,
            self.encodes(
                final(out)@.subrange(old(out)@.len() as int, final(out)@.len() as int),
            ),
    {
        write_u8(out, self.vehicle_idx);
        proof {
            let base = old(out)@.len() as int;
            assert(out@.subrange(0, base) =~= old(out)@);
            assert(self.encodes(out@.subrange(base, base + 1)));
        }
    }

    /// Encode this record as its fixed 1-byte wire image.
    pub fn serialize(&self) -> (r: Vec<u8>)
        ensures
            r@.len() == RETIREMENT_SIZE,
            self.encodes(r@),
    {
        let mut out: Vec<u8> = Vec::new();
        self.write_into(&mut out);
        proof {
            assert(out@.subrange(0, 1) =~= out@);
        }
        out
    }

    /// Decode a record from the first 1 bytes of `bytes`.
    ///
    /// Succeeds exactly when at least 1 bytes are supplied; trailing
    /// bytes are ignored.
    pub fn unserialize(bytes: &[u8]) -> (r: Result<Self, PacketError>)
        ensures
            match r {
                Ok(p) => bytes@.len() >= 1 && p.encodes(
                    bytes@.subrange(0, 1),
                ),
                Err(e) => bytes@.len() < 1 && e == PacketError::TruncatedInput,
            },
    {
        if bytes.len() < RETIREMENT_SIZE {
            return Err(PacketError::TruncatedInput);
        }
        Ok(Self::read_at(bytes, 0))
    }

    /// A wire image determines the record: decoding is unambiguous, and
    /// decoding the image written by `serialize` gives the value back.
    pub proof fn lemma_wire_image_determines_value(r1: Self, r2: Self, s: Seq<u8>)
        requires
            r1.encodes(s),
            r2.encodes(s),
        ensures
            r1 == r2,
    {
    }

    /// A record has exactly one wire image.
    pub proof fn lemma_encoding_unique(r: Self, s1: Seq<u8>, s2: Seq<u8>)
        requires
            r.encodes(s1),
            r.encodes(s2),
        ensures
            s1 == s2,
    {
        assert(s1 =~= s2);
    }
}

/// One fixed-size `TeamMateInPits` sub-record (1 bytes on the wire).
#[derive(Debug, Clone, Copy, PartialEq, Eq, Structural)]
pub struct TeamMateInPits {
    pub vehicle_idx: u8, // 1 Byte
} // 1 Bytes

impl TeamMateInPits {
    /// `s` is exactly the wire image of this record.
    pub open spec fn encodes(self, s: Seq<u8>) -> bool {
        &&& s.len() == 1
        &&& s[0] == self.vehicle_idx
    }

    /// Decode the record stored at `off`.
    pub fn read_at(b: &[u8], off: usize) -> (r: Self)
        requires
            off + TEAM_MATE_IN_PITS_SIZE <= b@.len(),
        ensures
            r.encodes(b@.subrange(off as int, off + TEAM_MATE_IN_PITS_SIZE)),
    {
        let _len = b.len(); // the verifier learns the slice length fits in usize
        let vehicle_idx = read_u8_at(b, off);
        let r = TeamMateInPits {
            vehicle_idx,
        };
        proof {
            assert(r.encodes(b@.subrange(off as int, off + TEAM_MATE_IN_PITS_SIZE)));
        }
        r
    }

    /// Append the wire image of this record to `out`.
    pub fn write_into(&self, out: &mut Vec<u8>)
        ensures
            final(out)@.len() == old(out)@.len() + TEAM_MATE_IN_PITS_SIZE,
            final(out)@.subrange(0, old(out)@.len() as int) == old(out)@,
            self.encodes(
                final(out)@.subrange(old(out)@.len() as int, final(out)@.len() as int),
            ),
    {
        write_u8(out, self.vehicle_idx);
        proof {
            let base = old(out)@.len() as int;
            assert(out@.subrange(0, base) =~= old(out)@);
            assert(self.encodes(out@.subrange(base, base + 1)));
        }
    }

    /// Encode this record as its fixed 1-byte wire image.
    pub fn serialize(&self) -> (r: Vec<u8>)
        ensures
            r@.len() == TEAM_MATE_IN_PITS_SIZE,
            self.encodes(r@),
    {
        let mut out: Vec<u8> = Vec::new();
        self.write_into(&mut out);
        proof {
            assert(out@.subrange(0, 1) =~= out@);
        }
        out
    }

    /// Decode a record from the first 1 bytes of `bytes`.
    ///
    /// Succeeds exactly when at least 1 bytes are supplied; trailing
    /// bytes are ignored.
    pub fn unserialize(bytes: &[u8]) -> (r: Result<Self, PacketError>)
        ensures
            match r {
                Ok(p) => bytes@.len() >= 1 && p.encodes(
                    bytes@.subrange(0, 1),
                ),
                Err(e) => bytes@.len() < 1 && e == PacketError::TruncatedInput,
            },
    {
        if bytes.len() < TEAM_MATE_IN_PITS_SIZE {
            return Err(PacketError::TruncatedInput);
        }
        Ok(Self::read_at(bytes, 0))
    }

    /// A wire image determines the record: decoding is unambiguous, and
    /// decoding the image written by `serialize` gives the value back.
    pub proof fn lemma_wire_image_determines_value(r1: Self, r2: Self, s: Seq<u8>)
        requires
            r1.encodes(s),
            r2.encodes(s),
        ensures
            r1 == r2,
    {
    }

    /// A record has exactly one wire image.
    pub proof fn lemma_encoding_unique(r: Self, s1: Seq<u8>, s2: Seq<u8>)
        requires
            r.encodes(s1),
            r.encodes(s2),
        ensures
            s1 == s2,
    {
        assert(s1 =~= s2);
    }
}

/// One fixed-size `RaceWinner` sub-record (1 bytes on the wire).
#[derive(Debug, Clone, Copy, PartialEq, Eq, Structural)]
pub struct RaceWinner {
    pub vehicle_idx: u8, // 1 Byte
} // 1 Bytes

impl RaceWinner {
    /// `s` is exactly the wire image of this record.
    pub open spec fn encodes(self, s: Seq<u8>) -> bool {
        &&& s.len() == 1
        &&& s[0] == self.vehicle_idx
    }

    /// Decode the record stored at `off`.
    pub fn read_at(b: &[u8], off: usize) -> (r: Self)
        requires
            off + RACE_WINNER_SIZE <= b@.len(),
        ensures
            r.encodes(b@.subrange(off as int, off + RACE_WINNER_SIZE)),
    {
        let _len = b.len(); // the verifier learns the slice length fits in usize
        let vehicle_idx = read_u8_at(b, off);
        let r = RaceWinner {
            vehicle_idx,
        };
        proof {
            assert(r.encodes(b@.subrange(off as int, off + RACE_WINNER_SIZE)));
        }
        r
    }

    /// Append the wire image of this record to `out`.
    pub fn write_into(&self, out: &mut Vec<u8>)
        ensures
            final(out)@.len() == old(out)@.len() + RACE_WINNER_SIZE,
            final(out)@.subrange(0, old(out)@.len() as int) == old(out)@,
            self.encodes(
                final(out)@.subrange(old(out)@.len() as int, final(out)@.len() as int),
            ),
    {
        write_u8(out, self.vehicle_idx);
        proof {
            let base = old(out)@.len() as int;
            assert(out@.subrange(0, base) =~= old(out)@);
            assert(self.encodes(out@.subrange(base, base + 1)));
        }
    }

    /// Encode this record as its fixed 1-byte wire image.
    pub fn serialize(&self) -> (r: Vec<u8>)
        ensures
            r@.len() == RACE_WINNER_SIZE,
            self.encodes(r@),
    {
        let mut out: Vec<u8> = Vec::new();
        self.write_into(&mut out);
        proof {
            assert(out@.subrange(0, 1) =~= out@);
        }
        out
    }

    /// Decode a record from the first 1 bytes of `bytes`.
    ///
    /// Succeeds exactly when at least 1 bytes are supplied; trailing
    /// bytes are ignored.
    pub fn unserialize(bytes: &[u8]) -> (r: Result<Self, PacketError>)
        ensures
            match r {
                Ok(p) => bytes@.len() >= 1 && p.encodes(
                    bytes@.subrange(0, 1),
                ),
                Err(e) => bytes@.len() < 1 && e == PacketError::TruncatedInput,
            },
    {
        if bytes.len() < RACE_WINNER_SIZE {
            return Err(PacketError::TruncatedInput);
        }
        Ok(Self::read_at(bytes, 0))
    }

    /// A wire image determines the record: decoding is unambiguous, and
    /// decoding the image written by `serialize` gives the value back.
    pub proof fn lemma_wire_image_determines_value(r1: Self, r2: Self, s: Seq<u8>)
        requires
            r1.encodes(s),
            r2.encodes(s),
        ensures
            r1 == r2,
    {
    }

    /// A record has exactly one wire image.
    pub proof fn lemma_encoding_unique(r: Self, s1: Seq<u8>, s2: Seq<u8>)
        requires
            r.encodes(s1),
            r.encodes(s2),
        ensures
            s1 == s2,
    {
        assert(s1 =~= s2);
    }
}

/// One fixed-size `Penalty` sub-record (7 bytes on the wire).
#[derive(Debug, Clone, Copy, PartialEq, Eq, Structural)]
pub struct Penalty {
    pub penalty_type: u8, // 1 Byte
    pub infringement_type: u8, // 1 Byte
    pub vehicle_idx: u8, // 1 Byte
    pub other_vehicle_idx: u8, // 1 Byte
    pub time: u8, // 1 Byte
    pub lap_num: u8, // 1 Byte
    pub places_gained: u8, // 1 Byte
} // 7 Bytes

impl Penalty {
    /// `s` is exactly the wire image of this record.
    pub open spec fn encodes(self, s: Seq<u8>) -> bool {
        &&& s.len() == 7
        &&& s[0] == self.penalty_type
        &&& s[1] == self.infringement_type
        &&& s[2] == self.vehicle_idx
        &&& s[3] == self.other_vehicle_idx
        &&& s[4] == self.time
        &&& s[5] == self.lap_num
        &&& s[6] == self.places_gained
    }

    /// Decode the record stored at `off`.
    pub fn read_at(b: &[u8], off: usize) -> (r: Self)
        requires
            off + PENALTY_SIZE <= b@.len(),
        ensures
            r.encodes(b@.subrange(off as int, off + PENALTY_SIZE)),
    {
        let _len = b.len(); // the verifier learns the slice length fits in usize
        let penalty_type = read_u8_at(b, off);
        let infringement_type = read_u8_at(b, off + 1);
        let vehicle_idx = read_u8_at(b, off + 2);
        let other_vehicle_idx = read_u8_at(b, off + 3);
        let time = read_u8_at(b, off + 4);
        let lap_num = read_u8_at(b, off + 5);
        let places_gained = read_u8_at(b, off + 6);
        let r = Penalty {
            penalty_type,
            infringement_type,
            vehicle_idx,
            other_vehicle_idx,
            time,
            lap_num,
            places_gained,
        };
        proof {
            assert(r.encodes(b@.subrange(off as int, off + PENALTY_SIZE)));
        }
        r
    }

    /// Append the wire image of this record to `out`.
    pub fn write_into(&self, out: &mut Vec<u8>)
        ensures
            final(out)@.len() == old(out)@.len() + PENALTY_SIZE,
            final(out)@.subrange(0, old(out)@.len() as int) == old(out)@,
            self.encodes(
                final(out)@.subrange(old(out)@.len() as int, final(out)@.len() as int),
            ),
    {
        write_u8(out, self.penalty_type);
        write_u8(out, self.infringement_type);
        write_u8(out, self.vehicle_idx);
        write_u8(out, self.other_vehicle_idx);
        write_u8(out, self.time);
        write_u8(out, self.lap_num);
        write_u8(out, self.places_gained);
        proof {
            let base = old(out)@.len() as int;
            assert(out@.subrange(0, base) =~= old(out)@);
            assert(self.encodes(out@.subrange(base, base + 7)));
        }
    }

    /// Encode this record as its fixed 7-byte wire image.
    pub fn serialize(&self) -> (r: Vec<u8>)
        ensures
            r@.len() == PENALTY_SIZE,
            self.encodes(r@),
    {
        let mut out: Vec<u8> = Vec::new();
        self.write_into(&mut out);
        proof {
            assert(out@.subrange(0, 7) =~= out@);
        }
        out
    }

    /// Decode a record from the first 7 bytes of `bytes`.
    ///
    /// Succeeds exactly when at least 7 bytes are supplied; trailing
    /// bytes are ignored.
    pub fn unserialize(bytes: &[u8]) -> (r: Result<Self, PacketError>)
        ensures
            match r {
                Ok(p) => bytes@.len() >= 7 && p.encodes(
                    bytes@.subrange(0, 7),
                ),
                Err(e) => bytes@.len() < 7 && e == PacketError::TruncatedInput,
            },
    {
        if bytes.len() < PENALTY_SIZE {
            return Err(PacketError::TruncatedInput);
        }
        Ok(Self::read_at(bytes, 0))
    }

    /// A wire image determines the record: decoding is unambiguous, and
    /// decoding the image written by `serialize` gives the value back.
    pub proof fn lemma_wire_image_determines_value(r1: Self, r2: Self, s: Seq<u8>)
        requires
            r1.encodes(s),
            r2.encodes(s),
        ensures
            r1 == r2,
    {
    }

    /// A record has exactly one wire image.
    pub proof fn lemma_encoding_unique(r: Self, s1: Seq<u8>, s2: Seq<u8>)
        requires
            r.encodes(s1),
            r.encodes(s2),
        ensures
            s1 == s2,
    {
        assert(s1 =~= s2);
    }
}

/// One fixed-size `SpeedTrap` sub-record (12 bytes on the wire).
///
/// Float fields are carried as their raw little-endian bit patterns,
/// which round-trip exactly.
#[derive(Debug, Clone, Copy, PartialEq, Eq, Structural)]
pub struct SpeedTrap {
    pub vehicle_idx: u8, // 1 Byte
    pub speed: u32, // 4 Bytes (float bits)
    pub is_overall_fastest_in_session: u8, // 1 Byte
    pub is_driver_fastest_in_session: u8, // 1 Byte
    pub fastest_vehicle_idx_in_session: u8, // 1 Byte
    pub fastest_speed_in_session: u32, // 4 Bytes (float bits)
} // 12 Bytes

impl SpeedTrap {
    /// `s` is exactly the wire image of this record.
    pub open spec fn encodes(self, s: Seq<u8>) -> bool {
        &&& s.len() == 12
        &&& s[0] == self.vehicle_idx
        &&& s[1] == u32_b0(self.speed)
        &&& s[2] == u32_b1(self.speed)
        &&& s[3] == u32_b2(self.speed)
        &&& s[4] == u32_b3(self.speed)
        &&& s[5] == self.is_overall_fastest_in_session
        &&& s[6] == self.is_driver_fastest_in_session
        &&& s[7] == self.fastest_vehicle_idx_in_session
        &&& s[8] == u32_b0(self.fastest_speed_in_session)
        &&& s[9] == u32_b1(self.fastest_speed_in_session)
        &&& s[10] == u32_b2(self.fastest_speed_in_session)
        &&& s[11] == u32_b3(self.fastest_speed_in_session)
    }

    /// Decode the record stored at `off`.
    pub fn read_at(b: &[u8], off: usize) -> (r: Self)
        requires
            off + SPEED_TRAP_SIZE <= b@.len(),
        ensures
            r.encodes(b@.subrange(off as int, off + SPEED_TRAP_SIZE)),
    {
        let _len = b.len(); // the verifier learns the slice length fits in usize
        let vehicle_idx = read_u8_at(b, off);
        let speed = read_u32_at(b, off + 1);
        let is_overall_fastest_in_session = read_u8_at(b, off + 5);
        let is_driver_fastest_in_session = read_u8_at(b, off + 6);
        let fastest_vehicle_idx_in_session = read_u8_at(b, off + 7);
        let fastest_speed_in_session = read_u32_at(b, off + 8);
        let r = SpeedTrap {
            vehicle_idx,
            speed,
            is_overall_fastest_in_session,
            is_driver_fastest_in_session,
            fastest_vehicle_idx_in_session,
            fastest_speed_in_session,
        };
        proof {
            assert(r.encodes(b@.subrange(off as int, off + SPEED_TRAP_SIZE)));
        }
        r
    }

    /// Append the wire image of this record to `out`.
    pub fn write_into(&self, out: &mut Vec<u8>)
        ensures
            final(out)@.len() == old(out)@.len() + SPEED_TRAP_SIZE,
            final(out)@.subrange(0, old(out)@.len() as int) == old(out)@,
            self.encodes(
                final(out)@.subrange(old(out)@.len() as int, final(out)@.len() as int),
            ),
    {
        write_u8(out, self.vehicle_idx);
        write_u32(out, self.speed);
        write_u8(out, self.is_overall_fastest_in_session);
        write_u8(out, self.is_driver_fastest_in_session);
        write_u8(out, self.fastest_vehicle_idx_in_session);
        write_u32(out, self.fastest_speed_in_session);
        proof {
            let base = old(out)@.len() as int;
            assert(out@.subrange(0, base) =~= old(out)@);
            assert(self.encodes(out@.subrange(base, base + 12)));
        }
    }

    /// Encode this record as its fixed 12-byte wire image.
    pub fn serialize(&self) -> (r: Vec<u8>)
        ensures
            r@.len() == SPEED_TRAP_SIZE,
            self.encodes(r@),
    {
        let mut out: Vec<u8> = Vec::new();
        self.write_into(&mut out);
        proof {
            assert(out@.subrange(0, 12) =~= out@);
        }
        out
    }

    /// Decode a record from the first 12 bytes of `bytes`.
    ///
    /// Succeeds exactly when at least 12 bytes are supplied; trailing
    /// bytes are ignored.
    pub fn unserialize(bytes: &[u8]) -> (r: Result<Self, PacketError>)
        ensures
            match r {
                Ok(p) => bytes@.len() >= 12 && p.encodes(
                    bytes@.subrange(0, 12),
                ),
                Err(e) => bytes@.len() < 12 && e == PacketError::TruncatedInput,
            },
    {
        if bytes.len() < SPEED_TRAP_SIZE {
            return Err(PacketError::TruncatedInput);
        }
        Ok(Self::read_at(bytes, 0))
    }

    /// A wire image determines the record: decoding is unambiguous, and
    /// decoding the image written by `serialize` gives the value back.
    pub proof fn lemma_wire_image_determines_value(r1: Self, r2: Self, s: Seq<u8>)
        requires
            r1.encodes(s),
            r2.encodes(s),
        ensures
            r1 == r2,
    {
        lemma_u32_reassemble(r1.speed);
        lemma_u32_reassemble(r2.speed);
        lemma_u32_reassemble(r1.fastest_speed_in_session);
        lemma_u32_reassemble(r2.fastest_speed_in_session);
    }

    /// A record has exactly one wire image.
    pub proof fn lemma_encoding_unique(r: Self, s1: Seq<u8>, s2: Seq<u8>)
        requires
            r.encodes(s1),
            r.encodes(s2),
        ensures
            s1 == s2,
    {
        assert(s1 =~= s2);
    }
}

/// One fixed-size `StartLights` sub-record (1 bytes on the wire).
#[derive(Debug, Clone, Copy, PartialEq, Eq, Structural)]
pub struct StartLights {
    pub num_lights: u8, // 1 Byte
} // 1 Bytes

impl StartLights {
    /// `s` is exactly the wire image of this record.
    pub open spec fn encodes(self, s: Seq<u8>) -> bool {
        &&& s.len() == 1
        &&& s[0] == self.num_lights
    }

    /// Decode the record stored at `off`.
    pub fn read_at(b: &[u8], off: usize) -> (r: Self)
        requires
            off + START_LIGHTS_SIZE <= b@.len(),
        ensures
            r.encodes(b@.subrange(off as int, off + START_LIGHTS_SIZE)),
    {
        let _len = b.len(); // the verifier learns the slice length fits in usize
        let num_lights = read_u8_at(b, off);
        let r = StartLights {
            num_lights,
        };
        proof {
            assert(r.encodes(b@.subrange(off as int, off + START_LIGHTS_SIZE)));
        }
        r
    }

    /// Append the wire image of this record to `out`.
    pub fn write_into(&self, out: &mut Vec<u8>)
        ensures
            final(out)@.len() == old(out)@.len() + START_LIGHTS_SIZE,
            final(out)@.subrange(0, old(out)@.len() as int) == old(out)@,
            self.encodes(
                final(out)@.subrange(old(out)@.len() as int, final(out)@.len() as int),
            ),
    {
        write_u8(out, self.num_lights);
        proof {
            let base = old(out)@.len() as int;
            assert(out@.subrange(0, base) =~= old(out)@);
            assert(self.encodes(out@.subrange(base, base + 1)));
        }
    }

    /// Encode this record as its fixed 1-byte wire image.
    pub fn serialize(&self) -> (r: Vec<u8>)
        ensures
            r@.len() == START_LIGHTS_SIZE,
            self.encodes(r@),
    {
        let mut out: Vec<u8> = Vec::new();
        self.write_into(&mut out);
        proof {
            assert(out@.subrange(0, 1) =~= out@);
        }
        out
    }

    /// Decode a record from the first 1 bytes of `bytes`.
    ///
    /// Succeeds exactly when at least 1 bytes are supplied; trailing
    /// bytes are ignored.
    pub fn unserialize(bytes: &[u8]) -> (r: Result<Self, PacketError>)
        ensures
            match r {
                Ok(p) => bytes@.len() >= 1 && p.encodes(
                    bytes@.subrange(0, 1),
                ),
                Err(e) => bytes@.len() < 1 && e == PacketError::TruncatedInput,
            },
    {
        if bytes.len() < START_LIGHTS_SIZE {
            return Err(PacketError::TruncatedInput);
        }
        Ok(Self::read_at(bytes, 0))
    }

    /// A wire image determines the record: decoding is unambiguous, and
    /// decoding the image written by `serialize` gives the value back.
    pub proof fn lemma_wire_image_determines_value(r1: Self, r2: Self, s: Seq<u8>)
        requires
            r1.encodes(s),
            r2.encodes(s),
        ensures
            r1 == r2,
    {
    }

    /// A record has exactly one wire image.
    pub proof fn lemma_encoding_unique(r: Self, s1: Seq<u8>, s2: Seq<u8>)
        requires
            r.encodes(s1),
            r.encodes(s2),
        ensures
            s1 == s2,
    {
        assert(s1 =~= s2);
    }
}

/// One fixed-size `DriveThroughPenaltyServed` sub-record (1 bytes on the wire).
#[derive(Debug, Clone, Copy, PartialEq, Eq, Structural)]
pub struct DriveThroughPenaltyServed {
    pub vehicle_idx: u8, // 1 Byte
} // 1 Bytes

impl DriveThroughPenaltyServed {
    /// `s` is exactly the wire image of this record.
    pub open spec fn encodes(self, s: Seq<u8>) -> bool {
        &&& s.len() == 1
        &&& s[0] == self.vehicle_idx
    }

    /// Decode the record stored at `off`.
    pub fn read_at(b: &[u8], off: usize) -> (r: Self)
        requires
            off + DRIVE_THROUGH_PENALTY_SERVED_SIZE <= b@.len(),
        ensures
            r.encodes(b@.subrange(off as int, off + DRIVE_THROUGH_PENALTY_SERVED_SIZE)),
    {
        let _len = b.len(); // the verifier learns the slice length fits in usize
        let vehicle_idx = read_u8_at(b, off);
        let r = DriveThroughPenaltyServed {
            vehicle_idx,
        };
        proof {
            assert(r.encodes(b@.subrange(off as int, off + DRIVE_THROUGH_PENALTY_SERVED_SIZE)));
        }
        r
    }

    /// Append the wire image of this record to `out`.
    pub fn write_into(&self, out: &mut Vec<u8>)
        ensures
            final(out)@.len() == old(out)@.len() + DRIVE_THROUGH_PENALTY_SERVED_SIZE,
            final(out)@.subrange(0, old(out)@.len() as int) == old(out)@,
            self.encodes(
                final(out)@.subrange(old(out)@.len() as int, final(out)@.len() as int),
            ),
    {
        write_u8(out, self.vehicle_idx);
        proof {
            let base = old(out)@.len() as int;
            assert(out@.subrange(0, base) =~= old(out)@);
            assert(self.encodes(out@.subrange(base, base + 1)));
        }
    }

    /// Encode this record as its fixed 1-byte wire image.
    pub fn serialize(&self) -> (r: Vec<u8>)
        ensures
            r@.len() == DRIVE_THROUGH_PENALTY_SERVED_SIZE,
            self.encodes(r@),
    {
        let mut out: Vec<u8> = Vec::new();
        self.write_into(&mut out);
        proof {
            assert(out@.subrange(0, 1) =~= out@);
        }
        out
    }

    /// Decode a record from the first 1 bytes of `bytes`.
    ///
    /// Succeeds exactly when at least 1 bytes are supplied; trailing
    /// bytes are ignored.
    pub fn unserialize(bytes: &[u8]) -> (r: Result<Self, PacketError>)
        ensures
            match r {
                Ok(p) => bytes@.len() >= 1 && p.encodes(
                    bytes@.subrange(0, 1),
                ),
                Err(e) => bytes@.len() < 1 && e == PacketError::TruncatedInput,
            },
    {
        if bytes.len() < DRIVE_THROUGH_PENALTY_SERVED_SIZE {
            return Err(PacketError::TruncatedInput);
        }
        Ok(Self::read_at(bytes, 0))
    }

    /// A wire image determines the record: decoding is unambiguous, and
    /// decoding the image written by `serialize` gives the value back.
    pub proof fn lemma_wire_image_determines_value(r1: Self, r2: Self, s: Seq<u8>)
        requires
            r1.encodes(s),
            r2.encodes(s),
        ensures
            r1 == r2,
    {
    }

    /// A record has exactly one wire image.
    pub proof fn lemma_encoding_unique(r: Self, s1: Seq<u8>, s2: Seq<u8>)
        requires
            r.encodes(s1),
            r.encodes(s2),
        ensures
            s1 == s2,
    {
        assert(s1 =~= s2);
    }
}

/// One fixed-size `StopGoPenaltyServed` sub-record (1 bytes on the wire).
#[derive(Debug, Clone, Copy, PartialEq, Eq, Structural)]
pub struct StopGoPenaltyServed {
    pub vehicle_idx: u8, // 1 Byte
} // 1 Bytes

impl StopGoPenaltyServed {
    /// `s` is exactly the wire image of this record.
    pub open spec fn encodes(self, s: Seq<u8>) -> bool {
        &&& s.len() == 1
        &&& s[0] == self.vehicle_idx
    }

    /// Decode the record stored at `off`.
    pub fn read_at(b: &[u8], off: usize) -> (r: Self)
        requires
            off + STOP_GO_PENALTY_SERVED_SIZE <= b@.len(),
        ensures
            r.encodes(b@.subrange(off as int, off + STOP_GO_PENALTY_SERVED_SIZE)),
    {
        let _len = b.len(); // the verifier learns the slice length fits in usize
        let vehicle_idx = read_u8_at(b, off);
        let r = StopGoPenaltyServed {
            vehicle_idx,
        };
        proof {
            assert(r.encodes(b@.subrange(off as int, off + STOP_GO_PENALTY_SERVED_SIZE)));
        }
        r
    }

    /// Append the wire image of this record to `out`.
    pub fn write_into(&self, out: &mut Vec<u8>)
        ensures
            final(out)@.len() == old(out)@.len() + STOP_GO_PENALTY_SERVED_SIZE,
            final(out)@.subrange(0, old(out)@.len() as int) == old(out)@,
            self.encodes(
                final(out)@.subrange(old(out)@.len() as int, final(out)@.len() as int),
            ),
    {
        write_u8(out, self.vehicle_idx);
        proof {
            let base = old(out)@.len() as int;
            assert(out@.subrange(0, base) =~= old(out)@);
            assert(self.encodes(out@.subrange(base, base + 1)));
        }
    }

    /// Encode this record as its fixed 1-byte wire image.
    pub fn serialize(&self) -> (r: Vec<u8>)
        ensures
            r@.len() == STOP_GO_PENALTY_SERVED_SIZE,
            self.encodes(r@),
    {
        let mut out: Vec<u8> = Vec::new();
        self.write_into(&mut out);
        proof {
            assert(out@.subrange(0, 1) =~= out@);
        }
        out
    }

    /// Decode a record from the first 1 bytes of `bytes`.
    ///
    /// Succeeds exactly when at least 1 bytes are supplied; trailing
    /// bytes are ignored.
    pub fn unserialize(bytes: &[u8]) -> (r: Result<Self, PacketError>)
        ensures
            match r {
                Ok(p) => bytes@.len() >= 1 && p.encodes(
                    bytes@.subrange(0, 1),
                ),
                Err(e) => bytes@.len() < 1 && e == PacketError::TruncatedInput,
            },
    {
        if bytes.len() < STOP_GO_PENALTY_SERVED_SIZE {
            return Err(PacketError::TruncatedInput);
        }
        Ok(Self::read_at(bytes, 0))
    }

    /// A wire image determines the record: decoding is unambiguous, and
    /// decoding the image written by `serialize` gives the value back.
    pub proof fn lemma_wire_image_determines_value(r1: Self, r2: Self, s: Seq<u8>)
        requires
            r1.encodes(s),
            r2.encodes(s),
        ensures
            r1 == r2,
    {
    }

    /// A record has exactly one wire image.
    pub proof fn lemma_encoding_unique(r: Self, s1: Seq<u8>, s2: Seq<u8>)
        requires
            r.encodes(s1),
            r.encodes(s2),
        ensures
            s1 == s2,
    {
        assert(s1 =~= s2);
    }
}

/// One fixed-size `Flashback` sub-record (8 bytes on the wire).
///
/// Float fields are carried as their raw little-endian bit patterns,
/// which round-trip exactly.
#[derive(Debug, Clone, Copy, PartialEq, Eq, Structural)]
pub struct Flashback {
    pub flashback_frame_identifier: u32, // 4 Bytes
    pub flashback_session_time: u32, // 4 Bytes (float bits)
} // 8 Bytes

impl Flashback {
    /// `s` is exactly the wire image of this record.
    pub open spec fn encodes(self, s: Seq<u8>) -> bool {
        &&& s.len() == 8
        &&& s[0] == u32_b0(self.flashback_frame_identifier)
        &&& s[1] == u32_b1(self.flashback_frame_identifier)
        &&& s[2] == u32_b2(self.flashback_frame_identifier)
        &&& s[3] == u32_b3(self.flashback_frame_identifier)
        &&& s[4] == u32_b0(self.flashback_session_time)
        &&& s[5] == u32_b1(self.flashback_session_time)
        &&& s[6] == u32_b2(self.flashback_session_time)
        &&& s[7] == u32_b3(self.flashback_session_time)
    }

    /// Decode the record stored at `off`.
    pub fn read_at(b: &[u8], off: usize) -> (r: Self)
        requires
            off + FLASHBACK_SIZE <= b@.len(),
        ensures
            r.encodes(b@.subrange(off as int, off + FLASHBACK_SIZE)),
    {
        let _len = b.len(); // the verifier learns the slice length fits in usize
        let flashback_frame_identifier = read_u32_at(b, off);
        let flashback_session_time = read_u32_at(b, off + 4);
        let r = Flashback {
            flashback_frame_identifier,
            flashback_session_time,
        };
        proof {
            assert(r.encodes(b@.subrange(off as int, off + FLASHBACK_SIZE)));
        }
        r
    }

    /// Append the wire image of this record to `out`.
    pub fn write_into(&self, out: &mut Vec<u8>)
        ensures
            final(out)@.len() == old(out)@.len() + FLASHBACK_SIZE,
            final(out)@.subrange(0, old(out)@.len() as int) == old(out)@,
            self.encodes(
                final(out)@.subrange(old(out)@.len() as int, final(out)@.len() as int),
            ),
    {
        write_u32(out, self.flashback_frame_identifier);
        write_u32(out, self.flashback_session_time);
        proof {
            let base = old(out)@.len() as int;
            assert(out@.subrange(0, base) =~= old(out)@);
            assert(self.encodes(out@.subrange(base, base + 8)));
        }
    }

    /// Encode this record as its fixed 8-byte wire image.
    pub fn serialize(&self) -> (r: Vec<u8>)
        ensures
            r@.len() == FLASHBACK_SIZE,
            self.encodes(r@),
    {
        let mut out: Vec<u8> = Vec::new();
        self.write_into(&mut out);
        proof {
            assert(out@.subrange(0, 8) =~= out@);
        }
        out
    }

    /// Decode a record from the first 8 bytes of `bytes`.
    ///
    /// Succeeds exactly when at least 8 bytes are supplied; trailing
    /// bytes are ignored.
    pub fn unserialize(bytes: &[u8]) -> (r: Result<Self, PacketError>)
        ensures
            match r {
                Ok(p) => bytes@.len() >= 8 && p.encodes(
                    bytes@.subrange(0, 8),
                ),
                Err(e) => bytes@.len() < 8 && e == PacketError::TruncatedInput,
            },
    {
        if bytes.len() < FLASHBACK_SIZE {
            return Err(PacketError::TruncatedInput);
        }
        Ok(Self::read_at(bytes, 0))
    }

    /// A wire image determines the record: decoding is unambiguous, and
    /// decoding the image written by `serialize` gives the value back.
    pub proof fn lemma_wire_image_determines_value(r1: Self, r2: Self, s: Seq<u8>)
        requires
            r1.encodes(s),
            r2.encodes(s),
        ensures
            r1 == r2,
    {
        lemma_u32_reassemble(r1.flashback_frame_identifier);
        lemma_u32_reassemble(r2.flashback_frame_identifier);
        lemma_u32_reassemble(r1.flashback_session_time);
        lemma_u32_reassemble(r2.flashback_session_time);
    }

    /// A record has exactly one wire image.
    pub proof fn lemma_encoding_unique(r: Self, s1: Seq<u8>, s2: Seq<u8>)
        requires
            r.encodes(s1),
            r.encodes(s2),
        ensures
            s1 == s2,
    {
        assert(s1 =~= s2);
    }
}

/// One fixed-size `Buttons` sub-record (4 bytes on the wire).
#[derive(Debug, Clone, Copy, PartialEq, Eq, Structural)]
pub struct Buttons {
    pub button_status: u32, // 4 Bytes
} // 4 Bytes

impl Buttons {
    /// `s` is exactly the wire image of this record.
    pub open spec fn encodes(self, s: Seq<u8>) -> bool {
        &&& s.len() == 4
        &&& s[0] == u32_b0(self.button_status)
        &&& s[1] == u32_b1(self.button_status)
        &&& s[2] == u32_b2(self.button_status)
        &&& s[3] == u32_b3(self.button_status)
    }

    /// Decode the record stored at `off`.
    pub fn read_at(b: &[u8], off: usize) -> (r: Self)
        requires
            off + BUTTONS_SIZE <= b@.len(),
        ensures
            r.encodes(b@.subrange(off as int, off + BUTTONS_SIZE)),
    {
        let _len = b.len(); // the verifier learns the slice length fits in usize
        let button_status = read_u32_at(b, off);
        let r = Buttons {
            button_status,
        };
        proof {
            assert(r.encodes(b@.subrange(off as int, off + BUTTONS_SIZE)));
        }
        r
    }

    /// Append the wire image of this record to `out`.
    pub fn write_into(&self, out: &mut Vec<u8>)
        ensures
            final(out)@.len() == old(out)@.len() + BUTTONS_SIZE,
            final(out)@.subrange(0, old(out)@.len() as int) == old(out)@,
            self.encodes(
                final(out)@.subrange(old(out)@.len() as int, final(out)@.len() as int),
            ),
    {
        write_u32(out, self.button_status);
        proof {
            let base = old(out)@.len() as int;
            assert(out@.subrange(0, base) =~= old(out)@);
            assert(self.encodes(out@.subrange(base, base + 4)));
        }
    }

    /// Encode this record as its fixed 4-byte wire image.
    pub fn serialize(&self) -> (r: Vec<u8>)
        ensures
            r@.len() == BUTTONS_SIZE,
            self.encodes(r@),
    {
        let mut out: Vec<u8> = Vec::new();
        self.write_into(&mut out);
        proof {
            assert(out@.subrange(0, 4) =~= out@);
        }
        out
    }

    /// Decode a record from the first 4 bytes of `bytes`.
    ///
    /// Succeeds exactly when at least 4 bytes are supplied; trailing
    /// bytes are ignored.
    pub fn unserialize(bytes: &[u8]) -> (r: Result<Self, PacketError>)
        ensures
            match r {
                Ok(p) => bytes@.len() >= 4 && p.encodes(
                    bytes@.subrange(0, 4),
                ),
                Err(e) => bytes@.len() < 4 && e == PacketError::TruncatedInput,
            },
    {
        if bytes.len() < BUTTONS_SIZE {
            return Err(PacketError::TruncatedInput);
        }
        Ok(Self::read_at(bytes, 0))
    }

    /// A wire image determines the record: decoding is unambiguous, and
    /// decoding the image written by `serialize` gives the value back.
    pub proof fn lemma_wire_image_determines_value(r1: Self, r2: Self, s: Seq<u8>)
        requires
            r1.encodes(s),
            r2.encodes(s),
        ensures
            r1 == r2,
    {
        lemma_u32_reassemble(r1.button_status);
        lemma_u32_reassemble(r2.button_status);
    }

    /// A record has exactly one wire image.
    pub proof fn lemma_encoding_unique(r: Self, s1: Seq<u8>, s2: Seq<u8>)
        requires
            r.encodes(s1),
            r.encodes(s2),
        ensures
            s1 == s2,
    {
        assert(s1 =~= s2);
    }
}

/// One fixed-size `Overtake` sub-record (2 bytes on the wire).
#[derive(Debug, Clone, Copy, PartialEq, Eq, Structural)]
pub struct Overtake {
    pub overtaking_vehicle_idx: u8, // 1 Byte
    pub being_overtaken_vehicle_idx: u8, // 1 Byte
} // 2 Bytes

impl Overtake {
    /// `s` is exactly the wire image of this record.
    pub open spec fn encodes(self, s: Seq<u8>) -> bool {
        &&& s.len() == 2
        &&& s[0] == self.overtaking_vehicle_idx
        &&& s[1] == self.being_overtaken_vehicle_idx
    }

    /// Decode the record stored at `off`.
    pub fn read_at(b: &[u8], off: usize) -> (r: Self)
        requires
            off + OVERTAKE_SIZE <= b@.len(),
        ensures
            r.encodes(b@.subrange(off as int, off + OVERTAKE_SIZE)),
    {
        let _len = b.len(); // the verifier learns the slice length fits in usize
        let overtaking_vehicle_idx = read_u8_at(b, off);
        let being_overtaken_vehicle_idx = read_u8_at(b, off + 1);
        let r = Overtake {
            overtaking_vehicle_idx,
            being_overtaken_vehicle_idx,
        };
        proof {
            assert(r.encodes(b@.subrange(off as int, off + OVERTAKE_SIZE)));
        }
        r
    }

    /// Append the wire image of this record to `out`.
    pub fn write_into(&self, out: &mut Vec<u8>)
        ensures
            final(out)@.len() == old(out)@.len() + OVERTAKE_SIZE,
            final(out)@.subrange(0, old(out)@.len() as int) == old(out)@,
            self.encodes(
                final(out)@.subrange(old(out)@.len() as int, final(out)@.len() as int),
            ),
    {
        write_u8(out, self.overtaking_vehicle_idx);
        write_u8(out, self.being_overtaken_vehicle_idx);
        proof {
            let base = old(out)@.len() as int;
            assert(out@.subrange(0, base) =~= old(out)@);
            assert(self.encodes(out@.subrange(base, base + 2)));
        }
    }

    /// Encode this record as its fixed 2-byte wire image.
    pub fn serialize(&self) -> (r: Vec<u8>)
        ensures
            r@.len() == OVERTAKE_SIZE,
            self.encodes(r@),
    {
        let mut out: Vec<u8> = Vec::new();
        self.write_into(&mut out);
        proof {
            assert(out@.subrange(0, 2) =~= out@);
        }
        out
    }

    /// Decode a record from the first 2 bytes of `bytes`.
    ///
    /// Succeeds exactly when at least 2 bytes are supplied; trailing
    /// bytes are ignored.
    pub fn unserialize(bytes: &[u8]) -> (r: Result<Self, PacketError>)
        ensures
            match r {
                Ok(p) => bytes@.len() >= 2 && p.encodes(
                    bytes@.subrange(0, 2),
                ),
                Err(e) => bytes@.len() < 2 && e == PacketError::TruncatedInput,
            },
    {
        if bytes.len() < OVERTAKE_SIZE {
            return Err(PacketError::TruncatedInput);
        }
        Ok(Self::read_at(bytes, 0))
    }

    /// A wire image determines the record: decoding is unambiguous, and
    /// decoding the image written by `serialize` gives the value back.
    pub proof fn lemma_wire_image_determines_value(r1: Self, r2: Self, s: Seq<u8>)
        requires
            r1.encodes(s),
            r2.encodes(s),
        ensures
            r1 == r2,
    {
    }

    /// A record has exactly one wire image.
    pub proof fn lemma_encoding_unique(r: Self, s1: Seq<u8>, s2: Seq<u8>)
        requires
            r.encodes(s1),
            r.encodes(s2),
        ensures
            s1 == s2,
    {
        assert(s1 =~= s2);
    }
}

impl Default for FastestLap {
    /// The all-zero record.
    fn default() -> (r: Self)
        ensures
            (r == FastestLap {
                vehicle_idx: 0,
                lap_time: 0,
            }),
    {
        FastestLap {
            vehicle_idx: 0,
            lap_time: 0,
        }
    }
}

impl Default for Retirement {
    /// The all-zero record.
    fn default() -> (r: Self)
        ensures
            (r == Retirement {
                vehicle_idx: 0,
            }),
    {
        Retirement {
            vehicle_idx: 0,
        }
    }
}

impl Default for TeamMateInPits {
    /// The all-zero record.
    fn default() -> (r: Self)
        ensures
            (r == TeamMateInPits {
                vehicle_idx: 0,
            }),
    {
        TeamMateInPits {
            vehicle_idx: 0,
        }
    }
}

impl Default for RaceWinner {
    /// The all-zero record.
    fn default() -> (r: Self)
        ensures
            (r == RaceWinner {
                vehicle_idx: 0,
            }),
    {
        RaceWinner {
            vehicle_idx: 0,
        }
    }
}

impl Default for Penalty {
    /// The all-zero record.
    fn default() -> (r: Self)
        ensures
            (r == Penalty {
                penalty_type: 0,
                infringement_type: 0,
                vehicle_idx: 0,
                other_vehicle_idx: 0,
                time: 0,
                lap_num: 0,
                places_gained: 0,
            }),
    {
        Penalty {
            penalty_type: 0,
            infringement_type: 0,
            vehicle_idx: 0,
            other_vehicle_idx: 0,
            time: 0,
            lap_num: 0,
            places_gained: 0,
        }
    }
}

impl Default for SpeedTrap {
    /// The all-zero record.
    fn default() -> (r: Self)
        ensures
            (r == SpeedTrap {
                vehicle_idx: 0,
                speed: 0,
                is_overall_fastest_in_session: 0,
                is_driver_fastest_in_session: 0,
                fastest_vehicle_idx_in_session: 0,
                fastest_speed_in_session: 0,
            }),
    {
        SpeedTrap {
            vehicle_idx: 0,
            speed: 0,
            is_overall_fastest_in_session: 0,
            is_driver_fastest_in_session: 0,
            fastest_vehicle_idx_in_session: 0,
            fastest_speed_in_session: 0,
        }
    }
}

impl Default for StartLights {
    /// The all-zero record.
    fn default() -> (r: Self)
        ensures
            (r == StartLights {
                num_lights: 0,
            }),
    {
        StartLights {
            num_lights: 0,
        }
    }
}

impl Default for DriveThroughPenaltyServed {
    /// The all-zero record.
    fn default() -> (r: Self)
        ensures
            (r == DriveThroughPenaltyServed {
                vehicle_idx: 0,
            }),
    {
        DriveThroughPenaltyServed {
            vehicle_idx: 0,
        }
    }
}

impl Default for StopGoPenaltyServed {
    /// The all-zero record.
    fn default() -> (r: Self)
        ensures
            (r == StopGoPenaltyServed {
                vehicle_idx: 0,
            }),
    {
        StopGoPenaltyServed {
            vehicle_idx: 0,
        }
    }
}

impl Default for Flashback {
    /// The all-zero record.
    fn default() -> (r: Self)
        ensures
            (r == Flashback {
                flashback_frame_identifier: 0,
                flashback_session_time: 0,
            }),
    {
        Flashback {
            flashback_frame_identifier: 0,
            flashback_session_time: 0,
        }
    }
}

impl Default for Buttons {
    /// The all-zero record.
    fn default() -> (r: Self)
        ensures
            (r == Buttons {
                button_status: 0,
            }),
    {
        Buttons {
            button_status: 0,
        }
    }
}

impl Default for Overtake {
    /// The all-zero record.
    fn default() -> (r: Self)
        ensures
            (r == Overtake {
                overtaking_vehicle_idx: 0,
                being_overtaken_vehicle_idx: 0,
            }),
    {
        Overtake {
            overtaking_vehicle_idx: 0,
            being_overtaken_vehicle_idx: 0,
        }
    }
}

// --- the event packet: a tagged union selected by a 4-byte code ----------

/// Offset of the 4-byte event code, right after the header.
pub const EVENT_CODE_OFFSET: usize = 29;

/// Size of the header plus the 4-byte event code.
pub const EVENT_PREFIX_SIZE: usize = 33;

/// The 4-byte ASCII code `"FTLP"`: fastest lap.
pub open spec fn code_ftlp() -> Seq<u8> {
    seq![70u8, 84u8, 76u8, 80u8]
}

/// The 4-byte ASCII code `"RTMT"`: retirement.
pub open spec fn code_rtmt() -> Seq<u8> {
    seq![82u8, 84u8, 77u8, 84u8]
}

/// The 4-byte ASCII code `"TMPT"`: team mate in pits.
pub open spec fn code_tmpt() -> Seq<u8> {
    seq![84u8, 77u8, 80u8, 84u8]
}

/// The 4-byte ASCII code `"RCWN"`: race winner.
pub open spec fn code_rcwn() -> Seq<u8> {
    seq![82u8, 67u8, 87u8, 78u8]
}

/// The 4-byte ASCII code `"PENA"`: penalty issued.
pub open spec fn code_pena() -> Seq<u8> {
    seq![80u8, 69u8, 78u8, 65u8]
}

/// The 4-byte ASCII code `"SPTP"`: speed trap triggered.
pub open spec fn code_sptp() -> Seq<u8> {
    seq![83u8, 80u8, 84u8, 80u8]
}

/// The 4-byte ASCII code `"STLG"`: start lights.
pub open spec fn code_stlg() -> Seq<u8> {
    seq![83u8, 84u8, 76u8, 71u8]
}

/// The 4-byte ASCII code `"DTSV"`: drive-through penalty served.
pub open spec fn code_dtsv() -> Seq<u8> {
    seq![68u8, 84u8, 83u8, 86u8]
}

/// The 4-byte ASCII code `"SGSV"`: stop-go penalty served.
pub open spec fn code_sgsv() -> Seq<u8> {
    seq![83u8, 71u8, 83u8, 86u8]
}

/// The 4-byte ASCII code `"FLBK"`: flashback activated.
pub open spec fn code_flbk() -> Seq<u8> {
    seq![70u8, 76u8, 66u8, 75u8]
}

/// The 4-byte ASCII code `"BUTN"`: button status.
pub open spec fn code_butn() -> Seq<u8> {
    seq![66u8, 85u8, 84u8, 78u8]
}

/// The 4-byte ASCII code `"OVTK"`: overtake.
pub open spec fn code_ovtk() -> Seq<u8> {
    seq![79u8, 86u8, 84u8, 75u8]
}

/// The 4-byte ASCII code `"SSTA"`: session started (no payload).
pub open spec fn code_ssta() -> Seq<u8> {
    seq![83u8, 83u8, 84u8, 65u8]
}

/// The 4-byte ASCII code `"SEND"`: session ended (no payload).
pub open spec fn code_send() -> Seq<u8> {
    seq![83u8, 69u8, 78u8, 68u8]
}

/// The 4-byte ASCII code `"DRSE"`: DRS enabled (no payload).
pub open spec fn code_drse() -> Seq<u8> {
    seq![68u8, 82u8, 83u8, 69u8]
}

/// The 4-byte ASCII code `"DRSD"`: DRS disabled (no payload).
pub open spec fn code_drsd() -> Seq<u8> {
    seq![68u8, 82u8, 83u8, 68u8]
}

/// The 4-byte ASCII code `"CHQF"`: chequered flag (no payload).
pub open spec fn code_chqf() -> Seq<u8> {
    seq![67u8, 72u8, 81u8, 70u8]
}

/// The 4-byte ASCII code `"LGOT"`: lights out (no payload).
pub open spec fn code_lgot() -> Seq<u8> {
    seq![76u8, 71u8, 79u8, 84u8]
}

/// The 4-byte ASCII code `"RDFL"`: red flag (no payload).
pub open spec fn code_rdfl() -> Seq<u8> {
    seq![82u8, 68u8, 70u8, 76u8]
}

/// `c` is one of the 19 known event codes.
pub open spec fn known_code(c: Seq<u8>) -> bool {
    ||| c == code_ftlp()
    ||| c == code_rtmt()
    ||| c == code_tmpt()
    ||| c == code_rcwn()
    ||| c == code_pena()
    ||| c == code_sptp()
    ||| c == code_stlg()
    ||| c == code_dtsv()
    ||| c == code_sgsv()
    ||| c == code_flbk()
    ||| c == code_butn()
    ||| c == code_ovtk()
    ||| c == code_ssta()
    ||| c == code_send()
    ||| c == code_drse()
    ||| c == code_drsd()
    ||| c == code_chqf()
    ||| c == code_lgot()
    ||| c == code_rdfl()
}

/// The number of payload bytes that follow the code `c` on the wire.
///
/// The seven notification codes, and any unknown code, carry no payload.
pub open spec fn payload_len_of(c: Seq<u8>) -> int {
    if c == code_ftlp() {
        5
    } else if c == code_rtmt() {
        1
    } else if c == code_tmpt() {
        1
    } else if c == code_rcwn() {
        1
    } else if c == code_pena() {
        7
    } else if c == code_sptp() {
        12
    } else if c == code_stlg() {
        1
    } else if c == code_dtsv() {
        1
    } else if c == code_sgsv() {
        1
    } else if c == code_flbk() {
        8
    } else if c == code_butn() {
        4
    } else if c == code_ovtk() {
        2
    } else {
        0
    }
}

/// Total wire length of an event packet whose code is `c`.
pub open spec fn event_total_len(c: Seq<u8>) -> int {
    33 + payload_len_of(c)
}

/// The payload of an event packet: exactly one variant, selected by the
/// sibling 4-byte code.  The seven notification codes share the `Empty`
/// variant, which carries no bytes.
#[derive(Debug, Clone, Copy, PartialEq, Eq, Structural)]
pub enum EventDataDetails {
    FastestLap(FastestLap),
    Retirement(Retirement),
    TeamMateInPits(TeamMateInPits),
    RaceWinner(RaceWinner),
    Penalty(Penalty),
    SpeedTrap(SpeedTrap),
    StartLights(StartLights),
    DriveThroughPenaltyServed(DriveThroughPenaltyServed),
    StopGoPenaltyServed(StopGoPenaltyServed),
    Flashback(Flashback),
    Buttons(Buttons),
    Overtake(Overtake),
    Empty,
}

/// The payload variant `d` is the one that the code `c` selects.
pub open spec fn details_match(c: Seq<u8>, d: EventDataDetails) -> bool {
    if c == code_ftlp() {
        d is FastestLap
    } else if c == code_rtmt() {
        d is Retirement
    } else if c == code_tmpt() {
        d is TeamMateInPits
    } else if c == code_rcwn() {
        d is RaceWinner
    } else if c == code_pena() {
        d is Penalty
    } else if c == code_sptp() {
        d is SpeedTrap
    } else if c == code_stlg() {
        d is StartLights
    } else if c == code_dtsv() {
        d is DriveThroughPenaltyServed
    } else if c == code_sgsv() {
        d is StopGoPenaltyServed
    } else if c == code_flbk() {
        d is Flashback
    } else if c == code_butn() {
        d is Buttons
    } else if c == code_ovtk() {
        d is Overtake
    } else if known_code(c) {
        d is Empty
    } else {
        false
    }
}

/// `s` is exactly the wire image of the payload variant `d`.
pub open spec fn details_encode(d: EventDataDetails, s: Seq<u8>) -> bool {
    match d {
        EventDataDetails::FastestLap(x) => x.encodes(s),
        EventDataDetails::Retirement(x) => x.encodes(s),
        EventDataDetails::TeamMateInPits(x) => x.encodes(s),
        EventDataDetails::RaceWinner(x) => x.encodes(s),
        EventDataDetails::Penalty(x) => x.encodes(s),
        EventDataDetails::SpeedTrap(x) => x.encodes(s),
        EventDataDetails::StartLights(x) => x.encodes(s),
        EventDataDetails::DriveThroughPenaltyServed(x) => x.encodes(s),
        EventDataDetails::StopGoPenaltyServed(x) => x.encodes(s),
        EventDataDetails::Flashback(x) => x.encodes(s),
        EventDataDetails::Buttons(x) => x.encodes(s),
        EventDataDetails::Overtake(x) => x.encodes(s),
        EventDataDetails::Empty => s.len() == 0,
    }
}

/// An event packet: header, 4-byte ASCII code, then the payload variant
/// that the code selects.  Total wire length varies with the code: 33
/// bytes of header and code, plus 0 to 12 payload bytes.
#[derive(Debug, Clone)]
pub struct PacketEventData {
    pub header: PacketHeader,           // 29 Bytes
    pub event_string_code: Vec<u8>,     // 4 Bytes
    pub event_details: EventDataDetails, // 0 - 12 Bytes
}

impl PacketEventData {
    /// The code has its fixed width and selects the stored variant.
    pub open spec fn wf(self) -> bool {
        &&& self.event_string_code@.len() == 4
        &&& details_match(self.event_string_code@, self.event_details)
    }

    /// `s` is exactly the wire image of this packet.
    pub open spec fn encodes(self, s: Seq<u8>) -> bool {
        &&& s.len() == event_total_len(self.event_string_code@)
        &&& self.header.encodes(s.subrange(0, 29))
        &&& s[29] == self.event_string_code@[0]
        &&& s[30] == self.event_string_code@[1]
        &&& s[31] == self.event_string_code@[2]
        &&& s[32] == self.event_string_code@[3]
        &&& details_encode(self.event_details, s.subrange(33, s.len() as int))
    }

    /// Field-for-field equality; the code compares element-wise.
    pub open spec fn same_as(self, other: Self) -> bool {
        &&& self.header == other.header
        &&& self.event_string_code@ == other.event_string_code@
        &&& self.event_details == other.event_details
    }

    /// Decode an event packet from `bytes`.
    ///
    /// Fails with `TruncatedInput` when fewer than 33 bytes are supplied,
    /// or when a known code announces more payload bytes than remain; fails
    /// with `UnknownEventCode` when the 4 bytes after the header match none
    /// of the 19 known codes.  Trailing bytes are ignored.
    pub fn unserialize(bytes: &[u8]) -> (r: Result<Self, PacketError>)
        ensures
            match r {
                Ok(p) => {
                    &&& bytes@.len() >= 33
                    &&& known_code(bytes@.subrange(29, 33))
                    &&& bytes@.len() >= event_total_len(bytes@.subrange(29, 33))
                    &&& p.wf()
                    &&& p.event_string_code@ == bytes@.subrange(29, 33)
                    &&& p.encodes(
                        bytes@.subrange(0, event_total_len(bytes@.subrange(29, 33))),
                    )
                },
                Err(e) => {
                    &&& (e == PacketError::UnknownEventCode <==> bytes@.len() >= 33
                        && !known_code(bytes@.subrange(29, 33)))
                    &&& (e == PacketError::TruncatedInput <==> bytes@.len() < 33 || (
                        known_code(bytes@.subrange(29, 33))
                            && bytes@.len() < event_total_len(bytes@.subrange(29, 33))
                    ))
                },
            },
    {
        if bytes.len() < EVENT_PREFIX_SIZE {
            return Err(PacketError::TruncatedInput);
        }
        let header = PacketHeader::read_at(bytes, 0);
        let c0 = read_u8_at(bytes, 29);
        let c1 = read_u8_at(bytes, 30);
        let c2 = read_u8_at(bytes, 31);
        let c3 = read_u8_at(bytes, 32);
        let mut event_string_code: Vec<u8> = Vec::new();
        event_string_code.push(c0);
        event_string_code.push(c1);
        event_string_code.push(c2);
        event_string_code.push(c3);
        proof {
            assert(event_string_code@ =~= bytes@.subrange(29, 33));
        }
        if c0 == 70 && c1 == 84 && c2 == 76 && c3 == 80 {
            proof {
                assert(bytes@.subrange(29, 33) =~= code_ftlp());
            }
            if bytes.len() < 38 {
                return Err(PacketError::TruncatedInput);
            }
            let x = FastestLap::read_at(bytes, 33);
            let p = PacketEventData {
                header,
                event_string_code,
                event_details: EventDataDetails::FastestLap(x),
            };
            proof {
                lemma_subrange_of_subrange(bytes@, 0, 38, 0, 29);
                lemma_subrange_of_subrange(bytes@, 0, 38, 33, 38);
                assert(p.encodes(bytes@.subrange(0, 38)));
            }
            Ok(p)
        } else if c0 == 82 && c1 == 84 && c2 == 77 && c3 == 84 {
            proof {
                assert(bytes@.subrange(29, 33) =~= code_rtmt());
            }
            if bytes.len() < 34 {
                return Err(PacketError::TruncatedInput);
            }
            let x = Retirement::read_at(bytes, 33);
            let p = PacketEventData {
                header,
                event_string_code,
                event_details: EventDataDetails::Retirement(x),
            };
            proof {
                lemma_subrange_of_subrange(bytes@, 0, 34, 0, 29);
                lemma_subrange_of_subrange(bytes@, 0, 34, 33, 34);
                assert(p.encodes(bytes@.subrange(0, 34)));
            }
            Ok(p)
        } else if c0 == 84 && c1 == 77 && c2 == 80 && c3 == 84 {
            proof {
                assert(bytes@.subrange(29, 33) =~= code_tmpt());
            }
            if bytes.len() < 34 {
                return Err(PacketError::TruncatedInput);
            }
            let x = TeamMateInPits::read_at(bytes, 33);
            let p = PacketEventData {
                header,
                event_string_code,
                event_details: EventDataDetails::TeamMateInPits(x),
            };
            proof {
                lemma_subrange_of_subrange(bytes@, 0, 34, 0, 29);
                lemma_subrange_of_subrange(bytes@, 0, 34, 33, 34);
                assert(p.encodes(bytes@.subrange(0, 34)));
            }
            Ok(p)
        } else if c0 == 82 && c1 == 67 && c2 == 87 && c3 == 78 {
            proof {
                assert(bytes@.subrange(29, 33) =~= code_rcwn());
            }
            if bytes.len() < 34 {
                return Err(PacketError::TruncatedInput);
            }
            let x = RaceWinner::read_at(bytes, 33);
            let p = PacketEventData {
                header,
                event_string_code,
                event_details: EventDataDetails::RaceWinner(x),
            };
            proof {
                lemma_subrange_of_subrange(bytes@, 0, 34, 0, 29);
                lemma_subrange_of_subrange(bytes@, 0, 34, 33, 34);
                assert(p.encodes(bytes@.subrange(0, 34)));
            }
            Ok(p)
        } else if c0 == 80 && c1 == 69 && c2 == 78 && c3 == 65 {
            proof {
                assert(bytes@.subrange(29, 33) =~= code_pena());
            }
            if bytes.len() < 40 {
                return Err(PacketError::TruncatedInput);
            }
            let x = Penalty::read_at(bytes, 33);
            let p = PacketEventData {
                header,
                event_string_code,
                event_details: EventDataDetails::Penalty(x),
            };
            proof {
                lemma_subrange_of_subrange(bytes@, 0, 40, 0, 29);
                lemma_subrange_of_subrange(bytes@, 0, 40, 33, 40);
                assert(p.encodes(bytes@.subrange(0, 40)));
            }
            Ok(p)
        } else if c0 == 83 && c1 == 80 && c2 == 84 && c3 == 80 {
            proof {
                assert(bytes@.subrange(29, 33) =~= code_sptp());
            }
            if bytes.len() < 45 {
                return Err(PacketError::TruncatedInput);
            }
            let x = SpeedTrap::read_at(bytes, 33);
            let p = PacketEventData {
                header,
                event_string_code,
                event_details: EventDataDetails::SpeedTrap(x),
            };
            proof {
                lemma_subrange_of_subrange(bytes@, 0, 45, 0, 29);
                lemma_subrange_of_subrange(bytes@, 0, 45, 33, 45);
                assert(p.encodes(bytes@.subrange(0, 45)));
            }
            Ok(p)
        } else if c0 == 83 && c1 == 84 && c2 == 76 && c3 == 71 {
            proof {
                assert(bytes@.subrange(29, 33) =~= code_stlg());
            }
            if bytes.len() < 34 {
                return Err(PacketError::TruncatedInput);
            }
            let x = StartLights::read_at(bytes, 33);
            let p = PacketEventData {
                header,
                event_string_code,
                event_details: EventDataDetails::StartLights(x),
            };
            proof {
                lemma_subrange_of_subrange(bytes@, 0, 34, 0, 29);
                lemma_subrange_of_subrange(bytes@, 0, 34, 33, 34);
                assert(p.encodes(bytes@.subrange(0, 34)));
            }
            Ok(p)
        } else if c0 == 68 && c1 == 84 && c2 == 83 && c3 == 86 {
            proof {
                assert(bytes@.subrange(29, 33) =~= code_dtsv());
            }
            if bytes.len() < 34 {
                return Err(PacketError::TruncatedInput);
            }
            let x = DriveThroughPenaltyServed::read_at(bytes, 33);
            let p = PacketEventData {
                header,
                event_string_code,
                event_details: EventDataDetails::DriveThroughPenaltyServed(x),
            };
            proof {
                lemma_subrange_of_subrange(bytes@, 0, 34, 0, 29);
                lemma_subrange_of_subrange(bytes@, 0, 34, 33, 34);
                assert(p.encodes(bytes@.subrange(0, 34)));
            }
            Ok(p)
        } else if c0 == 83 && c1 == 71 && c2 == 83 && c3 == 86 {
            proof {
                assert(bytes@.subrange(29, 33) =~= code_sgsv());
            }
            if bytes.len() < 34 {
                return Err(PacketError::TruncatedInput);
            }
            let x = StopGoPenaltyServed::read_at(bytes, 33);
            let p = PacketEventData {
                header,
                event_string_code,
                event_details: EventDataDetails::StopGoPenaltyServed(x),
            };
            proof {
                lemma_subrange_of_subrange(bytes@, 0, 34, 0, 29);
                lemma_subrange_of_subrange(bytes@, 0, 34, 33, 34);
                assert(p.encodes(bytes@.subrange(0, 34)));
            }
            Ok(p)
        } else if c0 == 70 && c1 == 76 && c2 == 66 && c3 == 75 {
            proof {
                assert(bytes@.subrange(29, 33) =~= code_flbk());
            }
            if bytes.len() < 41 {
                return Err(PacketError::TruncatedInput);
            }
            let x = Flashback::read_at(bytes, 33);
            let p = PacketEventData {
                header,
                event_string_code,
                event_details: EventDataDetails::Flashback(x),
            };
            proof {
                lemma_subrange_of_subrange(bytes@, 0, 41, 0, 29);
                lemma_subrange_of_subrange(bytes@, 0, 41, 33, 41);
                assert(p.encodes(bytes@.subrange(0, 41)));
            }
            Ok(p)
        } else if c0 == 66 && c1 == 85 && c2 == 84 && c3 == 78 {
            proof {
                assert(bytes@.subrange(29, 33) =~= code_butn());
            }
            if bytes.len() < 37 {
                return Err(PacketError::TruncatedInput);
            }
            let x = Buttons::read_at(bytes, 33);
            let p = PacketEventData {
                header,
                event_string_code,
                event_details: EventDataDetails::Buttons(x),
            };
            proof {
                lemma_subrange_of_subrange(bytes@, 0, 37, 0, 29);
                lemma_subrange_of_subrange(bytes@, 0, 37, 33, 37);
                assert(p.encodes(bytes@.subrange(0, 37)));
            }
            Ok(p)
        } else if c0 == 79 && c1 == 86 && c2 == 84 && c3 == 75 {
            proof {
                assert(bytes@.subrange(29, 33) =~= code_ovtk());
            }
            if bytes.len() < 35 {
                return Err(PacketError::TruncatedInput);
            }
            let x = Overtake::read_at(bytes, 33);
            let p = PacketEventData {
                header,
                event_string_code,
                event_details: EventDataDetails::Overtake(x),
            };
            proof {
                lemma_subrange_of_subrange(bytes@, 0, 35, 0, 29);
                lemma_subrange_of_subrange(bytes@, 0, 35, 33, 35);
                assert(p.encodes(bytes@.subrange(0, 35)));
            }
            Ok(p)
        } else if (c0 == 83 && c1 == 83 && c2 == 84 && c3 == 65)
            || (c0 == 83 && c1 == 69 && c2 == 78 && c3 == 68)
            || (c0 == 68 && c1 == 82 && c2 == 83 && c3 == 69)
            || (c0 == 68 && c1 == 82 && c2 == 83 && c3 == 68)
            || (c0 == 67 && c1 == 72 && c2 == 81 && c3 == 70)
            || (c0 == 76 && c1 == 71 && c2 == 79 && c3 == 84)
            || (c0 == 82 && c1 == 68 && c2 == 70 && c3 == 76) {
            proof {
                let c = bytes@.subrange(29, 33);
                assert(c[0] == c0 && c[1] == c1 && c[2] == c2 && c[3] == c3);
                if c0 == 83 && c1 == 83 && c2 == 84 && c3 == 65 {
                    assert(c =~= code_ssta());
                } else if c0 == 83 && c1 == 69 && c2 == 78 && c3 == 68 {
                    assert(c =~= code_send());
                } else if c0 == 68 && c1 == 82 && c2 == 83 && c3 == 69 {
                    assert(c =~= code_drse());
                } else if c0 == 68 && c1 == 82 && c2 == 83 && c3 == 68 {
                    assert(c =~= code_drsd());
                } else if c0 == 67 && c1 == 72 && c2 == 81 && c3 == 70 {
                    assert(c =~= code_chqf());
                } else if c0 == 76 && c1 == 71 && c2 == 79 && c3 == 84 {
                    assert(c =~= code_lgot());
                } else {
                    assert(c =~= code_rdfl());
                }
                assert(known_code(c));
                assert(payload_len_of(c) == 0);
            }
            let p = PacketEventData {
                header,
                event_string_code,
                event_details: EventDataDetails::Empty,
            };
            proof {
                lemma_subrange_of_subrange(bytes@, 0, 33, 0, 29);
                assert(p.encodes(bytes@.subrange(0, 33)));
            }
            Ok(p)
        } else {
            proof {
                assert(!known_code(bytes@.subrange(29, 33)));
            }
            Err(PacketError::UnknownEventCode)
        }
    }

    /// Encode this packet: header, code, then the active variant's bytes.
    ///
    /// The seven notification codes write no payload bytes, so the output
    /// length is the code's fixed wire length.
    pub fn serialize(&self) -> (r: Vec<u8>)
        requires
            self.wf(),
        ensures
            r@.len() == event_total_len(self.event_string_code@),
            self.encodes(r@),
    {
        let mut out: Vec<u8> = Vec::new();
        self.header.write_into(&mut out);
        let ghost after_header = out@;
        write_u8(&mut out, self.event_string_code[0]);
        write_u8(&mut out, self.event_string_code[1]);
        write_u8(&mut out, self.event_string_code[2]);
        write_u8(&mut out, self.event_string_code[3]);
        let ghost mid = out@;
        match &self.event_details {
            EventDataDetails::FastestLap(x) => x.write_into(&mut out),
            EventDataDetails::Retirement(x) => x.write_into(&mut out),
            EventDataDetails::TeamMateInPits(x) => x.write_into(&mut out),
            EventDataDetails::RaceWinner(x) => x.write_into(&mut out),
            EventDataDetails::Penalty(x) => x.write_into(&mut out),
            EventDataDetails::SpeedTrap(x) => x.write_into(&mut out),
            EventDataDetails::StartLights(x) => x.write_into(&mut out),
            EventDataDetails::DriveThroughPenaltyServed(x) => x.write_into(&mut out),
            EventDataDetails::StopGoPenaltyServed(x) => x.write_into(&mut out),
            EventDataDetails::Flashback(x) => x.write_into(&mut out),
            EventDataDetails::Buttons(x) => x.write_into(&mut out),
            EventDataDetails::Overtake(x) => x.write_into(&mut out),
            EventDataDetails::Empty => {},
        }
        proof {
            assert forall|t: int| 0 <= t < 33 implies (#[trigger] out@[t]) == mid[t] by {
                if out@.len() > 33 {
                    assert(mid[t] == out@.subrange(0, 33)[t]);
                }
            }
            assert(out@.subrange(0, 29) =~= after_header.subrange(0, 29));
            assert(details_encode(self.event_details, out@.subrange(33, out@.len() as int)));
            assert(out@.len() == event_total_len(self.event_string_code@));
            assert(self.encodes(out@));
        }
        out
    }

    /// A wire image determines the packet: decoding is unambiguous, and
    /// decoding the image written by `serialize` gives the value back.
    pub proof fn lemma_wire_image_determines_value(p1: Self, p2: Self, s: Seq<u8>)
        requires
            p1.wf(),
            p2.wf(),
            p1.encodes(s),
            p2.encodes(s),
        ensures
            p1.same_as(p2),
    {
        assert(p1.event_string_code@ =~= p2.event_string_code@);
        PacketHeader::lemma_wire_image_determines_value(
            p1.header, p2.header, s.subrange(0, 29));
        let pay = s.subrange(33, s.len() as int);
        match (p1.event_details, p2.event_details) {
            (EventDataDetails::FastestLap(x1), EventDataDetails::FastestLap(x2)) => {
                FastestLap::lemma_wire_image_determines_value(x1, x2, pay);
            },
            (EventDataDetails::Retirement(x1), EventDataDetails::Retirement(x2)) => {
                Retirement::lemma_wire_image_determines_value(x1, x2, pay);
            },
            (EventDataDetails::TeamMateInPits(x1), EventDataDetails::TeamMateInPits(x2)) => {
                TeamMateInPits::lemma_wire_image_determines_value(x1, x2, pay);
            },
            (EventDataDetails::RaceWinner(x1), EventDataDetails::RaceWinner(x2)) => {
                RaceWinner::lemma_wire_image_determines_value(x1, x2, pay);
            },
            (EventDataDetails::Penalty(x1), EventDataDetails::Penalty(x2)) => {
                Penalty::lemma_wire_image_determines_value(x1, x2, pay);
            },
            (EventDataDetails::SpeedTrap(x1), EventDataDetails::SpeedTrap(x2)) => {
                SpeedTrap::lemma_wire_image_determines_value(x1, x2, pay);
            },
            (EventDataDetails::StartLights(x1), EventDataDetails::StartLights(x2)) => {
                StartLights::lemma_wire_image_determines_value(x1, x2, pay);
            },
            (
                EventDataDetails::DriveThroughPenaltyServed(x1),
                EventDataDetails::DriveThroughPenaltyServed(x2),
            ) => {
                DriveThroughPenaltyServed::lemma_wire_image_determines_value(x1, x2, pay);
            },
            (
                EventDataDetails::StopGoPenaltyServed(x1),
                EventDataDetails::StopGoPenaltyServed(x2),
            ) => {
                StopGoPenaltyServed::lemma_wire_image_determines_value(x1, x2, pay);
            },
            (EventDataDetails::Flashback(x1), EventDataDetails::Flashback(x2)) => {
                Flashback::lemma_wire_image_determines_value(x1, x2, pay);
            },
            (EventDataDetails::Buttons(x1), EventDataDetails::Buttons(x2)) => {
                Buttons::lemma_wire_image_determines_value(x1, x2, pay);
            },
            (EventDataDetails::Overtake(x1), EventDataDetails::Overtake(x2)) => {
                Overtake::lemma_wire_image_determines_value(x1, x2, pay);
            },
            (EventDataDetails::Empty, EventDataDetails::Empty) => {},
            _ => {
                assert(false);
            },
        }
    }

    /// A packet has exactly one wire image.
    pub proof fn lemma_encoding_unique(p: Self, s1: Seq<u8>, s2: Seq<u8>)
        requires
            p.wf(),
            p.encodes(s1),
            p.encodes(s2),
        ensures
            s1 == s2,
    {
        let n = s1.len() as int;
        let pay1 = s1.subrange(33, n);
        let pay2 = s2.subrange(33, n);
        match p.event_details {
            EventDataDetails::FastestLap(x) => {
                FastestLap::lemma_encoding_unique(x, pay1, pay2);
            },
            EventDataDetails::Retirement(x) => {
                Retirement::lemma_encoding_unique(x, pay1, pay2);
            },
            EventDataDetails::TeamMateInPits(x) => {
                TeamMateInPits::lemma_encoding_unique(x, pay1, pay2);
            },
            EventDataDetails::RaceWinner(x) => {
                RaceWinner::lemma_encoding_unique(x, pay1, pay2);
            },
            EventDataDetails::Penalty(x) => {
                Penalty::lemma_encoding_unique(x, pay1, pay2);
            },
            EventDataDetails::SpeedTrap(x) => {
                SpeedTrap::lemma_encoding_unique(x, pay1, pay2);
            },
            EventDataDetails::StartLights(x) => {
                StartLights::lemma_encoding_unique(x, pay1, pay2);
            },
            EventDataDetails::DriveThroughPenaltyServed(x) => {
                DriveThroughPenaltyServed::lemma_encoding_unique(x, pay1, pay2);
            },
            EventDataDetails::StopGoPenaltyServed(x) => {
                StopGoPenaltyServed::lemma_encoding_unique(x, pay1, pay2);
            },
            EventDataDetails::Flashback(x) => {
                Flashback::lemma_encoding_unique(x, pay1, pay2);
            },
            EventDataDetails::Buttons(x) => {
                Buttons::lemma_encoding_unique(x, pay1, pay2);
            },
            EventDataDetails::Overtake(x) => {
                Overtake::lemma_encoding_unique(x, pay1, pay2);
            },
            EventDataDetails::Empty => {},
        }
        assert forall|i: int| 0 <= i < n implies s1[i] == s2[i] by {
            if i < 29 {
                PacketHeader::lemma_encoding_unique(
                    p.header, s1.subrange(0, 29), s2.subrange(0, 29));
                assert(s1.subrange(0, 29)[i] == s2.subrange(0, 29)[i]);
            } else if 33 <= i {
                assert(s1[i] == pay1[i - 33]);
                assert(s2[i] == pay2[i - 33]);
            }
        }
        assert(s1 =~= s2);
    }
}

impl PartialEq for PacketEventData {
    fn eq(&self, other: &Self) -> (r: bool) {
        self.header == other.header
            && eq_vec_u8(&self.event_string_code, &other.event_string_code)
            && self.event_details == other.event_details
    }
}

impl vstd::std_specs::cmp::PartialEqSpecImpl for PacketEventData {
    open spec fn obeys_eq_spec() -> bool {
        true
    }

    open spec fn eq_spec(&self, other: &Self) -> bool {
        self.same_as(*other)
    }
}

} // verus!
