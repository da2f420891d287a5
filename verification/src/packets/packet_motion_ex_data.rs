//! Extended motion data for the player car.

use vstd::prelude::*;
use crate::error::PacketError;
use crate::packets::packet_header::PacketHeader;
use crate::wire::{
    u32_b0,
    u32_b1,
    u32_b2,
    u32_b3,
    read_u32_at,
    write_u32,
    lemma_u32_reassemble,
    lemma_subrange_of_subrange,
    lemma_index_in_block,
    eq_vec_u32,
    read_u32_vec,
    write_u32_vec,
};

verus! {

/// Total encoded size of a `PacketMotionExData` packet, in bytes.
pub const PACKET_MOTION_EX_DATA_SIZE: usize = 217;

/// Extended motion data for the player car. (217 bytes on the wire).
///
/// Float fields are carried as their raw little-endian bit patterns,
/// which round-trip exactly.
#[derive(Debug, Clone)]
pub struct PacketMotionExData {
    pub header: PacketHeader, // 29 Bytes
    pub suspension_position: Vec<u32>, // 4 x 4 Bytes (float bits)
    pub suspension_velocity: Vec<u32>, // 4 x 4 Bytes (float bits)
    pub suspension_acceleration: Vec<u32>, // 4 x 4 Bytes (float bits)
    pub wheel_speed: Vec<u32>, // 4 x 4 Bytes (float bits)
    pub wheel_slip_ratio: Vec<u32>, // 4 x 4 Bytes (float bits)
    pub wheel_slip_angle: Vec<u32>, // 4 x 4 Bytes (float bits)
    pub wheel_lat_force: Vec<u32>, // 4 x 4 Bytes (float bits)
    pub wheel_long_force: Vec<u32>, // 4 x 4 Bytes (float bits)
    pub height_of_cog_above_ground: u32, // 4 Bytes (float bits)
    pub local_velocity_x: u32, // 4 Bytes (float bits)
    pub local_velocity_y: u32, // 4 Bytes (float bits)
    pub local_velocity_z: u32, // 4 Bytes (float bits)
    pub angular_velocity_x: u32, // 4 Bytes (float bits)
    pub angular_velocity_y: u32, // 4 Bytes (float bits)
    pub angular_velocity_z: u32, // 4 Bytes (float bits)
    pub angular_acceleration_x: u32, // 4 Bytes (float bits)
    pub angular_acceleration_y: u32, // 4 Bytes (float bits)
    pub angular_acceleration_z: u32, // 4 Bytes (float bits)
    pub front_wheels_angle: u32, // 4 Bytes (float bits)
    pub wheel_vert_force: Vec<u32>, // 4 x 4 Bytes (float bits)
} // 217 Bytes

impl PacketMotionExData {
    /// The fixed element counts that the wire layout prescribes.
    pub open spec fn wf(self) -> bool {
        &&& self.suspension_position@.len() == 4
        &&& self.suspension_velocity@.len() == 4
        &&& self.suspension_acceleration@.len() == 4
        &&& self.wheel_speed@.len() == 4
        &&& self.wheel_slip_ratio@.len() == 4
        &&& self.wheel_slip_angle@.len() == 4
        &&& self.wheel_lat_force@.len() == 4
        &&& self.wheel_long_force@.len() == 4
        &&& self.wheel_vert_force@.len() == 4
    }

    /// `s` is exactly the wire image of this packet.
    pub open spec fn encodes(self, s: Seq<u8>) -> bool {
        &&& s.len() == 217
        &&& self.header.encodes(s.subrange(0, 29))
        &&& forall|k: int| 0 <= k < 4 ==> {
            &&& u32_b0(#[trigger] self.suspension_position@[k]) == s[29 + 4 * k]
            &&& u32_b1(self.suspension_position@[k]) == s[29 + 4 * k + 1]
            &&& u32_b2(self.suspension_position@[k]) == s[29 + 4 * k + 2]
            &&& u32_b3(self.suspension_position@[k]) == s[29 + 4 * k + 3]
        }
        &&& forall|k: int| 0 <= k < 4 ==> {
            &&& u32_b0(#[trigger] self.suspension_velocity@[k]) == s[45 + 4 * k]
            &&& u32_b1(self.suspension_velocity@[k]) == s[45 + 4 * k + 1]
            &&& u32_b2(self.suspension_velocity@[k]) == s[45 + 4 * k + 2]
            &&& u32_b3(self.suspension_velocity@[k]) == s[45 + 4 * k + 3]
        }
        &&& forall|k: int| 0 <= k < 4 ==> {
            &&& u32_b0(#[trigger] self.suspension_acceleration@[k]) == s[61 + 4 * k]
            &&& u32_b1(self.suspension_acceleration@[k]) == s[61 + 4 * k + 1]
            &&& u32_b2(self.suspension_acceleration@[k]) == s[61 + 4 * k + 2]
            &&& u32_b3(self.suspension_acceleration@[k]) == s[61 + 4 * k + 3]
        }
        &&& forall|k: int| 0 <= k < 4 ==> {
            &&& u32_b0(#[trigger] self.wheel_speed@[k]) == s[77 + 4 * k]
            &&& u32_b1(self.wheel_speed@[k]) == s[77 + 4 * k + 1]
            &&& u32_b2(self.wheel_speed@[k]) == s[77 + 4 * k + 2]
            &&& u32_b3(self.wheel_speed@[k]) == s[77 + 4 * k + 3]
        }
        &&& forall|k: int| 0 <= k < 4 ==> {
            &&& u32_b0(#[trigger] self.wheel_slip_ratio@[k]) == s[93 + 4 * k]
            &&& u32_b1(self.wheel_slip_ratio@[k]) == s[93 + 4 * k + 1]
            &&& u32_b2(self.wheel_slip_ratio@[k]) == s[93 + 4 * k + 2]
            &&& u32_b3(self.wheel_slip_ratio@[k]) == s[93 + 4 * k + 3]
        }
        &&& forall|k: int| 0 <= k < 4 ==> {
            &&& u32_b0(#[trigger] self.wheel_slip_angle@[k]) == s[109 + 4 * k]
            &&& u32_b1(self.wheel_slip_angle@[k]) == s[109 + 4 * k + 1]
            &&& u32_b2(self.wheel_slip_angle@[k]) == s[109 + 4 * k + 2]
            &&& u32_b3(self.wheel_slip_angle@[k]) == s[109 + 4 * k + 3]
        }
        &&& forall|k: int| 0 <= k < 4 ==> {
            &&& u32_b0(#[trigger] self.wheel_lat_force@[k]) == s[125 + 4 * k]
            &&& u32_b1(self.wheel_lat_force@[k]) == s[125 + 4 * k + 1]
            &&& u32_b2(self.wheel_lat_force@[k]) == s[125 + 4 * k + 2]
            &&& u32_b3(self.wheel_lat_force@[k]) == s[125 + 4 * k + 3]
        }
        &&& forall|k: int| 0 <= k < 4 ==> {
            &&& u32_b0(#[trigger] self.wheel_long_force@[k]) == s[141 + 4 * k]
            &&& u32_b1(self.wheel_long_force@[k]) == s[141 + 4 * k + 1]
            &&& u32_b2(self.wheel_long_force@[k]) == s[141 + 4 * k + 2]
            &&& u32_b3(self.wheel_long_force@[k]) == s[141 + 4 * k + 3]
        }
        &&& s[157] == u32_b0(self.height_of_cog_above_ground)
        &&& s[158] == u32_b1(self.height_of_cog_above_ground)
        &&& s[159] == u32_b2(self.height_of_cog_above_ground)
        &&& s[160] == u32_b3(self.height_of_cog_above_ground)
        &&& s[161] == u32_b0(self.local_velocity_x)
        &&& s[162] == u32_b1(self.local_velocity_x)
        &&& s[163] == u32_b2(self.local_velocity_x)
        &&& s[164] == u32_b3(self.local_velocity_x)
        &&& s[165] == u32_b0(self.local_velocity_y)
        &&& s[166] == u32_b1(self.local_velocity_y)
        &&& s[167] == u32_b2(self.local_velocity_y)
        &&& s[168] == u32_b3(self.local_velocity_y)
        &&& s[169] == u32_b0(self.local_velocity_z)
        &&& s[170] == u32_b1(self.local_velocity_z)
        &&& s[171] == u32_b2(self.local_velocity_z)
        &&& s[172] == u32_b3(self.local_velocity_z)
        &&& s[173] == u32_b0(self.angular_velocity_x)
        &&& s[174] == u32_b1(self.angular_velocity_x)
        &&& s[175] == u32_b2(self.angular_velocity_x)
        &&& s[176] == u32_b3(self.angular_velocity_x)
        &&& s[177] == u32_b0(self.angular_velocity_y)
        &&& s[178] == u32_b1(self.angular_velocity_y)
        &&& s[179] == u32_b2(self.angular_velocity_y)
        &&& s[180] == u32_b3(self.angular_velocity_y)
        &&& s[181] == u32_b0(self.angular_velocity_z)
        &&& s[182] == u32_b1(self.angular_velocity_z)
        &&& s[183] == u32_b2(self.angular_velocity_z)
        &&& s[184] == u32_b3(self.angular_velocity_z)
        &&& s[185] == u32_b0(self.angular_acceleration_x)
        &&& s[186] == u32_b1(self.angular_acceleration_x)
        &&& s[187] == u32_b2(self.angular_acceleration_x)
        &&& s[188] == u32_b3(self.angular_acceleration_x)
        &&& s[189] == u32_b0(self.angular_acceleration_y)
        &&& s[190] == u32_b1(self.angular_acceleration_y)
        &&& s[191] == u32_b2(self.angular_acceleration_y)
        &&& s[192] == u32_b3(self.angular_acceleration_y)
        &&& s[193] == u32_b0(self.angular_acceleration_z)
        &&& s[194] == u32_b1(self.angular_acceleration_z)
        &&& s[195] == u32_b2(self.angular_acceleration_z)
        &&& s[196] == u32_b3(self.angular_acceleration_z)
        &&& s[197] == u32_b0(self.front_wheels_angle)
        &&& s[198] == u32_b1(self.front_wheels_angle)
        &&& s[199] == u32_b2(self.front_wheels_angle)
        &&& s[200] == u32_b3(self.front_wheels_angle)
        &&& forall|k: int| 0 <= k < 4 ==> {
            &&& u32_b0(#[trigger] self.wheel_vert_force@[k]) == s[201 + 4 * k]
            &&& u32_b1(self.wheel_vert_force@[k]) == s[201 + 4 * k + 1]
            &&& u32_b2(self.wheel_vert_force@[k]) == s[201 + 4 * k + 2]
            &&& u32_b3(self.wheel_vert_force@[k]) == s[201 + 4 * k + 3]
        }
    }

    /// Field-for-field equality; record arrays compare element-wise.
    pub open spec fn same_as(self, other: Self) -> bool {
        &&& self.header == other.header
        &&& self.suspension_position@ == other.suspension_position@
        &&& self.suspension_velocity@ == other.suspension_velocity@
        &&& self.suspension_acceleration@ == other.suspension_acceleration@
        &&& self.wheel_speed@ == other.wheel_speed@
        &&& self.wheel_slip_ratio@ == other.wheel_slip_ratio@
        &&& self.wheel_slip_angle@ == other.wheel_slip_angle@
        &&& self.wheel_lat_force@ == other.wheel_lat_force@
        &&& self.wheel_long_force@ == other.wheel_long_force@
        &&& self.height_of_cog_above_ground == other.height_of_cog_above_ground
        &&& self.local_velocity_x == other.local_velocity_x
        &&& self.local_velocity_y == other.local_velocity_y
        &&& self.local_velocity_z == other.local_velocity_z
        &&& self.angular_velocity_x == other.angular_velocity_x
        &&& self.angular_velocity_y == other.angular_velocity_y
        &&& self.angular_velocity_z == other.angular_velocity_z
        &&& self.angular_acceleration_x == other.angular_acceleration_x
        &&& self.angular_acceleration_y == other.angular_acceleration_y
        &&& self.angular_acceleration_z == other.angular_acceleration_z
        &&& self.front_wheels_angle == other.front_wheels_angle
        &&& self.wheel_vert_force@ == other.wheel_vert_force@
    }

    /// Decode a packet from the first 217 bytes of `bytes`.
    ///
    /// Succeeds exactly when at least 217 bytes are supplied; trailing
    /// bytes are ignored.
    pub fn unserialize(bytes: &[u8]) -> (r: Result<Self, PacketError>)
        ensures
            match r {
                Ok(p) => bytes@.len() >= 217 && p.wf() && p.encodes(
                    bytes@.subrange(0, 217),
                ),
                Err(e) => bytes@.len() < 217 && e == PacketError::TruncatedInput,
            },
    {
        if bytes.len() < PACKET_MOTION_EX_DATA_SIZE {
            return Err(PacketError::TruncatedInput);
        }
        let header = PacketHeader::read_at(bytes, 0);
        let suspension_position = read_u32_vec(bytes, 29, 4);
        let suspension_velocity = read_u32_vec(bytes, 45, 4);
        let suspension_acceleration = read_u32_vec(bytes, 61, 4);
        let wheel_speed = read_u32_vec(bytes, 77, 4);
        let wheel_slip_ratio = read_u32_vec(bytes, 93, 4);
        let wheel_slip_angle = read_u32_vec(bytes, 109, 4);
        let wheel_lat_force = read_u32_vec(bytes, 125, 4);
        let wheel_long_force = read_u32_vec(bytes, 141, 4);
        let height_of_cog_above_ground = read_u32_at(bytes, 157);
        let local_velocity_x = read_u32_at(bytes, 161);
        let local_velocity_y = read_u32_at(bytes, 165);
        let local_velocity_z = read_u32_at(bytes, 169);
        let angular_velocity_x = read_u32_at(bytes, 173);
        let angular_velocity_y = read_u32_at(bytes, 177);
        let angular_velocity_z = read_u32_at(bytes, 181);
        let angular_acceleration_x = read_u32_at(bytes, 185);
        let angular_acceleration_y = read_u32_at(bytes, 189);
        let angular_acceleration_z = read_u32_at(bytes, 193);
        let front_wheels_angle = read_u32_at(bytes, 197);
        let wheel_vert_force = read_u32_vec(bytes, 201, 4);
        let p = PacketMotionExData {
            header,
            suspension_position,
            suspension_velocity,
            suspension_acceleration,
            wheel_speed,
            wheel_slip_ratio,
            wheel_slip_angle,
            wheel_lat_force,
            wheel_long_force,
            height_of_cog_above_ground,
            local_velocity_x,
            local_velocity_y,
            local_velocity_z,
            angular_velocity_x,
            angular_velocity_y,
            angular_velocity_z,
            angular_acceleration_x,
            angular_acceleration_y,
            angular_acceleration_z,
            front_wheels_angle,
            wheel_vert_force,
        };
        proof {
            let s = bytes@.subrange(0, 217);
            lemma_subrange_of_subrange(bytes@, 0, 217, 0, 29);
            assert(p.encodes(s));
        }
        Ok(p)
    }

    /// Append the wire image of this packet to `out`.
    #[verifier::rlimit(100)]
    pub fn write_into(&self, out: &mut Vec<u8>)
        requires
            self.wf(),
        ensures
            final(out)@.len() == old(out)@.len() + PACKET_MOTION_EX_DATA_SIZE,
            final(out)@.subrange(0, old(out)@.len() as int) == old(out)@,
            self.encodes(
                final(out)@.subrange(old(out)@.len() as int, final(out)@.len() as int),
            ),
    {
        let ghost base: int = out@.len() as int;
        let ghost start = out@;
        self.header.write_into(out);
        let ghost after_header = out@;
        let ghost prev_suspension_position = out@;
        write_u32_vec(out, &self.suspension_position);
        proof {
            assert forall|t: int| 0 <= t < prev_suspension_position.len() implies (#[trigger] out@[t]) == prev_suspension_position[t] by {
                assert(prev_suspension_position[t] == out@.subrange(0, prev_suspension_position.len() as int)[t]);
            }
        }
        let ghost prev_suspension_velocity = out@;
        write_u32_vec(out, &self.suspension_velocity);
        proof {
            assert forall|t: int| 0 <= t < prev_suspension_velocity.len() implies (#[trigger] out@[t]) == prev_suspension_velocity[t] by {
                assert(prev_suspension_velocity[t] == out@.subrange(0, prev_suspension_velocity.len() as int)[t]);
            }
        }
        let ghost prev_suspension_acceleration = out@;
        write_u32_vec(out, &self.suspension_acceleration);
        proof {
            assert forall|t: int| 0 <= t < prev_suspension_acceleration.len() implies (#[trigger] out@[t]) == prev_suspension_acceleration[t] by {
                assert(prev_suspension_acceleration[t] == out@.subrange(0, prev_suspension_acceleration.len() as int)[t]);
            }
        }
        let ghost prev_wheel_speed = out@;
        write_u32_vec(out, &self.wheel_speed);
        proof {
            assert forall|t: int| 0 <= t < prev_wheel_speed.len() implies (#[trigger] out@[t]) == prev_wheel_speed[t] by {
                assert(prev_wheel_speed[t] == out@.subrange(0, prev_wheel_speed.len() as int)[t]);
            }
        }
        let ghost prev_wheel_slip_ratio = out@;
        write_u32_vec(out, &self.wheel_slip_ratio);
        proof {
            assert forall|t: int| 0 <= t < prev_wheel_slip_ratio.len() implies (#[trigger] out@[t]) == prev_wheel_slip_ratio[t] by {
                assert(prev_wheel_slip_ratio[t] == out@.subrange(0, prev_wheel_slip_ratio.len() as int)[t]);
            }
        }
        let ghost prev_wheel_slip_angle = out@;
        write_u32_vec(out, &self.wheel_slip_angle);
        proof {
            assert forall|t: int| 0 <= t < prev_wheel_slip_angle.len() implies (#[trigger] out@[t]) == prev_wheel_slip_angle[t] by {
                assert(prev_wheel_slip_angle[t] == out@.subrange(0, prev_wheel_slip_angle.len() as int)[t]);
            }
        }
        let ghost prev_wheel_lat_force = out@;
        write_u32_vec(out, &self.wheel_lat_force);
        proof {
            assert forall|t: int| 0 <= t < prev_wheel_lat_force.len() implies (#[trigger] out@[t]) == prev_wheel_lat_force[t] by {
                assert(prev_wheel_lat_force[t] == out@.subrange(0, prev_wheel_lat_force.len() as int)[t]);
            }
        }
        let ghost prev_wheel_long_force = out@;
        write_u32_vec(out, &self.wheel_long_force);
        proof {
            assert forall|t: int| 0 <= t < prev_wheel_long_force.len() implies (#[trigger] out@[t]) == prev_wheel_long_force[t] by {
                assert(prev_wheel_long_force[t] == out@.subrange(0, prev_wheel_long_force.len() as int)[t]);
            }
        }
        let ghost prev_height_of_cog_above_ground = out@;
        self.write_scalars_from_height_of_cog_above_ground(out);
        proof {
            assert forall|t: int| 0 <= t < prev_height_of_cog_above_ground.len() implies (#[trigger] out@[t]) == prev_height_of_cog_above_ground[t] by {
                assert(prev_height_of_cog_above_ground[t] == out@.subrange(0, prev_height_of_cog_above_ground.len() as int)[t]);
            }
        }
        let ghost prev_wheel_vert_force = out@;
        write_u32_vec(out, &self.wheel_vert_force);
        proof {
            assert forall|t: int| 0 <= t < prev_wheel_vert_force.len() implies (#[trigger] out@[t]) == prev_wheel_vert_force[t] by {
                assert(prev_wheel_vert_force[t] == out@.subrange(0, prev_wheel_vert_force.len() as int)[t]);
            }
        }
        proof {
            assert forall|t: int| 0 <= t < after_header.len() implies (#[trigger] out@[t]) == after_header[t] by {}
            assert(out@.subrange(base, base + 29) =~= after_header.subrange(base, base + 29));
            let s = out@.subrange(base, base + 217);
            lemma_subrange_of_subrange(out@, base, 217, 0, 29);
            assert(self.encodes(s));
            assert(out@.subrange(0, base) =~= start);
        }
    }

    /// Append the run of scalar fields starting with `height_of_cog_above_ground`.
    fn write_scalars_from_height_of_cog_above_ground(&self, out: &mut Vec<u8>)
        ensures
            final(out)@.len() == old(out)@.len() + 44,
            final(out)@.subrange(0, old(out)@.len() as int) == old(out)@,
            ({
                let base = old(out)@.len() as int;
                &&& final(out)@[base + 0] == u32_b0(self.height_of_cog_above_ground)
                &&& final(out)@[base + 1] == u32_b1(self.height_of_cog_above_ground)
                &&& final(out)@[base + 2] == u32_b2(self.height_of_cog_above_ground)
                &&& final(out)@[base + 3] == u32_b3(self.height_of_cog_above_ground)
                &&& final(out)@[base + 4] == u32_b0(self.local_velocity_x)
                &&& final(out)@[base + 5] == u32_b1(self.local_velocity_x)
                &&& final(out)@[base + 6] == u32_b2(self.local_velocity_x)
                &&& final(out)@[base + 7] == u32_b3(self.local_velocity_x)
                &&& final(out)@[base + 8] == u32_b0(self.local_velocity_y)
                &&& final(out)@[base + 9] == u32_b1(self.local_velocity_y)
                &&& final(out)@[base + 10] == u32_b2(self.local_velocity_y)
                &&& final(out)@[base + 11] == u32_b3(self.local_velocity_y)
                &&& final(out)@[base + 12] == u32_b0(self.local_velocity_z)
                &&& final(out)@[base + 13] == u32_b1(self.local_velocity_z)
                &&& final(out)@[base + 14] == u32_b2(self.local_velocity_z)
                &&& final(out)@[base + 15] == u32_b3(self.local_velocity_z)
                &&& final(out)@[base + 16] == u32_b0(self.angular_velocity_x)
                &&& final(out)@[base + 17] == u32_b1(self.angular_velocity_x)
                &&& final(out)@[base + 18] == u32_b2(self.angular_velocity_x)
                &&& final(out)@[base + 19] == u32_b3(self.angular_velocity_x)
                &&& final(out)@[base + 20] == u32_b0(self.angular_velocity_y)
                &&& final(out)@[base + 21] == u32_b1(self.angular_velocity_y)
                &&& final(out)@[base + 22] == u32_b2(self.angular_velocity_y)
                &&& final(out)@[base + 23] == u32_b3(self.angular_velocity_y)
                &&& final(out)@[base + 24] == u32_b0(self.angular_velocity_z)
                &&& final(out)@[base + 25] == u32_b1(self.angular_velocity_z)
                &&& final(out)@[base + 26] == u32_b2(self.angular_velocity_z)
                &&& final(out)@[base + 27] == u32_b3(self.angular_velocity_z)
                &&& final(out)@[base + 28] == u32_b0(self.angular_acceleration_x)
                &&& final(out)@[base + 29] == u32_b1(self.angular_acceleration_x)
                &&& final(out)@[base + 30] == u32_b2(self.angular_acceleration_x)
                &&& final(out)@[base + 31] == u32_b3(self.angular_acceleration_x)
                &&& final(out)@[base + 32] == u32_b0(self.angular_acceleration_y)
                &&& final(out)@[base + 33] == u32_b1(self.angular_acceleration_y)
                &&& final(out)@[base + 34] == u32_b2(self.angular_acceleration_y)
                &&& final(out)@[base + 35] == u32_b3(self.angular_acceleration_y)
                &&& final(out)@[base + 36] == u32_b0(self.angular_acceleration_z)
                &&& final(out)@[base + 37] == u32_b1(self.angular_acceleration_z)
                &&& final(out)@[base + 38] == u32_b2(self.angular_acceleration_z)
                &&& final(out)@[base + 39] == u32_b3(self.angular_acceleration_z)
                &&& final(out)@[base + 40] == u32_b0(self.front_wheels_angle)
                &&& final(out)@[base + 41] == u32_b1(self.front_wheels_angle)
                &&& final(out)@[base + 42] == u32_b2(self.front_wheels_angle)
                &&& final(out)@[base + 43] == u32_b3(self.front_wheels_angle)
            }),
    {
        write_u32(out, self.height_of_cog_above_ground);
        write_u32(out, self.local_velocity_x);
        write_u32(out, self.local_velocity_y);
        write_u32(out, self.local_velocity_z);
        write_u32(out, self.angular_velocity_x);
        write_u32(out, self.angular_velocity_y);
        write_u32(out, self.angular_velocity_z);
        write_u32(out, self.angular_acceleration_x);
        write_u32(out, self.angular_acceleration_y);
        write_u32(out, self.angular_acceleration_z);
        write_u32(out, self.front_wheels_angle);
        proof {
            let base = old(out)@.len() as int;
            assert(out@.subrange(0, base) =~= old(out)@);
        }
    }

    /// Encode this packet as its fixed 217-byte wire image.
    pub fn serialize(&self) -> (r: Vec<u8>)
        requires
            self.wf(),
        ensures
            r@.len() == PACKET_MOTION_EX_DATA_SIZE,
            self.encodes(r@),
    {
        let mut out: Vec<u8> = Vec::new();
        self.write_into(&mut out);
        proof {
            assert(out@.subrange(0, 217) =~= out@);
        }
        out
    }

    #[verifier::rlimit(100)]
    /// A wire image determines the packet: decoding is unambiguous, and
    /// decoding the image written by `serialize` gives the value back.
    pub proof fn lemma_wire_image_determines_value(p1: Self, p2: Self, s: Seq<u8>)
        requires
            p1.wf(),
            p2.wf(),
            p1.encodes(s),
            p2.encodes(s),
        ensures
            p1.same_as(p2),
    {
        PacketHeader::lemma_wire_image_determines_value(
            p1.header, p2.header, s.subrange(0, 29));
        assert forall|k: int| 0 <= k < 4 implies
            #[trigger] p1.suspension_position@[k] == p2.suspension_position@[k] by {
            lemma_u32_reassemble(p1.suspension_position@[k]);
            lemma_u32_reassemble(p2.suspension_position@[k]);
        }
        assert(p1.suspension_position@ =~= p2.suspension_position@);
        assert forall|k: int| 0 <= k < 4 implies
            #[trigger] p1.suspension_velocity@[k] == p2.suspension_velocity@[k] by {
            lemma_u32_reassemble(p1.suspension_velocity@[k]);
            lemma_u32_reassemble(p2.suspension_velocity@[k]);
        }
        assert(p1.suspension_velocity@ =~= p2.suspension_velocity@);
        assert forall|k: int| 0 <= k < 4 implies
            #[trigger] p1.suspension_acceleration@[k] == p2.suspension_acceleration@[k] by {
            lemma_u32_reassemble(p1.suspension_acceleration@[k]);
            lemma_u32_reassemble(p2.suspension_acceleration@[k]);
        }
        assert(p1.suspension_acceleration@ =~= p2.suspension_acceleration@);
        assert forall|k: int| 0 <= k < 4 implies
            #[trigger] p1.wheel_speed@[k] == p2.wheel_speed@[k] by {
            lemma_u32_reassemble(p1.wheel_speed@[k]);
            lemma_u32_reassemble(p2.wheel_speed@[k]);
        }
        assert(p1.wheel_speed@ =~= p2.wheel_speed@);
        assert forall|k: int| 0 <= k < 4 implies
            #[trigger] p1.wheel_slip_ratio@[k] == p2.wheel_slip_ratio@[k] by {
            lemma_u32_reassemble(p1.wheel_slip_ratio@[k]);
            lemma_u32_reassemble(p2.wheel_slip_ratio@[k]);
        }
        assert(p1.wheel_slip_ratio@ =~= p2.wheel_slip_ratio@);
        assert forall|k: int| 0 <= k < 4 implies
            #[trigger] p1.wheel_slip_angle@[k] == p2.wheel_slip_angle@[k] by {
            lemma_u32_reassemble(p1.wheel_slip_angle@[k]);
            lemma_u32_reassemble(p2.wheel_slip_angle@[k]);
        }
        assert(p1.wheel_slip_angle@ =~= p2.wheel_slip_angle@);
        assert forall|k: int| 0 <= k < 4 implies
            #[trigger] p1.wheel_lat_force@[k] == p2.wheel_lat_force@[k] by {
            lemma_u32_reassemble(p1.wheel_lat_force@[k]);
            lemma_u32_reassemble(p2.wheel_lat_force@[k]);
        }
        assert(p1.wheel_lat_force@ =~= p2.wheel_lat_force@);
        assert forall|k: int| 0 <= k < 4 implies
            #[trigger] p1.wheel_long_force@[k] == p2.wheel_long_force@[k] by {
            lemma_u32_reassemble(p1.wheel_long_force@[k]);
            lemma_u32_reassemble(p2.wheel_long_force@[k]);
        }
        assert(p1.wheel_long_force@ =~= p2.wheel_long_force@);
        lemma_u32_reassemble(p1.height_of_cog_above_ground);
        lemma_u32_reassemble(p2.height_of_cog_above_ground);
        lemma_u32_reassemble(p1.local_velocity_x);
        lemma_u32_reassemble(p2.local_velocity_x);
        lemma_u32_reassemble(p1.local_velocity_y);
        lemma_u32_reassemble(p2.local_velocity_y);
        lemma_u32_reassemble(p1.local_velocity_z);
        lemma_u32_reassemble(p2.local_velocity_z);
        lemma_u32_reassemble(p1.angular_velocity_x);
        lemma_u32_reassemble(p2.angular_velocity_x);
        lemma_u32_reassemble(p1.angular_velocity_y);
        lemma_u32_reassemble(p2.angular_velocity_y);
        lemma_u32_reassemble(p1.angular_velocity_z);
        lemma_u32_reassemble(p2.angular_velocity_z);
        lemma_u32_reassemble(p1.angular_acceleration_x);
        lemma_u32_reassemble(p2.angular_acceleration_x);
        lemma_u32_reassemble(p1.angular_acceleration_y);
        lemma_u32_reassemble(p2.angular_acceleration_y);
        lemma_u32_reassemble(p1.angular_acceleration_z);
        lemma_u32_reassemble(p2.angular_acceleration_z);
        lemma_u32_reassemble(p1.front_wheels_angle);
        lemma_u32_reassemble(p2.front_wheels_angle);
        assert forall|k: int| 0 <= k < 4 implies
            #[trigger] p1.wheel_vert_force@[k] == p2.wheel_vert_force@[k] by {
            lemma_u32_reassemble(p1.wheel_vert_force@[k]);
            lemma_u32_reassemble(p2.wheel_vert_force@[k]);
        }
        assert(p1.wheel_vert_force@ =~= p2.wheel_vert_force@);
    }

    /// A packet has exactly one wire image.
    pub proof fn lemma_encoding_unique(p: Self, s1: Seq<u8>, s2: Seq<u8>)
        requires
            p.wf(),
            p.encodes(s1),
            p.encodes(s2),
        ensures
            s1 == s2,
    {
        assert forall|i: int| 0 <= i < 217 implies s1[i] == s2[i] by {
            if i < 29 {
                PacketHeader::lemma_encoding_unique(
                    p.header, s1.subrange(0, 29), s2.subrange(0, 29));
                assert(s1.subrange(0, 29)[i] == s2.subrange(0, 29)[i]);
            }
            if 29 <= i < 45 {
                lemma_index_in_block(29, 4, 4, i);
                let k = (i - 29) / 4;
                assert(u32_b0(p.suspension_position@[k]) == s1[29 + 4 * k]);
                assert(u32_b0(p.suspension_position@[k]) == s2[29 + 4 * k]);
            }
            if 45 <= i < 61 {
                lemma_index_in_block(45, 4, 4, i);
                let k = (i - 45) / 4;
                assert(u32_b0(p.suspension_velocity@[k]) == s1[45 + 4 * k]);
                assert(u32_b0(p.suspension_velocity@[k]) == s2[45 + 4 * k]);
            }
            if 61 <= i < 77 {
                lemma_index_in_block(61, 4, 4, i);
                let k = (i - 61) / 4;
                assert(u32_b0(p.suspension_acceleration@[k]) == s1[61 + 4 * k]);
                assert(u32_b0(p.suspension_acceleration@[k]) == s2[61 + 4 * k]);
            }
            if 77 <= i < 93 {
                lemma_index_in_block(77, 4, 4, i);
                let k = (i - 77) / 4;
                assert(u32_b0(p.wheel_speed@[k]) == s1[77 + 4 * k]);
                assert(u32_b0(p.wheel_speed@[k]) == s2[77 + 4 * k]);
            }
            if 93 <= i < 109 {
                lemma_index_in_block(93, 4, 4, i);
                let k = (i - 93) / 4;
                assert(u32_b0(p.wheel_slip_ratio@[k]) == s1[93 + 4 * k]);
                assert(u32_b0(p.wheel_slip_ratio@[k]) == s2[93 + 4 * k]);
            }
            if 109 <= i < 125 {
                lemma_index_in_block(109, 4, 4, i);
                let k = (i - 109) / 4;
                assert(u32_b0(p.wheel_slip_angle@[k]) == s1[109 + 4 * k]);
                assert(u32_b0(p.wheel_slip_angle@[k]) == s2[109 + 4 * k]);
            }
            if 125 <= i < 141 {
                lemma_index_in_block(125, 4, 4, i);
                let k = (i - 125) / 4;
                assert(u32_b0(p.wheel_lat_force@[k]) == s1[125 + 4 * k]);
                assert(u32_b0(p.wheel_lat_force@[k]) == s2[125 + 4 * k]);
            }
            if 141 <= i < 157 {
                lemma_index_in_block(141, 4, 4, i);
                let k = (i - 141) / 4;
                assert(u32_b0(p.wheel_long_force@[k]) == s1[141 + 4 * k]);
                assert(u32_b0(p.wheel_long_force@[k]) == s2[141 + 4 * k]);
            }
            if 201 <= i < 217 {
                lemma_index_in_block(201, 4, 4, i);
                let k = (i - 201) / 4;
                assert(u32_b0(p.wheel_vert_force@[k]) == s1[201 + 4 * k]);
                assert(u32_b0(p.wheel_vert_force@[k]) == s2[201 + 4 * k]);
            }
        }
        assert(s1 =~= s2);
    }
}

impl PartialEq for PacketMotionExData {
    fn eq(&self, other: &Self) -> (r: bool) {
        self.header == other.header
            && eq_vec_u32(&self.suspension_position, &other.suspension_position)
            && eq_vec_u32(&self.suspension_velocity, &other.suspension_velocity)
            && eq_vec_u32(&self.suspension_acceleration, &other.suspension_acceleration)
            && eq_vec_u32(&self.wheel_speed, &other.wheel_speed)
            && eq_vec_u32(&self.wheel_slip_ratio, &other.wheel_slip_ratio)
            && eq_vec_u32(&self.wheel_slip_angle, &other.wheel_slip_angle)
            && eq_vec_u32(&self.wheel_lat_force, &other.wheel_lat_force)
            && eq_vec_u32(&self.wheel_long_force, &other.wheel_long_force)
            && self.height_of_cog_above_ground == other.height_of_cog_above_ground
            && self.local_velocity_x == other.local_velocity_x
            && self.local_velocity_y == other.local_velocity_y
            && self.local_velocity_z == other.local_velocity_z
            && self.angular_velocity_x == other.angular_velocity_x
            && self.angular_velocity_y == other.angular_velocity_y
            && self.angular_velocity_z == other.angular_velocity_z
            && self.angular_acceleration_x == other.angular_acceleration_x
            && self.angular_acceleration_y == other.angular_acceleration_y
            && self.angular_acceleration_z == other.angular_acceleration_z
            && self.front_wheels_angle == other.front_wheels_angle
            && eq_vec_u32(&self.wheel_vert_force, &other.wheel_vert_force)
    }
}

impl vstd::std_specs::cmp::PartialEqSpecImpl for PacketMotionExData {
    open spec fn obeys_eq_spec() -> bool {
        true
    }

    open spec fn eq_spec(&self, other: &Self) -> bool {
        self.same_as(*other)
    }
}

impl Default for PacketMotionExData {
    /// The all-zero packet, with every array at its fixed length.
    fn default() -> (r: Self)
        ensures
            r.wf(),
    {
        let mut suspension_position: Vec<u32> = Vec::new();
        suspension_position.push(0);
        suspension_position.push(0);
        suspension_position.push(0);
        suspension_position.push(0);
        let mut suspension_velocity: Vec<u32> = Vec::new();
        suspension_velocity.push(0);
        suspension_velocity.push(0);
        suspension_velocity.push(0);
        suspension_velocity.push(0);
        let mut suspension_acceleration: Vec<u32> = Vec::new();
        suspension_acceleration.push(0);
        suspension_acceleration.push(0);
        suspension_acceleration.push(0);
        suspension_acceleration.push(0);
        let mut wheel_speed: Vec<u32> = Vec::new();
        wheel_speed.push(0);
        wheel_speed.push(0);
        wheel_speed.push(0);
        wheel_speed.push(0);
        let mut wheel_slip_ratio: Vec<u32> = Vec::new();
        wheel_slip_ratio.push(0);
        wheel_slip_ratio.push(0);
        wheel_slip_ratio.push(0);
        wheel_slip_ratio.push(0);
        let mut wheel_slip_angle: Vec<u32> = Vec::new();
        wheel_slip_angle.push(0);
        wheel_slip_angle.push(0);
        wheel_slip_angle.push(0);
        wheel_slip_angle.push(0);
        let mut wheel_lat_force: Vec<u32> = Vec::new();
        wheel_lat_force.push(0);
        wheel_lat_force.push(0);
        wheel_lat_force.push(0);
        wheel_lat_force.push(0);
        let mut wheel_long_force: Vec<u32> = Vec::new();
        wheel_long_force.push(0);
        wheel_long_force.push(0);
        wheel_long_force.push(0);
        wheel_long_force.push(0);
        let mut wheel_vert_force: Vec<u32> = Vec::new();
        wheel_vert_force.push(0);
        wheel_vert_force.push(0);
        wheel_vert_force.push(0);
        wheel_vert_force.push(0);
        PacketMotionExData {
            header: PacketHeader::default(),
            suspension_position,
            suspension_velocity,
            suspension_acceleration,
            wheel_speed,
            wheel_slip_ratio,
            wheel_slip_angle,
            wheel_lat_force,
            wheel_long_force,
            height_of_cog_above_ground: 0,
            local_velocity_x: 0,
            local_velocity_y: 0,
            local_velocity_z: 0,
            angular_velocity_x: 0,
            angular_velocity_y: 0,
            angular_velocity_z: 0,
            angular_acceleration_x: 0,
            angular_acceleration_y: 0,
            angular_acceleration_z: 0,
            front_wheels_angle: 0,
            wheel_vert_force,
        }
    }
}

} // verus!
