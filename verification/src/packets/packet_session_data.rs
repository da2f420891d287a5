//! Session state: track, weather and assists.

use vstd::prelude::*;
use crate::error::PacketError;
use crate::packets::packet_header::PacketHeader;
use crate::wire::{
    i8_b0,
    u16_b0,
    u16_b1,
    u32_b0,
    u32_b1,
    u32_b2,
    u32_b3,
    read_u8_at,
    read_i8_at,
    read_u16_at,
    read_u32_at,
    write_u8,
    write_i8,
    write_u16,
    write_u32,
    lemma_u16_reassemble,
    lemma_u32_reassemble,
    lemma_i8_b0_injective,
    lemma_subrange_of_prefix,
    lemma_subrange_of_subrange,
    lemma_index_in_block,
};

verus! {

/// Total encoded size of one `MarshalZone` record, in bytes.
pub const MARSHAL_ZONE_SIZE: usize = 5;

/// Total encoded size of one `WeatherForecastSample` record, in bytes.
pub const WEATHER_FORECAST_SAMPLE_SIZE: usize = 8;

/// Total encoded size of a `PacketSessionData` packet, in bytes.
pub const PACKET_SESSION_DATA_SIZE: usize = 644;

/// One fixed-size `MarshalZone` sub-record (5 bytes on the wire).
///
/// Float fields are carried as their raw little-endian bit patterns,
/// which round-trip exactly.
#[derive(Debug, Clone, Copy, PartialEq, Eq, Structural)]
pub struct MarshalZone {
    pub zone_start: u32, // 4 Bytes (float bits)
    pub zone_flag: i8, // 1 Byte
} // 5 Bytes

impl MarshalZone {
    /// `s` is exactly the wire image of this record.
    pub open spec fn encodes(self, s: Seq<u8>) -> bool {
        &&& s.len() == 5
        &&& s[0] == u32_b0(self.zone_start)
        &&& s[1] == u32_b1(self.zone_start)
        &&& s[2] == u32_b2(self.zone_start)
        &&& s[3] == u32_b3(self.zone_start)
        &&& s[4] == i8_b0(self.zone_flag)
    }

    /// Decode the record stored at `off`.
    pub fn read_at(b: &[u8], off: usize) -> (r: Self)
        requires
            off + MARSHAL_ZONE_SIZE <= b@.len(),
        ensures
            r.encodes(b@.subrange(off as int, off + MARSHAL_ZONE_SIZE)),
    {
        let _len = b.len(); // the verifier learns the slice length fits in usize
        let zone_start = read_u32_at(b, off);
        let zone_flag = read_i8_at(b, off + 4);
        let r = MarshalZone {
            zone_start,
            zone_flag,
        };
        proof {
            assert(r.encodes(b@.subrange(off as int, off + MARSHAL_ZONE_SIZE)));
        }
        r
    }

    /// Append the wire image of this record to `out`.
    pub fn write_into(&self, out: &mut Vec<u8>)
        ensures
            final(out)@.len() == old(out)@.len() + MARSHAL_ZONE_SIZE,
            final(out)@.subrange(0, old(out)@.len() as int) == old(out)@,
            self.encodes(
                final(out)@.subrange(old(out)@.len() as int, final(out)@.len() as int),
            ),
    {
        write_u32(out, self.zone_start);
        write_i8(out, self.zone_flag);
        proof {
            let base = old(out)@.len() as int;
            assert(out@.subrange(0, base) =~= old(out)@);
            assert(self.encodes(out@.subrange(base, base + 5)));
        }
    }

    /// Encode this record as its fixed 5-byte wire image.
    pub fn serialize(&self) -> (r: Vec<u8>)
        ensures
            r@.len() == MARSHAL_ZONE_SIZE,
            self.encodes(r@),
    {
        let mut out: Vec<u8> = Vec::new();
        self.write_into(&mut out);
        proof {
            assert(out@.subrange(0, 5) =~= out@);
        }
        out
    }

    /// Decode a record from the first 5 bytes of `bytes`.
    ///
    /// Succeeds exactly when at least 5 bytes are supplied; trailing
    /// bytes are ignored.
    pub fn unserialize(bytes: &[u8]) -> (r: Result<Self, PacketError>)
        ensures
            match r {
                Ok(p) => bytes@.len() >= 5 && p.encodes(
                    bytes@.subrange(0, 5),
                ),
                Err(e) => bytes@.len() < 5 && e == PacketError::TruncatedInput,
            },
    {
        if bytes.len() < MARSHAL_ZONE_SIZE {
            return Err(PacketError::TruncatedInput);
        }
        Ok(Self::read_at(bytes, 0))
    }

    /// A wire image determines the record: decoding is unambiguous, and
    /// decoding the image written by `serialize` gives the value back.
    pub proof fn lemma_wire_image_determines_value(r1: Self, r2: Self, s: Seq<u8>)
        requires
            r1.encodes(s),
            r2.encodes(s),
        ensures
            r1 == r2,
    {
        lemma_u32_reassemble(r1.zone_start);
        lemma_u32_reassemble(r2.zone_start);
        lemma_i8_b0_injective(r1.zone_flag, r2.zone_flag);
    }

    /// A record has exactly one wire image.
    pub proof fn lemma_encoding_unique(r: Self, s1: Seq<u8>, s2: Seq<u8>)
        requires
            r.encodes(s1),
            r.encodes(s2),
        ensures
            s1 == s2,
    {
        assert(s1 =~= s2);
    }
}

impl Default for MarshalZone {
    /// The all-zero record.
    fn default() -> (r: Self)
        ensures
            (r == MarshalZone {
                zone_start: 0,
                zone_flag: 0,
            }),
    {
        MarshalZone {
            zone_start: 0,
            zone_flag: 0,
        }
    }
}

/// One fixed-size `WeatherForecastSample` sub-record (8 bytes on the wire).
#[derive(Debug, Clone, Copy, PartialEq, Eq, Structural)]
pub struct WeatherForecastSample {
    pub session_type: u8, // 1 Byte
    pub time_offset: u8, // 1 Byte
    pub weather: u8, // 1 Byte
    pub track_temperature: i8, // 1 Byte
    pub track_temperature_change: i8, // 1 Byte
    pub air_temperature: i8, // 1 Byte
    pub air_temperature_change: i8, // 1 Byte
    pub rain_percentage: u8, // 1 Byte
} // 8 Bytes

impl WeatherForecastSample {
    /// `s` is exactly the wire image of this record.
    pub open spec fn encodes(self, s: Seq<u8>) -> bool {
        &&& s.len() == 8
        &&& s[0] == self.session_type
        &&& s[1] == self.time_offset
        &&& s[2] == self.weather
        &&& s[3] == i8_b0(self.track_temperature)
        &&& s[4] == i8_b0(self.track_temperature_change)
        &&& s[5] == i8_b0(self.air_temperature)
        &&& s[6] == i8_b0(self.air_temperature_change)
        &&& s[7] == self.rain_percentage
    }

    /// Decode the record stored at `off`.
    pub fn read_at(b: &[u8], off: usize) -> (r: Self)
        requires
            off + WEATHER_FORECAST_SAMPLE_SIZE <= b@.len(),
        ensures
            r.encodes(b@.subrange(off as int, off + WEATHER_FORECAST_SAMPLE_SIZE)),
    {
        let _len = b.len(); // the verifier learns the slice length fits in usize
        let session_type = read_u8_at(b, off);
        let time_offset = read_u8_at(b, off + 1);
        let weather = read_u8_at(b, off + 2);
        let track_temperature = read_i8_at(b, off + 3);
        let track_temperature_change = read_i8_at(b, off + 4);
        let air_temperature = read_i8_at(b, off + 5);
        let air_temperature_change = read_i8_at(b, off + 6);
        let rain_percentage = read_u8_at(b, off + 7);
        let r = WeatherForecastSample {
            session_type,
            time_offset,
            weather,
            track_temperature,
            track_temperature_change,
            air_temperature,
            air_temperature_change,
            rain_percentage,
        };
        proof {
            assert(r.encodes(b@.subrange(off as int, off + WEATHER_FORECAST_SAMPLE_SIZE)));
        }
        r
    }

    /// Append the wire image of this record to `out`.
    pub fn write_into(&self, out: &mut Vec<u8>)
        ensures
            final(out)@.len() == old(out)@.len() + WEATHER_FORECAST_SAMPLE_SIZE,
            final(out)@.subrange(0, old(out)@.len() as int) == old(out)@,
            self.encodes(
                final(out)@.subrange(old(out)@.len() as int, final(out)@.len() as int),
            ),
    {
        write_u8(out, self.session_type);
        write_u8(out, self.time_offset);
        write_u8(out, self.weather);
        write_i8(out, self.track_temperature);
        write_i8(out, self.track_temperature_change);
        write_i8(out, self.air_temperature);
        write_i8(out, self.air_temperature_change);
        write_u8(out, self.rain_percentage);
        proof {
            let base = old(out)@.len() as int;
            assert(out@.subrange(0, base) =~= old(out)@);
            assert(self.encodes(out@.subrange(base, base + 8)));
        }
    }

    /// Encode this record as its fixed 8-byte wire image.
    pub fn serialize(&self) -> (r: Vec<u8>)
        ensures
            r@.len() == WEATHER_FORECAST_SAMPLE_SIZE,
            self.encodes(r@),
    {
        let mut out: Vec<u8> = Vec::new();
        self.write_into(&mut out);
        proof {
            assert(out@.subrange(0, 8) =~= out@);
        }
        out
    }

    /// Decode a record from the first 8 bytes of `bytes`.
    ///
    /// Succeeds exactly when at least 8 bytes are supplied; trailing
    /// bytes are ignored.
    pub fn unserialize(bytes: &[u8]) -> (r: Result<Self, PacketError>)
        ensures
            match r {
                Ok(p) => bytes@.len() >= 8 && p.encodes(
                    bytes@.subrange(0, 8),
                ),
                Err(e) => bytes@.len() < 8 && e == PacketError::TruncatedInput,
            },
    {
        if bytes.len() < WEATHER_FORECAST_SAMPLE_SIZE {
            return Err(PacketError::TruncatedInput);
        }
        Ok(Self::read_at(bytes, 0))
    }

    /// A wire image determines the record: decoding is unambiguous, and
    /// decoding the image written by `serialize` gives the value back.
    pub proof fn lemma_wire_image_determines_value(r1: Self, r2: Self, s: Seq<u8>)
        requires
            r1.encodes(s),
            r2.encodes(s),
        ensures
            r1 == r2,
    {
        lemma_i8_b0_injective(r1.track_temperature, r2.track_temperature);
        lemma_i8_b0_injective(r1.track_temperature_change, r2.track_temperature_change);
        lemma_i8_b0_injective(r1.air_temperature, r2.air_temperature);
        lemma_i8_b0_injective(r1.air_temperature_change, r2.air_temperature_change);
    }

    /// A record has exactly one wire image.
    pub proof fn lemma_encoding_unique(r: Self, s1: Seq<u8>, s2: Seq<u8>)
        requires
            r.encodes(s1),
            r.encodes(s2),
        ensures
            s1 == s2,
    {
        assert(s1 =~= s2);
    }
}

impl Default for WeatherForecastSample {
    /// The all-zero record.
    fn default() -> (r: Self)
        ensures
            (r == WeatherForecastSample {
                session_type: 0,
                time_offset: 0,
                weather: 0,
                track_temperature: 0,
                track_temperature_change: 0,
                air_temperature: 0,
                air_temperature_change: 0,
                rain_percentage: 0,
            }),
    {
        WeatherForecastSample {
            session_type: 0,
            time_offset: 0,
            weather: 0,
            track_temperature: 0,
            track_temperature_change: 0,
            air_temperature: 0,
            air_temperature_change: 0,
            rain_percentage: 0,
        }
    }
}

/// Session state: track, weather and assists. (644 bytes on the wire).
#[derive(Debug, Clone)]
pub struct PacketSessionData {
    pub header: PacketHeader, // 29 Bytes
    pub weather: u8, // 1 Byte
    pub track_temperature: i8, // 1 Byte
    pub air_temperature: i8, // 1 Byte
    pub total_laps: u8, // 1 Byte
    pub track_length: u16, // 2 Bytes
    pub session_type: u8, // 1 Byte
    pub track_id: i8, // 1 Byte
    pub formula: u8, // 1 Byte
    pub session_time_left: u16, // 2 Bytes
    pub session_duration: u16, // 2 Bytes
    pub pit_speed_limit: u8, // 1 Byte
    pub game_paused: u8, // 1 Byte
    pub is_spectating: u8, // 1 Byte
    pub spectator_car_index: u8, // 1 Byte
    pub sli_pro_native_support: u8, // 1 Byte
    pub num_marshal_zones: u8, // 1 Byte
    pub marshal_zones: Vec<MarshalZone>, // 21 x 5 Bytes
    pub safety_car_status: u8, // 1 Byte
    pub network_game: u8, // 1 Byte
    pub num_weather_forecast_samples: u8, // 1 Byte
    pub weather_forecast_samples: Vec<WeatherForecastSample>, // 56 x 8 Bytes
    pub forecast_accuracy: u8, // 1 Byte
    pub ai_difficulty: u8, // 1 Byte
    pub season_link_identifier: u32, // 4 Bytes
    pub weekend_link_identifier: u32, // 4 Bytes
    pub session_link_identifier: u32, // 4 Bytes
    pub pit_stop_window_ideal_lap: u8, // 1 Byte
    pub pit_stop_window_latest_lap: u8, // 1 Byte
    pub pit_stop_rejoin_position: u8, // 1 Byte
    pub steering_assist: u8, // 1 Byte
    pub braking_assist: u8, // 1 Byte
    pub gearbox_assist: u8, // 1 Byte
    pub pit_assist: u8, // 1 Byte
    pub pit_release_assist: u8, // 1 Byte
    pub ers_assist: u8, // 1 Byte
    pub drs_assist: u8, // 1 Byte
    pub dynamic_racing_line: u8, // 1 Byte
    pub dynamic_racing_line_type: u8, // 1 Byte
    pub game_mode: u8, // 1 Byte
    pub rule_set: u8, // 1 Byte
    pub time_of_day: u32, // 4 Bytes
    pub session_length: u8, // 1 Byte
    pub speed_units_lead_player: u8, // 1 Byte
    pub temperature_units_lead_player: u8, // 1 Byte
    pub speed_units_secondary_player: u8, // 1 Byte
    pub temperature_units_secondary_player: u8, // 1 Byte
    pub num_safety_car_periods: u8, // 1 Byte
    pub num_virtual_safety_car_periods: u8, // 1 Byte
    pub num_red_flag_periods: u8, // 1 Byte
} // 644 Bytes

impl PacketSessionData {
    /// The fixed element counts that the wire layout prescribes.
    pub open spec fn wf(self) -> bool {
        &&& self.marshal_zones@.len() == 21
        &&& self.weather_forecast_samples@.len() == 56
    }

    /// `s` is exactly the wire image of this packet.
    pub open spec fn encodes(self, s: Seq<u8>) -> bool {
        &&& s.len() == 644
        &&& self.header.encodes(s.subrange(0, 29))
        &&& s[29] == self.weather
        &&& s[30] == i8_b0(self.track_temperature)
        &&& s[31] == i8_b0(self.air_temperature)
        &&& s[32] == self.total_laps
        &&& s[33] == u16_b0(self.track_length)
        &&& s[34] == u16_b1(self.track_length)
        &&& s[35] == self.session_type
        &&& s[36] == i8_b0(self.track_id)
        &&& s[37] == self.formula
        &&& s[38] == u16_b0(self.session_time_left)
        &&& s[39] == u16_b1(self.session_time_left)
        &&& s[40] == u16_b0(self.session_duration)
        &&& s[41] == u16_b1(self.session_duration)
        &&& s[42] == self.pit_speed_limit
        &&& s[43] == self.game_paused
        &&& s[44] == self.is_spectating
        &&& s[45] == self.spectator_car_index
        &&& s[46] == self.sli_pro_native_support
        &&& s[47] == self.num_marshal_zones
        &&& forall|j: int| 0 <= j < 21 ==> (#[trigger] self.marshal_zones@[j]).encodes(
            s.subrange(48 + j * 5, 48 + (j + 1) * 5),
        )
        &&& s[153] == self.safety_car_status
        &&& s[154] == self.network_game
        &&& s[155] == self.num_weather_forecast_samples
        &&& forall|j: int| 0 <= j < 56 ==> (#[trigger] self.weather_forecast_samples@[j]).encodes(
            s.subrange(156 + j * 8, 156 + (j + 1) * 8),
        )
        &&& s[604] == self.forecast_accuracy
        &&& s[605] == self.ai_difficulty
        &&& s[606] == u32_b0(self.season_link_identifier)
        &&& s[607] == u32_b1(self.season_link_identifier)
        &&& s[608] == u32_b2(self.season_link_identifier)
        &&& s[609] == u32_b3(self.season_link_identifier)
        &&& s[610] == u32_b0(self.weekend_link_identifier)
        &&& s[611] == u32_b1(self.weekend_link_identifier)
        &&& s[612] == u32_b2(self.weekend_link_identifier)
        &&& s[613] == u32_b3(self.weekend_link_identifier)
        &&& s[614] == u32_b0(self.session_link_identifier)
        &&& s[615] == u32_b1(self.session_link_identifier)
        &&& s[616] == u32_b2(self.session_link_identifier)
        &&& s[617] == u32_b3(self.session_link_identifier)
        &&& s[618] == self.pit_stop_window_ideal_lap
        &&& s[619] == self.pit_stop_window_latest_lap
        &&& s[620] == self.pit_stop_rejoin_position
        &&& s[621] == self.steering_assist
        &&& s[622] == self.braking_assist
        &&& s[623] == self.gearbox_assist
        &&& s[624] == self.pit_assist
        &&& s[625] == self.pit_release_assist
        &&& s[626] == self.ers_assist
        &&& s[627] == self.drs_assist
        &&& s[628] == self.dynamic_racing_line
        &&& s[629] == self.dynamic_racing_line_type
        &&& s[630] == self.game_mode
        &&& s[631] == self.rule_set
        &&& s[632] == u32_b0(self.time_of_day)
        &&& s[633] == u32_b1(self.time_of_day)
        &&& s[634] == u32_b2(self.time_of_day)
        &&& s[635] == u32_b3(self.time_of_day)
        &&& s[636] == self.session_length
        &&& s[637] == self.speed_units_lead_player
        &&& s[638] == self.temperature_units_lead_player
        &&& s[639] == self.speed_units_secondary_player
        &&& s[640] == self.temperature_units_secondary_player
        &&& s[641] == self.num_safety_car_periods
        &&& s[642] == self.num_virtual_safety_car_periods
        &&& s[643] == self.num_red_flag_periods
    }

    /// Field-for-field equality; record arrays compare element-wise.
    pub open spec fn same_as(self, other: Self) -> bool {
        &&& self.header == other.header
        &&& self.weather == other.weather
        &&& self.track_temperature == other.track_temperature
        &&& self.air_temperature == other.air_temperature
        &&& self.total_laps == other.total_laps
        &&& self.track_length == other.track_length
        &&& self.session_type == other.session_type
        &&& self.track_id == other.track_id
        &&& self.formula == other.formula
        &&& self.session_time_left == other.session_time_left
        &&& self.session_duration == other.session_duration
        &&& self.pit_speed_limit == other.pit_speed_limit
        &&& self.game_paused == other.game_paused
        &&& self.is_spectating == other.is_spectating
        &&& self.spectator_car_index == other.spectator_car_index
        &&& self.sli_pro_native_support == other.sli_pro_native_support
        &&& self.num_marshal_zones == other.num_marshal_zones
        &&& self.marshal_zones@ == other.marshal_zones@
        &&& self.safety_car_status == other.safety_car_status
        &&& self.network_game == other.network_game
        &&& self.num_weather_forecast_samples == other.num_weather_forecast_samples
        &&& self.weather_forecast_samples@ == other.weather_forecast_samples@
        &&& self.forecast_accuracy == other.forecast_accuracy
        &&& self.ai_difficulty == other.ai_difficulty
        &&& self.season_link_identifier == other.season_link_identifier
        &&& self.weekend_link_identifier == other.weekend_link_identifier
        &&& self.session_link_identifier == other.session_link_identifier
        &&& self.pit_stop_window_ideal_lap == other.pit_stop_window_ideal_lap
        &&& self.pit_stop_window_latest_lap == other.pit_stop_window_latest_lap
        &&& self.pit_stop_rejoin_position == other.pit_stop_rejoin_position
        &&& self.steering_assist == other.steering_assist
        &&& self.braking_assist == other.braking_assist
        &&& self.gearbox_assist == other.gearbox_assist
        &&& self.pit_assist == other.pit_assist
        &&& self.pit_release_assist == other.pit_release_assist
        &&& self.ers_assist == other.ers_assist
        &&& self.drs_assist == other.drs_assist
        &&& self.dynamic_racing_line == other.dynamic_racing_line
        &&& self.dynamic_racing_line_type == other.dynamic_racing_line_type
        &&& self.game_mode == other.game_mode
        &&& self.rule_set == other.rule_set
        &&& self.time_of_day == other.time_of_day
        &&& self.session_length == other.session_length
        &&& self.speed_units_lead_player == other.speed_units_lead_player
        &&& self.temperature_units_lead_player == other.temperature_units_lead_player
        &&& self.speed_units_secondary_player == other.speed_units_secondary_player
        &&& self.temperature_units_secondary_player == other.temperature_units_secondary_player
        &&& self.num_safety_car_periods == other.num_safety_car_periods
        &&& self.num_virtual_safety_car_periods == other.num_virtual_safety_car_periods
        &&& self.num_red_flag_periods == other.num_red_flag_periods
    }

    /// Decode a packet from the first 644 bytes of `bytes`.
    ///
    /// Succeeds exactly when at least 644 bytes are supplied; trailing
    /// bytes are ignored.
    pub fn unserialize(bytes: &[u8]) -> (r: Result<Self, PacketError>)
        ensures
            match r {
                Ok(p) => bytes@.len() >= 644 && p.wf() && p.encodes(
                    bytes@.subrange(0, 644),
                ),
                Err(e) => bytes@.len() < 644 && e == PacketError::TruncatedInput,
            },
    {
        if bytes.len() < PACKET_SESSION_DATA_SIZE {
            return Err(PacketError::TruncatedInput);
        }
        let header = PacketHeader::read_at(bytes, 0);
        let weather = read_u8_at(bytes, 29);
        let track_temperature = read_i8_at(bytes, 30);
        let air_temperature = read_i8_at(bytes, 31);
        let total_laps = read_u8_at(bytes, 32);
        let track_length = read_u16_at(bytes, 33);
        let session_type = read_u8_at(bytes, 35);
        let track_id = read_i8_at(bytes, 36);
        let formula = read_u8_at(bytes, 37);
        let session_time_left = read_u16_at(bytes, 38);
        let session_duration = read_u16_at(bytes, 40);
        let pit_speed_limit = read_u8_at(bytes, 42);
        let game_paused = read_u8_at(bytes, 43);
        let is_spectating = read_u8_at(bytes, 44);
        let spectator_car_index = read_u8_at(bytes, 45);
        let sli_pro_native_support = read_u8_at(bytes, 46);
        let num_marshal_zones = read_u8_at(bytes, 47);
        let mut marshal_zones: Vec<MarshalZone> = Vec::new();
        let mut i: usize = 0;
        while i < 21
            invariant
                bytes@.len() >= 644,
                i <= 21,
                marshal_zones@.len() == i,
                forall|j: int| 0 <= j < i ==> (#[trigger] marshal_zones@[j]).encodes(
                    bytes@.subrange(48 + j * 5, 48 + (j + 1) * 5),
                ),
            decreases 21 - i,
        {
            marshal_zones.push(MarshalZone::read_at(bytes, 48 + i * 5));
            i += 1;
        }
        let safety_car_status = read_u8_at(bytes, 153);
        let network_game = read_u8_at(bytes, 154);
        let num_weather_forecast_samples = read_u8_at(bytes, 155);
        let mut weather_forecast_samples: Vec<WeatherForecastSample> = Vec::new();
        let mut i: usize = 0;
        while i < 56
            invariant
                bytes@.len() >= 644,
                i <= 56,
                weather_forecast_samples@.len() == i,
                forall|j: int| 0 <= j < i ==> (#[trigger] weather_forecast_samples@[j]).encodes(
                    bytes@.subrange(156 + j * 8, 156 + (j + 1) * 8),
                ),
            decreases 56 - i,
        {
            weather_forecast_samples.push(WeatherForecastSample::read_at(bytes, 156 + i * 8));
            i += 1;
        }
        let forecast_accuracy = read_u8_at(bytes, 604);
        let ai_difficulty = read_u8_at(bytes, 605);
        let season_link_identifier = read_u32_at(bytes, 606);
        let weekend_link_identifier = read_u32_at(bytes, 610);
        let session_link_identifier = read_u32_at(bytes, 614);
        let pit_stop_window_ideal_lap = read_u8_at(bytes, 618);
        let pit_stop_window_latest_lap = read_u8_at(bytes, 619);
        let pit_stop_rejoin_position = read_u8_at(bytes, 620);
        let steering_assist = read_u8_at(bytes, 621);
        let braking_assist = read_u8_at(bytes, 622);
        let gearbox_assist = read_u8_at(bytes, 623);
        let pit_assist = read_u8_at(bytes, 624);
        let pit_release_assist = read_u8_at(bytes, 625);
        let ers_assist = read_u8_at(bytes, 626);
        let drs_assist = read_u8_at(bytes, 627);
        let dynamic_racing_line = read_u8_at(bytes, 628);
        let dynamic_racing_line_type = read_u8_at(bytes, 629);
        let game_mode = read_u8_at(bytes, 630);
        let rule_set = read_u8_at(bytes, 631);
        let time_of_day = read_u32_at(bytes, 632);
        let session_length = read_u8_at(bytes, 636);
        let speed_units_lead_player = read_u8_at(bytes, 637);
        let temperature_units_lead_player = read_u8_at(bytes, 638);
        let speed_units_secondary_player = read_u8_at(bytes, 639);
        let temperature_units_secondary_player = read_u8_at(bytes, 640);
        let num_safety_car_periods = read_u8_at(bytes, 641);
        let num_virtual_safety_car_periods = read_u8_at(bytes, 642);
        let num_red_flag_periods = read_u8_at(bytes, 643);
        let p = PacketSessionData {
            header,
            weather,
            track_temperature,
            air_temperature,
            total_laps,
            track_length,
            session_type,
            track_id,
            formula,
            session_time_left,
            session_duration,
            pit_speed_limit,
            game_paused,
            is_spectating,
            spectator_car_index,
            sli_pro_native_support,
            num_marshal_zones,
            marshal_zones,
            safety_car_status,
            network_game,
            num_weather_forecast_samples,
            weather_forecast_samples,
            forecast_accuracy,
            ai_difficulty,
            season_link_identifier,
            weekend_link_identifier,
            session_link_identifier,
            pit_stop_window_ideal_lap,
            pit_stop_window_latest_lap,
            pit_stop_rejoin_position,
            steering_assist,
            braking_assist,
            gearbox_assist,
            pit_assist,
            pit_release_assist,
            ers_assist,
            drs_assist,
            dynamic_racing_line,
            dynamic_racing_line_type,
            game_mode,
            rule_set,
            time_of_day,
            session_length,
            speed_units_lead_player,
            temperature_units_lead_player,
            speed_units_secondary_player,
            temperature_units_secondary_player,
            num_safety_car_periods,
            num_virtual_safety_car_periods,
            num_red_flag_periods,
        };
        proof {
            let s = bytes@.subrange(0, 644);
            lemma_subrange_of_subrange(bytes@, 0, 644, 0, 29);
            assert forall|j: int| 0 <= j < 21 implies (#[trigger] p.marshal_zones@[j]).encodes(
                s.subrange(48 + j * 5, 48 + (j + 1) * 5),
            ) by {
                lemma_subrange_of_subrange(bytes@, 0, 644, 48 + j * 5, 48 + (j + 1) * 5);
            }
            assert forall|j: int| 0 <= j < 56 implies (#[trigger] p.weather_forecast_samples@[j]).encodes(
                s.subrange(156 + j * 8, 156 + (j + 1) * 8),
            ) by {
                lemma_subrange_of_subrange(bytes@, 0, 644, 156 + j * 8, 156 + (j + 1) * 8);
            }
            assert(p.encodes(s));
        }
        Ok(p)
    }

    /// Append the wire image of this packet to `out`.
    #[verifier::rlimit(100)]
    pub fn write_into(&self, out: &mut Vec<u8>)
        requires
            self.wf(),
        ensures
            final(out)@.len() == old(out)@.len() + PACKET_SESSION_DATA_SIZE,
            final(out)@.subrange(0, old(out)@.len() as int) == old(out)@,
            self.encodes(
                final(out)@.subrange(old(out)@.len() as int, final(out)@.len() as int),
            ),
    {
        let ghost base: int = out@.len() as int;
        let ghost start = out@;
        self.header.write_into(out);
        write_u8(out, self.weather);
        write_i8(out, self.track_temperature);
        write_i8(out, self.air_temperature);
        write_u8(out, self.total_laps);
        write_u16(out, self.track_length);
        write_u8(out, self.session_type);
        write_i8(out, self.track_id);
        write_u8(out, self.formula);
        write_u16(out, self.session_time_left);
        write_u16(out, self.session_duration);
        write_u8(out, self.pit_speed_limit);
        write_u8(out, self.game_paused);
        write_u8(out, self.is_spectating);
        write_u8(out, self.spectator_car_index);
        write_u8(out, self.sli_pro_native_support);
        write_u8(out, self.num_marshal_zones);
        let mut i: usize = 0;
        while i < 21
            invariant
                self.wf(),
                i <= 21,
                0 <= base,
                out@.len() == base + 48 + i * 5,
                out@.subrange(0, base) == start,
                self.header.encodes(out@.subrange(base, base + 29)),
                out@[base + 29] == self.weather,
                out@[base + 30] == i8_b0(self.track_temperature),
                out@[base + 31] == i8_b0(self.air_temperature),
                out@[base + 32] == self.total_laps,
                out@[base + 33] == u16_b0(self.track_length),
                out@[base + 34] == u16_b1(self.track_length),
                out@[base + 35] == self.session_type,
                out@[base + 36] == i8_b0(self.track_id),
                out@[base + 37] == self.formula,
                out@[base + 38] == u16_b0(self.session_time_left),
                out@[base + 39] == u16_b1(self.session_time_left),
                out@[base + 40] == u16_b0(self.session_duration),
                out@[base + 41] == u16_b1(self.session_duration),
                out@[base + 42] == self.pit_speed_limit,
                out@[base + 43] == self.game_paused,
                out@[base + 44] == self.is_spectating,
                out@[base + 45] == self.spectator_car_index,
                out@[base + 46] == self.sli_pro_native_support,
                out@[base + 47] == self.num_marshal_zones,
                forall|j: int| 0 <= j < i ==> (#[trigger] self.marshal_zones@[j]).encodes(
                    out@.subrange(base + 48 + j * 5, base + 48 + (j + 1) * 5),
                ),
            decreases 21 - i,
        {
            let ghost prev = out@;
            self.marshal_zones[i].write_into(out);
            proof {
                assert forall|t: int| 0 <= t < prev.len() implies (#[trigger] out@[t]) == prev[t] by {
                    assert(prev[t] == out@.subrange(0, prev.len() as int)[t]);
                }
                lemma_subrange_of_prefix(out@, prev, 0, base);
                lemma_subrange_of_prefix(out@, prev, base, base + 29);
            }
            i += 1;
        }
        write_u8(out, self.safety_car_status);
        write_u8(out, self.network_game);
        write_u8(out, self.num_weather_forecast_samples);
        let mut i: usize = 0;
        while i < 56
            invariant
                self.wf(),
                i <= 56,
                0 <= base,
                out@.len() == base + 156 + i * 8,
                out@.subrange(0, base) == start,
                self.header.encodes(out@.subrange(base, base + 29)),
                out@[base + 29] == self.weather,
                out@[base + 30] == i8_b0(self.track_temperature),
                out@[base + 31] == i8_b0(self.air_temperature),
                out@[base + 32] == self.total_laps,
                out@[base + 33] == u16_b0(self.track_length),
                out@[base + 34] == u16_b1(self.track_length),
                out@[base + 35] == self.session_type,
                out@[base + 36] == i8_b0(self.track_id),
                out@[base + 37] == self.formula,
                out@[base + 38] == u16_b0(self.session_time_left),
                out@[base + 39] == u16_b1(self.session_time_left),
                out@[base + 40] == u16_b0(self.session_duration),
                out@[base + 41] == u16_b1(self.session_duration),
                out@[base + 42] == self.pit_speed_limit,
                out@[base + 43] == self.game_paused,
                out@[base + 44] == self.is_spectating,
                out@[base + 45] == self.spectator_car_index,
                out@[base + 46] == self.sli_pro_native_support,
                out@[base + 47] == self.num_marshal_zones,
                forall|j: int| 0 <= j < 21 ==> (#[trigger] self.marshal_zones@[j]).encodes(
                    out@.subrange(base + 48 + j * 5, base + 48 + (j + 1) * 5),
                ),
                out@[base + 153] == self.safety_car_status,
                out@[base + 154] == self.network_game,
                out@[base + 155] == self.num_weather_forecast_samples,
                forall|j: int| 0 <= j < i ==> (#[trigger] self.weather_forecast_samples@[j]).encodes(
                    out@.subrange(base + 156 + j * 8, base + 156 + (j + 1) * 8),
                ),
            decreases 56 - i,
        {
            let ghost prev = out@;
            self.weather_forecast_samples[i].write_into(out);
            proof {
                assert forall|t: int| 0 <= t < prev.len() implies (#[trigger] out@[t]) == prev[t] by {
                    assert(prev[t] == out@.subrange(0, prev.len() as int)[t]);
                }
                lemma_subrange_of_prefix(out@, prev, 0, base);
                lemma_subrange_of_prefix(out@, prev, base, base + 29);
                assert forall|j: int| 0 <= j < 21 implies (#[trigger] self.marshal_zones@[j]).encodes(
                    out@.subrange(base + 48 + j * 5, base + 48 + (j + 1) * 5),
                ) by {
                    lemma_subrange_of_prefix(out@, prev, base + 48 + j * 5, base + 48 + (j + 1) * 5);
                }
            }
            i += 1;
        }
        write_u8(out, self.forecast_accuracy);
        write_u8(out, self.ai_difficulty);
        write_u32(out, self.season_link_identifier);
        write_u32(out, self.weekend_link_identifier);
        write_u32(out, self.session_link_identifier);
        write_u8(out, self.pit_stop_window_ideal_lap);
        write_u8(out, self.pit_stop_window_latest_lap);
        write_u8(out, self.pit_stop_rejoin_position);
        write_u8(out, self.steering_assist);
        write_u8(out, self.braking_assist);
        write_u8(out, self.gearbox_assist);
        write_u8(out, self.pit_assist);
        write_u8(out, self.pit_release_assist);
        write_u8(out, self.ers_assist);
        write_u8(out, self.drs_assist);
        write_u8(out, self.dynamic_racing_line);
        write_u8(out, self.dynamic_racing_line_type);
        write_u8(out, self.game_mode);
        write_u8(out, self.rule_set);
        write_u32(out, self.time_of_day);
        write_u8(out, self.session_length);
        write_u8(out, self.speed_units_lead_player);
        write_u8(out, self.temperature_units_lead_player);
        write_u8(out, self.speed_units_secondary_player);
        write_u8(out, self.temperature_units_secondary_player);
        write_u8(out, self.num_safety_car_periods);
        write_u8(out, self.num_virtual_safety_car_periods);
        write_u8(out, self.num_red_flag_periods);
        proof {
            let s = out@.subrange(base, base + 644);
            lemma_subrange_of_subrange(out@, base, 644, 0, 29);
            assert forall|j: int| 0 <= j < 21 implies (#[trigger] self.marshal_zones@[j]).encodes(
                s.subrange(48 + j * 5, 48 + (j + 1) * 5),
            ) by {
                lemma_subrange_of_subrange(out@, base, 644, 48 + j * 5, 48 + (j + 1) * 5);
            }
            assert forall|j: int| 0 <= j < 56 implies (#[trigger] self.weather_forecast_samples@[j]).encodes(
                s.subrange(156 + j * 8, 156 + (j + 1) * 8),
            ) by {
                lemma_subrange_of_subrange(out@, base, 644, 156 + j * 8, 156 + (j + 1) * 8);
            }
            assert(self.encodes(s));
            assert(out@.subrange(0, base) =~= start);
        }
    }

    /// Encode this packet as its fixed 644-byte wire image.
    pub fn serialize(&self) -> (r: Vec<u8>)
        requires
            self.wf(),
        ensures
            r@.len() == PACKET_SESSION_DATA_SIZE,
            self.encodes(r@),
    {
        let mut out: Vec<u8> = Vec::new();
        self.write_into(&mut out);
        proof {
            assert(out@.subrange(0, 644) =~= out@);
        }
        out
    }

    #[verifier::rlimit(100)]
    /// A wire image determines the packet: decoding is unambiguous, and
    /// decoding the image written by `serialize` gives the value back.
    pub proof fn lemma_wire_image_determines_value(p1: Self, p2: Self, s: Seq<u8>)
        requires
            p1.wf(),
            p2.wf(),
            p1.encodes(s),
            p2.encodes(s),
        ensures
            p1.same_as(p2),
    {
        PacketHeader::lemma_wire_image_determines_value(
            p1.header, p2.header, s.subrange(0, 29));
        lemma_i8_b0_injective(p1.track_temperature, p2.track_temperature);
        lemma_i8_b0_injective(p1.air_temperature, p2.air_temperature);
        lemma_u16_reassemble(p1.track_length);
        lemma_u16_reassemble(p2.track_length);
        lemma_i8_b0_injective(p1.track_id, p2.track_id);
        lemma_u16_reassemble(p1.session_time_left);
        lemma_u16_reassemble(p2.session_time_left);
        lemma_u16_reassemble(p1.session_duration);
        lemma_u16_reassemble(p2.session_duration);
        assert forall|j: int| 0 <= j < 21 implies
            #[trigger] p1.marshal_zones@[j] == p2.marshal_zones@[j] by {
            MarshalZone::lemma_wire_image_determines_value(
                p1.marshal_zones@[j], p2.marshal_zones@[j],
                s.subrange(48 + j * 5, 48 + (j + 1) * 5));
        }
        assert(p1.marshal_zones@ =~= p2.marshal_zones@);
        assert forall|j: int| 0 <= j < 56 implies
            #[trigger] p1.weather_forecast_samples@[j] == p2.weather_forecast_samples@[j] by {
            WeatherForecastSample::lemma_wire_image_determines_value(
                p1.weather_forecast_samples@[j], p2.weather_forecast_samples@[j],
                s.subrange(156 + j * 8, 156 + (j + 1) * 8));
        }
        assert(p1.weather_forecast_samples@ =~= p2.weather_forecast_samples@);
        lemma_u32_reassemble(p1.season_link_identifier);
        lemma_u32_reassemble(p2.season_link_identifier);
        lemma_u32_reassemble(p1.weekend_link_identifier);
        lemma_u32_reassemble(p2.weekend_link_identifier);
        lemma_u32_reassemble(p1.session_link_identifier);
        lemma_u32_reassemble(p2.session_link_identifier);
        lemma_u32_reassemble(p1.time_of_day);
        lemma_u32_reassemble(p2.time_of_day);
    }

    /// A packet has exactly one wire image.
    pub proof fn lemma_encoding_unique(p: Self, s1: Seq<u8>, s2: Seq<u8>)
        requires
            p.wf(),
            p.encodes(s1),
            p.encodes(s2),
        ensures
            s1 == s2,
    {
        assert forall|i: int| 0 <= i < 644 implies s1[i] == s2[i] by {
            if i < 29 {
                PacketHeader::lemma_encoding_unique(
                    p.header, s1.subrange(0, 29), s2.subrange(0, 29));
                assert(s1.subrange(0, 29)[i] == s2.subrange(0, 29)[i]);
            }
            if 48 <= i < 153 {
                lemma_index_in_block(48, 5, 21, i);
                let j = (i - 48) / 5;
                MarshalZone::lemma_encoding_unique(
                    p.marshal_zones@[j],
                    s1.subrange(48 + j * 5, 48 + (j + 1) * 5),
                    s2.subrange(48 + j * 5, 48 + (j + 1) * 5));
                assert(s1.subrange(48 + j * 5, 48 + (j + 1) * 5)[i - 48 - j * 5]
                    == s2.subrange(48 + j * 5, 48 + (j + 1) * 5)[i - 48 - j * 5]);
            }
            if 156 <= i < 604 {
                lemma_index_in_block(156, 8, 56, i);
                let j = (i - 156) / 8;
                WeatherForecastSample::lemma_encoding_unique(
                    p.weather_forecast_samples@[j],
                    s1.subrange(156 + j * 8, 156 + (j + 1) * 8),
                    s2.subrange(156 + j * 8, 156 + (j + 1) * 8));
                assert(s1.subrange(156 + j * 8, 156 + (j + 1) * 8)[i - 156 - j * 8]
                    == s2.subrange(156 + j * 8, 156 + (j + 1) * 8)[i - 156 - j * 8]);
            }
        }
        assert(s1 =~= s2);
    }
}

impl PartialEq for PacketSessionData {
    fn eq(&self, other: &Self) -> (r: bool) {
        self.header == other.header
            && self.weather == other.weather
            && self.track_temperature == other.track_temperature
            && self.air_temperature == other.air_temperature
            && self.total_laps == other.total_laps
            && self.track_length == other.track_length
            && self.session_type == other.session_type
            && self.track_id == other.track_id
            && self.formula == other.formula
            && self.session_time_left == other.session_time_left
            && self.session_duration == other.session_duration
            && self.pit_speed_limit == other.pit_speed_limit
            && self.game_paused == other.game_paused
            && self.is_spectating == other.is_spectating
            && self.spectator_car_index == other.spectator_car_index
            && self.sli_pro_native_support == other.sli_pro_native_support
            && self.num_marshal_zones == other.num_marshal_zones
            && eq_vec_marshal_zone(&self.marshal_zones, &other.marshal_zones)
            && self.safety_car_status == other.safety_car_status
            && self.network_game == other.network_game
            && self.num_weather_forecast_samples == other.num_weather_forecast_samples
            && eq_vec_weather_forecast_sample(&self.weather_forecast_samples, &other.weather_forecast_samples)
            && self.forecast_accuracy == other.forecast_accuracy
            && self.ai_difficulty == other.ai_difficulty
            && self.season_link_identifier == other.season_link_identifier
            && self.weekend_link_identifier == other.weekend_link_identifier
            && self.session_link_identifier == other.session_link_identifier
            && self.pit_stop_window_ideal_lap == other.pit_stop_window_ideal_lap
            && self.pit_stop_window_latest_lap == other.pit_stop_window_latest_lap
            && self.pit_stop_rejoin_position == other.pit_stop_rejoin_position
            && self.steering_assist == other.steering_assist
            && self.braking_assist == other.braking_assist
            && self.gearbox_assist == other.gearbox_assist
            && self.pit_assist == other.pit_assist
            && self.pit_release_assist == other.pit_release_assist
            && self.ers_assist == other.ers_assist
            && self.drs_assist == other.drs_assist
            && self.dynamic_racing_line == other.dynamic_racing_line
            && self.dynamic_racing_line_type == other.dynamic_racing_line_type
            && self.game_mode == other.game_mode
            && self.rule_set == other.rule_set
            && self.time_of_day == other.time_of_day
            && self.session_length == other.session_length
            && self.speed_units_lead_player == other.speed_units_lead_player
            && self.temperature_units_lead_player == other.temperature_units_lead_player
            && self.speed_units_secondary_player == other.speed_units_secondary_player
            && self.temperature_units_secondary_player == other.temperature_units_secondary_player
            && self.num_safety_car_periods == other.num_safety_car_periods
            && self.num_virtual_safety_car_periods == other.num_virtual_safety_car_periods
            && self.num_red_flag_periods == other.num_red_flag_periods
    }
}

impl vstd::std_specs::cmp::PartialEqSpecImpl for PacketSessionData {
    open spec fn obeys_eq_spec() -> bool {
        true
    }

    open spec fn eq_spec(&self, other: &Self) -> bool {
        self.same_as(*other)
    }
}

impl Default for PacketSessionData {
    /// The all-zero packet, with every array at its fixed length.
    fn default() -> (r: Self)
        ensures
            r.wf(),
    {
        let mut marshal_zones: Vec<MarshalZone> = Vec::new();
        let mut i: usize = 0;
        while i < 21
            invariant
                i <= 21,
                marshal_zones@.len() == i,
            decreases 21 - i,
        {
            marshal_zones.push(MarshalZone::default());
            i += 1;
        }
        let mut weather_forecast_samples: Vec<WeatherForecastSample> = Vec::new();
        let mut i: usize = 0;
        while i < 56
            invariant
                i <= 56,
                weather_forecast_samples@.len() == i,
            decreases 56 - i,
        {
            weather_forecast_samples.push(WeatherForecastSample::default());
            i += 1;
        }
        PacketSessionData {
            header: PacketHeader::default(),
            weather: 0,
            track_temperature: 0,
            air_temperature: 0,
            total_laps: 0,
            track_length: 0,
            session_type: 0,
            track_id: 0,
            formula: 0,
            session_time_left: 0,
            session_duration: 0,
            pit_speed_limit: 0,
            game_paused: 0,
            is_spectating: 0,
            spectator_car_index: 0,
            sli_pro_native_support: 0,
            num_marshal_zones: 0,
            marshal_zones,
            safety_car_status: 0,
            network_game: 0,
            num_weather_forecast_samples: 0,
            weather_forecast_samples,
            forecast_accuracy: 0,
            ai_difficulty: 0,
            season_link_identifier: 0,
            weekend_link_identifier: 0,
            session_link_identifier: 0,
            pit_stop_window_ideal_lap: 0,
            pit_stop_window_latest_lap: 0,
            pit_stop_rejoin_position: 0,
            steering_assist: 0,
            braking_assist: 0,
            gearbox_assist: 0,
            pit_assist: 0,
            pit_release_assist: 0,
            ers_assist: 0,
            drs_assist: 0,
            dynamic_racing_line: 0,
            dynamic_racing_line_type: 0,
            game_mode: 0,
            rule_set: 0,
            time_of_day: 0,
            session_length: 0,
            speed_units_lead_player: 0,
            temperature_units_lead_player: 0,
            speed_units_secondary_player: 0,
            temperature_units_secondary_player: 0,
            num_safety_car_periods: 0,
            num_virtual_safety_car_periods: 0,
            num_red_flag_periods: 0,
        }
    }
}

/// Element-wise equality of two `MarshalZone` vectors.
fn eq_vec_marshal_zone(a: &Vec<MarshalZone>, b: &Vec<MarshalZone>) -> (r: bool)
    ensures
        r == (a@ == b@),
{
    if a.len() != b.len() {
        return false;
    }
    let mut i: usize = 0;
    while i < a.len()
        invariant
            a@.len() == b@.len(),
            i <= a@.len(),
            forall|j: int| 0 <= j < i ==> #[trigger] a@[j] == b@[j],
        decreases a@.len() - i,
    {
        if !(a[i] == b[i]) {
            return false;
        }
        i += 1;
    }
    proof {
        assert(a@ =~= b@);
    }
    true
}

/// Element-wise equality of two `WeatherForecastSample` vectors.
fn eq_vec_weather_forecast_sample(a: &Vec<WeatherForecastSample>, b: &Vec<WeatherForecastSample>) -> (r: bool)
    ensures
        r == (a@ == b@),
{
    if a.len() != b.len() {
        return false;
    }
    let mut i: usize = 0;
    while i < a.len()
        invariant
            a@.len() == b@.len(),
            i <= a@.len(),
            forall|j: int| 0 <= j < i ==> #[trigger] a@[j] == b@[j],
        decreases a@.len() - i,
    {
        if !(a[i] == b[i]) {
            return false;
        }
        i += 1;
    }
    proof {
        assert(a@ =~= b@);
    }
    true
}

} // verus!
