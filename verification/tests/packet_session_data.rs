use f1_telemetry_client::packets::{MarshalZone, PacketHeader, PacketSessionData, WeatherForecastSample};
use rand::Rng;

#[test]
fn test_marshal_zone_serialization_deserialization() {
    let mut rng = rand::thread_rng();

    let original_data: MarshalZone = MarshalZone {
        zone_start: rng.gen(),
        zone_flag: rng.gen(),
    };

    let serialized_data: Vec<u8> = original_data.serialize();
    let deserialized_data: MarshalZone = MarshalZone::unserialize(&serialized_data).unwrap();

    assert_eq!(original_data, deserialized_data);
}

#[test]
fn test_weather_forecast_sample_serialization_deserialization() {
    let mut rng = rand::thread_rng();

    let original_data: WeatherForecastSample = WeatherForecastSample {
        session_type: rng.gen(),
        time_offset: rng.gen(),
        weather: rng.gen(),
        track_temperature: rng.gen(),
        track_temperature_change: rng.gen(),
        air_temperature: rng.gen(),
        air_temperature_change: rng.gen(),
        rain_percentage: rng.gen(),
    };

    let serialized_data: Vec<u8> = original_data.serialize();
    let deserialized_data: WeatherForecastSample = WeatherForecastSample::unserialize(&serialized_data).unwrap();

    assert_eq!(original_data, deserialized_data);
}

#[test]
fn test_packet_session_data_serialization_deserialization() {
    let mut rng = rand::thread_rng();

    let original_packet: PacketSessionData = PacketSessionData {
            header: PacketHeader {
                packet_format: rng.gen(),
                game_year: rng.gen(),
                game_major_version: rng.gen(),
                game_minor_version: rng.gen(),
                packet_version: rng.gen(),
                packet_id: rng.gen(),
                session_uid: rng.gen(),
                session_time: rng.gen(),
                frame_identifier: rng.gen(),
                overall_frame_identifier: rng.gen(),
                player_car_index: rng.gen(),
                secondary_player_car_index: rng.gen(),
            },
        weather: rng.gen(),
        track_temperature: rng.gen(),
        air_temperature: rng.gen(),
        total_laps: rng.gen(),
        track_length: rng.gen(),
        session_type: rng.gen(),
        track_id: rng.gen(),
        formula: rng.gen(),
        session_time_left: rng.gen(),
        session_duration: rng.gen(),
        pit_speed_limit: rng.gen(),
        game_paused: rng.gen(),
        is_spectating: rng.gen(),
        spectator_car_index: rng.gen(),
        sli_pro_native_support: rng.gen(),
        num_marshal_zones: rng.gen(),
        marshal_zones: vec![MarshalZone {
            zone_start: rng.gen(),
            zone_flag: rng.gen(),
        }; 21],
        safety_car_status: rng.gen(),
        network_game: rng.gen(),
        num_weather_forecast_samples: rng.gen(),
        weather_forecast_samples: vec![WeatherForecastSample {
            session_type: rng.gen(),
            time_offset: rng.gen(),
            weather: rng.gen(),
            track_temperature: rng.gen(),
            track_temperature_change: rng.gen(),
            air_temperature: rng.gen(),
            air_temperature_change: rng.gen(),
            rain_percentage: rng.gen(),
        }; 56],
        forecast_accuracy: rng.gen(),
        ai_difficulty: rng.gen(),
        season_link_identifier: rng.gen(),
        weekend_link_identifier: rng.gen(),
        session_link_identifier: rng.gen(),
        pit_stop_window_ideal_lap: rng.gen(),
        pit_stop_window_latest_lap: rng.gen(),
        pit_stop_rejoin_position: rng.gen(),
        steering_assist: rng.gen(),
        braking_assist: rng.gen(),
        gearbox_assist: rng.gen(),
        pit_assist: rng.gen(),
        pit_release_assist: rng.gen(),
        ers_assist: rng.gen(),
        drs_assist: rng.gen(),
        dynamic_racing_line: rng.gen(),
        dynamic_racing_line_type: rng.gen(),
        game_mode: rng.gen(),
        rule_set: rng.gen(),
        time_of_day: rng.gen(),
        session_length: rng.gen(),
        speed_units_lead_player: rng.gen(),
        temperature_units_lead_player: rng.gen(),
        speed_units_secondary_player: rng.gen(),
        temperature_units_secondary_player: rng.gen(),
        num_safety_car_periods: rng.gen(),
        num_virtual_safety_car_periods: rng.gen(),
        num_red_flag_periods: rng.gen(),
    };

    let serialized_packet: Vec<u8> = original_packet.serialize();
    let deserialized_packet: PacketSessionData = PacketSessionData::unserialize(&serialized_packet).unwrap();

    assert_eq!(original_packet, deserialized_packet);
}
