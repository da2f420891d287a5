use f1_telemetry_client::packets::{LapData, PacketHeader, PacketLapData};
use rand::Rng;

#[test]
fn test_lap_data_serialization_deserialization() {
    let mut rng = rand::thread_rng();

    let original_data: LapData = LapData {
        last_lap_time_in_ms: rng.gen(),
        current_lap_time_in_ms: rng.gen(),
        sector1_time_in_ms: rng.gen(),
        sector1_time_minutes: rng.gen(),
        sector2_time_in_ms: rng.gen(),
        sector2_time_minutes: rng.gen(),
        delta_to_car_in_front_in_ms: rng.gen(),
        delta_to_race_leader_in_ms: rng.gen(),
        lap_distance: rng.gen(),
        total_distance: rng.gen(),
        safety_car_delta: rng.gen(),
        car_position: rng.gen(),
        current_lap_num: rng.gen(),
        pit_status: rng.gen(),
        num_pit_stops: rng.gen(),
        sector: rng.gen(),
        current_lap_invalid: rng.gen(),
        penalties: rng.gen(),
        total_warnings: rng.gen(),
        corner_cutting_warnings: rng.gen(),
        num_unserved_drive_through_pens: rng.gen(),
        num_unserved_stop_go_pens: rng.gen(),
        grid_position: rng.gen(),
        driver_status: rng.gen(),
        result_status: rng.gen(),
        pit_lane_timer_active: rng.gen(),
        pit_lane_time_in_lane_in_ms: rng.gen(),
        pit_stop_timer_in_ms: rng.gen(),
        pit_stop_should_serve_pen: rng.gen(),
    };

    let serialized_data: Vec<u8> = original_data.serialize();
    let deserialized_data: LapData = LapData::unserialize(&serialized_data).unwrap();

    assert_eq!(original_data, deserialized_data);
}

#[test]
fn test_packet_lap_data_serialization_deserialization() {
    let mut rng = rand::thread_rng();

    let original_packet: PacketLapData = PacketLapData {
            header: PacketHeader {
                packet_format: rng.gen(),
                game_year: rng.gen(),
                game_major_version: rng.gen(),
                game_minor_version: rng.gen(),
                packet_version: rng.gen(),
                packet_id: rng.gen(),
                session_uid: rng.gen(),
                session_time: rng.gen(),
                frame_identifier: rng.gen(),
                overall_frame_identifier: rng.gen(),
                player_car_index: rng.gen(),
                secondary_player_car_index: rng.gen(),
            },
        lap_data: vec![LapData {
            last_lap_time_in_ms: rng.gen(),
            current_lap_time_in_ms: rng.gen(),
            sector1_time_in_ms: rng.gen(),
            sector1_time_minutes: rng.gen(),
            sector2_time_in_ms: rng.gen(),
            sector2_time_minutes: rng.gen(),
            delta_to_car_in_front_in_ms: rng.gen(),
            delta_to_race_leader_in_ms: rng.gen(),
            lap_distance: rng.gen(),
            total_distance: rng.gen(),
            safety_car_delta: rng.gen(),
            car_position: rng.gen(),
            current_lap_num: rng.gen(),
            pit_status: rng.gen(),
            num_pit_stops: rng.gen(),
            sector: rng.gen(),
            current_lap_invalid: rng.gen(),
            penalties: rng.gen(),
            total_warnings: rng.gen(),
            corner_cutting_warnings: rng.gen(),
            num_unserved_drive_through_pens: rng.gen(),
            num_unserved_stop_go_pens: rng.gen(),
            grid_position: rng.gen(),
            driver_status: rng.gen(),
            result_status: rng.gen(),
            pit_lane_timer_active: rng.gen(),
            pit_lane_time_in_lane_in_ms: rng.gen(),
            pit_stop_timer_in_ms: rng.gen(),
            pit_stop_should_serve_pen: rng.gen(),
        }; 22],
        time_trial_pb_car_idx: rng.gen(),
        time_trial_rival_car_idx: rng.gen(),
    };

    let serialized_packet: Vec<u8> = original_packet.serialize();
    let deserialized_packet: PacketLapData = PacketLapData::unserialize(&serialized_packet).unwrap();

    assert_eq!(original_packet, deserialized_packet);
}
