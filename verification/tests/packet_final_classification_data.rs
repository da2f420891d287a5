use f1_telemetry_client::packets::{FinalClassificationData, PacketFinalClassificationData, PacketHeader};
use rand::Rng;

#[test]
fn test_final_classification_data_serialization_deserialization() {
    let mut rng = rand::thread_rng();

    let original_data: FinalClassificationData = FinalClassificationData {
        position: rng.gen(),
        num_laps: rng.gen(),
        grid_position: rng.gen(),
        points: rng.gen(),
        num_pit_stops: rng.gen(),
        result_status: rng.gen(),
        best_lap_time_in_ms: rng.gen(),
        total_race_time: rng.gen(),
        penalties_time: rng.gen(),
        num_penalties: rng.gen(),
        num_tyre_stints: rng.gen(),
        tyre_stints_actual: vec![rng.gen(), rng.gen(), rng.gen(), rng.gen(), rng.gen(), rng.gen(), rng.gen(), rng.gen()],
        tyre_stints_visual: vec![rng.gen(), rng.gen(), rng.gen(), rng.gen(), rng.gen(), rng.gen(), rng.gen(), rng.gen()],
        tyre_stints_end_laps: vec![rng.gen(), rng.gen(), rng.gen(), rng.gen(), rng.gen(), rng.gen(), rng.gen(), rng.gen()],
    };

    let serialized_data: Vec<u8> = original_data.serialize();
    let deserialized_data: FinalClassificationData = FinalClassificationData::unserialize(&serialized_data).unwrap();

    assert_eq!(original_data, deserialized_data);
}

#[test]
fn test_packet_final_classification_data_serialization_deserialization() {
    let mut rng = rand::thread_rng();

    let original_packet: PacketFinalClassificationData = PacketFinalClassificationData {
            header: PacketHeader {
                packet_format: rng.gen(),
                game_year: rng.gen(),
                game_major_version: rng.gen(),
                game_minor_version: rng.gen(),
                packet_version: rng.gen(),
                packet_id: rng.gen(),
                session_uid: rng.gen(),
                session_time: rng.gen(),
                frame_identifier: rng.gen(),
                overall_frame_identifier: rng.gen(),
                player_car_index: rng.gen(),
                secondary_player_car_index: rng.gen(),
            },
        num_cars: rng.gen(),
        classification_data: vec![FinalClassificationData {
            position: rng.gen(),
            num_laps: rng.gen(),
            grid_position: rng.gen(),
            points: rng.gen(),
            num_pit_stops: rng.gen(),
            result_status: rng.gen(),
            best_lap_time_in_ms: rng.gen(),
            total_race_time: rng.gen(),
            penalties_time: rng.gen(),
            num_penalties: rng.gen(),
            num_tyre_stints: rng.gen(),
            tyre_stints_actual: vec![rng.gen(), rng.gen(), rng.gen(), rng.gen(), rng.gen(), rng.gen(), rng.gen(), rng.gen()],
            tyre_stints_visual: vec![rng.gen(), rng.gen(), rng.gen(), rng.gen(), rng.gen(), rng.gen(), rng.gen(), rng.gen()],
            tyre_stints_end_laps: vec![rng.gen(), rng.gen(), rng.gen(), rng.gen(), rng.gen(), rng.gen(), rng.gen(), rng.gen()],
        }; 22],
    };

    let serialized_packet: Vec<u8> = original_packet.serialize();
    let deserialized_packet: PacketFinalClassificationData = PacketFinalClassificationData::unserialize(&serialized_packet).unwrap();

    assert_eq!(original_packet, deserialized_packet);
}
