use f1_telemetry_client::packets::{LapHistoryData, PacketHeader, PacketSessionHistoryData, TyreStintHistoryData};
use rand::Rng;

#[test]
fn test_lap_history_data_serialization_deserialization() {
    let mut rng = rand::thread_rng();

    let original_data: LapHistoryData = LapHistoryData {
        lap_time_in_ms: rng.gen(),
        sector1_time_in_ms: rng.gen(),
        sector1_time_minutes: rng.gen(),
        sector2_time_in_ms: rng.gen(),
        sector2_time_minutes: rng.gen(),
        sector3_time_in_ms: rng.gen(),
        sector3_time_minutes: rng.gen(),
        lap_valid_bit_flags: rng.gen(),
    };

    let serialized_data: Vec<u8> = original_data.serialize();
    let deserialized_data: LapHistoryData = LapHistoryData::unserialize(&serialized_data).unwrap();

    assert_eq!(original_data, deserialized_data);
}

#[test]
fn test_tyre_stint_history_data_serialization_deserialization() {
    let mut rng = rand::thread_rng();

    let original_data: TyreStintHistoryData = TyreStintHistoryData {
        end_lap: rng.gen(),
        tyre_actual_compound: rng.gen(),
        tyre_visual_compound: rng.gen(),
    };

    let serialized_data: Vec<u8> = original_data.serialize();
    let deserialized_data: TyreStintHistoryData = TyreStintHistoryData::unserialize(&serialized_data).unwrap();

    assert_eq!(original_data, deserialized_data);
}

#[test]
fn test_packet_session_history_data_serialization_deserialization() {
    let mut rng = rand::thread_rng();

    let original_packet: PacketSessionHistoryData = PacketSessionHistoryData {
            header: PacketHeader {
                packet_format: rng.gen(),
                game_year: rng.gen(),
                game_major_version: rng.gen(),
                game_minor_version: rng.gen(),
                packet_version: rng.gen(),
                packet_id: rng.gen(),
                session_uid: rng.gen(),
                session_time: rng.gen(),
                frame_identifier: rng.gen(),
                overall_frame_identifier: rng.gen(),
                player_car_index: rng.gen(),
                secondary_player_car_index: rng.gen(),
            },
        car_idx: rng.gen(),
        num_laps: rng.gen(),
        num_tyre_stints: rng.gen(),
        best_lap_time_lap_num: rng.gen(),
        best_sector1_lap_num: rng.gen(),
        best_sector2_lap_num: rng.gen(),
        best_sector3_lap_num: rng.gen(),
        lap_history_data: vec![LapHistoryData {
            lap_time_in_ms: rng.gen(),
            sector1_time_in_ms: rng.gen(),
            sector1_time_minutes: rng.gen(),
            sector2_time_in_ms: rng.gen(),
            sector2_time_minutes: rng.gen(),
            sector3_time_in_ms: rng.gen(),
            sector3_time_minutes: rng.gen(),
            lap_valid_bit_flags: rng.gen(),
        }; 100],
        tyre_stints_history_data: vec![TyreStintHistoryData {
            end_lap: rng.gen(),
            tyre_actual_compound: rng.gen(),
            tyre_visual_compound: rng.gen(),
        }; 8],
    };

    let serialized_packet: Vec<u8> = original_packet.serialize();
    let deserialized_packet: PacketSessionHistoryData = PacketSessionHistoryData::unserialize(&serialized_packet).unwrap();

    assert_eq!(original_packet, deserialized_packet);
}
