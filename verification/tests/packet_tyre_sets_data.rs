use f1_telemetry_client::packets::{PacketHeader, PacketTyreSetsData, TyreSetData};
use rand::Rng;

#[test]
fn test_tyre_set_data_serialization_deserialization() {
    let mut rng = rand::thread_rng();

    let original_data: TyreSetData = TyreSetData {
        actual_tyre_compound: rng.gen(),
        visual_tyre_compound: rng.gen(),
        wear: rng.gen(),
        available: rng.gen(),
        recommended_session: rng.gen(),
        life_span: rng.gen(),
        usable_life: rng.gen(),
        lap_delta_time: rng.gen(),
        fitted: rng.gen(),
    };

    let serialized_data: Vec<u8> = original_data.serialize();
    let deserialized_data: TyreSetData = TyreSetData::unserialize(&serialized_data).unwrap();

    assert_eq!(original_data, deserialized_data);
}

#[test]
fn test_packet_tyre_sets_data_serialization_deserialization() {
    let mut rng = rand::thread_rng();

    let original_packet: PacketTyreSetsData = PacketTyreSetsData {
            header: PacketHeader {
                packet_format: 2021u16,
                game_year: 21u8,
                game_major_version: 1u8,
                game_minor_version: 3u8,
                packet_version: 1u8,
                packet_id: 0u8,
                session_uid: 123456789u64,
                session_time: 123.456f32.to_bits(),
                frame_identifier: 1000u32,
                overall_frame_identifier: 5000u32,
                player_car_index: 1u8,
                secondary_player_car_index: 255u8,
            },
        car_idx: rng.gen(),
        tyre_set_data: vec![TyreSetData {
            actual_tyre_compound: rng.gen(),
            visual_tyre_compound: rng.gen(),
            wear: rng.gen(),
            available: rng.gen(),
            recommended_session: rng.gen(),
            life_span: rng.gen(),
            usable_life: rng.gen(),
            lap_delta_time: rng.gen(),
            fitted: rng.gen(),
        }; 20],
        fitted_idx: rng.gen(),
    };

    let serialized_packet: Vec<u8> = original_packet.serialize();
    let deserialized_packet: PacketTyreSetsData = PacketTyreSetsData::unserialize(&serialized_packet).unwrap();

    assert_eq!(original_packet, deserialized_packet);
}
