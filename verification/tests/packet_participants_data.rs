use f1_telemetry_client::packets::{PacketHeader, PacketParticipantsData, ParticipantData};
use rand::Rng;
use rand::distributions::Alphanumeric;

#[test]
fn test_participant_data_serialization_deserialization() {
    let mut rng = rand::thread_rng();

    let original_data: ParticipantData = ParticipantData {
        ai_controlled: rng.gen(),
        driver_id: rng.gen(),
        network_id: rng.gen(),
        team_id: rng.gen(),
        my_team: rng.gen(),
        race_number: rng.gen(),
        nationality: rng.gen(),
        name: vec![rng.sample(Alphanumeric); 48],
        your_telemetry: rng.gen(),
        show_online_names: rng.gen(),
        platform: rng.gen(),
    };

    let serialized_data: Vec<u8> = original_data.serialize();
    let deserialized_data: ParticipantData = ParticipantData::unserialize(&serialized_data).unwrap();

    assert_eq!(original_data, deserialized_data);
}

#[test]
fn test_packet_participants_data_serialization_deserialization() {
    let mut rng = rand::thread_rng();

    let original_packet: PacketParticipantsData = PacketParticipantsData {
            header: PacketHeader {
                packet_format: rng.gen(),
                game_year: rng.gen(),
                game_major_version: rng.gen(),
                game_minor_version: rng.gen(),
                packet_version: rng.gen(),
                packet_id: rng.gen(),
                session_uid: rng.gen(),
                session_time: rng.gen(),
                frame_identifier: rng.gen(),
                overall_frame_identifier: rng.gen(),
                player_car_index: rng.gen(),
                secondary_player_car_index: rng.gen(),
            },
        num_active_cars: rng.gen(),
        participants: vec![ParticipantData {
            ai_controlled: rng.gen(),
            driver_id: rng.gen(),
            network_id: rng.gen(),
            team_id: rng.gen(),
            my_team: rng.gen(),
            race_number: rng.gen(),
            nationality: rng.gen(),
            name: vec![rng.sample(Alphanumeric); 48],
            your_telemetry: rng.gen(),
            show_online_names: rng.gen(),
            platform: rng.gen(),
        }; 22],
    };

    let serialized_packet: Vec<u8> = original_packet.serialize();
    let deserialized_packet: PacketParticipantsData = PacketParticipantsData::unserialize(&serialized_packet).unwrap();

    assert_eq!(original_packet, deserialized_packet);
}
