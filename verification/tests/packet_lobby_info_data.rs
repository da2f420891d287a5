use f1_telemetry_client::packets::{LobbyInfoData, PacketHeader, PacketLobbyInfoData};
use rand::Rng;
use rand::distributions::Alphanumeric;

#[test]
fn test_lobby_info_data_serialization_deserialization() {
    let mut rng = rand::thread_rng();

    let original_data: LobbyInfoData = LobbyInfoData {
        ai_controlled: rng.gen(),
        team_id: rng.gen(),
        nationality: rng.gen(),
        platform: rng.gen(),
        name: vec![rng.sample(Alphanumeric); 48],
        car_number: rng.gen(),
        ready_status: rng.gen(),
    };

    let serialized_data: Vec<u8> = original_data.serialize();
    let deserialized_data: LobbyInfoData = LobbyInfoData::unserialize(&serialized_data).unwrap();

    assert_eq!(original_data, deserialized_data);
}

#[test]
fn test_packet_lobby_info_data_serialization_deserialization() {
    let mut rng = rand::thread_rng();

    let original_packet: PacketLobbyInfoData = PacketLobbyInfoData {
            header: PacketHeader {
                packet_format: rng.gen(),
                game_year: rng.gen(),
                game_major_version: rng.gen(),
                game_minor_version: rng.gen(),
                packet_version: rng.gen(),
                packet_id: rng.gen(),
                session_uid: rng.gen(),
                session_time: rng.gen(),
                frame_identifier: rng.gen(),
                overall_frame_identifier: rng.gen(),
                player_car_index: rng.gen(),
                secondary_player_car_index: rng.gen(),
            },
        num_players: rng.gen(),
        lobby_players: vec![LobbyInfoData {
            ai_controlled: rng.gen(),
            team_id: rng.gen(),
            nationality: rng.gen(),
            platform: rng.gen(),
            name: vec![rng.sample(Alphanumeric); 48],
            car_number: rng.gen(),
            ready_status: rng.gen(),
        }; 22],
    };

    let serialized_packet: Vec<u8> = original_packet.serialize();
    let deserialized_packet: PacketLobbyInfoData = PacketLobbyInfoData::unserialize(&serialized_packet).unwrap();

    assert_eq!(original_packet, deserialized_packet);
}
