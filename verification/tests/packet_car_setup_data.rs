use f1_telemetry_client::packets::{CarSetupData, PacketCarSetupData, PacketHeader};
use rand::Rng;

#[test]
fn test_car_setup_data_serialization_deserialization() {
    let mut rng = rand::thread_rng();

    let original_data: CarSetupData = CarSetupData {
        front_wing: rng.gen(),
        rear_wing: rng.gen(),
        on_throttle: rng.gen(),
        off_throttle: rng.gen(),
        front_camber: rng.gen(),
        rear_camber: rng.gen(),
        front_toe: rng.gen(),
        rear_toe: rng.gen(),
        front_suspension: rng.gen(),
        rear_suspension: rng.gen(),
        front_anti_roll_bar: rng.gen(),
        rear_anti_roll_bar: rng.gen(),
        front_suspension_height: rng.gen(),
        rear_suspension_height: rng.gen(),
        brake_pressure: rng.gen(),
        brake_bias: rng.gen(),
        rear_left_tyre_pressure: rng.gen(),
        rear_right_tyre_pressure: rng.gen(),
        front_left_tyre_pressure: rng.gen(),
        front_right_tyre_pressure: rng.gen(),
        ballast: rng.gen(),
        fuel_load: rng.gen(),
    };

    let serialized_data: Vec<u8> = original_data.serialize();
    let deserialized_data: CarSetupData = CarSetupData::unserialize(&serialized_data).unwrap();

    assert_eq!(original_data, deserialized_data);
}

#[test]
fn test_packet_car_setup_data_serialization_deserialization() {
    let mut rng = rand::thread_rng();

    let original_packet: PacketCarSetupData = PacketCarSetupData {
            header: PacketHeader {
                packet_format: rng.gen(),
                game_year: rng.gen(),
                game_major_version: rng.gen(),
                game_minor_version: rng.gen(),
                packet_version: rng.gen(),
                packet_id: rng.gen(),
                session_uid: rng.gen(),
                session_time: rng.gen(),
                frame_identifier: rng.gen(),
                overall_frame_identifier: rng.gen(),
                player_car_index: rng.gen(),
                secondary_player_car_index: rng.gen(),
            },
        car_setups: vec![CarSetupData {
            front_wing: rng.gen(),
            rear_wing: rng.gen(),
            on_throttle: rng.gen(),
            off_throttle: rng.gen(),
            front_camber: rng.gen(),
            rear_camber: rng.gen(),
            front_toe: rng.gen(),
            rear_toe: rng.gen(),
            front_suspension: rng.gen(),
            rear_suspension: rng.gen(),
            front_anti_roll_bar: rng.gen(),
            rear_anti_roll_bar: rng.gen(),
            front_suspension_height: rng.gen(),
            rear_suspension_height: rng.gen(),
            brake_pressure: rng.gen(),
            brake_bias: rng.gen(),
            rear_left_tyre_pressure: rng.gen(),
            rear_right_tyre_pressure: rng.gen(),
            front_left_tyre_pressure: rng.gen(),
            front_right_tyre_pressure: rng.gen(),
            ballast: rng.gen(),
            fuel_load: rng.gen(),
        }; 22],
    };

    let serialized_packet: Vec<u8> = original_packet.serialize();
    let deserialized_packet: PacketCarSetupData = PacketCarSetupData::unserialize(&serialized_packet).unwrap();

    assert_eq!(original_packet, deserialized_packet);
}
