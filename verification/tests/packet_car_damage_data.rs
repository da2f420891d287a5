use f1_telemetry_client::packets::{CarDamageData, PacketCarDamageData, PacketHeader};
use rand::Rng;

#[test]
fn test_car_damage_data_serialization_deserialization() {
    let mut rng = rand::thread_rng();

    let original_data: CarDamageData = CarDamageData {
        tyres_wear: vec![rng.gen(), rng.gen(), rng.gen(), rng.gen()],
        tyres_damage: vec![rng.gen(), rng.gen(), rng.gen(), rng.gen()],
        brakes_damage: vec![rng.gen(), rng.gen(), rng.gen(), rng.gen()],
        front_left_wing_damage: rng.gen(),
        front_right_wing_damage: rng.gen(),
        rear_wing_damage: rng.gen(),
        floor_damage: rng.gen(),
        diffuser_damage: rng.gen(),
        sidepod_damage: rng.gen(),
        drs_fault: rng.gen(),
        ers_fault: rng.gen(),
        gearbox_damage: rng.gen(),
        engine_damage: rng.gen(),
        engine_mguh_wear: rng.gen(),
        engine_es_wear: rng.gen(),
        engine_ce_wear: rng.gen(),
        engine_ice_wear: rng.gen(),
        engine_mguk_wear: rng.gen(),
        engine_tc_wear: rng.gen(),
        engine_blown: rng.gen(),
        engine_seized: rng.gen(),
    };

    let serialized_data: Vec<u8> = original_data.serialize();
    let deserialized_data: CarDamageData = CarDamageData::unserialize(&serialized_data).unwrap();

    assert_eq!(original_data, deserialized_data);
}

#[test]
fn test_packet_car_damage_data_serialization_deserialization() {
    let mut rng = rand::thread_rng();

    let original_packet: PacketCarDamageData = PacketCarDamageData {
            header: PacketHeader {
                packet_format: rng.gen(),
                game_year: rng.gen(),
                game_major_version: rng.gen(),
                game_minor_version: rng.gen(),
                packet_version: rng.gen(),
                packet_id: rng.gen(),
                session_uid: rng.gen(),
                session_time: rng.gen(),
                frame_identifier: rng.gen(),
                overall_frame_identifier: rng.gen(),
                player_car_index: rng.gen(),
                secondary_player_car_index: rng.gen(),
            },
        car_damage_data: vec![CarDamageData {
            tyres_wear: vec![rng.gen(), rng.gen(), rng.gen(), rng.gen()],
            tyres_damage: vec![rng.gen(), rng.gen(), rng.gen(), rng.gen()],
            brakes_damage: vec![rng.gen(), rng.gen(), rng.gen(), rng.gen()],
            front_left_wing_damage: rng.gen(),
            front_right_wing_damage: rng.gen(),
            rear_wing_damage: rng.gen(),
            floor_damage: rng.gen(),
            diffuser_damage: rng.gen(),
            sidepod_damage: rng.gen(),
            drs_fault: rng.gen(),
            ers_fault: rng.gen(),
            gearbox_damage: rng.gen(),
            engine_damage: rng.gen(),
            engine_mguh_wear: rng.gen(),
            engine_es_wear: rng.gen(),
            engine_ce_wear: rng.gen(),
            engine_ice_wear: rng.gen(),
            engine_mguk_wear: rng.gen(),
            engine_tc_wear: rng.gen(),
            engine_blown: rng.gen(),
            engine_seized: rng.gen(),
        }; 22],
    };

    let serialized_packet: Vec<u8> = original_packet.serialize();
    let deserialized_packet: PacketCarDamageData = PacketCarDamageData::unserialize(&serialized_packet).unwrap();

    assert_eq!(original_packet, deserialized_packet);
}
