use f1_telemetry_client::packets::{CarStatusData, PacketCarStatusData, PacketHeader};
use rand::Rng;

#[test]
fn test_car_status_data_serialization_deserialization() {
    let mut rng = rand::thread_rng();

    let original_data: CarStatusData = CarStatusData {
        traction_control: rng.gen(),
        anti_lock_brakes: rng.gen(),
        fuel_mix: rng.gen(),
        front_brake_bias: rng.gen(),
        pit_limiter_status: rng.gen(),
        fuel_in_tank: rng.gen(),
        fuel_capacity: rng.gen(),
        fuel_remaining_laps: rng.gen(),
        max_rpm: rng.gen(),
        idle_rpm: rng.gen(),
        max_gears: rng.gen(),
        drs_allowed: rng.gen(),
        drs_activation_distance: rng.gen(),
        actual_tyre_compound: rng.gen(),
        visual_tyre_compound: rng.gen(),
        tyres_age_laps: rng.gen(),
        vehicle_fia_flags: rng.gen(),
        engine_power_ice: rng.gen(),
        engine_power_mguk: rng.gen(),
        ers_store_energy: rng.gen(),
        ers_deploy_mode: rng.gen(),
        ers_harvested_this_lap_mguk: rng.gen(),
        ers_harvested_this_lap_mguh: rng.gen(),
        ers_deployed_this_lap: rng.gen(),
        network_paused: rng.gen(),
    };

    let serialized_data: Vec<u8> = original_data.serialize();
    let deserialized_data: CarStatusData = CarStatusData::unserialize(&serialized_data).unwrap();

    assert_eq!(original_data, deserialized_data);
}

#[test]
fn test_packet_car_status_data_serialization_deserialization() {
    let mut rng = rand::thread_rng();

    let original_packet: PacketCarStatusData = PacketCarStatusData {
            header: PacketHeader {
                packet_format: rng.gen(),
                game_year: rng.gen(),
                game_major_version: rng.gen(),
                game_minor_version: rng.gen(),
                packet_version: rng.gen(),
                packet_id: rng.gen(),
                session_uid: rng.gen(),
                session_time: rng.gen(),
                frame_identifier: rng.gen(),
                overall_frame_identifier: rng.gen(),
                player_car_index: rng.gen(),
                secondary_player_car_index: rng.gen(),
            },
        car_status_data: vec![CarStatusData {
            traction_control: rng.gen(),
            anti_lock_brakes: rng.gen(),
            fuel_mix: rng.gen(),
            front_brake_bias: rng.gen(),
            pit_limiter_status: rng.gen(),
            fuel_in_tank: rng.gen(),
            fuel_capacity: rng.gen(),
            fuel_remaining_laps: rng.gen(),
            max_rpm: rng.gen(),
            idle_rpm: rng.gen(),
            max_gears: rng.gen(),
            drs_allowed: rng.gen(),
            drs_activation_distance: rng.gen(),
            actual_tyre_compound: rng.gen(),
            visual_tyre_compound: rng.gen(),
            tyres_age_laps: rng.gen(),
            vehicle_fia_flags: rng.gen(),
            engine_power_ice: rng.gen(),
            engine_power_mguk: rng.gen(),
            ers_store_energy: rng.gen(),
            ers_deploy_mode: rng.gen(),
            ers_harvested_this_lap_mguk: rng.gen(),
            ers_harvested_this_lap_mguh: rng.gen(),
            ers_deployed_this_lap: rng.gen(),
            network_paused: rng.gen(),
        }; 22],
    };

    let serialized_packet: Vec<u8> = original_packet.serialize();
    let deserialized_packet: PacketCarStatusData = PacketCarStatusData::unserialize(&serialized_packet).unwrap();

    assert_eq!(original_packet, deserialized_packet);
}
