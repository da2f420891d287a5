use f1_telemetry_client::packets::{CarMotionData, PacketHeader, PacketMotionData};
use rand::Rng;

#[test]
fn test_car_motion_data_serialization_deserialization() {
    let mut rng = rand::thread_rng();

    let original_data: CarMotionData = CarMotionData {
        world_position_x: rng.gen(),
        world_position_y: rng.gen(),
        world_position_z: rng.gen(),
        world_velocity_x: rng.gen(),
        world_velocity_y: rng.gen(),
        world_velocity_z: rng.gen(),
        world_forward_dir_x: rng.gen(),
        world_forward_dir_y: rng.gen(),
        world_forward_dir_z: rng.gen(),
        world_right_dir_x: rng.gen(),
        world_right_dir_y: rng.gen(),
        world_right_dir_z: rng.gen(),
        g_force_lateral: rng.gen(),
        g_force_longitudinal: rng.gen(),
        g_force_vertical: rng.gen(),
        yaw: rng.gen(),
        pitch: rng.gen(),
        roll: rng.gen(),
    };

    let serialized_data: Vec<u8> = original_data.serialize();
    let deserialized_data: CarMotionData = CarMotionData::unserialize(&serialized_data).unwrap();

    assert_eq!(original_data, deserialized_data);
}

#[test]
fn test_packet_motion_data_serialization_deserialization() {
    let mut rng = rand::thread_rng();

    let original_packet: PacketMotionData = PacketMotionData {
            header: PacketHeader {
                packet_format: rng.gen(),
                game_year: rng.gen(),
                game_major_version: rng.gen(),
                game_minor_version: rng.gen(),
                packet_version: rng.gen(),
                packet_id: rng.gen(),
                session_uid: rng.gen(),
                session_time: rng.gen(),
                frame_identifier: rng.gen(),
                overall_frame_identifier: rng.gen(),
                player_car_index: rng.gen(),
                secondary_player_car_index: rng.gen(),
            },
        car_motion_data: vec![CarMotionData {
            world_position_x: rng.gen(),
            world_position_y: rng.gen(),
            world_position_z: rng.gen(),
            world_velocity_x: rng.gen(),
            world_velocity_y: rng.gen(),
            world_velocity_z: rng.gen(),
            world_forward_dir_x: rng.gen(),
            world_forward_dir_y: rng.gen(),
            world_forward_dir_z: rng.gen(),
            world_right_dir_x: rng.gen(),
            world_right_dir_y: rng.gen(),
            world_right_dir_z: rng.gen(),
            g_force_lateral: rng.gen(),
            g_force_longitudinal: rng.gen(),
            g_force_vertical: rng.gen(),
            yaw: rng.gen(),
            pitch: rng.gen(),
            roll: rng.gen(),
        }; 22],
    };

    let serialized_packet: Vec<u8> = original_packet.serialize();
    let deserialized_packet: PacketMotionData = PacketMotionData::unserialize(&serialized_packet).unwrap();

    assert_eq!(original_packet, deserialized_packet);
}
