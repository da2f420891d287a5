use f1_telemetry_client::packets::{PacketHeader, PacketMotionExData};
use rand::Rng;

#[test]
fn test_packet_motion_ex_data_serialization_deserialization() {
    let mut rng = rand::thread_rng();

    let original_packet: PacketMotionExData = PacketMotionExData {
            header: PacketHeader {
                packet_format: 2021u16,
                game_year: 21u8,
                game_major_version: 1u8,
                game_minor_version: 3u8,
                packet_version: 1u8,
                packet_id: 0u8,
                session_uid: 123456789u64,
                session_time: 123.456f32.to_bits(),
                frame_identifier: 1000u32,
                overall_frame_identifier: 5000u32,
                player_car_index: 1u8,
                secondary_player_car_index: 255u8,
            },
        suspension_position: vec![rng.gen(), rng.gen(), rng.gen(), rng.gen()],
        suspension_velocity: vec![rng.gen(), rng.gen(), rng.gen(), rng.gen()],
        suspension_acceleration: vec![rng.gen(), rng.gen(), rng.gen(), rng.gen()],
        wheel_speed: vec![rng.gen(), rng.gen(), rng.gen(), rng.gen()],
        wheel_slip_ratio: vec![rng.gen(), rng.gen(), rng.gen(), rng.gen()],
        wheel_slip_angle: vec![rng.gen(), rng.gen(), rng.gen(), rng.gen()],
        wheel_lat_force: vec![rng.gen(), rng.gen(), rng.gen(), rng.gen()],
        wheel_long_force: vec![rng.gen(), rng.gen(), rng.gen(), rng.gen()],
        height_of_cog_above_ground: rng.gen(),
        local_velocity_x: rng.gen(),
        local_velocity_y: rng.gen(),
        local_velocity_z: rng.gen(),
        angular_velocity_x: rng.gen(),
        angular_velocity_y: rng.gen(),
        angular_velocity_z: rng.gen(),
        angular_acceleration_x: rng.gen(),
        angular_acceleration_y: rng.gen(),
        angular_acceleration_z: rng.gen(),
        front_wheels_angle: rng.gen(),
        wheel_vert_force: vec![rng.gen(), rng.gen(), rng.gen(), rng.gen()],
    };

    let serialized_packet: Vec<u8> = original_packet.serialize();
    let deserialized_packet: PacketMotionExData = PacketMotionExData::unserialize(&serialized_packet).unwrap();

    assert_eq!(original_packet, deserialized_packet);
}
