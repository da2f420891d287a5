use f1_telemetry_client::packets::{CarTelemetryData, PacketCarTelemetryData, PacketHeader};
use rand::Rng;

#[test]
fn test_car_telemetry_data_serialization_deserialization() {
    let mut rng = rand::thread_rng();

    let original_data: CarTelemetryData = CarTelemetryData {
        speed: rng.gen(),
        throttle: rng.gen(),
        steer: rng.gen(),
        brake: rng.gen(),
        clutch: rng.gen(),
        gear: rng.gen(),
        engine_rpm: rng.gen(),
        drs: rng.gen(),
        rev_lights_percent: rng.gen(),
        rev_lights_bit_value: rng.gen(),
        brakes_temperature: vec![rng.gen(), rng.gen(), rng.gen(), rng.gen()],
        tyres_surface_temperature: vec![rng.gen(), rng.gen(), rng.gen(), rng.gen()],
        tyres_inner_temperature: vec![rng.gen(), rng.gen(), rng.gen(), rng.gen()],
        engine_temperature: 95u16,
        tyres_pressure: vec![rng.gen(), rng.gen(), rng.gen(), rng.gen()],
        surface_type: vec![rng.gen(), rng.gen(), rng.gen(), rng.gen()],
    };

    let serialized_data: Vec<u8> = original_data.serialize();
    let deserialized_data: CarTelemetryData = CarTelemetryData::unserialize(&serialized_data).unwrap();

    assert_eq!(original_data, deserialized_data);
}

#[test]
fn test_packet_car_telemetry_data_serialization_deserialization() {
    let mut rng = rand::thread_rng();

    let original_packet: PacketCarTelemetryData = PacketCarTelemetryData {
            header: PacketHeader {
                packet_format: rng.gen(),
                game_year: rng.gen(),
                game_major_version: rng.gen(),
                game_minor_version: rng.gen(),
                packet_version: rng.gen(),
                packet_id: rng.gen(),
                session_uid: rng.gen(),
                session_time: rng.gen(),
                frame_identifier: rng.gen(),
                overall_frame_identifier: rng.gen(),
                player_car_index: rng.gen(),
                secondary_player_car_index: rng.gen(),
            },
        car_telemetry_data: vec![CarTelemetryData {
            speed: rng.gen(),
            throttle: rng.gen(),
            steer: rng.gen(),
            brake: rng.gen(),
            clutch: rng.gen(),
            gear: rng.gen(),
            engine_rpm: rng.gen(),
            drs: rng.gen(),
            rev_lights_percent: rng.gen(),
            rev_lights_bit_value: rng.gen(),
            brakes_temperature: vec![rng.gen(), rng.gen(), rng.gen(), rng.gen()],
            tyres_surface_temperature: vec![rng.gen(), rng.gen(), rng.gen(), rng.gen()],
            tyres_inner_temperature: vec![rng.gen(), rng.gen(), rng.gen(), rng.gen()],
            engine_temperature: 95u16,
            tyres_pressure: vec![rng.gen(), rng.gen(), rng.gen(), rng.gen()],
            surface_type: vec![rng.gen(), rng.gen(), rng.gen(), rng.gen()],
        }; 22],
        mfd_panel_index: rng.gen(),
        mfd_panel_index_secondary_player: rng.gen(),
        suggested_gear: rng.gen(),
    };

    let serialized_packet: Vec<u8> = original_packet.serialize();
    let deserialized_packet: PacketCarTelemetryData = PacketCarTelemetryData::unserialize(&serialized_packet).unwrap();

    assert_eq!(original_packet, deserialized_packet);
}
