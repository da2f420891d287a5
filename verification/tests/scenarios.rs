use f1_telemetry_client::packets::PacketCarTelemetryData;

/// One hand-built 60-byte telemetry record, tightly packed, little-endian.
fn telemetry_record_bytes() -> Vec<u8> {
    let mut r: Vec<u8> = Vec::new();
    r.extend_from_slice(&200u16.to_le_bytes()); // speed
    r.extend_from_slice(&0.8f32.to_le_bytes()); // throttle
    r.extend_from_slice(&(-0.25f32).to_le_bytes()); // steer
    r.extend_from_slice(&0.1f32.to_le_bytes()); // brake
    r.push(0); // clutch
    r.push(3); // gear (i8)
    r.extend_from_slice(&9000u16.to_le_bytes()); // engine_rpm
    r.push(1); // drs
    r.push(50); // rev_lights_percent
    r.extend_from_slice(&0x0fffu16.to_le_bytes()); // rev_lights_bit_value
    for _ in 0..4 {
        r.extend_from_slice(&300u16.to_le_bytes()); // brakes_temperature
    }
    r.extend_from_slice(&[90; 4]); // tyres_surface_temperature
    r.extend_from_slice(&[95; 4]); // tyres_inner_temperature
    r.extend_from_slice(&105u16.to_le_bytes()); // engine_temperature
    for _ in 0..4 {
        r.extend_from_slice(&21.5f32.to_le_bytes()); // tyres_pressure
    }
    r.extend_from_slice(&[0; 4]); // surface_type
    assert_eq!(r.len(), 60);
    r
}

/// A full 1352-byte car telemetry datagram: header with `packet_id` 6,
/// 22 identical records, and the three trailing cockpit fields.
#[test]
fn car_telemetry_scenario_round_trips_byte_for_byte() {
    let mut buffer: Vec<u8> = Vec::new();
    buffer.extend_from_slice(&2023u16.to_le_bytes()); // packet_format
    buffer.push(23); // game_year
    buffer.push(1); // game_major_version
    buffer.push(18); // game_minor_version
    buffer.push(1); // packet_version
    buffer.push(6); // packet_id: car telemetry
    buffer.extend_from_slice(&987654321u64.to_le_bytes()); // session_uid
    buffer.extend_from_slice(&42.5f32.to_le_bytes()); // session_time
    buffer.extend_from_slice(&1000u32.to_le_bytes()); // frame_identifier
    buffer.extend_from_slice(&5000u32.to_le_bytes()); // overall_frame_identifier
    buffer.push(19); // player_car_index
    buffer.push(255); // secondary_player_car_index

    let record = telemetry_record_bytes();
    for _ in 0..22 {
        buffer.extend_from_slice(&record);
    }
    buffer.push(3); // mfd_panel_index
    buffer.push(2); // mfd_panel_index_secondary_player
    buffer.push(0xff); // suggested_gear: -1
    assert_eq!(buffer.len(), 1352);

    let packet = PacketCarTelemetryData::unserialize(&buffer).unwrap();

    assert_eq!(packet.header.packet_id, 6);
    assert_eq!(packet.header.packet_format, 2023);
    assert_eq!(f32::from_bits(packet.header.session_time), 42.5);
    assert_eq!(packet.car_telemetry_data.len(), 22);
    for car in &packet.car_telemetry_data {
        assert_eq!(car.speed, 200);
        assert_eq!(f32::from_bits(car.throttle), 0.8);
        assert_eq!(f32::from_bits(car.steer), -0.25);
        assert_eq!(f32::from_bits(car.brake), 0.1);
        assert_eq!(car.clutch, 0);
        assert_eq!(car.gear, 3);
        assert_eq!(car.engine_rpm, 9000);
        assert_eq!(car.drs, 1);
        assert_eq!(car.rev_lights_percent, 50);
        assert_eq!(car.rev_lights_bit_value, 0x0fff);
        assert_eq!(car.brakes_temperature, vec![300; 4]);
        assert_eq!(car.tyres_surface_temperature, vec![90; 4]);
        assert_eq!(car.tyres_inner_temperature, vec![95; 4]);
        assert_eq!(car.engine_temperature, 105);
        assert_eq!(car.tyres_pressure, vec![21.5f32.to_bits(); 4]);
        assert_eq!(car.surface_type, vec![0; 4]);
    }
    assert_eq!(packet.mfd_panel_index, 3);
    assert_eq!(packet.mfd_panel_index_secondary_player, 2);
    assert_eq!(packet.suggested_gear, -1);

    // re-encoding reproduces the original bytes exactly
    assert_eq!(packet.serialize(), buffer);
}
