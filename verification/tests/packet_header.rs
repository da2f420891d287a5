use f1_telemetry_client::packets::PacketHeader;
use rand::Rng;

#[test]
fn test_packet_header_serialization_deserialization() {
    let mut rng = rand::thread_rng();

    let original_packet_header: PacketHeader = PacketHeader {
        packet_format: rng.gen(),
        game_year: rng.gen(),
        game_major_version: rng.gen(),
        game_minor_version: rng.gen(),
        packet_version: rng.gen(),
        packet_id: rng.gen(),
        session_uid: rng.gen(),
        session_time: rng.gen(),
        frame_identifier: rng.gen(),
        overall_frame_identifier: rng.gen(),
        player_car_index: rng.gen(),
        secondary_player_car_index: rng.gen(),
    };

    let serialized_packet_header: Vec<u8> = original_packet_header.serialize();
    let deserialized_packet_header: PacketHeader =
        PacketHeader::unserialize(&serialized_packet_header).unwrap();

    assert_eq!(original_packet_header, deserialized_packet_header);
}

#[test]
fn header_wire_layout_is_little_endian_and_packed() {
    let header = PacketHeader {
        packet_format: 2023,
        game_year: 23,
        game_major_version: 1,
        game_minor_version: 18,
        packet_version: 1,
        packet_id: 6,
        session_uid: 0x0123_4567_89ab_cdef,
        session_time: 123.456f32.to_bits(),
        frame_identifier: 1000,
        overall_frame_identifier: 5000,
        player_car_index: 19,
        secondary_player_car_index: 255,
    };

    let mut expected: Vec<u8> = Vec::new();
    expected.extend_from_slice(&2023u16.to_le_bytes());
    expected.push(23);
    expected.push(1);
    expected.push(18);
    expected.push(1);
    expected.push(6);
    expected.extend_from_slice(&0x0123_4567_89ab_cdefu64.to_le_bytes());
    expected.extend_from_slice(&123.456f32.to_le_bytes());
    expected.extend_from_slice(&1000u32.to_le_bytes());
    expected.extend_from_slice(&5000u32.to_le_bytes());
    expected.push(19);
    expected.push(255);

    assert_eq!(header.serialize(), expected);
    assert_eq!(expected.len(), 29);
}

#[test]
fn header_decode_ignores_trailing_bytes() {
    let mut rng = rand::thread_rng();
    let header = PacketHeader {
        packet_format: rng.gen(),
        game_year: rng.gen(),
        game_major_version: rng.gen(),
        game_minor_version: rng.gen(),
        packet_version: rng.gen(),
        packet_id: rng.gen(),
        session_uid: rng.gen(),
        session_time: rng.gen(),
        frame_identifier: rng.gen(),
        overall_frame_identifier: rng.gen(),
        player_car_index: rng.gen(),
        secondary_player_car_index: rng.gen(),
    };

    let bytes = header.serialize();
    let mut longer = bytes.clone();
    longer.extend_from_slice(&[0xaa; 100]);
    let mut longer_other = bytes.clone();
    longer_other.extend_from_slice(&[0x55; 7]);

    let h1 = PacketHeader::unserialize(&longer).unwrap();
    let h2 = PacketHeader::unserialize(&longer_other).unwrap();
    assert_eq!(h1, h2);
    assert_eq!(h1, header);
}
