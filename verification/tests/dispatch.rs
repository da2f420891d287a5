use f1_telemetry_client::dispatch::{dispatch, DecodedPacket};
use f1_telemetry_client::error::PacketError;

/// A zeroed buffer long enough for any packet, with the given `packet_id`.
fn buffer_with_id(id: u8) -> Vec<u8> {
    let mut buffer = vec![0u8; 1460];
    buffer[6] = id;
    if id == 3 {
        // an event packet needs a known code to decode
        buffer[29..33].copy_from_slice(b"SSTA");
    }
    buffer
}

#[test]
fn every_known_packet_id_reaches_its_codec() {
    let cases: [(u8, fn(&DecodedPacket) -> bool); 14] = [
        (0, |p| matches!(p, DecodedPacket::Motion(_))),
        (1, |p| matches!(p, DecodedPacket::Session(_))),
        (2, |p| matches!(p, DecodedPacket::LapData(_))),
        (3, |p| matches!(p, DecodedPacket::Event(_))),
        (4, |p| matches!(p, DecodedPacket::Participants(_))),
        (5, |p| matches!(p, DecodedPacket::CarSetup(_))),
        (6, |p| matches!(p, DecodedPacket::CarTelemetry(_))),
        (7, |p| matches!(p, DecodedPacket::CarStatus(_))),
        (8, |p| matches!(p, DecodedPacket::FinalClassification(_))),
        (9, |p| matches!(p, DecodedPacket::LobbyInfo(_))),
        (10, |p| matches!(p, DecodedPacket::CarDamage(_))),
        (11, |p| matches!(p, DecodedPacket::SessionHistory(_))),
        (12, |p| matches!(p, DecodedPacket::TyreSets(_))),
        (13, |p| matches!(p, DecodedPacket::MotionEx(_))),
    ];
    for (id, is_expected) in cases {
        let decoded = dispatch(&buffer_with_id(id)).unwrap().unwrap();
        assert!(is_expected(&decoded), "packet_id {}", id);
    }
}

#[test]
fn unrecognized_packet_ids_are_ignored_without_error() {
    for id in [14u8, 15, 100, 255] {
        assert!(dispatch(&buffer_with_id(id)).unwrap().is_none());
    }
}

#[test]
fn truncated_header_is_reported() {
    assert_eq!(
        dispatch(&[0u8; 28]).unwrap_err(),
        PacketError::TruncatedInput
    );
    assert_eq!(dispatch(&[]).unwrap_err(), PacketError::TruncatedInput);
}

#[test]
fn truncated_payload_is_reported() {
    // a motion packet announced, but only the header delivered
    let buffer = buffer_with_id(0);
    assert_eq!(
        dispatch(&buffer[..29]).unwrap_err(),
        PacketError::TruncatedInput
    );
    assert_eq!(
        dispatch(&buffer[..1348]).unwrap_err(),
        PacketError::TruncatedInput
    );
}

#[test]
fn event_decode_errors_pass_through() {
    let mut buffer = buffer_with_id(3);
    buffer[29..33].copy_from_slice(b"QQQQ");
    assert_eq!(
        dispatch(&buffer).unwrap_err(),
        PacketError::UnknownEventCode
    );
}
