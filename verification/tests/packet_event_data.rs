use f1_telemetry_client::error::PacketError;
use f1_telemetry_client::packets::{EventDataDetails, FastestLap, PacketEventData, PacketHeader};
use rand::Rng;

fn rng_header() -> PacketHeader {
    let mut rng = rand::thread_rng();
    PacketHeader {
        packet_format: rng.gen(),
        game_year: rng.gen(),
        game_major_version: rng.gen(),
        game_minor_version: rng.gen(),
        packet_version: rng.gen(),
        packet_id: rng.gen(),
        session_uid: rng.gen(),
        session_time: rng.gen(),
        frame_identifier: rng.gen(),
        overall_frame_identifier: rng.gen(),
        player_car_index: rng.gen(),
        secondary_player_car_index: rng.gen(),
    }
}

#[test]
fn test_packet_event_data_serialization_deserialization() {
    let mut rng = rand::thread_rng();

    let original_event_string_code: Vec<u8> = b"FTLP".to_vec();

    let original_event_details: EventDataDetails = EventDataDetails::FastestLap(FastestLap {
        vehicle_idx: rng.gen(),
        lap_time: rng.gen(),
    });

    let original_packet: PacketEventData = PacketEventData {
        header: rng_header(),
        event_string_code: original_event_string_code,
        event_details: original_event_details,
    };

    let serialized_packet: Vec<u8> = original_packet.serialize();
    let deserialized_packet: PacketEventData =
        PacketEventData::unserialize(&serialized_packet).unwrap();

    assert_eq!(original_packet, deserialized_packet);
}

/// A 45-byte buffer: header, `"FTLP"`, vehicle index 1, lap time 91.234 s.
#[test]
fn fastest_lap_scenario() {
    let header = rng_header();
    let mut buffer = header.serialize();
    buffer.extend_from_slice(b"FTLP");
    buffer.push(1);
    buffer.extend_from_slice(&91.234f32.to_le_bytes());
    buffer.resize(45, 0);

    let packet = PacketEventData::unserialize(&buffer).unwrap();
    assert_eq!(packet.event_string_code, b"FTLP".to_vec());
    match packet.event_details {
        EventDataDetails::FastestLap(x) => {
            assert_eq!(x.vehicle_idx, 1);
            assert_eq!(f32::from_bits(x.lap_time), 91.234);
        }
        _ => panic!("wrong variant"),
    }

    let mut zz = buffer.clone();
    zz[29..33].copy_from_slice(b"ZZZZ");
    assert_eq!(
        PacketEventData::unserialize(&zz).unwrap_err(),
        PacketError::UnknownEventCode
    );
}

fn event_buffer(code: &[u8; 4]) -> Vec<u8> {
    let mut buffer = rng_header().serialize();
    buffer.extend_from_slice(code);
    buffer.resize(45, 7);
    buffer
}

#[test]
fn all_nineteen_codes_decode_to_their_variants() {
    let cases: [(&[u8; 4], fn(&EventDataDetails) -> bool); 19] = [
        (b"FTLP", |d| matches!(d, EventDataDetails::FastestLap(_))),
        (b"RTMT", |d| matches!(d, EventDataDetails::Retirement(_))),
        (b"TMPT", |d| matches!(d, EventDataDetails::TeamMateInPits(_))),
        (b"RCWN", |d| matches!(d, EventDataDetails::RaceWinner(_))),
        (b"PENA", |d| matches!(d, EventDataDetails::Penalty(_))),
        (b"SPTP", |d| matches!(d, EventDataDetails::SpeedTrap(_))),
        (b"STLG", |d| matches!(d, EventDataDetails::StartLights(_))),
        (b"DTSV", |d| {
            matches!(d, EventDataDetails::DriveThroughPenaltyServed(_))
        }),
        (b"SGSV", |d| matches!(d, EventDataDetails::StopGoPenaltyServed(_))),
        (b"FLBK", |d| matches!(d, EventDataDetails::Flashback(_))),
        (b"BUTN", |d| matches!(d, EventDataDetails::Buttons(_))),
        (b"OVTK", |d| matches!(d, EventDataDetails::Overtake(_))),
        (b"SSTA", |d| matches!(d, EventDataDetails::Empty)),
        (b"SEND", |d| matches!(d, EventDataDetails::Empty)),
        (b"DRSE", |d| matches!(d, EventDataDetails::Empty)),
        (b"DRSD", |d| matches!(d, EventDataDetails::Empty)),
        (b"CHQF", |d| matches!(d, EventDataDetails::Empty)),
        (b"LGOT", |d| matches!(d, EventDataDetails::Empty)),
        (b"RDFL", |d| matches!(d, EventDataDetails::Empty)),
    ];
    for (code, is_expected) in cases {
        let packet = PacketEventData::unserialize(&event_buffer(code)).unwrap();
        assert_eq!(&packet.event_string_code[..], &code[..]);
        assert!(is_expected(&packet.event_details), "code {:?}", code);
    }
}

#[test]
fn unknown_codes_are_hard_errors() {
    for code in [b"ZZZZ", b"ftlp", b"FTL ", b"\x00\x00\x00\x00"] {
        assert_eq!(
            PacketEventData::unserialize(&event_buffer(code)).unwrap_err(),
            PacketError::UnknownEventCode
        );
    }
}

#[test]
fn truncated_events_are_rejected() {
    // shorter than header plus code
    let buffer = event_buffer(b"FTLP");
    assert_eq!(
        PacketEventData::unserialize(&buffer[..32]).unwrap_err(),
        PacketError::TruncatedInput
    );
    // the code is known but its payload is cut short
    assert_eq!(
        PacketEventData::unserialize(&buffer[..37]).unwrap_err(),
        PacketError::TruncatedInput
    );
    // a notification code needs no payload at all
    let packet = PacketEventData::unserialize(&event_buffer(b"SSTA")[..33]).unwrap();
    assert!(matches!(packet.event_details, EventDataDetails::Empty));
}

#[test]
fn empty_variants_encode_no_payload_bytes() {
    let packet = PacketEventData {
        header: rng_header(),
        event_string_code: b"LGOT".to_vec(),
        event_details: EventDataDetails::Empty,
    };
    let bytes = packet.serialize();
    assert_eq!(bytes.len(), 33);
    assert_eq!(PacketEventData::unserialize(&bytes).unwrap(), packet);
}
