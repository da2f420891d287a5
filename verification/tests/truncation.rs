use f1_telemetry_client::error::PacketError;
use f1_telemetry_client::packets::{
    PacketCarDamageData, PacketCarSetupData, PacketCarStatusData, PacketCarTelemetryData,
    PacketFinalClassificationData, PacketHeader, PacketLapData, PacketLobbyInfoData,
    PacketMotionData, PacketMotionExData, PacketParticipantsData, PacketSessionData,
    PacketSessionHistoryData, PacketTyreSetsData,
};

/// Each packet kind has one fixed wire length: a zeroed buffer of exactly
/// that length decodes, one byte fewer is `TruncatedInput`, and re-encoding
/// the decoded value gives that length back.
#[test]
fn every_kind_has_a_fixed_length_and_rejects_shorter_input() {
    let full = vec![0u8; 1460];

    assert_eq!(PacketHeader::unserialize(&full[..29]).unwrap().serialize().len(), 29);
    assert_eq!(
        PacketHeader::unserialize(&full[..28]).unwrap_err(),
        PacketError::TruncatedInput
    );

    assert_eq!(
        PacketMotionData::unserialize(&full[..1349]).unwrap().serialize().len(),
        1349
    );
    assert_eq!(
        PacketMotionData::unserialize(&full[..1348]).unwrap_err(),
        PacketError::TruncatedInput
    );

    assert_eq!(
        PacketSessionData::unserialize(&full[..644]).unwrap().serialize().len(),
        644
    );
    assert_eq!(
        PacketSessionData::unserialize(&full[..643]).unwrap_err(),
        PacketError::TruncatedInput
    );

    assert_eq!(
        PacketLapData::unserialize(&full[..1131]).unwrap().serialize().len(),
        1131
    );
    assert_eq!(
        PacketLapData::unserialize(&full[..1130]).unwrap_err(),
        PacketError::TruncatedInput
    );

    assert_eq!(
        PacketParticipantsData::unserialize(&full[..1306]).unwrap().serialize().len(),
        1306
    );
    assert_eq!(
        PacketParticipantsData::unserialize(&full[..1305]).unwrap_err(),
        PacketError::TruncatedInput
    );

    assert_eq!(
        PacketCarSetupData::unserialize(&full[..1107]).unwrap().serialize().len(),
        1107
    );
    assert_eq!(
        PacketCarSetupData::unserialize(&full[..1106]).unwrap_err(),
        PacketError::TruncatedInput
    );

    assert_eq!(
        PacketCarTelemetryData::unserialize(&full[..1352]).unwrap().serialize().len(),
        1352
    );
    assert_eq!(
        PacketCarTelemetryData::unserialize(&full[..1351]).unwrap_err(),
        PacketError::TruncatedInput
    );

    assert_eq!(
        PacketCarStatusData::unserialize(&full[..1239]).unwrap().serialize().len(),
        1239
    );
    assert_eq!(
        PacketCarStatusData::unserialize(&full[..1238]).unwrap_err(),
        PacketError::TruncatedInput
    );

    assert_eq!(
        PacketFinalClassificationData::unserialize(&full[..1020]).unwrap().serialize().len(),
        1020
    );
    assert_eq!(
        PacketFinalClassificationData::unserialize(&full[..1019]).unwrap_err(),
        PacketError::TruncatedInput
    );

    assert_eq!(
        PacketLobbyInfoData::unserialize(&full[..1218]).unwrap().serialize().len(),
        1218
    );
    assert_eq!(
        PacketLobbyInfoData::unserialize(&full[..1217]).unwrap_err(),
        PacketError::TruncatedInput
    );

    assert_eq!(
        PacketCarDamageData::unserialize(&full[..953]).unwrap().serialize().len(),
        953
    );
    assert_eq!(
        PacketCarDamageData::unserialize(&full[..952]).unwrap_err(),
        PacketError::TruncatedInput
    );

    assert_eq!(
        PacketSessionHistoryData::unserialize(&full[..1460]).unwrap().serialize().len(),
        1460
    );
    assert_eq!(
        PacketSessionHistoryData::unserialize(&full[..1459]).unwrap_err(),
        PacketError::TruncatedInput
    );

    assert_eq!(
        PacketTyreSetsData::unserialize(&full[..231]).unwrap().serialize().len(),
        231
    );
    assert_eq!(
        PacketTyreSetsData::unserialize(&full[..230]).unwrap_err(),
        PacketError::TruncatedInput
    );

    assert_eq!(
        PacketMotionExData::unserialize(&full[..217]).unwrap().serialize().len(),
        217
    );
    assert_eq!(
        PacketMotionExData::unserialize(&full[..216]).unwrap_err(),
        PacketError::TruncatedInput
    );

    assert_eq!(
        PacketMotionData::unserialize(&[]).unwrap_err(),
        PacketError::TruncatedInput
    );
}

/// Decoding looks only at the packet's own bytes: trailing garbage after
/// the fixed length changes nothing.
#[test]
fn trailing_bytes_are_ignored() {
    let exact = vec![0u8; 231];
    let mut padded = exact.clone();
    padded.extend_from_slice(&[0xddu8; 300]);
    let a = PacketTyreSetsData::unserialize(&exact).unwrap();
    let b = PacketTyreSetsData::unserialize(&padded).unwrap();
    assert_eq!(a, b);
}

/// The all-zero packet value encodes as the kind's fixed length of zero
/// bytes, and decoding those bytes gives the value back.
#[test]
fn default_values_encode_as_zero_bytes() {
    let session = PacketSessionData::default();
    let bytes = session.serialize();
    assert_eq!(bytes, vec![0u8; 644]);
    assert_eq!(PacketSessionData::unserialize(&bytes).unwrap(), session);

    let telemetry = PacketCarTelemetryData::default();
    let bytes = telemetry.serialize();
    assert_eq!(bytes, vec![0u8; 1352]);
    assert_eq!(PacketCarTelemetryData::unserialize(&bytes).unwrap(), telemetry);

    assert_eq!(PacketHeader::default().serialize(), vec![0u8; 29]);
}
