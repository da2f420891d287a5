//! Routing one datagram to the codec that its `packet_id` selects.
//!
//! The dispatcher decodes the header, branches on `packet_id`, and decodes
//! the full packet.  Invoking the per-kind handler with the decoded value
//! is the caller's side of the bargain: the contract here pins, for every
//! buffer, exactly which packet kind (if any) is produced.

use vstd::prelude::*;
use crate::error::PacketError;
use crate::packets::packet_car_damage_data::PacketCarDamageData;
use crate::packets::packet_car_setup_data::PacketCarSetupData;
use crate::packets::packet_car_status_data::PacketCarStatusData;
use crate::packets::packet_car_telemetry_data::PacketCarTelemetryData;
use crate::packets::packet_event_data::{event_total_len, known_code, PacketEventData};
use crate::packets::packet_final_classification_data::PacketFinalClassificationData;
use crate::packets::packet_header::{PacketHeader, PACKET_HEADER_SIZE};
use crate::packets::packet_lap_data::PacketLapData;
use crate::packets::packet_lobby_info_data::PacketLobbyInfoData;
use crate::packets::packet_motion_data::PacketMotionData;
use crate::packets::packet_motion_ex_data::PacketMotionExData;
use crate::packets::packet_participants_data::PacketParticipantsData;
use crate::packets::packet_session_data::PacketSessionData;
use crate::packets::packet_session_history_data::PacketSessionHistoryData;
use crate::packets::packet_tyre_sets_data::PacketTyreSetsData;

verus! {

/// One fully decoded packet, of whichever kind the buffer announced.
#[derive(Debug, Clone)]
pub enum DecodedPacket {
    Motion(PacketMotionData),
    Session(PacketSessionData),
    LapData(PacketLapData),
    Event(PacketEventData),
    Participants(PacketParticipantsData),
    CarSetup(PacketCarSetupData),
    CarTelemetry(PacketCarTelemetryData),
    CarStatus(PacketCarStatusData),
    FinalClassification(PacketFinalClassificationData),
    LobbyInfo(PacketLobbyInfoData),
    CarDamage(PacketCarDamageData),
    SessionHistory(PacketSessionHistoryData),
    TyreSets(PacketTyreSetsData),
    MotionEx(PacketMotionExData),
}

/// The `packet_id` field sits at byte 6 of the header.
pub open spec fn packet_id_of(b: Seq<u8>) -> u8
    recommends
        b.len() >= 29,
{
    b[6]
}

/// Decode one datagram into the packet kind that its `packet_id` selects.
///
/// - Fewer than 29 bytes: the header itself is truncated.
/// - `packet_id` above 13: the datagram is well-formed but unrecognized;
///   it is deliberately ignored (`Ok(None)`), not an error.
/// - Otherwise the kind's codec decodes the buffer; its error, if any,
///   is passed through.
pub fn dispatch(bytes: &[u8]) -> (r: Result<Option<DecodedPacket>, PacketError>)
    ensures
        bytes@.len() < 29 ==> (r matches Err(e) && e == PacketError::TruncatedInput),
        bytes@.len() >= 29 && packet_id_of(bytes@) > 13 ==> r matches Ok(None),
        bytes@.len() >= 29 && packet_id_of(bytes@) == 0 ==> match r {
            Ok(o) => o matches Some(DecodedPacket::Motion(p)) && bytes@.len() >= 1349
                && p.wf() && p.encodes(bytes@.subrange(0, 1349)),
            Err(e) => e == PacketError::TruncatedInput && bytes@.len() < 1349,
        },
        bytes@.len() >= 29 && packet_id_of(bytes@) == 1 ==> match r {
            Ok(o) => o matches Some(DecodedPacket::Session(p)) && bytes@.len() >= 644
                && p.wf() && p.encodes(bytes@.subrange(0, 644)),
            Err(e) => e == PacketError::TruncatedInput && bytes@.len() < 644,
        },
        bytes@.len() >= 29 && packet_id_of(bytes@) == 2 ==> match r {
            Ok(o) => o matches Some(DecodedPacket::LapData(p)) && bytes@.len() >= 1131
                && p.wf() && p.encodes(bytes@.subrange(0, 1131)),
            Err(e) => e == PacketError::TruncatedInput && bytes@.len() < 1131,
        },
        bytes@.len() >= 29 && packet_id_of(bytes@) == 3 ==> match r {
            Ok(o) => {
                &&& o matches Some(DecodedPacket::Event(p))
                &&& bytes@.len() >= 33
                &&& known_code(bytes@.subrange(29, 33))
                &&& bytes@.len() >= event_total_len(bytes@.subrange(29, 33))
                &&& p.wf()
                &&& p.event_string_code@ == bytes@.subrange(29, 33)
                &&& p.encodes(bytes@.subrange(0, event_total_len(bytes@.subrange(29, 33))))
            },
            Err(e) => {
                &&& (e == PacketError::UnknownEventCode <==> bytes@.len() >= 33
                    && !known_code(bytes@.subrange(29, 33)))
                &&& (e == PacketError::TruncatedInput <==> bytes@.len() < 33 || (
                    known_code(bytes@.subrange(29, 33))
                        && bytes@.len() < event_total_len(bytes@.subrange(29, 33))
                ))
            },
        },
        bytes@.len() >= 29 && packet_id_of(bytes@) == 4 ==> match r {
            Ok(o) => o matches Some(DecodedPacket::Participants(p)) && bytes@.len() >= 1306
                && p.wf() && p.encodes(bytes@.subrange(0, 1306)),
            Err(e) => e == PacketError::TruncatedInput && bytes@.len() < 1306,
        },
        bytes@.len() >= 29 && packet_id_of(bytes@) == 5 ==> match r {
            Ok(o) => o matches Some(DecodedPacket::CarSetup(p)) && bytes@.len() >= 1107
                && p.wf() && p.encodes(bytes@.subrange(0, 1107)),
            Err(e) => e == PacketError::TruncatedInput && bytes@.len() < 1107,
        },
        bytes@.len() >= 29 && packet_id_of(bytes@) == 6 ==> match r {
            Ok(o) => o matches Some(DecodedPacket::CarTelemetry(p)) && bytes@.len() >= 1352
                && p.wf() && p.encodes(bytes@.subrange(0, 1352)),
            Err(e) => e == PacketError::TruncatedInput && bytes@.len() < 1352,
        },
        bytes@.len() >= 29 && packet_id_of(bytes@) == 7 ==> match r {
            Ok(o) => o matches Some(DecodedPacket::CarStatus(p)) && bytes@.len() >= 1239
                && p.wf() && p.encodes(bytes@.subrange(0, 1239)),
            Err(e) => e == PacketError::TruncatedInput && bytes@.len() < 1239,
        },
        bytes@.len() >= 29 && packet_id_of(bytes@) == 8 ==> match r {
            Ok(o) => o matches Some(DecodedPacket::FinalClassification(p))
                && bytes@.len() >= 1020
                && p.wf() && p.encodes(bytes@.subrange(0, 1020)),
            Err(e) => e == PacketError::TruncatedInput && bytes@.len() < 1020,
        },
        bytes@.len() >= 29 && packet_id_of(bytes@) == 9 ==> match r {
            Ok(o) => o matches Some(DecodedPacket::LobbyInfo(p)) && bytes@.len() >= 1218
                && p.wf() && p.encodes(bytes@.subrange(0, 1218)),
            Err(e) => e == PacketError::TruncatedInput && bytes@.len() < 1218,
        },
        bytes@.len() >= 29 && packet_id_of(bytes@) == 10 ==> match r {
            Ok(o) => o matches Some(DecodedPacket::CarDamage(p)) && bytes@.len() >= 953
                && p.wf() && p.encodes(bytes@.subrange(0, 953)),
            Err(e) => e == PacketError::TruncatedInput && bytes@.len() < 953,
        },
        bytes@.len() >= 29 && packet_id_of(bytes@) == 11 ==> match r {
            Ok(o) => o matches Some(DecodedPacket::SessionHistory(p)) && bytes@.len() >= 1460
                && p.wf() && p.encodes(bytes@.subrange(0, 1460)),
            Err(e) => e == PacketError::TruncatedInput && bytes@.len() < 1460,
        },
        bytes@.len() >= 29 && packet_id_of(bytes@) == 12 ==> match r {
            Ok(o) => o matches Some(DecodedPacket::TyreSets(p)) && bytes@.len() >= 231
                && p.wf() && p.encodes(bytes@.subrange(0, 231)),
            Err(e) => e == PacketError::TruncatedInput && bytes@.len() < 231,
        },
        bytes@.len() >= 29 && packet_id_of(bytes@) == 13 ==> match r {
            Ok(o) => o matches Some(DecodedPacket::MotionEx(p)) && bytes@.len() >= 217
                && p.wf() && p.encodes(bytes@.subrange(0, 217)),
            Err(e) => e == PacketError::TruncatedInput && bytes@.len() < 217,
        },
{
    if bytes.len() < PACKET_HEADER_SIZE {
        return Err(PacketError::TruncatedInput);
    }
    let header = PacketHeader::read_at(bytes, 0);
    proof {
        assert(header.packet_id == bytes@[6]);
    }
    match header.packet_id {
        0 => match PacketMotionData::unserialize(bytes) {
            Ok(p) => Ok(Some(DecodedPacket::Motion(p))),
            Err(e) => Err(e),
        },
        1 => match PacketSessionData::unserialize(bytes) {
            Ok(p) => Ok(Some(DecodedPacket::Session(p))),
            Err(e) => Err(e),
        },
        2 => match PacketLapData::unserialize(bytes) {
            Ok(p) => Ok(Some(DecodedPacket::LapData(p))),
            Err(e) => Err(e),
        },
        3 => match PacketEventData::unserialize(bytes) {
            Ok(p) => Ok(Some(DecodedPacket::Event(p))),
            Err(e) => Err(e),
        },
        4 => match PacketParticipantsData::unserialize(bytes) {
            Ok(p) => Ok(Some(DecodedPacket::Participants(p))),
            Err(e) => Err(e),
        },
        5 => match PacketCarSetupData::unserialize(bytes) {
            Ok(p) => Ok(Some(DecodedPacket::CarSetup(p))),
            Err(e) => Err(e),
        },
        6 => match PacketCarTelemetryData::unserialize(bytes) {
            Ok(p) => Ok(Some(DecodedPacket::CarTelemetry(p))),
            Err(e) => Err(e),
        },
        7 => match PacketCarStatusData::unserialize(bytes) {
            Ok(p) => Ok(Some(DecodedPacket::CarStatus(p))),
            Err(e) => Err(e),
        },
        8 => match PacketFinalClassificationData::unserialize(bytes) {
            Ok(p) => Ok(Some(DecodedPacket::FinalClassification(p))),
            Err(e) => Err(e),
        },
        9 => match PacketLobbyInfoData::unserialize(bytes) {
            Ok(p) => Ok(Some(DecodedPacket::LobbyInfo(p))),
            Err(e) => Err(e),
        },
        10 => match PacketCarDamageData::unserialize(bytes) {
            Ok(p) => Ok(Some(DecodedPacket::CarDamage(p))),
            Err(e) => Err(e),
        },
        11 => match PacketSessionHistoryData::unserialize(bytes) {
            Ok(p) => Ok(Some(DecodedPacket::SessionHistory(p))),
            Err(e) => Err(e),
        },
        12 => match PacketTyreSetsData::unserialize(bytes) {
            Ok(p) => Ok(Some(DecodedPacket::TyreSets(p))),
            Err(e) => Err(e),
        },
        13 => match PacketMotionExData::unserialize(bytes) {
            Ok(p) => Ok(Some(DecodedPacket::MotionEx(p))),
            Err(e) => Err(e),
        },
        _ => Ok(None),
    }
}

} // verus!
