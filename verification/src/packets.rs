pub mod packet_car_damage_data;
pub mod packet_car_setup_data;
pub mod packet_car_status_data;
pub mod packet_car_telemetry_data;
pub mod packet_event_data;
pub mod packet_final_classification_data;
pub mod packet_header;
pub mod packet_lap_data;
pub mod packet_lobby_info_data;
pub mod packet_motion_data;
pub mod packet_motion_ex_data;
pub mod packet_participants_data;
pub mod packet_session_data;
pub mod packet_session_history_data;
pub mod packet_tyre_sets_data;

pub use self::packet_car_damage_data::{CarDamageData, PacketCarDamageData};
pub use self::packet_car_setup_data::{CarSetupData, PacketCarSetupData};
pub use self::packet_car_status_data::{CarStatusData, PacketCarStatusData};
pub use self::packet_car_telemetry_data::{CarTelemetryData, PacketCarTelemetryData};
pub use self::packet_event_data::{
    Buttons, DriveThroughPenaltyServed, EventDataDetails, FastestLap, Flashback, Overtake,
    PacketEventData, Penalty, RaceWinner, Retirement, SpeedTrap, StartLights,
    StopGoPenaltyServed, TeamMateInPits,
};
pub use self::packet_final_classification_data::{
    FinalClassificationData, PacketFinalClassificationData,
};
pub use self::packet_header::{PacketHeader, PACKET_HEADER_SIZE};
pub use self::packet_lap_data::{LapData, PacketLapData};
pub use self::packet_lobby_info_data::{LobbyInfoData, PacketLobbyInfoData};
pub use self::packet_motion_data::{CarMotionData, PacketMotionData};
pub use self::packet_motion_ex_data::PacketMotionExData;
pub use self::packet_participants_data::{PacketParticipantsData, ParticipantData};
pub use self::packet_session_data::{MarshalZone, PacketSessionData, WeatherForecastSample};
pub use self::packet_session_history_data::{
    LapHistoryData, PacketSessionHistoryData, TyreStintHistoryData,
};
pub use self::packet_tyre_sets_data::{PacketTyreSetsData, TyreSetData};
