//! The Standard Communication Interface (SCI): the application protocols
//! that ride on RaSTA to talk to points, light signals and train
//! detection systems.
//!
//! A telegram is one protocol byte, a 16-bit message type (little-endian),
//! two names of twenty bytes each and up to 85 bytes of payload. What a
//! message type means depends on the protocol: the same code is
//! `ChangeLocation` for points, `ShowSignalAspect` for light signals and
//! `FC` for train detection.

pub mod scils;
pub mod scip;
pub mod scitds;
pub mod session;
pub mod telegram;

pub use session::{SCICommand, SCIConnection, SCIListener};
pub use telegram::{str_to_sci_name, SCIPayload, SCITelegram};

use crate::error::RastaError;
use scils::SciLsError;
use scip::SciPError;
use scitds::SciTdsError;
use vstd::prelude::*;
use vstd::std_specs::convert::FromSpecImpl;

verus! {

/// The version of SCI that this crate speaks.
pub const SCI_VERSION: u8 = 0x01;

/// What can be wrong with a telegram or a payload.
#[derive(Debug, Clone, Copy, PartialEq, Eq, Structural)]
pub enum SciError {
    /// The telegram is shorter than its fixed part, or longer than the
    /// fixed part and a full payload; or a payload is too short for what it
    /// should hold.
    Malformed,
    /// The protocol byte is none of the defined ones.
    UnknownProtocol(u8),
    /// The message type is not defined for the telegram's protocol.
    UnknownMessageType(u16),
    UnknownVersionCheckResult(u8),
    UnknownCloseReason(u8),
    /// A light signal payload holds a value outside its field's set.
    Ls(SciLsError),
    /// A point payload holds a value outside its field's set.
    P(SciPError),
    /// A train detection payload has the wrong length or holds a value
    /// outside its field's set.
    Tds(SciTdsError),
}

impl From<SciLsError> for SciError {
    /// A light signal fault as an SCI error.
    fn from(value: SciLsError) -> (r: SciError) {
        SciError::Ls(value)
    }
}

impl FromSpecImpl<SciLsError> for SciError {
    open spec fn obeys_from_spec() -> bool {
        true
    }

    open spec fn from_spec(v: SciLsError) -> SciError {
        SciError::Ls(v)
    }
}

impl From<SciPError> for SciError {
    /// A point fault as an SCI error.
    fn from(value: SciPError) -> (r: SciError) {
        SciError::P(value)
    }
}

impl FromSpecImpl<SciPError> for SciError {
    open spec fn obeys_from_spec() -> bool {
        true
    }

    open spec fn from_spec(v: SciPError) -> SciError {
        SciError::P(v)
    }
}

impl From<SciTdsError> for SciError {
    /// A train detection fault as an SCI error.
    fn from(value: SciTdsError) -> (r: SciError) {
        SciError::Tds(value)
    }
}

impl FromSpecImpl<SciTdsError> for SciError {
    open spec fn obeys_from_spec() -> bool {
        true
    }

    open spec fn from_spec(v: SciTdsError) -> SciError {
        SciError::Tds(v)
    }
}

impl From<SciError> for RastaError {
    /// The RaSTA error that stands for an SCI error: a telegram that cannot
    /// be read is malformed.
    fn from(value: SciError) -> (r: RastaError) {
        RastaError::Malformed
    }
}

impl FromSpecImpl<SciError> for RastaError {
    open spec fn obeys_from_spec() -> bool {
        true
    }

    open spec fn from_spec(v: SciError) -> RastaError {
        RastaError::Malformed
    }
}

/// The SCI protocols. Points, light signals and train detection have
/// messages of their own; the others are reserved and know the shared
/// messages only.
#[derive(Debug, Clone, Copy, PartialEq, Eq, Structural)]
pub enum ProtocolType {
    SCIProtocolAIS,
    SCIProtocolTDS,
    SCIProtocolLS,
    SCIProtocolP,
    SCIProtocolRBC,
    SCIProtocolLX,
    SCIProtocolTCS,
    SCIProtocolGIO,
    SCIProtocolELX,
}

impl ProtocolType {
    /// The value that stands for this variant on the wire.
    pub open spec fn spec_code(self) -> u8 {
        match self {
            ProtocolType::SCIProtocolAIS => 0x01,
            ProtocolType::SCIProtocolTDS => 0x20,
            ProtocolType::SCIProtocolLS => 0x30,
            ProtocolType::SCIProtocolP => 0x40,
            ProtocolType::SCIProtocolRBC => 0x50,
            ProtocolType::SCIProtocolLX => 0x60,
            ProtocolType::SCIProtocolTCS => 0x70,
            ProtocolType::SCIProtocolGIO => 0x90,
            ProtocolType::SCIProtocolELX => 0xC0,
        }
    }

    /// The variant that a value stands for, if any.
    pub open spec fn from_code(code: u8) -> Option<ProtocolType> {
        if code == 0x01 {
            Some(ProtocolType::SCIProtocolAIS)
        } else if code == 0x20 {
            Some(ProtocolType::SCIProtocolTDS)
        } else if code == 0x30 {
            Some(ProtocolType::SCIProtocolLS)
        } else if code == 0x40 {
            Some(ProtocolType::SCIProtocolP)
        } else if code == 0x50 {
            Some(ProtocolType::SCIProtocolRBC)
        } else if code == 0x60 {
            Some(ProtocolType::SCIProtocolLX)
        } else if code == 0x70 {
            Some(ProtocolType::SCIProtocolTCS)
        } else if code == 0x90 {
            Some(ProtocolType::SCIProtocolGIO)
        } else if code == 0xC0 {
            Some(ProtocolType::SCIProtocolELX)
        } else {
            None
        }
    }

    /// The value that stands for this variant on the wire.
    #[verifier::when_used_as_spec(spec_code)]
    pub fn code(self) -> (code: u8)
        ensures
            code == self.spec_code(),
    {
        match self {
            ProtocolType::SCIProtocolAIS => 0x01,
            ProtocolType::SCIProtocolTDS => 0x20,
            ProtocolType::SCIProtocolLS => 0x30,
            ProtocolType::SCIProtocolP => 0x40,
            ProtocolType::SCIProtocolRBC => 0x50,
            ProtocolType::SCIProtocolLX => 0x60,
            ProtocolType::SCIProtocolTCS => 0x70,
            ProtocolType::SCIProtocolGIO => 0x90,
            ProtocolType::SCIProtocolELX => 0xC0,
        }
    }

    /// The variant that `value` stands for. Every other value fails with
    /// [`SciError::UnknownProtocol`], which carries the value.
    pub fn try_from(value: u8) -> (r: Result<ProtocolType, SciError>)
        ensures
            r == match ProtocolType::from_code(value) {
                Some(v) => Ok::<ProtocolType, SciError>(v),
                None => Err(SciError::UnknownProtocol(value)),
            },
    {
        match value {
            0x01 => Ok(ProtocolType::SCIProtocolAIS),
            0x20 => Ok(ProtocolType::SCIProtocolTDS),
            0x30 => Ok(ProtocolType::SCIProtocolLS),
            0x40 => Ok(ProtocolType::SCIProtocolP),
            0x50 => Ok(ProtocolType::SCIProtocolRBC),
            0x60 => Ok(ProtocolType::SCIProtocolLX),
            0x70 => Ok(ProtocolType::SCIProtocolTCS),
            0x90 => Ok(ProtocolType::SCIProtocolGIO),
            0xC0 => Ok(ProtocolType::SCIProtocolELX),
            v => Err(SciError::UnknownProtocol(v)),
        }
    }

    /// Every variant is found again from its code.
    pub proof fn lemma_code_round_trip(self)
        ensures
            ProtocolType::from_code(self.spec_code()) == Some(self),
    {
    }
}
/// The outcome of a version check, as the version response reports it.
#[derive(Debug, Clone, Copy, PartialEq, Eq, Structural)]
pub enum SCIVersionCheckResult {
    NotAllowedToUse,
    VersionsAreNotEqual,
    VersionsAreEqual,
}

impl SCIVersionCheckResult {
    /// The value that stands for this variant on the wire.
    pub open spec fn spec_code(self) -> u8 {
        match self {
            SCIVersionCheckResult::NotAllowedToUse => 0x00,
            SCIVersionCheckResult::VersionsAreNotEqual => 0x01,
            SCIVersionCheckResult::VersionsAreEqual => 0x02,
        }
    }

    /// The variant that a value stands for, if any.
    pub open spec fn from_code(code: u8) -> Option<SCIVersionCheckResult> {
        if code == 0x00 {
            Some(SCIVersionCheckResult::NotAllowedToUse)
        } else if code == 0x01 {
            Some(SCIVersionCheckResult::VersionsAreNotEqual)
        } else if code == 0x02 {
            Some(SCIVersionCheckResult::VersionsAreEqual)
        } else {
            None
        }
    }

    /// The value that stands for this variant on the wire.
    #[verifier::when_used_as_spec(spec_code)]
    pub fn code(self) -> (code: u8)
        ensures
            code == self.spec_code(),
    {
        match self {
            SCIVersionCheckResult::NotAllowedToUse => 0x00,
            SCIVersionCheckResult::VersionsAreNotEqual => 0x01,
            SCIVersionCheckResult::VersionsAreEqual => 0x02,
        }
    }

    /// The variant that `value` stands for. Every other value fails with
    /// [`SciError::UnknownVersionCheckResult`], which carries the value.
    pub fn try_from(value: u8) -> (r: Result<SCIVersionCheckResult, SciError>)
        ensures
            r == match SCIVersionCheckResult::from_code(value) {
                Some(v) => Ok::<SCIVersionCheckResult, SciError>(v),
                None => Err(SciError::UnknownVersionCheckResult(value)),
            },
    {
        match value {
            0x00 => Ok(SCIVersionCheckResult::NotAllowedToUse),
            0x01 => Ok(SCIVersionCheckResult::VersionsAreNotEqual),
            0x02 => Ok(SCIVersionCheckResult::VersionsAreEqual),
            v => Err(SciError::UnknownVersionCheckResult(v)),
        }
    }

    /// Every variant is found again from its code.
    pub proof fn lemma_code_round_trip(self)
        ensures
            SCIVersionCheckResult::from_code(self.spec_code()) == Some(self),
    {
    }
}
/// Why an SCI connection is closed.
#[derive(Debug, Clone, Copy, PartialEq, Eq, Structural)]
pub enum SCICloseReason {
    ProtocolError,
    FormalTelegramError,
    ContentTelegramError,
    NormalClose,
    OtherVersionRequired,
    Timeout,
    ChecksumMismatch,
}

impl SCICloseReason {
    /// The value that stands for this variant on the wire.
    pub open spec fn spec_code(self) -> u8 {
        match self {
            SCICloseReason::ProtocolError => 0x01,
            SCICloseReason::FormalTelegramError => 0x02,
            SCICloseReason::ContentTelegramError => 0x03,
            SCICloseReason::NormalClose => 0x04,
            SCICloseReason::OtherVersionRequired => 0x05,
            SCICloseReason::Timeout => 0x06,
            SCICloseReason::ChecksumMismatch => 0x07,
        }
    }

    /// The variant that a value stands for, if any.
    pub open spec fn from_code(code: u8) -> Option<SCICloseReason> {
        if code == 0x01 {
            Some(SCICloseReason::ProtocolError)
        } else if code == 0x02 {
            Some(SCICloseReason::FormalTelegramError)
        } else if code == 0x03 {
            Some(SCICloseReason::ContentTelegramError)
        } else if code == 0x04 {
            Some(SCICloseReason::NormalClose)
        } else if code == 0x05 {
            Some(SCICloseReason::OtherVersionRequired)
        } else if code == 0x06 {
            Some(SCICloseReason::Timeout)
        } else if code == 0x07 {
            Some(SCICloseReason::ChecksumMismatch)
        } else {
            None
        }
    }

    /// The value that stands for this variant on the wire.
    #[verifier::when_used_as_spec(spec_code)]
    pub fn code(self) -> (code: u8)
        ensures
            code == self.spec_code(),
    {
        match self {
            SCICloseReason::ProtocolError => 0x01,
            SCICloseReason::FormalTelegramError => 0x02,
            SCICloseReason::ContentTelegramError => 0x03,
            SCICloseReason::NormalClose => 0x04,
            SCICloseReason::OtherVersionRequired => 0x05,
            SCICloseReason::Timeout => 0x06,
            SCICloseReason::ChecksumMismatch => 0x07,
        }
    }

    /// The variant that `value` stands for. Every other value fails with
    /// [`SciError::UnknownCloseReason`], which carries the value.
    pub fn try_from(value: u8) -> (r: Result<SCICloseReason, SciError>)
        ensures
            r == match SCICloseReason::from_code(value) {
                Some(v) => Ok::<SCICloseReason, SciError>(v),
                None => Err(SciError::UnknownCloseReason(value)),
            },
    {
        match value {
            0x01 => Ok(SCICloseReason::ProtocolError),
            0x02 => Ok(SCICloseReason::FormalTelegramError),
            0x03 => Ok(SCICloseReason::ContentTelegramError),
            0x04 => Ok(SCICloseReason::NormalClose),
            0x05 => Ok(SCICloseReason::OtherVersionRequired),
            0x06 => Ok(SCICloseReason::Timeout),
            0x07 => Ok(SCICloseReason::ChecksumMismatch),
            v => Err(SciError::UnknownCloseReason(v)),
        }
    }

    /// Every variant is found again from its code.
    pub proof fn lemma_code_round_trip(self)
        ensures
            SCICloseReason::from_code(self.spec_code()) == Some(self),
    {
    }
}
/// Code of the shared message `VersionRequest`.
pub const PDI_VERSION_CHECK: u16 = 0x0024;

/// Code of the shared message `VersionResponse`.
pub const PDI_VERSION_RESPONSE: u16 = 0x0025;

/// Code of the shared message `StatusRequest`.
pub const PDI_INITIALISATION_REQUEST: u16 = 0x0021;

/// Code of the shared message `StatusBegin`.
pub const PDI_INITIALISATION_RESPONSE: u16 = 0x0022;

/// Code of the shared message `StatusFinish`.
pub const PDI_INITIALISATION_COMPLETED: u16 = 0x0023;

/// Code of the shared message `Close`.
pub const PDI_CLOSE: u16 = 0x0027;

/// Code of the shared message `ReleaseForMaintenance`.
pub const PDI_RELEASE_FOR_MAINTENANCE: u16 = 0x0028;

/// Code of the shared message `Available`.
pub const PDI_AVAILABLE: u16 = 0x0029;

/// Code of the shared message `NotAvailable`.
pub const PDI_NOT_AVAILABLE: u16 = 0x002A;

/// Code of the shared message `Reset`.
pub const PDI_RESET: u16 = 0x002B;

/// Code of the shared message `Timeout`.
pub const SCI_TIMEOUT: u16 = 0x000C;
/// Code of the point message `ChangeLocation`.
pub const SCIP_CHANGE_LOCATION: u16 = 0x0001;

/// Code of the point message `LocationStatus`.
pub const SCIP_LOCATION_STATUS: u16 = 0x000B;
/// Code of the light signal message `ShowSignalAspect`.
pub const SCILS_SHOW_SIGNAL_ASPECT: u16 = 0x0001;

/// Code of the light signal message `ChangeBrightness`.
pub const SCILS_CHANGE_BRIGHTNESS: u16 = 0x0002;

/// Code of the light signal message `SignalAspectStatus`.
pub const SCILS_SIGNAL_ASPECT_STATUS: u16 = 0x0003;

/// Code of the light signal message `BrightnessStatus`.
pub const SCILS_BRIGHTNESS_STATUS: u16 = 0x0004;
/// Code of the train detection message `FC`.
pub const SCITDS_FC: u16 = 0x0001;

/// Code of the train detection message `UpdateFillingLevel`.
pub const SCITDS_UPDATE_FILLING_LEVEL: u16 = 0x0002;

/// Code of the train detection message `DRFC`.
pub const SCITDS_DRFC: u16 = 0x0003;

/// Code of the train detection message `Cancel`.
pub const SCITDS_CANCEL: u16 = 0x0008;

/// Code of the train detection message `CommandRejected`.
pub const SCITDS_COMMAND_REJECTED: u16 = 0x0006;

/// Code of the train detection message `TvpsOccupancyStatus`.
pub const SCITDS_TVPS_OCCUPANCY_STATUS: u16 = 0x0007;

/// Code of the train detection message `TvpsFcPFailed`.
pub const SCITDS_TVPS_FC_P_FAILED: u16 = 0x0010;

/// Code of the train detection message `TvpsFcPAFailed`.
pub const SCITDS_TVPS_FC_P_A_FAILED: u16 = 0x0011;

/// Code of the train detection message `AdditionalInformation`.
pub const SCITDS_ADDITIONAL_INFORMATION: u16 = 0x0012;

/// Code of the train detection message `TdpStatus`.
pub const SCITDS_TDP_STATUS: u16 = 0x000B;
/// The name of a shared message type, if the code is one.
pub open spec fn generic_name(code: u16) -> Option<Seq<char>> {
    if code == PDI_VERSION_CHECK {
        Some("VersionRequest"@)
    } else if code == PDI_VERSION_RESPONSE {
        Some("VersionResponse"@)
    } else if code == PDI_INITIALISATION_REQUEST {
        Some("StatusRequest"@)
    } else if code == PDI_INITIALISATION_RESPONSE {
        Some("StatusBegin"@)
    } else if code == PDI_INITIALISATION_COMPLETED {
        Some("StatusFinish"@)
    } else if code == PDI_CLOSE {
        Some("Close"@)
    } else if code == PDI_RELEASE_FOR_MAINTENANCE {
        Some("ReleaseForMaintenance"@)
    } else if code == PDI_AVAILABLE {
        Some("Available"@)
    } else if code == PDI_NOT_AVAILABLE {
        Some("NotAvailable"@)
    } else if code == PDI_RESET {
        Some("Reset"@)
    } else if code == SCI_TIMEOUT {
        Some("Timeout"@)
    } else {
        None
    }
}
/// The name of a message type of the point protocol, if the code is one.
pub open spec fn scip_name(code: u16) -> Option<Seq<char>> {
    if code == SCIP_CHANGE_LOCATION {
        Some("ChangeLocation"@)
    } else if code == SCIP_LOCATION_STATUS {
        Some("LocationStatus"@)
    } else {
        generic_name(code)
    }
}
/// The name of a message type of the light signal protocol, if the code is
/// one.
pub open spec fn scils_name(code: u16) -> Option<Seq<char>> {
    if code == SCILS_SHOW_SIGNAL_ASPECT {
        Some("ShowSignalAspect"@)
    } else if code == SCILS_CHANGE_BRIGHTNESS {
        Some("ChangeBrightness"@)
    } else if code == SCILS_SIGNAL_ASPECT_STATUS {
        Some("SignalAspectStatus"@)
    } else if code == SCILS_BRIGHTNESS_STATUS {
        Some("BrightnessStatus"@)
    } else {
        generic_name(code)
    }
}
/// The name of a message type of the train detection protocol, if the code
/// is one.
pub open spec fn scitds_name(code: u16) -> Option<Seq<char>> {
    if code == SCITDS_FC {
        Some("FC"@)
    } else if code == SCITDS_UPDATE_FILLING_LEVEL {
        Some("UpdateFillingLevel"@)
    } else if code == SCITDS_DRFC {
        Some("DRFC"@)
    } else if code == SCITDS_CANCEL {
        Some("Cancel"@)
    } else if code == SCITDS_COMMAND_REJECTED {
        Some("CommandRejected"@)
    } else if code == SCITDS_TVPS_OCCUPANCY_STATUS {
        Some("TvpsOccupancyStatus"@)
    } else if code == SCITDS_TVPS_FC_P_FAILED {
        Some("TvpsFcPFailed"@)
    } else if code == SCITDS_TVPS_FC_P_A_FAILED {
        Some("TvpsFcPAFailed"@)
    } else if code == SCITDS_ADDITIONAL_INFORMATION {
        Some("AdditionalInformation"@)
    } else if code == SCITDS_TDP_STATUS {
        Some("TdpStatus"@)
    } else {
        generic_name(code)
    }
}
/// The name of a message type under a protocol, if the protocol defines
/// the code: the reserved protocols define the shared codes only.
pub open spec fn message_name(protocol: ProtocolType, code: u16) -> Option<Seq<char>> {
    match protocol {
        ProtocolType::SCIProtocolP => scip_name(code),
        ProtocolType::SCIProtocolLS => scils_name(code),
        ProtocolType::SCIProtocolTDS => scitds_name(code),
        _ => generic_name(code),
    }
}

/// Whether a protocol defines a message type code.
pub open spec fn defined_under(protocol: ProtocolType, code: u16) -> bool {
    message_name(protocol, code) is Some
}

/// The type of an SCI message: a 16-bit code, read under a protocol.
#[derive(Debug, Clone, Copy, PartialEq, Eq, Structural)]
pub struct SCIMessageType(pub u16);

impl From<SCIMessageType> for u16 {
    /// The code of the message type.
    fn from(value: SCIMessageType) -> (r: u16) {
        value.0
    }
}

impl FromSpecImpl<SCIMessageType> for u16 {
    open spec fn obeys_from_spec() -> bool {
        true
    }

    open spec fn from_spec(v: SCIMessageType) -> u16 {
        v.0
    }
}

impl SCIMessageType {
    /// The code of the message type.
    pub fn value(self) -> (code: u16)
        ensures
            code == self.0,
    {
        self.0
    }

    /// The shared message type `VersionRequest`.
    pub fn pdi_version_check() -> (t: SCIMessageType)
        ensures
            t == SCIMessageType(PDI_VERSION_CHECK),
    {
        SCIMessageType(PDI_VERSION_CHECK)
    }

    /// The shared message type `VersionResponse`.
    pub fn pdi_version_response() -> (t: SCIMessageType)
        ensures
            t == SCIMessageType(PDI_VERSION_RESPONSE),
    {
        SCIMessageType(PDI_VERSION_RESPONSE)
    }

    /// The shared message type `StatusRequest`.
    pub fn pdi_initialisation_request() -> (t: SCIMessageType)
        ensures
            t == SCIMessageType(PDI_INITIALISATION_REQUEST),
    {
        SCIMessageType(PDI_INITIALISATION_REQUEST)
    }

    /// The shared message type `StatusBegin`.
    pub fn pdi_initialisation_response() -> (t: SCIMessageType)
        ensures
            t == SCIMessageType(PDI_INITIALISATION_RESPONSE),
    {
        SCIMessageType(PDI_INITIALISATION_RESPONSE)
    }

    /// The shared message type `StatusFinish`.
    pub fn pdi_initialisation_completed() -> (t: SCIMessageType)
        ensures
            t == SCIMessageType(PDI_INITIALISATION_COMPLETED),
    {
        SCIMessageType(PDI_INITIALISATION_COMPLETED)
    }

    /// The shared message type `Close`.
    pub fn pdi_close() -> (t: SCIMessageType)
        ensures
            t == SCIMessageType(PDI_CLOSE),
    {
        SCIMessageType(PDI_CLOSE)
    }

    /// The shared message type `ReleaseForMaintenance`.
    pub fn pdi_release_for_maintenance() -> (t: SCIMessageType)
        ensures
            t == SCIMessageType(PDI_RELEASE_FOR_MAINTENANCE),
    {
        SCIMessageType(PDI_RELEASE_FOR_MAINTENANCE)
    }

    /// The shared message type `Available`.
    pub fn pdi_available() -> (t: SCIMessageType)
        ensures
            t == SCIMessageType(PDI_AVAILABLE),
    {
        SCIMessageType(PDI_AVAILABLE)
    }

    /// The shared message type `NotAvailable`.
    pub fn pdi_not_available() -> (t: SCIMessageType)
        ensures
            t == SCIMessageType(PDI_NOT_AVAILABLE),
    {
        SCIMessageType(PDI_NOT_AVAILABLE)
    }

    /// The shared message type `Reset`.
    pub fn pdi_reset() -> (t: SCIMessageType)
        ensures
            t == SCIMessageType(PDI_RESET),
    {
        SCIMessageType(PDI_RESET)
    }

    /// The shared message type `Timeout`.
    pub fn sci_timeout() -> (t: SCIMessageType)
        ensures
            t == SCIMessageType(SCI_TIMEOUT),
    {
        SCIMessageType(SCI_TIMEOUT)
    }
    /// The shared message type `VersionRequest`.
    pub fn sci_version_request() -> (t: SCIMessageType)
        ensures
            t == SCIMessageType(PDI_VERSION_CHECK),
    {
        SCIMessageType(PDI_VERSION_CHECK)
    }

    /// The shared message type `VersionResponse`.
    pub fn sci_version_response() -> (t: SCIMessageType)
        ensures
            t == SCIMessageType(PDI_VERSION_RESPONSE),
    {
        SCIMessageType(PDI_VERSION_RESPONSE)
    }

    /// The shared message type `StatusRequest`.
    pub fn sci_status_request() -> (t: SCIMessageType)
        ensures
            t == SCIMessageType(PDI_INITIALISATION_REQUEST),
    {
        SCIMessageType(PDI_INITIALISATION_REQUEST)
    }

    /// The shared message type `StatusBegin`.
    pub fn sci_status_begin() -> (t: SCIMessageType)
        ensures
            t == SCIMessageType(PDI_INITIALISATION_RESPONSE),
    {
        SCIMessageType(PDI_INITIALISATION_RESPONSE)
    }

    /// The shared message type `StatusFinish`.
    pub fn sci_status_finish() -> (t: SCIMessageType)
        ensures
            t == SCIMessageType(PDI_INITIALISATION_COMPLETED),
    {
        SCIMessageType(PDI_INITIALISATION_COMPLETED)
    }

    /// The point message type `ChangeLocation`.
    pub fn scip_change_location() -> (t: SCIMessageType)
        ensures
            t == SCIMessageType(SCIP_CHANGE_LOCATION),
    {
        SCIMessageType(SCIP_CHANGE_LOCATION)
    }

    /// The point message type `LocationStatus`.
    pub fn scip_location_status() -> (t: SCIMessageType)
        ensures
            t == SCIMessageType(SCIP_LOCATION_STATUS),
    {
        SCIMessageType(SCIP_LOCATION_STATUS)
    }
    /// The light signal message type `ShowSignalAspect`.
    pub fn scils_show_signal_aspect() -> (t: SCIMessageType)
        ensures
            t == SCIMessageType(SCILS_SHOW_SIGNAL_ASPECT),
    {
        SCIMessageType(SCILS_SHOW_SIGNAL_ASPECT)
    }

    /// The light signal message type `ChangeBrightness`.
    pub fn scils_change_brightness() -> (t: SCIMessageType)
        ensures
            t == SCIMessageType(SCILS_CHANGE_BRIGHTNESS),
    {
        SCIMessageType(SCILS_CHANGE_BRIGHTNESS)
    }

    /// The light signal message type `SignalAspectStatus`.
    pub fn scils_signal_aspect_status() -> (t: SCIMessageType)
        ensures
            t == SCIMessageType(SCILS_SIGNAL_ASPECT_STATUS),
    {
        SCIMessageType(SCILS_SIGNAL_ASPECT_STATUS)
    }

    /// The light signal message type `BrightnessStatus`.
    pub fn scils_brightness_status() -> (t: SCIMessageType)
        ensures
            t == SCIMessageType(SCILS_BRIGHTNESS_STATUS),
    {
        SCIMessageType(SCILS_BRIGHTNESS_STATUS)
    }
    /// The train detection message type `FC`.
    pub fn scitds_fc() -> (t: SCIMessageType)
        ensures
            t == SCIMessageType(SCITDS_FC),
    {
        SCIMessageType(SCITDS_FC)
    }

    /// The train detection message type `UpdateFillingLevel`.
    pub fn scitds_update_filling_level() -> (t: SCIMessageType)
        ensures
            t == SCIMessageType(SCITDS_UPDATE_FILLING_LEVEL),
    {
        SCIMessageType(SCITDS_UPDATE_FILLING_LEVEL)
    }

    /// The train detection message type `DRFC`.
    pub fn scitds_drfc() -> (t: SCIMessageType)
        ensures
            t == SCIMessageType(SCITDS_DRFC),
    {
        SCIMessageType(SCITDS_DRFC)
    }

    /// The train detection message type `Cancel`.
    pub fn scitds_cancel() -> (t: SCIMessageType)
        ensures
            t == SCIMessageType(SCITDS_CANCEL),
    {
        SCIMessageType(SCITDS_CANCEL)
    }

    /// The train detection message type `CommandRejected`.
    pub fn scitds_command_rejected() -> (t: SCIMessageType)
        ensures
            t == SCIMessageType(SCITDS_COMMAND_REJECTED),
    {
        SCIMessageType(SCITDS_COMMAND_REJECTED)
    }

    /// The train detection message type `TvpsOccupancyStatus`.
    pub fn scitds_tvps_occupancy_status() -> (t: SCIMessageType)
        ensures
            t == SCIMessageType(SCITDS_TVPS_OCCUPANCY_STATUS),
    {
        SCIMessageType(SCITDS_TVPS_OCCUPANCY_STATUS)
    }

    /// The train detection message type `TvpsFcPFailed`.
    pub fn scitds_tvps_fc_p_failed() -> (t: SCIMessageType)
        ensures
            t == SCIMessageType(SCITDS_TVPS_FC_P_FAILED),
    {
        SCIMessageType(SCITDS_TVPS_FC_P_FAILED)
    }

    /// The train detection message type `TvpsFcPAFailed`.
    pub fn scitds_tvps_fc_p_a_failed() -> (t: SCIMessageType)
        ensures
            t == SCIMessageType(SCITDS_TVPS_FC_P_A_FAILED),
    {
        SCIMessageType(SCITDS_TVPS_FC_P_A_FAILED)
    }

    /// The train detection message type `AdditionalInformation`.
    pub fn scitds_additional_information() -> (t: SCIMessageType)
        ensures
            t == SCIMessageType(SCITDS_ADDITIONAL_INFORMATION),
    {
        SCIMessageType(SCITDS_ADDITIONAL_INFORMATION)
    }

    /// The train detection message type `TdpStatus`.
    pub fn scitds_tdp_status() -> (t: SCIMessageType)
        ensures
            t == SCIMessageType(SCITDS_TDP_STATUS),
    {
        SCIMessageType(SCITDS_TDP_STATUS)
    }
    /// The name of the message type as a shared one. Fails with
    /// [`SciError::UnknownMessageType`] if the code is no shared code.
    pub fn try_as_sci_message_type(&self) -> (r: Result<&'static str, SciError>)
        ensures
            match r {
                Ok(name) => generic_name(self.0) == Some(name@),
                Err(e) => generic_name(self.0) is None && e == SciError::UnknownMessageType(
                    self.0,
                ),
            },
    {
        match self.0 {
            0x0024 => Ok("VersionRequest"),
            0x0025 => Ok("VersionResponse"),
            0x0021 => Ok("StatusRequest"),
            0x0022 => Ok("StatusBegin"),
            0x0023 => Ok("StatusFinish"),
            0x0027 => Ok("Close"),
            0x0028 => Ok("ReleaseForMaintenance"),
            0x0029 => Ok("Available"),
            0x002A => Ok("NotAvailable"),
            0x002B => Ok("Reset"),
            0x000C => Ok("Timeout"),
            v => Err(SciError::UnknownMessageType(v)),
        }
    }
    /// The message type with the given code, if it is a shared code. Fails
    /// with [`SciError::UnknownMessageType`] otherwise.
    pub fn try_as_sci_message_type_from(value: u16) -> (r: Result<SCIMessageType, SciError>)
        ensures
            r == if generic_name(value) is Some {
                Ok::<SCIMessageType, SciError>(SCIMessageType(value))
            } else {
                Err(SciError::UnknownMessageType(value))
            },
    {
        match value {
            0x0024 => Ok(SCIMessageType::pdi_version_check()),
            0x0025 => Ok(SCIMessageType::pdi_version_response()),
            0x0021 => Ok(SCIMessageType::pdi_initialisation_request()),
            0x0022 => Ok(SCIMessageType::pdi_initialisation_response()),
            0x0023 => Ok(SCIMessageType::pdi_initialisation_completed()),
            0x0027 => Ok(SCIMessageType::pdi_close()),
            0x0028 => Ok(SCIMessageType::pdi_release_for_maintenance()),
            0x0029 => Ok(SCIMessageType::pdi_available()),
            0x002A => Ok(SCIMessageType::pdi_not_available()),
            0x002B => Ok(SCIMessageType::pdi_reset()),
            0x000C => Ok(SCIMessageType::sci_timeout()),
            v => Err(SciError::UnknownMessageType(v)),
        }
    }
    /// The name of the message type under the point protocol. Fails with
    /// [`SciError::UnknownMessageType`] if that protocol does not define the
    /// code.
    pub fn try_as_scip_message_type(&self) -> (r: Result<&'static str, SciError>)
        ensures
            match r {
                Ok(name) => scip_name(self.0) == Some(name@),
                Err(e) => scip_name(self.0) is None && e == SciError::UnknownMessageType(
                    self.0,
                ),
            },
    {
        match self.0 {
            0x0001 => Ok("ChangeLocation"),
            0x000B => Ok("LocationStatus"),
            _ => self.try_as_sci_message_type(),
        }
    }
    /// The message type with the given code, if the point protocol defines
    /// it. Fails with [`SciError::UnknownMessageType`] otherwise.
    pub fn try_as_scip_message_type_from(value: u16) -> (r: Result<SCIMessageType, SciError>)
        ensures
            r == if scip_name(value) is Some {
                Ok::<SCIMessageType, SciError>(SCIMessageType(value))
            } else {
                Err(SciError::UnknownMessageType(value))
            },
    {
        match value {
            0x0001 => Ok(SCIMessageType::scip_change_location()),
            0x000B => Ok(SCIMessageType::scip_location_status()),
            _ => SCIMessageType::try_as_sci_message_type_from(value),
        }
    }
    /// The name of the message type under the light signal protocol. Fails
    /// with [`SciError::UnknownMessageType`] if that protocol does not define
    /// the code.
    pub fn try_as_scils_message_type(&self) -> (r: Result<&'static str, SciError>)
        ensures
            match r {
                Ok(name) => scils_name(self.0) == Some(name@),
                Err(e) => scils_name(self.0) is None && e == SciError::UnknownMessageType(
                    self.0,
                ),
            },
    {
        match self.0 {
            0x0001 => Ok("ShowSignalAspect"),
            0x0002 => Ok("ChangeBrightness"),
            0x0003 => Ok("SignalAspectStatus"),
            0x0004 => Ok("BrightnessStatus"),
            _ => self.try_as_sci_message_type(),
        }
    }
    /// The message type with the given code, if the light signal protocol
    /// defines it. Fails with [`SciError::UnknownMessageType`] otherwise.
    pub fn try_as_scils_message_type_from(value: u16) -> (r: Result<SCIMessageType, SciError>)
        ensures
            r == if scils_name(value) is Some {
                Ok::<SCIMessageType, SciError>(SCIMessageType(value))
            } else {
                Err(SciError::UnknownMessageType(value))
            },
    {
        match value {
            0x0001 => Ok(SCIMessageType::scils_show_signal_aspect()),
            0x0002 => Ok(SCIMessageType::scils_change_brightness()),
            0x0003 => Ok(SCIMessageType::scils_signal_aspect_status()),
            0x0004 => Ok(SCIMessageType::scils_brightness_status()),
            _ => SCIMessageType::try_as_sci_message_type_from(value),
        }
    }
    /// The name of the message type under the train detection protocol.
    /// Fails with [`SciError::UnknownMessageType`] if that protocol does not
    /// define the code.
    pub fn try_as_scitds_message_type(&self) -> (r: Result<&'static str, SciError>)
        ensures
            match r {
                Ok(name) => scitds_name(self.0) == Some(name@),
                Err(e) => scitds_name(self.0) is None && e == SciError::UnknownMessageType(
                    self.0,
                ),
            },
    {
        match self.0 {
            0x0001 => Ok("FC"),
            0x0002 => Ok("UpdateFillingLevel"),
            0x0003 => Ok("DRFC"),
            0x0008 => Ok("Cancel"),
            0x0006 => Ok("CommandRejected"),
            0x0007 => Ok("TvpsOccupancyStatus"),
            0x0010 => Ok("TvpsFcPFailed"),
            0x0011 => Ok("TvpsFcPAFailed"),
            0x0012 => Ok("AdditionalInformation"),
            0x000B => Ok("TdpStatus"),
            _ => self.try_as_sci_message_type(),
        }
    }
    /// The message type with the given code, if the train detection protocol
    /// defines it. Fails with [`SciError::UnknownMessageType`] otherwise.
    pub fn try_as_scitds_message_type_from(value: u16) -> (r: Result<SCIMessageType, SciError>)
        ensures
            r == if scitds_name(value) is Some {
                Ok::<SCIMessageType, SciError>(SCIMessageType(value))
            } else {
                Err(SciError::UnknownMessageType(value))
            },
    {
        match value {
            0x0001 => Ok(SCIMessageType::scitds_fc()),
            0x0002 => Ok(SCIMessageType::scitds_update_filling_level()),
            0x0003 => Ok(SCIMessageType::scitds_drfc()),
            0x0008 => Ok(SCIMessageType::scitds_cancel()),
            0x0006 => Ok(SCIMessageType::scitds_command_rejected()),
            0x0007 => Ok(SCIMessageType::scitds_tvps_occupancy_status()),
            0x0010 => Ok(SCIMessageType::scitds_tvps_fc_p_failed()),
            0x0011 => Ok(SCIMessageType::scitds_tvps_fc_p_a_failed()),
            0x0012 => Ok(SCIMessageType::scitds_additional_information()),
            0x000B => Ok(SCIMessageType::scitds_tdp_status()),
            _ => SCIMessageType::try_as_sci_message_type_from(value),
        }
    }
    /// The message type with the given code, read under `protocol`. Fails
    /// with [`SciError::UnknownMessageType`] if the protocol does not define
    /// the code.
    pub fn resolve(protocol: ProtocolType, value: u16) -> (r: Result<SCIMessageType, SciError>)
        ensures
            r == if defined_under(protocol, value) {
                Ok::<SCIMessageType, SciError>(SCIMessageType(value))
            } else {
                Err(SciError::UnknownMessageType(value))
            },
    {
        match protocol {
            ProtocolType::SCIProtocolP => SCIMessageType::try_as_scip_message_type_from(value),
            ProtocolType::SCIProtocolLS => SCIMessageType::try_as_scils_message_type_from(value),
            ProtocolType::SCIProtocolTDS => SCIMessageType::try_as_scitds_message_type_from(
                value,
            ),
            _ => SCIMessageType::try_as_sci_message_type_from(value),
        }
    }
}

} // verus!
