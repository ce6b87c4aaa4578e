//! SCI-TDS: the Standard Communication Interface for train detection
//! systems.

use super::telegram::{SCIPayload, SCITelegram, TelegramView};
use super::{
    ProtocolType, SCIMessageType, SciError, SCITDS_ADDITIONAL_INFORMATION, SCITDS_CANCEL,
    SCITDS_COMMAND_REJECTED, SCITDS_DRFC, SCITDS_FC, SCITDS_TDP_STATUS,
    SCITDS_TVPS_FC_P_A_FAILED, SCITDS_TVPS_FC_P_FAILED, SCITDS_TVPS_OCCUPANCY_STATUS,
    SCITDS_UPDATE_FILLING_LEVEL,
};
use crate::wire::{u16_byte, u16_from_be, u16_from_be_bytes, u16_to_be_bytes};
use vstd::prelude::*;
use vstd::std_specs::convert::FromSpecImpl;

verus! {

/// A train detection payload that has the wrong length or holds a value
/// outside its field's set.
#[derive(Debug, Clone, Copy, PartialEq, Eq, Structural)]
pub enum SciTdsError {
    UnknownFcMode(u8),
    UnknownOccupancyStatus(u8),
    UnknownPOMStatus(u8),
    UnknownDisturbanceStatus(u8),
    UnknownChangeTrigger(u8),
    UnknownRejectionReason(u8),
    UnknownFCPFailureReason(u8),
    UnknownStateOfPassing(u8),
    UnknownDirectionOfPassing(u8),
    /// The byte that says whether a section can be forced to clear is
    /// neither of its two values.
    UnknownForceClearFlag(u8),
    BadPayloadLength(usize),
}

/// The mode of a force clear command.
#[derive(Debug, Clone, Copy, PartialEq, Eq, Structural)]
pub enum FCMode {
    U,
    C,
    PA,
    P,
    Ack,
}

impl FCMode {
    /// The value that stands for this variant on the wire.
    pub open spec fn spec_code(self) -> u8 {
        match self {
            FCMode::U => 0x01,
            FCMode::C => 0x02,
            FCMode::PA => 0x03,
            FCMode::P => 0x04,
            FCMode::Ack => 0x05,
        }
    }

    /// The variant that a value stands for, if any.
    pub open spec fn from_code(code: u8) -> Option<FCMode> {
        if code == 0x01 {
            Some(FCMode::U)
        } else if code == 0x02 {
            Some(FCMode::C)
        } else if code == 0x03 {
            Some(FCMode::PA)
        } else if code == 0x04 {
            Some(FCMode::P)
        } else if code == 0x05 {
            Some(FCMode::Ack)
        } else {
            None
        }
    }

    /// The value that stands for this variant on the wire.
    #[verifier::when_used_as_spec(spec_code)]
    pub fn code(self) -> (code: u8)
        ensures
            code == self.spec_code(),
    {
        match self {
            FCMode::U => 0x01,
            FCMode::C => 0x02,
            FCMode::PA => 0x03,
            FCMode::P => 0x04,
            FCMode::Ack => 0x05,
        }
    }

    /// The variant that `value` stands for. Every other value fails with
    /// [`SciTdsError::UnknownFcMode`], which carries the value.
    pub fn try_from(value: u8) -> (r: Result<FCMode, SciError>)
        ensures
            r == match FCMode::from_code(value) {
                Some(v) => Ok::<FCMode, SciError>(v),
                None => Err(SciError::Tds(SciTdsError::UnknownFcMode(value))),
            },
    {
        match value {
            0x01 => Ok(FCMode::U),
            0x02 => Ok(FCMode::C),
            0x03 => Ok(FCMode::PA),
            0x04 => Ok(FCMode::P),
            0x05 => Ok(FCMode::Ack),
            v => Err(SciError::Tds(SciTdsError::UnknownFcMode(v))),
        }
    }

    /// Every variant is found again from its code.
    pub proof fn lemma_code_round_trip(self)
        ensures
            FCMode::from_code(self.spec_code()) == Some(self),
    {
    }
}
/// The occupancy of a track vacancy proving section.
#[derive(Debug, Clone, Copy, PartialEq, Eq, Structural)]
pub enum OccupancyStatus {
    Vacant,
    Occupied,
    Disturbed,
    WaitingForSweepingTrain,
    WaitingForAck,
    SweepingTrainDetected,
}

impl OccupancyStatus {
    /// The value that stands for this variant on the wire.
    pub open spec fn spec_code(self) -> u8 {
        match self {
            OccupancyStatus::Vacant => 0x01,
            OccupancyStatus::Occupied => 0x02,
            OccupancyStatus::Disturbed => 0x03,
            OccupancyStatus::WaitingForSweepingTrain => 0x04,
            OccupancyStatus::WaitingForAck => 0x05,
            OccupancyStatus::SweepingTrainDetected => 0x06,
        }
    }

    /// The variant that a value stands for, if any.
    pub open spec fn from_code(code: u8) -> Option<OccupancyStatus> {
        if code == 0x01 {
            Some(OccupancyStatus::Vacant)
        } else if code == 0x02 {
            Some(OccupancyStatus::Occupied)
        } else if code == 0x03 {
            Some(OccupancyStatus::Disturbed)
        } else if code == 0x04 {
            Some(OccupancyStatus::WaitingForSweepingTrain)
        } else if code == 0x05 {
            Some(OccupancyStatus::WaitingForAck)
        } else if code == 0x06 {
            Some(OccupancyStatus::SweepingTrainDetected)
        } else {
            None
        }
    }

    /// The value that stands for this variant on the wire.
    #[verifier::when_used_as_spec(spec_code)]
    pub fn code(self) -> (code: u8)
        ensures
            code == self.spec_code(),
    {
        match self {
            OccupancyStatus::Vacant => 0x01,
            OccupancyStatus::Occupied => 0x02,
            OccupancyStatus::Disturbed => 0x03,
            OccupancyStatus::WaitingForSweepingTrain => 0x04,
            OccupancyStatus::WaitingForAck => 0x05,
            OccupancyStatus::SweepingTrainDetected => 0x06,
        }
    }

    /// The variant that `value` stands for. Every other value fails with
    /// [`SciTdsError::UnknownOccupancyStatus`], which carries the value.
    pub fn try_from(value: u8) -> (r: Result<OccupancyStatus, SciError>)
        ensures
            r == match OccupancyStatus::from_code(value) {
                Some(v) => Ok::<OccupancyStatus, SciError>(v),
                None => Err(SciError::Tds(SciTdsError::UnknownOccupancyStatus(value))),
            },
    {
        match value {
            0x01 => Ok(OccupancyStatus::Vacant),
            0x02 => Ok(OccupancyStatus::Occupied),
            0x03 => Ok(OccupancyStatus::Disturbed),
            0x04 => Ok(OccupancyStatus::WaitingForSweepingTrain),
            0x05 => Ok(OccupancyStatus::WaitingForAck),
            0x06 => Ok(OccupancyStatus::SweepingTrainDetected),
            v => Err(SciError::Tds(SciTdsError::UnknownOccupancyStatus(v))),
        }
    }

    /// Every variant is found again from its code.
    pub proof fn lemma_code_round_trip(self)
        ensures
            OccupancyStatus::from_code(self.spec_code()) == Some(self),
    {
    }
}
/// The status of the power supply.
#[derive(Debug, Clone, Copy, PartialEq, Eq, Structural)]
pub enum POMStatus {
    Okay,
    NotOk,
    NotApplicable,
}

impl POMStatus {
    /// The value that stands for this variant on the wire.
    pub open spec fn spec_code(self) -> u8 {
        match self {
            POMStatus::Okay => 0x01,
            POMStatus::NotOk => 0x02,
            POMStatus::NotApplicable => 0xFF,
        }
    }

    /// The variant that a value stands for, if any.
    pub open spec fn from_code(code: u8) -> Option<POMStatus> {
        if code == 0x01 {
            Some(POMStatus::Okay)
        } else if code == 0x02 {
            Some(POMStatus::NotOk)
        } else if code == 0xFF {
            Some(POMStatus::NotApplicable)
        } else {
            None
        }
    }

    /// The value that stands for this variant on the wire.
    #[verifier::when_used_as_spec(spec_code)]
    pub fn code(self) -> (code: u8)
        ensures
            code == self.spec_code(),
    {
        match self {
            POMStatus::Okay => 0x01,
            POMStatus::NotOk => 0x02,
            POMStatus::NotApplicable => 0xFF,
        }
    }

    /// The variant that `value` stands for. Every other value fails with
    /// [`SciTdsError::UnknownPOMStatus`], which carries the value.
    pub fn try_from(value: u8) -> (r: Result<POMStatus, SciError>)
        ensures
            r == match POMStatus::from_code(value) {
                Some(v) => Ok::<POMStatus, SciError>(v),
                None => Err(SciError::Tds(SciTdsError::UnknownPOMStatus(value))),
            },
    {
        match value {
            0x01 => Ok(POMStatus::Okay),
            0x02 => Ok(POMStatus::NotOk),
            0xFF => Ok(POMStatus::NotApplicable),
            v => Err(SciError::Tds(SciTdsError::UnknownPOMStatus(v))),
        }
    }

    /// Every variant is found again from its code.
    pub proof fn lemma_code_round_trip(self)
        ensures
            POMStatus::from_code(self.spec_code()) == Some(self),
    {
    }
}
/// The kind of a disturbance.
#[derive(Debug, Clone, Copy, PartialEq, Eq, Structural)]
pub enum DisturbanceStatus {
    Operational,
    Technical,
    NotApplicable,
}

impl DisturbanceStatus {
    /// The value that stands for this variant on the wire.
    pub open spec fn spec_code(self) -> u8 {
        match self {
            DisturbanceStatus::Operational => 0x01,
            DisturbanceStatus::Technical => 0x02,
            DisturbanceStatus::NotApplicable => 0xFF,
        }
    }

    /// The variant that a value stands for, if any.
    pub open spec fn from_code(code: u8) -> Option<DisturbanceStatus> {
        if code == 0x01 {
            Some(DisturbanceStatus::Operational)
        } else if code == 0x02 {
            Some(DisturbanceStatus::Technical)
        } else if code == 0xFF {
            Some(DisturbanceStatus::NotApplicable)
        } else {
            None
        }
    }

    /// The value that stands for this variant on the wire.
    #[verifier::when_used_as_spec(spec_code)]
    pub fn code(self) -> (code: u8)
        ensures
            code == self.spec_code(),
    {
        match self {
            DisturbanceStatus::Operational => 0x01,
            DisturbanceStatus::Technical => 0x02,
            DisturbanceStatus::NotApplicable => 0xFF,
        }
    }

    /// The variant that `value` stands for. Every other value fails with
    /// [`SciTdsError::UnknownDisturbanceStatus`], which carries the value.
    pub fn try_from(value: u8) -> (r: Result<DisturbanceStatus, SciError>)
        ensures
            r == match DisturbanceStatus::from_code(value) {
                Some(v) => Ok::<DisturbanceStatus, SciError>(v),
                None => Err(SciError::Tds(SciTdsError::UnknownDisturbanceStatus(value))),
            },
    {
        match value {
            0x01 => Ok(DisturbanceStatus::Operational),
            0x02 => Ok(DisturbanceStatus::Technical),
            0xFF => Ok(DisturbanceStatus::NotApplicable),
            v => Err(SciError::Tds(SciTdsError::UnknownDisturbanceStatus(v))),
        }
    }

    /// Every variant is found again from its code.
    pub proof fn lemma_code_round_trip(self)
        ensures
            DisturbanceStatus::from_code(self.spec_code()) == Some(self),
    {
    }
}
/// What made the occupancy status change.
#[derive(Debug, Clone, Copy, PartialEq, Eq, Structural)]
pub enum ChangeTrigger {
    PassingDetected,
    CommandFromEILAccepted,
    CommandFromMaintainerAccepted,
    TechnicalFailure,
    InitialSectionState,
    InternalTrigger,
    NotApplicable,
}

impl ChangeTrigger {
    /// The value that stands for this variant on the wire.
    pub open spec fn spec_code(self) -> u8 {
        match self {
            ChangeTrigger::PassingDetected => 0x01,
            ChangeTrigger::CommandFromEILAccepted => 0x02,
            ChangeTrigger::CommandFromMaintainerAccepted => 0x03,
            ChangeTrigger::TechnicalFailure => 0x04,
            ChangeTrigger::InitialSectionState => 0x05,
            ChangeTrigger::InternalTrigger => 0x06,
            ChangeTrigger::NotApplicable => 0xFF,
        }
    }

    /// The variant that a value stands for, if any.
    pub open spec fn from_code(code: u8) -> Option<ChangeTrigger> {
        if code == 0x01 {
            Some(ChangeTrigger::PassingDetected)
        } else if code == 0x02 {
            Some(ChangeTrigger::CommandFromEILAccepted)
        } else if code == 0x03 {
            Some(ChangeTrigger::CommandFromMaintainerAccepted)
        } else if code == 0x04 {
            Some(ChangeTrigger::TechnicalFailure)
        } else if code == 0x05 {
            Some(ChangeTrigger::InitialSectionState)
        } else if code == 0x06 {
            Some(ChangeTrigger::InternalTrigger)
        } else if code == 0xFF {
            Some(ChangeTrigger::NotApplicable)
        } else {
            None
        }
    }

    /// The value that stands for this variant on the wire.
    #[verifier::when_used_as_spec(spec_code)]
    pub fn code(self) -> (code: u8)
        ensures
            code == self.spec_code(),
    {
        match self {
            ChangeTrigger::PassingDetected => 0x01,
            ChangeTrigger::CommandFromEILAccepted => 0x02,
            ChangeTrigger::CommandFromMaintainerAccepted => 0x03,
            ChangeTrigger::TechnicalFailure => 0x04,
            ChangeTrigger::InitialSectionState => 0x05,
            ChangeTrigger::InternalTrigger => 0x06,
            ChangeTrigger::NotApplicable => 0xFF,
        }
    }

    /// The variant that `value` stands for. Every other value fails with
    /// [`SciTdsError::UnknownChangeTrigger`], which carries the value.
    pub fn try_from(value: u8) -> (r: Result<ChangeTrigger, SciError>)
        ensures
            r == match ChangeTrigger::from_code(value) {
                Some(v) => Ok::<ChangeTrigger, SciError>(v),
                None => Err(SciError::Tds(SciTdsError::UnknownChangeTrigger(value))),
            },
    {
        match value {
            0x01 => Ok(ChangeTrigger::PassingDetected),
            0x02 => Ok(ChangeTrigger::CommandFromEILAccepted),
            0x03 => Ok(ChangeTrigger::CommandFromMaintainerAccepted),
            0x04 => Ok(ChangeTrigger::TechnicalFailure),
            0x05 => Ok(ChangeTrigger::InitialSectionState),
            0x06 => Ok(ChangeTrigger::InternalTrigger),
            0xFF => Ok(ChangeTrigger::NotApplicable),
            v => Err(SciError::Tds(SciTdsError::UnknownChangeTrigger(v))),
        }
    }

    /// Every variant is found again from its code.
    pub proof fn lemma_code_round_trip(self)
        ensures
            ChangeTrigger::from_code(self.spec_code()) == Some(self),
    {
    }
}
/// Why a command was rejected.
#[derive(Debug, Clone, Copy, PartialEq, Eq, Structural)]
pub enum RejectionReason {
    Operational,
    Technical,
}

impl RejectionReason {
    /// The value that stands for this variant on the wire.
    pub open spec fn spec_code(self) -> u8 {
        match self {
            RejectionReason::Operational => 0x01,
            RejectionReason::Technical => 0x02,
        }
    }

    /// The variant that a value stands for, if any.
    pub open spec fn from_code(code: u8) -> Option<RejectionReason> {
        if code == 0x01 {
            Some(RejectionReason::Operational)
        } else if code == 0x02 {
            Some(RejectionReason::Technical)
        } else {
            None
        }
    }

    /// The value that stands for this variant on the wire.
    #[verifier::when_used_as_spec(spec_code)]
    pub fn code(self) -> (code: u8)
        ensures
            code == self.spec_code(),
    {
        match self {
            RejectionReason::Operational => 0x01,
            RejectionReason::Technical => 0x02,
        }
    }

    /// The variant that `value` stands for. Every other value fails with
    /// [`SciTdsError::UnknownRejectionReason`], which carries the value.
    pub fn try_from(value: u8) -> (r: Result<RejectionReason, SciError>)
        ensures
            r == match RejectionReason::from_code(value) {
                Some(v) => Ok::<RejectionReason, SciError>(v),
                None => Err(SciError::Tds(SciTdsError::UnknownRejectionReason(value))),
            },
    {
        match value {
            0x01 => Ok(RejectionReason::Operational),
            0x02 => Ok(RejectionReason::Technical),
            v => Err(SciError::Tds(SciTdsError::UnknownRejectionReason(v))),
        }
    }

    /// Every variant is found again from its code.
    pub proof fn lemma_code_round_trip(self)
        ensures
            RejectionReason::from_code(self.spec_code()) == Some(self),
    {
    }
}
/// Why a force clear process failed.
#[derive(Debug, Clone, Copy, PartialEq, Eq, Structural)]
pub enum FCPFailureReason {
    IncorrectCountOfSweepingTrain,
    Timeout,
    IllegalBoundingDetectionPointConfig,
    IntentionallyDeleted,
    OutgoingAxleBeforeMinTimerExpiry,
    ProcessCancelled,
}

impl FCPFailureReason {
    /// The value that stands for this variant on the wire.
    pub open spec fn spec_code(self) -> u8 {
        match self {
            FCPFailureReason::IncorrectCountOfSweepingTrain => 0x01,
            FCPFailureReason::Timeout => 0x02,
            FCPFailureReason::IllegalBoundingDetectionPointConfig => 0x03,
            FCPFailureReason::IntentionallyDeleted => 0x04,
            FCPFailureReason::OutgoingAxleBeforeMinTimerExpiry => 0x05,
            FCPFailureReason::ProcessCancelled => 0x06,
        }
    }

    /// The variant that a value stands for, if any.
    pub open spec fn from_code(code: u8) -> Option<FCPFailureReason> {
        if code == 0x01 {
            Some(FCPFailureReason::IncorrectCountOfSweepingTrain)
        } else if code == 0x02 {
            Some(FCPFailureReason::Timeout)
        } else if code == 0x03 {
            Some(FCPFailureReason::IllegalBoundingDetectionPointConfig)
        } else if code == 0x04 {
            Some(FCPFailureReason::IntentionallyDeleted)
        } else if code == 0x05 {
            Some(FCPFailureReason::OutgoingAxleBeforeMinTimerExpiry)
        } else if code == 0x06 {
            Some(FCPFailureReason::ProcessCancelled)
        } else {
            None
        }
    }

    /// The value that stands for this variant on the wire.
    #[verifier::when_used_as_spec(spec_code)]
    pub fn code(self) -> (code: u8)
        ensures
            code == self.spec_code(),
    {
        match self {
            FCPFailureReason::IncorrectCountOfSweepingTrain => 0x01,
            FCPFailureReason::Timeout => 0x02,
            FCPFailureReason::IllegalBoundingDetectionPointConfig => 0x03,
            FCPFailureReason::IntentionallyDeleted => 0x04,
            FCPFailureReason::OutgoingAxleBeforeMinTimerExpiry => 0x05,
            FCPFailureReason::ProcessCancelled => 0x06,
        }
    }

    /// The variant that `value` stands for. Every other value fails with
    /// [`SciTdsError::UnknownFCPFailureReason`], which carries the value.
    pub fn try_from(value: u8) -> (r: Result<FCPFailureReason, SciError>)
        ensures
            r == match FCPFailureReason::from_code(value) {
                Some(v) => Ok::<FCPFailureReason, SciError>(v),
                None => Err(SciError::Tds(SciTdsError::UnknownFCPFailureReason(value))),
            },
    {
        match value {
            0x01 => Ok(FCPFailureReason::IncorrectCountOfSweepingTrain),
            0x02 => Ok(FCPFailureReason::Timeout),
            0x03 => Ok(FCPFailureReason::IllegalBoundingDetectionPointConfig),
            0x04 => Ok(FCPFailureReason::IntentionallyDeleted),
            0x05 => Ok(FCPFailureReason::OutgoingAxleBeforeMinTimerExpiry),
            0x06 => Ok(FCPFailureReason::ProcessCancelled),
            v => Err(SciError::Tds(SciTdsError::UnknownFCPFailureReason(v))),
        }
    }

    /// Every variant is found again from its code.
    pub proof fn lemma_code_round_trip(self)
        ensures
            FCPFailureReason::from_code(self.spec_code()) == Some(self),
    {
    }
}
/// Whether a train has passed a detection point.
#[derive(Debug, Clone, Copy, PartialEq, Eq, Structural)]
pub enum StateOfPassing {
    NotPassed,
    Passed,
    Disturbed,
}

impl StateOfPassing {
    /// The value that stands for this variant on the wire.
    pub open spec fn spec_code(self) -> u8 {
        match self {
            StateOfPassing::NotPassed => 0x01,
            StateOfPassing::Passed => 0x02,
            StateOfPassing::Disturbed => 0x03,
        }
    }

    /// The variant that a value stands for, if any.
    pub open spec fn from_code(code: u8) -> Option<StateOfPassing> {
        if code == 0x01 {
            Some(StateOfPassing::NotPassed)
        } else if code == 0x02 {
            Some(StateOfPassing::Passed)
        } else if code == 0x03 {
            Some(StateOfPassing::Disturbed)
        } else {
            None
        }
    }

    /// The value that stands for this variant on the wire.
    #[verifier::when_used_as_spec(spec_code)]
    pub fn code(self) -> (code: u8)
        ensures
            code == self.spec_code(),
    {
        match self {
            StateOfPassing::NotPassed => 0x01,
            StateOfPassing::Passed => 0x02,
            StateOfPassing::Disturbed => 0x03,
        }
    }

    /// The variant that `value` stands for. Every other value fails with
    /// [`SciTdsError::UnknownStateOfPassing`], which carries the value.
    pub fn try_from(value: u8) -> (r: Result<StateOfPassing, SciError>)
        ensures
            r == match StateOfPassing::from_code(value) {
                Some(v) => Ok::<StateOfPassing, SciError>(v),
                None => Err(SciError::Tds(SciTdsError::UnknownStateOfPassing(value))),
            },
    {
        match value {
            0x01 => Ok(StateOfPassing::NotPassed),
            0x02 => Ok(StateOfPassing::Passed),
            0x03 => Ok(StateOfPassing::Disturbed),
            v => Err(SciError::Tds(SciTdsError::UnknownStateOfPassing(v))),
        }
    }

    /// Every variant is found again from its code.
    pub proof fn lemma_code_round_trip(self)
        ensures
            StateOfPassing::from_code(self.spec_code()) == Some(self),
    {
    }
}
/// The direction in which a train passed a detection point.
#[derive(Debug, Clone, Copy, PartialEq, Eq, Structural)]
pub enum DirectionOfPassing {
    Reference,
    AgainstReference,
    WithoutIndicatedDirection,
}

impl DirectionOfPassing {
    /// The value that stands for this variant on the wire.
    pub open spec fn spec_code(self) -> u8 {
        match self {
            DirectionOfPassing::Reference => 0x01,
            DirectionOfPassing::AgainstReference => 0x02,
            DirectionOfPassing::WithoutIndicatedDirection => 0x03,
        }
    }

    /// The variant that a value stands for, if any.
    pub open spec fn from_code(code: u8) -> Option<DirectionOfPassing> {
        if code == 0x01 {
            Some(DirectionOfPassing::Reference)
        } else if code == 0x02 {
            Some(DirectionOfPassing::AgainstReference)
        } else if code == 0x03 {
            Some(DirectionOfPassing::WithoutIndicatedDirection)
        } else {
            None
        }
    }

    /// The value that stands for this variant on the wire.
    #[verifier::when_used_as_spec(spec_code)]
    pub fn code(self) -> (code: u8)
        ensures
            code == self.spec_code(),
    {
        match self {
            DirectionOfPassing::Reference => 0x01,
            DirectionOfPassing::AgainstReference => 0x02,
            DirectionOfPassing::WithoutIndicatedDirection => 0x03,
        }
    }

    /// The variant that `value` stands for. Every other value fails with
    /// [`SciTdsError::UnknownDirectionOfPassing`], which carries the value.
    pub fn try_from(value: u8) -> (r: Result<DirectionOfPassing, SciError>)
        ensures
            r == match DirectionOfPassing::from_code(value) {
                Some(v) => Ok::<DirectionOfPassing, SciError>(v),
                None => Err(SciError::Tds(SciTdsError::UnknownDirectionOfPassing(value))),
            },
    {
        match value {
            0x01 => Ok(DirectionOfPassing::Reference),
            0x02 => Ok(DirectionOfPassing::AgainstReference),
            0x03 => Ok(DirectionOfPassing::WithoutIndicatedDirection),
            v => Err(SciError::Tds(SciTdsError::UnknownDirectionOfPassing(v))),
        }
    }

    /// Every variant is found again from its code.
    pub proof fn lemma_code_round_trip(self)
        ensures
            DirectionOfPassing::from_code(self.spec_code()) == Some(self),
    {
    }
}
/// The byte that says whether a section can be forced to clear: `0x01` if
/// it can, `0x02` if it cannot.
pub open spec fn force_clear_byte(can_be_forced_to_clear: bool) -> u8 {
    if can_be_forced_to_clear {
        0x01
    } else {
        0x02
    }
}

/// The 16 bits of a signed filling level, in two's complement.
pub open spec fn filling_level_bits(filling_level: i16) -> u16 {
    if filling_level >= 0 {
        filling_level as u16
    } else {
        (filling_level + 65536) as u16
    }
}

/// Whether every one of four values is a decimal digit.
pub open spec fn are_digits(digits: Seq<u8>) -> bool {
    digits.len() == 4 && digits[0] <= 9 && digits[1] <= 9 && digits[2] <= 9 && digits[3] <= 9
}

/// The binary-coded decimal of four digits: four bits each, the first
/// digit in the highest place.
pub open spec fn bcd(digits: Seq<u8>) -> int {
    digits[0] * 4096 + digits[1] * 256 + digits[2] * 16 + digits[3]
}

/// Packs four decimal digits into 16 bits. The caller sees to it that
/// every value is a digit; [`checked_bcd`] tests it.
pub fn to_bcd(digits: [u8; 4]) -> (value: u16)
    requires
        are_digits(digits@),
    ensures
        value == bcd(digits@),
        value == digits@[0] * 4096 + digits@[1] * 256 + digits@[2] * 16 + digits@[3],
{
    let digit_0: u8 = digits[0] * 16 + digits[1];
    let digit_1: u8 = digits[2] * 16 + digits[3];
    u16_from_be_bytes(digit_0, digit_1)
}

/// Packs four decimal digits into 16 bits, or gives `None` if one of the
/// values is above nine.
pub fn checked_bcd(digits: [u8; 4]) -> (value: Option<u16>)
    ensures
        value == if are_digits(digits@) {
            Some(bcd(digits@) as u16)
        } else {
            None
        },
{
    if digits[0] <= 9 && digits[1] <= 9 && digits[2] <= 9 && digits[3] <= 9 {
        Some(to_bcd(digits))
    } else {
        None
    }
}

impl SCITelegram {
    /// Asks for the filling level to be updated. No payload.
    pub fn update_filling_level(sender: &str, receiver: &str) -> (t: SCITelegram)
        ensures
            t@ == (TelegramView {
                protocol_type: ProtocolType::SCIProtocolTDS,
                message_type: SCIMessageType(SCITDS_UPDATE_FILLING_LEVEL),
                sender: sender@,
                receiver: receiver@,
                payload: Seq::<u8>::empty(),
            }),
    {
        let payload: [u8; 0] = [];
        assert(payload@ =~= Seq::<u8>::empty());
        SCITelegram::assemble(
            ProtocolType::SCIProtocolTDS,
            SCIMessageType::scitds_update_filling_level(),
            sender,
            receiver,
            payload.as_slice(),
        )
    }

    /// Cancels a running force clear process. No payload.
    pub fn cancel(sender: &str, receiver: &str) -> (t: SCITelegram)
        ensures
            t@ == (TelegramView {
                protocol_type: ProtocolType::SCIProtocolTDS,
                message_type: SCIMessageType(SCITDS_CANCEL),
                sender: sender@,
                receiver: receiver@,
                payload: Seq::<u8>::empty(),
            }),
    {
        let payload: [u8; 0] = [];
        assert(payload@ =~= Seq::<u8>::empty());
        SCITelegram::assemble(
            ProtocolType::SCIProtocolTDS,
            SCIMessageType::scitds_cancel(),
            sender,
            receiver,
            payload.as_slice(),
        )
    }

    /// Asks for a delayed release of a force clear. No payload.
    pub fn drfc(sender: &str, receiver: &str) -> (t: SCITelegram)
        ensures
            t@ == (TelegramView {
                protocol_type: ProtocolType::SCIProtocolTDS,
                message_type: SCIMessageType(SCITDS_DRFC),
                sender: sender@,
                receiver: receiver@,
                payload: Seq::<u8>::empty(),
            }),
    {
        let payload: [u8; 0] = [];
        assert(payload@ =~= Seq::<u8>::empty());
        SCITelegram::assemble(
            ProtocolType::SCIProtocolTDS,
            SCIMessageType::scitds_drfc(),
            sender,
            receiver,
            payload.as_slice(),
        )
    }

    /// Forces a section to clear. The payload is the one byte of the mode.
    pub fn fc(sender: &str, receiver: &str, mode: FCMode) -> (t: SCITelegram)
        ensures
            t@ == (TelegramView {
                protocol_type: ProtocolType::SCIProtocolTDS,
                message_type: SCIMessageType(SCITDS_FC),
                sender: sender@,
                receiver: receiver@,
                payload: seq![mode.spec_code()],
            }),
    {
        let payload = [mode.code()];
        assert(payload@ =~= seq![mode.spec_code()]);
        SCITelegram::assemble(
            ProtocolType::SCIProtocolTDS,
            SCIMessageType::scitds_fc(),
            sender,
            receiver,
            payload.as_slice(),
        )
    }

    /// Reports the occupancy of a section. The payload has seven bytes:
    /// occupancy, whether the section can be forced to clear, the filling
    /// level as two bytes, high byte first, power supply status,
    /// disturbance status and change trigger.
    pub fn tvps_occupancy_status(
        sender: &str,
        receiver: &str,
        occupancy_status: OccupancyStatus,
        can_be_forced_to_clear: bool,
        filling_level: i16,
        pom_status: POMStatus,
        disturbance_status: DisturbanceStatus,
        change_trigger: ChangeTrigger,
    ) -> (t: SCITelegram)
        ensures
            t@ == (TelegramView {
                protocol_type: ProtocolType::SCIProtocolTDS,
                message_type: SCIMessageType(SCITDS_TVPS_OCCUPANCY_STATUS),
                sender: sender@,
                receiver: receiver@,
                payload: seq![
                    occupancy_status.spec_code(),
                    force_clear_byte(can_be_forced_to_clear),
                    u16_byte(filling_level_bits(filling_level), 1),
                    u16_byte(filling_level_bits(filling_level), 0),
                    pom_status.spec_code(),
                    disturbance_status.spec_code(),
                    change_trigger.spec_code(),
                ],
            }),
    {
        let bits: u16 = if filling_level >= 0 {
            filling_level as u16
        } else {
            (filling_level as i32 + 65536) as u16
        };
        let level = u16_to_be_bytes(bits);
        let flag: u8 = if can_be_forced_to_clear {
            0x01
        } else {
            0x02
        };
        let payload = [
            occupancy_status.code(),
            flag,
            level[0],
            level[1],
            pom_status.code(),
            disturbance_status.code(),
            change_trigger.code(),
        ];
        assert(payload@ =~= seq![
            occupancy_status.spec_code(),
            force_clear_byte(can_be_forced_to_clear),
            u16_byte(filling_level_bits(filling_level), 1),
            u16_byte(filling_level_bits(filling_level), 0),
            pom_status.spec_code(),
            disturbance_status.spec_code(),
            change_trigger.spec_code(),
        ]);
        SCITelegram::assemble(
            ProtocolType::SCIProtocolTDS,
            SCIMessageType::scitds_tvps_occupancy_status(),
            sender,
            receiver,
            payload.as_slice(),
        )
    }

    /// Rejects a command. The payload is the one byte of the reason.
    pub fn command_rejected(sender: &str, receiver: &str, reason: RejectionReason) -> (t: SCITelegram)
        ensures
            t@ == (TelegramView {
                protocol_type: ProtocolType::SCIProtocolTDS,
                message_type: SCIMessageType(SCITDS_COMMAND_REJECTED),
                sender: sender@,
                receiver: receiver@,
                payload: seq![reason.spec_code()],
            }),
    {
        let payload = [reason.code()];
        assert(payload@ =~= seq![reason.spec_code()]);
        SCITelegram::assemble(
            ProtocolType::SCIProtocolTDS,
            SCIMessageType::scitds_command_rejected(),
            sender,
            receiver,
            payload.as_slice(),
        )
    }

    /// Reports that a force clear process of mode P failed. The payload is
    /// the one byte of the reason.
    pub fn tvps_fc_p_failed(sender: &str, receiver: &str, reason: FCPFailureReason) -> (t: SCITelegram)
        ensures
            t@ == (TelegramView {
                protocol_type: ProtocolType::SCIProtocolTDS,
                message_type: SCIMessageType(SCITDS_TVPS_FC_P_FAILED),
                sender: sender@,
                receiver: receiver@,
                payload: seq![reason.spec_code()],
            }),
    {
        let payload = [reason.code()];
        assert(payload@ =~= seq![reason.spec_code()]);
        SCITelegram::assemble(
            ProtocolType::SCIProtocolTDS,
            SCIMessageType::scitds_tvps_fc_p_failed(),
            sender,
            receiver,
            payload.as_slice(),
        )
    }

    /// Reports that a force clear process of mode PA failed. The payload is
    /// the one byte of the reason.
    pub fn tvps_fc_p_a_failed(sender: &str, receiver: &str, reason: FCPFailureReason) -> (t: SCITelegram)
        ensures
            t@ == (TelegramView {
                protocol_type: ProtocolType::SCIProtocolTDS,
                message_type: SCIMessageType(SCITDS_TVPS_FC_P_A_FAILED),
                sender: sender@,
                receiver: receiver@,
                payload: seq![reason.spec_code()],
            }),
    {
        let payload = [reason.code()];
        assert(payload@ =~= seq![reason.spec_code()]);
        SCITelegram::assemble(
            ProtocolType::SCIProtocolTDS,
            SCIMessageType::scitds_tvps_fc_p_a_failed(),
            sender,
            receiver,
            payload.as_slice(),
        )
    }

    /// Reports speed and wheel diameter, each as four decimal digits. The
    /// payload has four bytes, two digits to a byte: the speed, then the
    /// wheel diameter. The caller sees to it that every value is a digit.
    pub fn additional_information(
        sender: &str,
        receiver: &str,
        speed: [u8; 4],
        wheel_diameter: [u8; 4],
    ) -> (t: SCITelegram)
        requires
            are_digits(speed@),
            are_digits(wheel_diameter@),
        ensures
            t@ == (TelegramView {
                protocol_type: ProtocolType::SCIProtocolTDS,
                message_type: SCIMessageType(SCITDS_ADDITIONAL_INFORMATION),
                sender: sender@,
                receiver: receiver@,
                payload: seq![
                    (speed@[0] * 16 + speed@[1]) as u8,
                    (speed@[2] * 16 + speed@[3]) as u8,
                    (wheel_diameter@[0] * 16 + wheel_diameter@[1]) as u8,
                    (wheel_diameter@[2] * 16 + wheel_diameter@[3]) as u8,
                ],
            }),
    {
        let speed_bcd = u16_to_be_bytes(to_bcd(speed));
        let wheel_diameter_bcd = u16_to_be_bytes(to_bcd(wheel_diameter));
        let payload = [speed_bcd[0], speed_bcd[1], wheel_diameter_bcd[0], wheel_diameter_bcd[1]];
        assert(payload@ =~= seq![
            (speed@[0] * 16 + speed@[1]) as u8,
            (speed@[2] * 16 + speed@[3]) as u8,
            (wheel_diameter@[0] * 16 + wheel_diameter@[1]) as u8,
            (wheel_diameter@[2] * 16 + wheel_diameter@[3]) as u8,
        ]);
        SCITelegram::assemble(
            ProtocolType::SCIProtocolTDS,
            SCIMessageType::scitds_additional_information(),
            sender,
            receiver,
            payload.as_slice(),
        )
    }

    /// Reports the status of a detection point. The payload has two bytes:
    /// the state of passing and the direction of passing.
    pub fn tdp_status(
        sender: &str,
        receiver: &str,
        state_of_passing: StateOfPassing,
        direction_of_passing: DirectionOfPassing,
    ) -> (t: SCITelegram)
        ensures
            t@ == (TelegramView {
                protocol_type: ProtocolType::SCIProtocolTDS,
                message_type: SCIMessageType(SCITDS_TDP_STATUS),
                sender: sender@,
                receiver: receiver@,
                payload: seq![state_of_passing.spec_code(), direction_of_passing.spec_code()],
            }),
    {
        let payload = [state_of_passing.code(), direction_of_passing.code()];
        assert(payload@ =~= seq![state_of_passing.spec_code(), direction_of_passing.spec_code()]);
        SCITelegram::assemble(
            ProtocolType::SCIProtocolTDS,
            SCIMessageType::scitds_tdp_status(),
            sender,
            receiver,
            payload.as_slice(),
        )
    }
}

/// What the payload of an occupancy status telegram says.
#[derive(Debug, Clone, Copy, PartialEq, Eq, Structural)]
pub struct OccupancyStatusPayload {
    pub occupancy_status: OccupancyStatus,
    pub can_be_forced_to_clear: bool,
    pub filling_level: u16,
    pub pom_status: POMStatus,
    pub disturbance_status: DisturbanceStatus,
    pub change_trigger: ChangeTrigger,
}

/// The seven bytes of an occupancy status.
pub open spec fn occupancy_status_bytes(p: OccupancyStatusPayload) -> Seq<u8> {
    seq![
        p.occupancy_status.spec_code(),
        force_clear_byte(p.can_be_forced_to_clear),
        u16_byte(p.filling_level, 1),
        u16_byte(p.filling_level, 0),
        p.pom_status.spec_code(),
        p.disturbance_status.spec_code(),
        p.change_trigger.spec_code(),
    ]
}

/// What a payload says as an occupancy status. It has a
/// [`SciTdsError::BadPayloadLength`] if it does not have seven bytes, else
/// the error of the first field, in the order of the bytes, whose value is
/// not in its set.
pub open spec fn decode_occupancy_status(bytes: Seq<u8>) -> Result<
    OccupancyStatusPayload,
    SciError,
> {
    if bytes.len() != 7 {
        Err(SciError::Tds(SciTdsError::BadPayloadLength(bytes.len() as usize)))
    } else if OccupancyStatus::from_code(bytes[0]) is None {
        Err(SciError::Tds(SciTdsError::UnknownOccupancyStatus(bytes[0])))
    } else if bytes[1] != 1 && bytes[1] != 2 {
        Err(SciError::Tds(SciTdsError::UnknownForceClearFlag(bytes[1])))
    } else if POMStatus::from_code(bytes[4]) is None {
        Err(SciError::Tds(SciTdsError::UnknownPOMStatus(bytes[4])))
    } else if DisturbanceStatus::from_code(bytes[5]) is None {
        Err(SciError::Tds(SciTdsError::UnknownDisturbanceStatus(bytes[5])))
    } else if ChangeTrigger::from_code(bytes[6]) is None {
        Err(SciError::Tds(SciTdsError::UnknownChangeTrigger(bytes[6])))
    } else {
        Ok(
            OccupancyStatusPayload {
                occupancy_status: OccupancyStatus::from_code(bytes[0]).unwrap(),
                can_be_forced_to_clear: bytes[1] == 1,
                filling_level: u16_from_be(bytes[2], bytes[3]),
                pom_status: POMStatus::from_code(bytes[4]).unwrap(),
                disturbance_status: DisturbanceStatus::from_code(bytes[5]).unwrap(),
                change_trigger: ChangeTrigger::from_code(bytes[6]).unwrap(),
            },
        )
    }
}

/// Round trip: an occupancy status is read back from its seven bytes as it
/// was.
pub proof fn lemma_occupancy_status_round_trip(p: OccupancyStatusPayload)
    ensures
        decode_occupancy_status(occupancy_status_bytes(p)) == Ok::<
            OccupancyStatusPayload,
            SciError,
        >(p),
{
    p.occupancy_status.lemma_code_round_trip();
    p.pom_status.lemma_code_round_trip();
    p.disturbance_status.lemma_code_round_trip();
    p.change_trigger.lemma_code_round_trip();
}

impl OccupancyStatusPayload {
    /// Reads an occupancy status from a payload. Succeeds exactly where
    /// [`decode_occupancy_status`] does, with what it gives.
    pub fn try_from(value: SCIPayload) -> (r: Result<OccupancyStatusPayload, SciError>)
        ensures
            r == decode_occupancy_status(value@),
    {
        let bytes = value.as_slice();
        if bytes.len() != 7 {
            return Err(SciError::Tds(SciTdsError::BadPayloadLength(bytes.len())));
        }
        let occupancy_status = OccupancyStatus::try_from(bytes[0])?;
        let can_be_forced_to_clear = match bytes[1] {
            1 => true,
            2 => false,
            v => {
                return Err(SciError::Tds(SciTdsError::UnknownForceClearFlag(v)));
            },
        };
        let filling_level = u16_from_be_bytes(bytes[2], bytes[3]);
        let pom_status = POMStatus::try_from(bytes[4])?;
        let disturbance_status = DisturbanceStatus::try_from(bytes[5])?;
        let change_trigger = ChangeTrigger::try_from(bytes[6])?;
        Ok(
            OccupancyStatusPayload {
                occupancy_status,
                can_be_forced_to_clear,
                filling_level,
                pom_status,
                disturbance_status,
                change_trigger,
            },
        )
    }

    /// The payload that holds the occupancy status.
    pub fn to_payload(&self) -> (payload: SCIPayload)
        ensures
            payload@ == occupancy_status_bytes(*self),
    {
        let level = u16_to_be_bytes(self.filling_level);
        let flag: u8 = if self.can_be_forced_to_clear {
            0x01
        } else {
            0x02
        };
        let bytes = [
            self.occupancy_status.code(),
            flag,
            level[0],
            level[1],
            self.pom_status.code(),
            self.disturbance_status.code(),
            self.change_trigger.code(),
        ];
        assert(bytes@ =~= occupancy_status_bytes(*self));
        SCIPayload::from_slice(bytes.as_slice())
    }
}

/// The short form of an occupancy status: of its seven bytes only the
/// first four are read. Here the byte that says whether the section can be
/// forced to clear is `0x01` if it can and `0x00` if it cannot.
#[derive(Debug, Clone, Copy, PartialEq, Eq, Structural)]
pub struct NeuProOccupancyStatusPayload {
    pub occupancy_status: OccupancyStatus,
    pub can_be_forced_to_clear: bool,
    pub filling_level: u16,
}

/// What a payload says as a short occupancy status. It has a
/// [`SciTdsError::UnknownOccupancyStatus`] of zero if it does not have
/// seven bytes, else the error of the first field whose value is not in
/// its set.
pub open spec fn decode_neupro_occupancy_status(bytes: Seq<u8>) -> Result<
    NeuProOccupancyStatusPayload,
    SciError,
> {
    if bytes.len() != 7 {
        Err(SciError::Tds(SciTdsError::UnknownOccupancyStatus(0)))
    } else if OccupancyStatus::from_code(bytes[0]) is None {
        Err(SciError::Tds(SciTdsError::UnknownOccupancyStatus(bytes[0])))
    } else if bytes[1] != 0 && bytes[1] != 1 {
        Err(SciError::Tds(SciTdsError::UnknownForceClearFlag(bytes[1])))
    } else {
        Ok(
            NeuProOccupancyStatusPayload {
                occupancy_status: OccupancyStatus::from_code(bytes[0]).unwrap(),
                can_be_forced_to_clear: bytes[1] == 1,
                filling_level: u16_from_be(bytes[2], bytes[3]),
            },
        )
    }
}

impl NeuProOccupancyStatusPayload {
    /// Reads a short occupancy status from a payload. Succeeds exactly
    /// where [`decode_neupro_occupancy_status`] does, with what it gives.
    pub fn try_from(value: SCIPayload) -> (r: Result<NeuProOccupancyStatusPayload, SciError>)
        ensures
            r == decode_neupro_occupancy_status(value@),
    {
        let bytes = value.as_slice();
        if bytes.len() != 7 {
            return Err(SciError::Tds(SciTdsError::UnknownOccupancyStatus(0)));
        }
        let occupancy_status = OccupancyStatus::try_from(bytes[0])?;
        let can_be_forced_to_clear = match bytes[1] {
            0 => false,
            1 => true,
            v => {
                return Err(SciError::Tds(SciTdsError::UnknownForceClearFlag(v)));
            },
        };
        let filling_level = u16_from_be_bytes(bytes[2], bytes[3]);
        Ok(NeuProOccupancyStatusPayload { occupancy_status, can_be_forced_to_clear, filling_level })
    }
}

impl From<NeuProOccupancyStatusPayload> for OccupancyStatusPayload {
    /// The full occupancy status, with `NotApplicable` for what the short
    /// form does not know.
    fn from(value: NeuProOccupancyStatusPayload) -> (p: OccupancyStatusPayload) {
        OccupancyStatusPayload {
            occupancy_status: value.occupancy_status,
            can_be_forced_to_clear: value.can_be_forced_to_clear,
            filling_level: value.filling_level,
            pom_status: POMStatus::NotApplicable,
            disturbance_status: DisturbanceStatus::NotApplicable,
            change_trigger: ChangeTrigger::NotApplicable,
        }
    }
}

impl FromSpecImpl<NeuProOccupancyStatusPayload> for OccupancyStatusPayload {
    open spec fn obeys_from_spec() -> bool {
        true
    }

    open spec fn from_spec(v: NeuProOccupancyStatusPayload) -> OccupancyStatusPayload {
        OccupancyStatusPayload {
            occupancy_status: v.occupancy_status,
            can_be_forced_to_clear: v.can_be_forced_to_clear,
            filling_level: v.filling_level,
            pom_status: POMStatus::NotApplicable,
            disturbance_status: DisturbanceStatus::NotApplicable,
            change_trigger: ChangeTrigger::NotApplicable,
        }
    }
}

impl From<OccupancyStatusPayload> for NeuProOccupancyStatusPayload {
    /// The occupancy status without what the short form does not know.
    fn from(value: OccupancyStatusPayload) -> (p: NeuProOccupancyStatusPayload) {
        NeuProOccupancyStatusPayload {
            occupancy_status: value.occupancy_status,
            can_be_forced_to_clear: value.can_be_forced_to_clear,
            filling_level: value.filling_level,
        }
    }
}

impl FromSpecImpl<OccupancyStatusPayload> for NeuProOccupancyStatusPayload {
    open spec fn obeys_from_spec() -> bool {
        true
    }

    open spec fn from_spec(v: OccupancyStatusPayload) -> NeuProOccupancyStatusPayload {
        NeuProOccupancyStatusPayload {
            occupancy_status: v.occupancy_status,
            can_be_forced_to_clear: v.can_be_forced_to_clear,
            filling_level: v.filling_level,
        }
    }
}

} // verus!
