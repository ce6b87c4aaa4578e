//! SCI-P: the Standard Communication Interface for points.

use super::telegram::{SCITelegram, TelegramView};
use super::{ProtocolType, SCIMessageType, SciError, SCIP_CHANGE_LOCATION, SCIP_LOCATION_STATUS};
use vstd::prelude::*;

verus! {

/// A point payload that holds a value outside its field's set.
#[derive(Debug, Clone, Copy, PartialEq, Eq, Structural)]
pub enum SciPError {
    UnknownTargetLocation(u8),
    UnknownLocation(u8),
}

/// The target location of [`SCITelegram::change_location`].
#[derive(Debug, Clone, Copy, PartialEq, Eq, Structural)]
pub enum SCIPointTargetLocation {
    PointLocationChangeToRight,
    PointLocationChangeToLeft,
}

impl SCIPointTargetLocation {
    /// The value that stands for this variant on the wire.
    pub open spec fn spec_code(self) -> u8 {
        match self {
            SCIPointTargetLocation::PointLocationChangeToRight => 0x01,
            SCIPointTargetLocation::PointLocationChangeToLeft => 0x02,
        }
    }

    /// The variant that a value stands for, if any.
    pub open spec fn from_code(code: u8) -> Option<SCIPointTargetLocation> {
        if code == 0x01 {
            Some(SCIPointTargetLocation::PointLocationChangeToRight)
        } else if code == 0x02 {
            Some(SCIPointTargetLocation::PointLocationChangeToLeft)
        } else {
            None
        }
    }

    /// The value that stands for this variant on the wire.
    #[verifier::when_used_as_spec(spec_code)]
    pub fn code(self) -> (code: u8)
        ensures
            code == self.spec_code(),
    {
        match self {
            SCIPointTargetLocation::PointLocationChangeToRight => 0x01,
            SCIPointTargetLocation::PointLocationChangeToLeft => 0x02,
        }
    }

    /// The variant that `value` stands for. Every other value fails with
    /// [`SciPError::UnknownTargetLocation`], which carries the value.
    pub fn try_from(value: u8) -> (r: Result<SCIPointTargetLocation, SciError>)
        ensures
            r == match SCIPointTargetLocation::from_code(value) {
                Some(v) => Ok::<SCIPointTargetLocation, SciError>(v),
                None => Err(SciError::P(SciPError::UnknownTargetLocation(value))),
            },
    {
        match value {
            0x01 => Ok(SCIPointTargetLocation::PointLocationChangeToRight),
            0x02 => Ok(SCIPointTargetLocation::PointLocationChangeToLeft),
            v => Err(SciError::P(SciPError::UnknownTargetLocation(v))),
        }
    }

    /// Every variant is found again from its code.
    pub proof fn lemma_code_round_trip(self)
        ensures
            SCIPointTargetLocation::from_code(self.spec_code()) == Some(self),
    {
    }
}
/// The current location of a point. Unlike [`SCIPointTargetLocation`] it
/// knows locations that cannot be asked for.
#[derive(Debug, Clone, Copy, PartialEq, Eq, Structural)]
pub enum SCIPointLocation {
    PointLocationRight,
    PointLocationLeft,
    PointNoTargetLocation,
    PointBumped,
}

impl SCIPointLocation {
    /// The value that stands for this variant on the wire.
    pub open spec fn spec_code(self) -> u8 {
        match self {
            SCIPointLocation::PointLocationRight => 0x01,
            SCIPointLocation::PointLocationLeft => 0x02,
            SCIPointLocation::PointNoTargetLocation => 0x03,
            SCIPointLocation::PointBumped => 0x04,
        }
    }

    /// The variant that a value stands for, if any.
    pub open spec fn from_code(code: u8) -> Option<SCIPointLocation> {
        if code == 0x01 {
            Some(SCIPointLocation::PointLocationRight)
        } else if code == 0x02 {
            Some(SCIPointLocation::PointLocationLeft)
        } else if code == 0x03 {
            Some(SCIPointLocation::PointNoTargetLocation)
        } else if code == 0x04 {
            Some(SCIPointLocation::PointBumped)
        } else {
            None
        }
    }

    /// The value that stands for this variant on the wire.
    #[verifier::when_used_as_spec(spec_code)]
    pub fn code(self) -> (code: u8)
        ensures
            code == self.spec_code(),
    {
        match self {
            SCIPointLocation::PointLocationRight => 0x01,
            SCIPointLocation::PointLocationLeft => 0x02,
            SCIPointLocation::PointNoTargetLocation => 0x03,
            SCIPointLocation::PointBumped => 0x04,
        }
    }

    /// The variant that `value` stands for. Every other value fails with
    /// [`SciPError::UnknownLocation`], which carries the value.
    pub fn try_from(value: u8) -> (r: Result<SCIPointLocation, SciError>)
        ensures
            r == match SCIPointLocation::from_code(value) {
                Some(v) => Ok::<SCIPointLocation, SciError>(v),
                None => Err(SciError::P(SciPError::UnknownLocation(value))),
            },
    {
        match value {
            0x01 => Ok(SCIPointLocation::PointLocationRight),
            0x02 => Ok(SCIPointLocation::PointLocationLeft),
            0x03 => Ok(SCIPointLocation::PointNoTargetLocation),
            0x04 => Ok(SCIPointLocation::PointBumped),
            v => Err(SciError::P(SciPError::UnknownLocation(v))),
        }
    }

    /// Every variant is found again from its code.
    pub proof fn lemma_code_round_trip(self)
        ensures
            SCIPointLocation::from_code(self.spec_code()) == Some(self),
    {
    }
}
impl SCITelegram {
    /// Asks a point to move. The payload is the one byte of the target
    /// location.
    pub fn change_location(sender: &str, receiver: &str, to: SCIPointTargetLocation) -> (t:
        SCITelegram)
        ensures
            t@ == (TelegramView {
                protocol_type: ProtocolType::SCIProtocolP,
                message_type: SCIMessageType(SCIP_CHANGE_LOCATION),
                sender: sender@,
                receiver: receiver@,
                payload: seq![to.spec_code()],
            }),
    {
        let payload = [to.code()];
        assert(payload@ =~= seq![to.spec_code()]);
        SCITelegram::assemble(
            ProtocolType::SCIProtocolP,
            SCIMessageType::scip_change_location(),
            sender,
            receiver,
            payload.as_slice(),
        )
    }

    /// Reports where a point is. The payload is the one byte of the
    /// location.
    pub fn location_status(sender: &str, receiver: &str, location: SCIPointLocation) -> (t:
        SCITelegram)
        ensures
            t@ == (TelegramView {
                protocol_type: ProtocolType::SCIProtocolP,
                message_type: SCIMessageType(SCIP_LOCATION_STATUS),
                sender: sender@,
                receiver: receiver@,
                payload: seq![location.spec_code()],
            }),
    {
        let payload = [location.code()];
        assert(payload@ =~= seq![location.spec_code()]);
        SCITelegram::assemble(
            ProtocolType::SCIProtocolP,
            SCIMessageType::scip_location_status(),
            sender,
            receiver,
            payload.as_slice(),
        )
    }
}

} // verus!
