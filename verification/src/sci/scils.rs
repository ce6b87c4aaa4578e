//! SCI-LS: the Standard Communication Interface for light signals.
//!
//! A signal aspect travels as eighteen bytes: main aspect, additional
//! aspect, Zs3, Zs3v, Zs2, Zs2v, depreciation information, one byte with
//! the downstream driveway information in its high and the upstream one
//! in its low half, dark switching, and nine bytes of nationally
//! specified information.

use super::telegram::{SCIPayload, SCITelegram, TelegramView};
use super::{
    ProtocolType, SCIMessageType, SciError, SCILS_BRIGHTNESS_STATUS, SCILS_CHANGE_BRIGHTNESS,
    SCILS_SHOW_SIGNAL_ASPECT, SCILS_SIGNAL_ASPECT_STATUS,
};
use vstd::prelude::*;

verus! {

/// A light signal payload that holds a value outside its field's set.
#[derive(Debug, Clone, Copy, PartialEq, Eq, Structural)]
pub enum SciLsError {
    InvalidMainSignalAspect(u8),
    InvalidAdditionalSignalAspect(u8),
    InvalidZs2Aspect(u8),
    InvalidZs3Aspect(u8),
    InvalidDepreciationInformation(u8),
    InvalidDrivewayInformation(u8),
    InvalidDarkSwitching(u8),
    InvalidBrightness(u8),
}

/// The aspects of a main signal.
#[derive(Debug, Clone, Copy, PartialEq, Eq, Structural)]
pub enum SCILSMain {
    Hp0,
    Hp0PlusSh1,
    Hp0WithDrivingIndicator,
    Ks1,
    Ks1Flashing,
    Ks1FlashingWithAdditionalLight,
    Ks2,
    Ks2WithAdditionalLight,
    Sh1,
    IdLight,
    Hp0Hv,
    Hp1,
    Hp2,
    Vr0,
    Vr1,
    Vr2,
    Off,
}

impl Default for SCILSMain {
    fn default() -> (value: SCILSMain)
        ensures
            value == SCILSMain::Off,
    {
        SCILSMain::Off
    }
}

impl SCILSMain {
    /// The value that stands for this variant on the wire.
    pub open spec fn spec_code(self) -> u8 {
        match self {
            SCILSMain::Hp0 => 0x01,
            SCILSMain::Hp0PlusSh1 => 0x02,
            SCILSMain::Hp0WithDrivingIndicator => 0x03,
            SCILSMain::Ks1 => 0x04,
            SCILSMain::Ks1Flashing => 0x05,
            SCILSMain::Ks1FlashingWithAdditionalLight => 0x06,
            SCILSMain::Ks2 => 0x07,
            SCILSMain::Ks2WithAdditionalLight => 0x08,
            SCILSMain::Sh1 => 0x09,
            SCILSMain::IdLight => 0x0A,
            SCILSMain::Hp0Hv => 0xA0,
            SCILSMain::Hp1 => 0xA1,
            SCILSMain::Hp2 => 0xA2,
            SCILSMain::Vr0 => 0xB0,
            SCILSMain::Vr1 => 0xB1,
            SCILSMain::Vr2 => 0xB2,
            SCILSMain::Off => 0xFF,
        }
    }

    /// The variant that a value stands for, if any.
    pub open spec fn from_code(code: u8) -> Option<SCILSMain> {
        if code == 0x01 {
            Some(SCILSMain::Hp0)
        } else if code == 0x02 {
            Some(SCILSMain::Hp0PlusSh1)
        } else if code == 0x03 {
            Some(SCILSMain::Hp0WithDrivingIndicator)
        } else if code == 0x04 {
            Some(SCILSMain::Ks1)
        } else if code == 0x05 {
            Some(SCILSMain::Ks1Flashing)
        } else if code == 0x06 {
            Some(SCILSMain::Ks1FlashingWithAdditionalLight)
        } else if code == 0x07 {
            Some(SCILSMain::Ks2)
        } else if code == 0x08 {
            Some(SCILSMain::Ks2WithAdditionalLight)
        } else if code == 0x09 {
            Some(SCILSMain::Sh1)
        } else if code == 0x0A {
            Some(SCILSMain::IdLight)
        } else if code == 0xA0 {
            Some(SCILSMain::Hp0Hv)
        } else if code == 0xA1 {
            Some(SCILSMain::Hp1)
        } else if code == 0xA2 {
            Some(SCILSMain::Hp2)
        } else if code == 0xB0 {
            Some(SCILSMain::Vr0)
        } else if code == 0xB1 {
            Some(SCILSMain::Vr1)
        } else if code == 0xB2 {
            Some(SCILSMain::Vr2)
        } else if code == 0xFF {
            Some(SCILSMain::Off)
        } else {
            None
        }
    }

    /// The value that stands for this variant on the wire.
    #[verifier::when_used_as_spec(spec_code)]
    pub fn code(self) -> (code: u8)
        ensures
            code == self.spec_code(),
    {
        match self {
            SCILSMain::Hp0 => 0x01,
            SCILSMain::Hp0PlusSh1 => 0x02,
            SCILSMain::Hp0WithDrivingIndicator => 0x03,
            SCILSMain::Ks1 => 0x04,
            SCILSMain::Ks1Flashing => 0x05,
            SCILSMain::Ks1FlashingWithAdditionalLight => 0x06,
            SCILSMain::Ks2 => 0x07,
            SCILSMain::Ks2WithAdditionalLight => 0x08,
            SCILSMain::Sh1 => 0x09,
            SCILSMain::IdLight => 0x0A,
            SCILSMain::Hp0Hv => 0xA0,
            SCILSMain::Hp1 => 0xA1,
            SCILSMain::Hp2 => 0xA2,
            SCILSMain::Vr0 => 0xB0,
            SCILSMain::Vr1 => 0xB1,
            SCILSMain::Vr2 => 0xB2,
            SCILSMain::Off => 0xFF,
        }
    }

    /// The variant that `value` stands for. Every other value fails with
    /// [`SciLsError::InvalidMainSignalAspect`], which carries the value.
    pub fn try_from(value: u8) -> (r: Result<SCILSMain, SciError>)
        ensures
            r == match SCILSMain::from_code(value) {
                Some(v) => Ok::<SCILSMain, SciError>(v),
                None => Err(SciError::Ls(SciLsError::InvalidMainSignalAspect(value))),
            },
    {
        match value {
            0x01 => Ok(SCILSMain::Hp0),
            0x02 => Ok(SCILSMain::Hp0PlusSh1),
            0x03 => Ok(SCILSMain::Hp0WithDrivingIndicator),
            0x04 => Ok(SCILSMain::Ks1),
            0x05 => Ok(SCILSMain::Ks1Flashing),
            0x06 => Ok(SCILSMain::Ks1FlashingWithAdditionalLight),
            0x07 => Ok(SCILSMain::Ks2),
            0x08 => Ok(SCILSMain::Ks2WithAdditionalLight),
            0x09 => Ok(SCILSMain::Sh1),
            0x0A => Ok(SCILSMain::IdLight),
            0xA0 => Ok(SCILSMain::Hp0Hv),
            0xA1 => Ok(SCILSMain::Hp1),
            0xA2 => Ok(SCILSMain::Hp2),
            0xB0 => Ok(SCILSMain::Vr0),
            0xB1 => Ok(SCILSMain::Vr1),
            0xB2 => Ok(SCILSMain::Vr2),
            0xFF => Ok(SCILSMain::Off),
            v => Err(SciError::Ls(SciLsError::InvalidMainSignalAspect(v))),
        }
    }

    /// Every variant is found again from its code.
    pub proof fn lemma_code_round_trip(self)
        ensures
            SCILSMain::from_code(self.spec_code()) == Some(self),
    {
    }
}
/// The kinds of an additional signal. Zs2, Zs2v, Zs3 and Zs3v show
/// information of their own and have their own types.
#[derive(Debug, Clone, Copy, PartialEq, Eq, Structural)]
pub enum SCILSAdditional {
    Zs1,
    Zs7,
    Zs8,
    Zs6,
    Zs13,
    Off,
}

impl Default for SCILSAdditional {
    fn default() -> (value: SCILSAdditional)
        ensures
            value == SCILSAdditional::Off,
    {
        SCILSAdditional::Off
    }
}

impl SCILSAdditional {
    /// The value that stands for this variant on the wire.
    pub open spec fn spec_code(self) -> u8 {
        match self {
            SCILSAdditional::Zs1 => 0x01,
            SCILSAdditional::Zs7 => 0x02,
            SCILSAdditional::Zs8 => 0x03,
            SCILSAdditional::Zs6 => 0x04,
            SCILSAdditional::Zs13 => 0x05,
            SCILSAdditional::Off => 0xFF,
        }
    }

    /// The variant that a value stands for, if any.
    pub open spec fn from_code(code: u8) -> Option<SCILSAdditional> {
        if code == 0x01 {
            Some(SCILSAdditional::Zs1)
        } else if code == 0x02 {
            Some(SCILSAdditional::Zs7)
        } else if code == 0x03 {
            Some(SCILSAdditional::Zs8)
        } else if code == 0x04 {
            Some(SCILSAdditional::Zs6)
        } else if code == 0x05 {
            Some(SCILSAdditional::Zs13)
        } else if code == 0xFF {
            Some(SCILSAdditional::Off)
        } else {
            None
        }
    }

    /// The value that stands for this variant on the wire.
    #[verifier::when_used_as_spec(spec_code)]
    pub fn code(self) -> (code: u8)
        ensures
            code == self.spec_code(),
    {
        match self {
            SCILSAdditional::Zs1 => 0x01,
            SCILSAdditional::Zs7 => 0x02,
            SCILSAdditional::Zs8 => 0x03,
            SCILSAdditional::Zs6 => 0x04,
            SCILSAdditional::Zs13 => 0x05,
            SCILSAdditional::Off => 0xFF,
        }
    }

    /// The variant that `value` stands for. Every other value fails with
    /// [`SciLsError::InvalidAdditionalSignalAspect`], which carries the value.
    pub fn try_from(value: u8) -> (r: Result<SCILSAdditional, SciError>)
        ensures
            r == match SCILSAdditional::from_code(value) {
                Some(v) => Ok::<SCILSAdditional, SciError>(v),
                None => Err(SciError::Ls(SciLsError::InvalidAdditionalSignalAspect(value))),
            },
    {
        match value {
            0x01 => Ok(SCILSAdditional::Zs1),
            0x02 => Ok(SCILSAdditional::Zs7),
            0x03 => Ok(SCILSAdditional::Zs8),
            0x04 => Ok(SCILSAdditional::Zs6),
            0x05 => Ok(SCILSAdditional::Zs13),
            0xFF => Ok(SCILSAdditional::Off),
            v => Err(SciError::Ls(SciLsError::InvalidAdditionalSignalAspect(v))),
        }
    }

    /// Every variant is found again from its code.
    pub proof fn lemma_code_round_trip(self)
        ensures
            SCILSAdditional::from_code(self.spec_code()) == Some(self),
    {
    }
}
/// The aspects of a Zs3 or Zs3v signal.
#[derive(Debug, Clone, Copy, PartialEq, Eq, Structural)]
pub enum SCILSZs3 {
    Index1,
    Index2,
    Index3,
    Index4,
    Index5,
    Index6,
    Index7,
    Index8,
    Index9,
    Index10,
    Index11,
    Index12,
    Index13,
    Index14,
    Index15,
    Off,
}

impl Default for SCILSZs3 {
    fn default() -> (value: SCILSZs3)
        ensures
            value == SCILSZs3::Off,
    {
        SCILSZs3::Off
    }
}

impl SCILSZs3 {
    /// The value that stands for this variant on the wire.
    pub open spec fn spec_code(self) -> u8 {
        match self {
            SCILSZs3::Index1 => 0x01,
            SCILSZs3::Index2 => 0x02,
            SCILSZs3::Index3 => 0x03,
            SCILSZs3::Index4 => 0x04,
            SCILSZs3::Index5 => 0x05,
            SCILSZs3::Index6 => 0x06,
            SCILSZs3::Index7 => 0x07,
            SCILSZs3::Index8 => 0x08,
            SCILSZs3::Index9 => 0x09,
            SCILSZs3::Index10 => 0x0A,
            SCILSZs3::Index11 => 0x0B,
            SCILSZs3::Index12 => 0x0C,
            SCILSZs3::Index13 => 0x0D,
            SCILSZs3::Index14 => 0x0E,
            SCILSZs3::Index15 => 0x0F,
            SCILSZs3::Off => 0xFF,
        }
    }

    /// The variant that a value stands for, if any.
    pub open spec fn from_code(code: u8) -> Option<SCILSZs3> {
        if code == 0x01 {
            Some(SCILSZs3::Index1)
        } else if code == 0x02 {
            Some(SCILSZs3::Index2)
        } else if code == 0x03 {
            Some(SCILSZs3::Index3)
        } else if code == 0x04 {
            Some(SCILSZs3::Index4)
        } else if code == 0x05 {
            Some(SCILSZs3::Index5)
        } else if code == 0x06 {
            Some(SCILSZs3::Index6)
        } else if code == 0x07 {
            Some(SCILSZs3::Index7)
        } else if code == 0x08 {
            Some(SCILSZs3::Index8)
        } else if code == 0x09 {
            Some(SCILSZs3::Index9)
        } else if code == 0x0A {
            Some(SCILSZs3::Index10)
        } else if code == 0x0B {
            Some(SCILSZs3::Index11)
        } else if code == 0x0C {
            Some(SCILSZs3::Index12)
        } else if code == 0x0D {
            Some(SCILSZs3::Index13)
        } else if code == 0x0E {
            Some(SCILSZs3::Index14)
        } else if code == 0x0F {
            Some(SCILSZs3::Index15)
        } else if code == 0xFF {
            Some(SCILSZs3::Off)
        } else {
            None
        }
    }

    /// The value that stands for this variant on the wire.
    #[verifier::when_used_as_spec(spec_code)]
    pub fn code(self) -> (code: u8)
        ensures
            code == self.spec_code(),
    {
        match self {
            SCILSZs3::Index1 => 0x01,
            SCILSZs3::Index2 => 0x02,
            SCILSZs3::Index3 => 0x03,
            SCILSZs3::Index4 => 0x04,
            SCILSZs3::Index5 => 0x05,
            SCILSZs3::Index6 => 0x06,
            SCILSZs3::Index7 => 0x07,
            SCILSZs3::Index8 => 0x08,
            SCILSZs3::Index9 => 0x09,
            SCILSZs3::Index10 => 0x0A,
            SCILSZs3::Index11 => 0x0B,
            SCILSZs3::Index12 => 0x0C,
            SCILSZs3::Index13 => 0x0D,
            SCILSZs3::Index14 => 0x0E,
            SCILSZs3::Index15 => 0x0F,
            SCILSZs3::Off => 0xFF,
        }
    }

    /// The variant that `value` stands for. Every other value fails with
    /// [`SciLsError::InvalidZs3Aspect`], which carries the value.
    pub fn try_from(value: u8) -> (r: Result<SCILSZs3, SciError>)
        ensures
            r == match SCILSZs3::from_code(value) {
                Some(v) => Ok::<SCILSZs3, SciError>(v),
                None => Err(SciError::Ls(SciLsError::InvalidZs3Aspect(value))),
            },
    {
        match value {
            0x01 => Ok(SCILSZs3::Index1),
            0x02 => Ok(SCILSZs3::Index2),
            0x03 => Ok(SCILSZs3::Index3),
            0x04 => Ok(SCILSZs3::Index4),
            0x05 => Ok(SCILSZs3::Index5),
            0x06 => Ok(SCILSZs3::Index6),
            0x07 => Ok(SCILSZs3::Index7),
            0x08 => Ok(SCILSZs3::Index8),
            0x09 => Ok(SCILSZs3::Index9),
            0x0A => Ok(SCILSZs3::Index10),
            0x0B => Ok(SCILSZs3::Index11),
            0x0C => Ok(SCILSZs3::Index12),
            0x0D => Ok(SCILSZs3::Index13),
            0x0E => Ok(SCILSZs3::Index14),
            0x0F => Ok(SCILSZs3::Index15),
            0xFF => Ok(SCILSZs3::Off),
            v => Err(SciError::Ls(SciLsError::InvalidZs3Aspect(v))),
        }
    }

    /// Every variant is found again from its code.
    pub proof fn lemma_code_round_trip(self)
        ensures
            SCILSZs3::from_code(self.spec_code()) == Some(self),
    {
    }
}
/// The aspects of a Zs2 or Zs2v signal.
#[derive(Debug, Clone, Copy, PartialEq, Eq, Structural)]
pub enum SCILSZs2 {
    LetterA,
    LetterB,
    LetterC,
    LetterD,
    LetterE,
    LetterF,
    LetterG,
    LetterH,
    LetterI,
    LetterJ,
    LetterK,
    LetterL,
    LetterM,
    LetterN,
    LetterO,
    LetterP,
    LetterQ,
    LetterR,
    LetterS,
    LetterT,
    LetterU,
    LetterV,
    LetterW,
    LetterX,
    LetterY,
    LetterZ,
    Off,
}

impl Default for SCILSZs2 {
    fn default() -> (value: SCILSZs2)
        ensures
            value == SCILSZs2::Off,
    {
        SCILSZs2::Off
    }
}

impl SCILSZs2 {
    /// The value that stands for this variant on the wire.
    pub open spec fn spec_code(self) -> u8 {
        match self {
            SCILSZs2::LetterA => 0x01,
            SCILSZs2::LetterB => 0x02,
            SCILSZs2::LetterC => 0x03,
            SCILSZs2::LetterD => 0x04,
            SCILSZs2::LetterE => 0x05,
            SCILSZs2::LetterF => 0x06,
            SCILSZs2::LetterG => 0x07,
            SCILSZs2::LetterH => 0x08,
            SCILSZs2::LetterI => 0x09,
            SCILSZs2::LetterJ => 0x0A,
            SCILSZs2::LetterK => 0x0B,
            SCILSZs2::LetterL => 0x0C,
            SCILSZs2::LetterM => 0x0D,
            SCILSZs2::LetterN => 0x0E,
            SCILSZs2::LetterO => 0x0F,
            SCILSZs2::LetterP => 0x10,
            SCILSZs2::LetterQ => 0x11,
            SCILSZs2::LetterR => 0x12,
            SCILSZs2::LetterS => 0x13,
            SCILSZs2::LetterT => 0x14,
            SCILSZs2::LetterU => 0x15,
            SCILSZs2::LetterV => 0x16,
            SCILSZs2::LetterW => 0x17,
            SCILSZs2::LetterX => 0x18,
            SCILSZs2::LetterY => 0x19,
            SCILSZs2::LetterZ => 0x1A,
            SCILSZs2::Off => 0xFF,
        }
    }

    /// The variant that a value stands for, if any.
    pub open spec fn from_code(code: u8) -> Option<SCILSZs2> {
        if code == 0x01 {
            Some(SCILSZs2::LetterA)
        } else if code == 0x02 {
            Some(SCILSZs2::LetterB)
        } else if code == 0x03 {
            Some(SCILSZs2::LetterC)
        } else if code == 0x04 {
            Some(SCILSZs2::LetterD)
        } else if code == 0x05 {
            Some(SCILSZs2::LetterE)
        } else if code == 0x06 {
            Some(SCILSZs2::LetterF)
        } else if code == 0x07 {
            Some(SCILSZs2::LetterG)
        } else if code == 0x08 {
            Some(SCILSZs2::LetterH)
        } else if code == 0x09 {
            Some(SCILSZs2::LetterI)
        } else if code == 0x0A {
            Some(SCILSZs2::LetterJ)
        } else if code == 0x0B {
            Some(SCILSZs2::LetterK)
        } else if code == 0x0C {
            Some(SCILSZs2::LetterL)
        } else if code == 0x0D {
            Some(SCILSZs2::LetterM)
        } else if code == 0x0E {
            Some(SCILSZs2::LetterN)
        } else if code == 0x0F {
            Some(SCILSZs2::LetterO)
        } else if code == 0x10 {
            Some(SCILSZs2::LetterP)
        } else if code == 0x11 {
            Some(SCILSZs2::LetterQ)
        } else if code == 0x12 {
            Some(SCILSZs2::LetterR)
        } else if code == 0x13 {
            Some(SCILSZs2::LetterS)
        } else if code == 0x14 {
            Some(SCILSZs2::LetterT)
        } else if code == 0x15 {
            Some(SCILSZs2::LetterU)
        } else if code == 0x16 {
            Some(SCILSZs2::LetterV)
        } else if code == 0x17 {
            Some(SCILSZs2::LetterW)
        } else if code == 0x18 {
            Some(SCILSZs2::LetterX)
        } else if code == 0x19 {
            Some(SCILSZs2::LetterY)
        } else if code == 0x1A {
            Some(SCILSZs2::LetterZ)
        } else if code == 0xFF {
            Some(SCILSZs2::Off)
        } else {
            None
        }
    }

    /// The value that stands for this variant on the wire.
    #[verifier::when_used_as_spec(spec_code)]
    pub fn code(self) -> (code: u8)
        ensures
            code == self.spec_code(),
    {
        match self {
            SCILSZs2::LetterA => 0x01,
            SCILSZs2::LetterB => 0x02,
            SCILSZs2::LetterC => 0x03,
            SCILSZs2::LetterD => 0x04,
            SCILSZs2::LetterE => 0x05,
            SCILSZs2::LetterF => 0x06,
            SCILSZs2::LetterG => 0x07,
            SCILSZs2::LetterH => 0x08,
            SCILSZs2::LetterI => 0x09,
            SCILSZs2::LetterJ => 0x0A,
            SCILSZs2::LetterK => 0x0B,
            SCILSZs2::LetterL => 0x0C,
            SCILSZs2::LetterM => 0x0D,
            SCILSZs2::LetterN => 0x0E,
            SCILSZs2::LetterO => 0x0F,
            SCILSZs2::LetterP => 0x10,
            SCILSZs2::LetterQ => 0x11,
            SCILSZs2::LetterR => 0x12,
            SCILSZs2::LetterS => 0x13,
            SCILSZs2::LetterT => 0x14,
            SCILSZs2::LetterU => 0x15,
            SCILSZs2::LetterV => 0x16,
            SCILSZs2::LetterW => 0x17,
            SCILSZs2::LetterX => 0x18,
            SCILSZs2::LetterY => 0x19,
            SCILSZs2::LetterZ => 0x1A,
            SCILSZs2::Off => 0xFF,
        }
    }

    /// The variant that `value` stands for. Every other value fails with
    /// [`SciLsError::InvalidZs2Aspect`], which carries the value.
    pub fn try_from(value: u8) -> (r: Result<SCILSZs2, SciError>)
        ensures
            r == match SCILSZs2::from_code(value) {
                Some(v) => Ok::<SCILSZs2, SciError>(v),
                None => Err(SciError::Ls(SciLsError::InvalidZs2Aspect(value))),
            },
    {
        match value {
            0x01 => Ok(SCILSZs2::LetterA),
            0x02 => Ok(SCILSZs2::LetterB),
            0x03 => Ok(SCILSZs2::LetterC),
            0x04 => Ok(SCILSZs2::LetterD),
            0x05 => Ok(SCILSZs2::LetterE),
            0x06 => Ok(SCILSZs2::LetterF),
            0x07 => Ok(SCILSZs2::LetterG),
            0x08 => Ok(SCILSZs2::LetterH),
            0x09 => Ok(SCILSZs2::LetterI),
            0x0A => Ok(SCILSZs2::LetterJ),
            0x0B => Ok(SCILSZs2::LetterK),
            0x0C => Ok(SCILSZs2::LetterL),
            0x0D => Ok(SCILSZs2::LetterM),
            0x0E => Ok(SCILSZs2::LetterN),
            0x0F => Ok(SCILSZs2::LetterO),
            0x10 => Ok(SCILSZs2::LetterP),
            0x11 => Ok(SCILSZs2::LetterQ),
            0x12 => Ok(SCILSZs2::LetterR),
            0x13 => Ok(SCILSZs2::LetterS),
            0x14 => Ok(SCILSZs2::LetterT),
            0x15 => Ok(SCILSZs2::LetterU),
            0x16 => Ok(SCILSZs2::LetterV),
            0x17 => Ok(SCILSZs2::LetterW),
            0x18 => Ok(SCILSZs2::LetterX),
            0x19 => Ok(SCILSZs2::LetterY),
            0x1A => Ok(SCILSZs2::LetterZ),
            0xFF => Ok(SCILSZs2::Off),
            v => Err(SciError::Ls(SciLsError::InvalidZs2Aspect(v))),
        }
    }

    /// Every variant is found again from its code.
    pub proof fn lemma_code_round_trip(self)
        ensures
            SCILSZs2::from_code(self.spec_code()) == Some(self),
    {
    }
}
/// The depreciation information of a signal aspect.
#[derive(Debug, Clone, Copy, PartialEq, Eq, Structural)]
pub enum SCILSDepreciationInformation {
    Type1,
    Type2,
    Type3,
    NoInformation,
}

impl Default for SCILSDepreciationInformation {
    fn default() -> (value: SCILSDepreciationInformation)
        ensures
            value == SCILSDepreciationInformation::NoInformation,
    {
        SCILSDepreciationInformation::NoInformation
    }
}

impl SCILSDepreciationInformation {
    /// The value that stands for this variant on the wire.
    pub open spec fn spec_code(self) -> u8 {
        match self {
            SCILSDepreciationInformation::Type1 => 0x01,
            SCILSDepreciationInformation::Type2 => 0x02,
            SCILSDepreciationInformation::Type3 => 0x03,
            SCILSDepreciationInformation::NoInformation => 0xFF,
        }
    }

    /// The variant that a value stands for, if any.
    pub open spec fn from_code(code: u8) -> Option<SCILSDepreciationInformation> {
        if code == 0x01 {
            Some(SCILSDepreciationInformation::Type1)
        } else if code == 0x02 {
            Some(SCILSDepreciationInformation::Type2)
        } else if code == 0x03 {
            Some(SCILSDepreciationInformation::Type3)
        } else if code == 0xFF {
            Some(SCILSDepreciationInformation::NoInformation)
        } else {
            None
        }
    }

    /// The value that stands for this variant on the wire.
    #[verifier::when_used_as_spec(spec_code)]
    pub fn code(self) -> (code: u8)
        ensures
            code == self.spec_code(),
    {
        match self {
            SCILSDepreciationInformation::Type1 => 0x01,
            SCILSDepreciationInformation::Type2 => 0x02,
            SCILSDepreciationInformation::Type3 => 0x03,
            SCILSDepreciationInformation::NoInformation => 0xFF,
        }
    }

    /// The variant that `value` stands for. Every other value fails with
    /// [`SciLsError::InvalidDepreciationInformation`], which carries the value.
    pub fn try_from(value: u8) -> (r: Result<SCILSDepreciationInformation, SciError>)
        ensures
            r == match SCILSDepreciationInformation::from_code(value) {
                Some(v) => Ok::<SCILSDepreciationInformation, SciError>(v),
                None => Err(SciError::Ls(SciLsError::InvalidDepreciationInformation(value))),
            },
    {
        match value {
            0x01 => Ok(SCILSDepreciationInformation::Type1),
            0x02 => Ok(SCILSDepreciationInformation::Type2),
            0x03 => Ok(SCILSDepreciationInformation::Type3),
            0xFF => Ok(SCILSDepreciationInformation::NoInformation),
            v => Err(SciError::Ls(SciLsError::InvalidDepreciationInformation(v))),
        }
    }

    /// Every variant is found again from its code.
    pub proof fn lemma_code_round_trip(self)
        ensures
            SCILSDepreciationInformation::from_code(self.spec_code()) == Some(self),
    {
    }
}
/// The driveway information of a signal aspect. It takes half a byte on
/// the wire, where `0xF` stands for no information; read on its own, a
/// full `0xFF` stands for no information as well.
#[derive(Debug, Clone, Copy, PartialEq, Eq, Structural)]
pub enum SCILSDrivewayInformation {
    Way1,
    Way2,
    Way3,
    Way4,
    NoInformation,
}

impl Default for SCILSDrivewayInformation {
    fn default() -> (value: SCILSDrivewayInformation)
        ensures
            value == SCILSDrivewayInformation::NoInformation,
    {
        SCILSDrivewayInformation::NoInformation
    }
}

impl SCILSDrivewayInformation {
    /// The value that stands for this variant on the wire.
    pub open spec fn spec_code(self) -> u8 {
        match self {
            SCILSDrivewayInformation::Way1 => 0x01,
            SCILSDrivewayInformation::Way2 => 0x02,
            SCILSDrivewayInformation::Way3 => 0x03,
            SCILSDrivewayInformation::Way4 => 0x04,
            SCILSDrivewayInformation::NoInformation => 0x0F,
        }
    }

    /// The variant that a value stands for, if any.
    pub open spec fn from_code(code: u8) -> Option<SCILSDrivewayInformation> {
        if code == 0x01 {
            Some(SCILSDrivewayInformation::Way1)
        } else if code == 0x02 {
            Some(SCILSDrivewayInformation::Way2)
        } else if code == 0x03 {
            Some(SCILSDrivewayInformation::Way3)
        } else if code == 0x04 {
            Some(SCILSDrivewayInformation::Way4)
        } else if code == 0x0F {
            Some(SCILSDrivewayInformation::NoInformation)
        } else if code == 0xFF {
            Some(SCILSDrivewayInformation::NoInformation)
        } else {
            None
        }
    }

    /// The value that stands for this variant on the wire.
    #[verifier::when_used_as_spec(spec_code)]
    pub fn code(self) -> (code: u8)
        ensures
            code == self.spec_code(),
    {
        match self {
            SCILSDrivewayInformation::Way1 => 0x01,
            SCILSDrivewayInformation::Way2 => 0x02,
            SCILSDrivewayInformation::Way3 => 0x03,
            SCILSDrivewayInformation::Way4 => 0x04,
            SCILSDrivewayInformation::NoInformation => 0x0F,
        }
    }

    /// The variant that `value` stands for. Every other value fails with
    /// [`SciLsError::InvalidDrivewayInformation`], which carries the value.
    pub fn try_from(value: u8) -> (r: Result<SCILSDrivewayInformation, SciError>)
        ensures
            r == match SCILSDrivewayInformation::from_code(value) {
                Some(v) => Ok::<SCILSDrivewayInformation, SciError>(v),
                None => Err(SciError::Ls(SciLsError::InvalidDrivewayInformation(value))),
            },
    {
        match value {
            0x01 => Ok(SCILSDrivewayInformation::Way1),
            0x02 => Ok(SCILSDrivewayInformation::Way2),
            0x03 => Ok(SCILSDrivewayInformation::Way3),
            0x04 => Ok(SCILSDrivewayInformation::Way4),
            0x0F => Ok(SCILSDrivewayInformation::NoInformation),
            0xFF => Ok(SCILSDrivewayInformation::NoInformation),
            v => Err(SciError::Ls(SciLsError::InvalidDrivewayInformation(v))),
        }
    }

    /// Every variant is found again from its code.
    pub proof fn lemma_code_round_trip(self)
        ensures
            SCILSDrivewayInformation::from_code(self.spec_code()) == Some(self),
    {
    }
}
/// Whether a signal shows its aspect or is switched dark.
#[derive(Debug, Clone, Copy, PartialEq, Eq, Structural)]
pub enum SCILSDarkSwitching {
    Show,
    Dark,
}

impl Default for SCILSDarkSwitching {
    fn default() -> (value: SCILSDarkSwitching)
        ensures
            value == SCILSDarkSwitching::Show,
    {
        SCILSDarkSwitching::Show
    }
}

impl SCILSDarkSwitching {
    /// The value that stands for this variant on the wire.
    pub open spec fn spec_code(self) -> u8 {
        match self {
            SCILSDarkSwitching::Show => 0x01,
            SCILSDarkSwitching::Dark => 0xFF,
        }
    }

    /// The variant that a value stands for, if any.
    pub open spec fn from_code(code: u8) -> Option<SCILSDarkSwitching> {
        if code == 0x01 {
            Some(SCILSDarkSwitching::Show)
        } else if code == 0xFF {
            Some(SCILSDarkSwitching::Dark)
        } else {
            None
        }
    }

    /// The value that stands for this variant on the wire.
    #[verifier::when_used_as_spec(spec_code)]
    pub fn code(self) -> (code: u8)
        ensures
            code == self.spec_code(),
    {
        match self {
            SCILSDarkSwitching::Show => 0x01,
            SCILSDarkSwitching::Dark => 0xFF,
        }
    }

    /// The variant that `value` stands for. Every other value fails with
    /// [`SciLsError::InvalidDarkSwitching`], which carries the value.
    pub fn try_from(value: u8) -> (r: Result<SCILSDarkSwitching, SciError>)
        ensures
            r == match SCILSDarkSwitching::from_code(value) {
                Some(v) => Ok::<SCILSDarkSwitching, SciError>(v),
                None => Err(SciError::Ls(SciLsError::InvalidDarkSwitching(value))),
            },
    {
        match value {
            0x01 => Ok(SCILSDarkSwitching::Show),
            0xFF => Ok(SCILSDarkSwitching::Dark),
            v => Err(SciError::Ls(SciLsError::InvalidDarkSwitching(v))),
        }
    }

    /// Every variant is found again from its code.
    pub proof fn lemma_code_round_trip(self)
        ensures
            SCILSDarkSwitching::from_code(self.spec_code()) == Some(self),
    {
    }
}
/// The brightness of a signal. `Undefined` occurs in the brightness status
/// only.
#[derive(Debug, Clone, Copy, PartialEq, Eq, Structural)]
pub enum SCILSBrightness {
    Day,
    Night,
    Undefined,
}

impl SCILSBrightness {
    /// The value that stands for this variant on the wire.
    pub open spec fn spec_code(self) -> u8 {
        match self {
            SCILSBrightness::Day => 0x01,
            SCILSBrightness::Night => 0x02,
            SCILSBrightness::Undefined => 0xFF,
        }
    }

    /// The variant that a value stands for, if any.
    pub open spec fn from_code(code: u8) -> Option<SCILSBrightness> {
        if code == 0x01 {
            Some(SCILSBrightness::Day)
        } else if code == 0x02 {
            Some(SCILSBrightness::Night)
        } else if code == 0xFF {
            Some(SCILSBrightness::Undefined)
        } else {
            None
        }
    }

    /// The value that stands for this variant on the wire.
    #[verifier::when_used_as_spec(spec_code)]
    pub fn code(self) -> (code: u8)
        ensures
            code == self.spec_code(),
    {
        match self {
            SCILSBrightness::Day => 0x01,
            SCILSBrightness::Night => 0x02,
            SCILSBrightness::Undefined => 0xFF,
        }
    }

    /// The variant that `value` stands for. Every other value fails with
    /// [`SciLsError::InvalidBrightness`], which carries the value.
    pub fn try_from(value: u8) -> (r: Result<SCILSBrightness, SciError>)
        ensures
            r == match SCILSBrightness::from_code(value) {
                Some(v) => Ok::<SCILSBrightness, SciError>(v),
                None => Err(SciError::Ls(SciLsError::InvalidBrightness(value))),
            },
    {
        match value {
            0x01 => Ok(SCILSBrightness::Day),
            0x02 => Ok(SCILSBrightness::Night),
            0xFF => Ok(SCILSBrightness::Undefined),
            v => Err(SciError::Ls(SciLsError::InvalidBrightness(v))),
        }
    }

    /// Every variant is found again from its code.
    pub proof fn lemma_code_round_trip(self)
        ensures
            SCILSBrightness::from_code(self.spec_code()) == Some(self),
    {
    }
}
/// A complete signal aspect.
#[derive(Debug, Clone, Copy)]
pub struct SCILSSignalAspect {
    main: SCILSMain,
    additional: SCILSAdditional,
    zs3: SCILSZs3,
    zs3v: SCILSZs3,
    zs2: SCILSZs2,
    zs2v: SCILSZs2,
    depreciation_information: SCILSDepreciationInformation,
    upstream_driveway_information: SCILSDrivewayInformation,
    downstream_driveway_information: SCILSDrivewayInformation,
    dark_switching: SCILSDarkSwitching,
    nationally_specified_information: [u8; 9],
}

/// What a signal aspect says.
pub struct SignalAspectView {
    pub main: SCILSMain,
    pub additional: SCILSAdditional,
    pub zs3: SCILSZs3,
    pub zs3v: SCILSZs3,
    pub zs2: SCILSZs2,
    pub zs2v: SCILSZs2,
    pub depreciation_information: SCILSDepreciationInformation,
    pub upstream_driveway_information: SCILSDrivewayInformation,
    pub downstream_driveway_information: SCILSDrivewayInformation,
    pub dark_switching: SCILSDarkSwitching,
    pub nationally_specified_information: Seq<u8>,
}

impl View for SCILSSignalAspect {
    type V = SignalAspectView;

    closed spec fn view(&self) -> SignalAspectView {
        SignalAspectView {
            main: self.main,
            additional: self.additional,
            zs3: self.zs3,
            zs3v: self.zs3v,
            zs2: self.zs2,
            zs2v: self.zs2v,
            depreciation_information: self.depreciation_information,
            upstream_driveway_information: self.upstream_driveway_information,
            downstream_driveway_information: self.downstream_driveway_information,
            dark_switching: self.dark_switching,
            nationally_specified_information: self.nationally_specified_information@,
        }
    }
}

/// The byte that holds both driveway informations: downstream in the high
/// half, upstream in the low half.
pub open spec fn driveway_byte(
    downstream: SCILSDrivewayInformation,
    upstream: SCILSDrivewayInformation,
) -> u8 {
    (downstream.spec_code() * 16 + upstream.spec_code()) as u8
}

/// The eighteen bytes of a signal aspect.
pub open spec fn signal_aspect_bytes(a: SignalAspectView) -> Seq<u8> {
    seq![
        a.main.spec_code(),
        a.additional.spec_code(),
        a.zs3.spec_code(),
        a.zs3v.spec_code(),
        a.zs2.spec_code(),
        a.zs2v.spec_code(),
        a.depreciation_information.spec_code(),
        driveway_byte(a.downstream_driveway_information, a.upstream_driveway_information),
        a.dark_switching.spec_code(),
    ] + a.nationally_specified_information
}

/// The error that stands in the way of reading a signal aspect, if any:
/// [`SciError::Malformed`] for fewer than eighteen bytes, else the error
/// of the first field, in the order of the bytes, whose value is not in
/// its set. The driveway byte is read high half first.
pub open spec fn signal_aspect_error(bytes: Seq<u8>) -> Option<SciError> {
    if bytes.len() < 18 {
        Some(SciError::Malformed)
    } else if SCILSMain::from_code(bytes[0]) is None {
        Some(SciError::Ls(SciLsError::InvalidMainSignalAspect(bytes[0])))
    } else if SCILSAdditional::from_code(bytes[1]) is None {
        Some(SciError::Ls(SciLsError::InvalidAdditionalSignalAspect(bytes[1])))
    } else if SCILSZs3::from_code(bytes[2]) is None {
        Some(SciError::Ls(SciLsError::InvalidZs3Aspect(bytes[2])))
    } else if SCILSZs3::from_code(bytes[3]) is None {
        Some(SciError::Ls(SciLsError::InvalidZs3Aspect(bytes[3])))
    } else if SCILSZs2::from_code(bytes[4]) is None {
        Some(SciError::Ls(SciLsError::InvalidZs2Aspect(bytes[4])))
    } else if SCILSZs2::from_code(bytes[5]) is None {
        Some(SciError::Ls(SciLsError::InvalidZs2Aspect(bytes[5])))
    } else if SCILSDepreciationInformation::from_code(bytes[6]) is None {
        Some(SciError::Ls(SciLsError::InvalidDepreciationInformation(bytes[6])))
    } else if SCILSDrivewayInformation::from_code(bytes[7] / 16) is None {
        Some(SciError::Ls(SciLsError::InvalidDrivewayInformation(bytes[7] / 16)))
    } else if SCILSDrivewayInformation::from_code(bytes[7] % 16) is None {
        Some(SciError::Ls(SciLsError::InvalidDrivewayInformation(bytes[7] % 16)))
    } else if SCILSDarkSwitching::from_code(bytes[8]) is None {
        Some(SciError::Ls(SciLsError::InvalidDarkSwitching(bytes[8])))
    } else {
        None
    }
}

/// The signal aspect that a byte sequence holds. Meaningful where
/// [`signal_aspect_error`] finds no fault.
pub open spec fn signal_aspect_of(bytes: Seq<u8>) -> SignalAspectView {
    SignalAspectView {
        main: SCILSMain::from_code(bytes[0]).unwrap(),
        additional: SCILSAdditional::from_code(bytes[1]).unwrap(),
        zs3: SCILSZs3::from_code(bytes[2]).unwrap(),
        zs3v: SCILSZs3::from_code(bytes[3]).unwrap(),
        zs2: SCILSZs2::from_code(bytes[4]).unwrap(),
        zs2v: SCILSZs2::from_code(bytes[5]).unwrap(),
        depreciation_information: SCILSDepreciationInformation::from_code(bytes[6]).unwrap(),
        upstream_driveway_information: SCILSDrivewayInformation::from_code(bytes[7] % 16).unwrap(),
        downstream_driveway_information: SCILSDrivewayInformation::from_code(
            bytes[7] / 16,
        ).unwrap(),
        dark_switching: SCILSDarkSwitching::from_code(bytes[8]).unwrap(),
        nationally_specified_information: bytes.subrange(9, 18),
    }
}

/// Round trip: a signal aspect is read back from its eighteen bytes as it
/// was.
pub proof fn lemma_signal_aspect_round_trip(a: SignalAspectView)
    requires
        a.nationally_specified_information.len() == 9,
    ensures
        signal_aspect_bytes(a).len() == 18,
        signal_aspect_error(signal_aspect_bytes(a)) is None,
        signal_aspect_of(signal_aspect_bytes(a)) == a,
{
    let bytes = signal_aspect_bytes(a);
    a.main.lemma_code_round_trip();
    a.additional.lemma_code_round_trip();
    a.zs3.lemma_code_round_trip();
    a.zs3v.lemma_code_round_trip();
    a.zs2.lemma_code_round_trip();
    a.zs2v.lemma_code_round_trip();
    a.depreciation_information.lemma_code_round_trip();
    a.upstream_driveway_information.lemma_code_round_trip();
    a.downstream_driveway_information.lemma_code_round_trip();
    a.dark_switching.lemma_code_round_trip();
    assert(bytes[7] / 16 == a.downstream_driveway_information.spec_code());
    assert(bytes[7] % 16 == a.upstream_driveway_information.spec_code());
    assert(bytes.subrange(9, 18) =~= a.nationally_specified_information);
}

impl SCILSBrightness {
    /// Whether the brightness is one that a signal can be asked for: day
    /// or night.
    pub fn can_be_asked_for(self) -> (b: bool)
        ensures
            b == (self != SCILSBrightness::Undefined),
    {
        match self {
            SCILSBrightness::Undefined => false,
            _ => true,
        }
    }
}

impl SCILSSignalAspect {
    /// The signal aspect with the given parts.
    pub fn new(
        main: SCILSMain,
        additional: SCILSAdditional,
        zs3: SCILSZs3,
        zs3v: SCILSZs3,
        zs2: SCILSZs2,
        zs2v: SCILSZs2,
        depreciation_information: SCILSDepreciationInformation,
        upstream_driveway_information: SCILSDrivewayInformation,
        downstream_driveway_information: SCILSDrivewayInformation,
        dark_switching: SCILSDarkSwitching,
        nationally_specified_information: [u8; 9],
    ) -> (a: SCILSSignalAspect)
        ensures
            a@ == (SignalAspectView {
                main,
                additional,
                zs3,
                zs3v,
                zs2,
                zs2v,
                depreciation_information,
                upstream_driveway_information,
                downstream_driveway_information,
                dark_switching,
                nationally_specified_information: nationally_specified_information@,
            }),
    {
        SCILSSignalAspect {
            main,
            additional,
            zs3,
            zs3v,
            zs2,
            zs2v,
            depreciation_information,
            upstream_driveway_information,
            downstream_driveway_information,
            dark_switching,
            nationally_specified_information,
        }
    }

    /// The part `main`.
    pub fn main(&self) -> (value: SCILSMain)
        ensures
            value == self@.main,
    {
        self.main
    }

    /// The part `additional`.
    pub fn additional(&self) -> (value: SCILSAdditional)
        ensures
            value == self@.additional,
    {
        self.additional
    }

    /// The part `zs3`.
    pub fn zs3(&self) -> (value: SCILSZs3)
        ensures
            value == self@.zs3,
    {
        self.zs3
    }

    /// The part `zs3v`.
    pub fn zs3v(&self) -> (value: SCILSZs3)
        ensures
            value == self@.zs3v,
    {
        self.zs3v
    }

    /// The part `zs2`.
    pub fn zs2(&self) -> (value: SCILSZs2)
        ensures
            value == self@.zs2,
    {
        self.zs2
    }

    /// The part `zs2v`.
    pub fn zs2v(&self) -> (value: SCILSZs2)
        ensures
            value == self@.zs2v,
    {
        self.zs2v
    }

    /// The part `depreciation_information`.
    pub fn depreciation_information(&self) -> (value: SCILSDepreciationInformation)
        ensures
            value == self@.depreciation_information,
    {
        self.depreciation_information
    }

    /// The part `upstream_driveway_information`.
    pub fn upstream_driveway_information(&self) -> (value: SCILSDrivewayInformation)
        ensures
            value == self@.upstream_driveway_information,
    {
        self.upstream_driveway_information
    }

    /// The part `downstream_driveway_information`.
    pub fn downstream_driveway_information(&self) -> (value: SCILSDrivewayInformation)
        ensures
            value == self@.downstream_driveway_information,
    {
        self.downstream_driveway_information
    }

    /// The part `dark_switching`.
    pub fn dark_switching(&self) -> (value: SCILSDarkSwitching)
        ensures
            value == self@.dark_switching,
    {
        self.dark_switching
    }

    /// The nine bytes of nationally specified information.
    pub fn nationally_specified_information(&self) -> (bytes: &[u8])
        ensures
            bytes@ == self@.nationally_specified_information,
            bytes@.len() == 9,
    {
        self.nationally_specified_information.as_slice()
    }

    /// The eighteen bytes of the signal aspect.
    pub fn to_bytes(&self) -> (bytes: Vec<u8>)
        ensures
            bytes@ == signal_aspect_bytes(self@),
            bytes@.len() == 18,
    {
        let mut bytes: Vec<u8> = Vec::new();
        bytes.push(self.main.code());
        bytes.push(self.additional.code());
        bytes.push(self.zs3.code());
        bytes.push(self.zs3v.code());
        bytes.push(self.zs2.code());
        bytes.push(self.zs2v.code());
        bytes.push(self.depreciation_information.code());
        bytes.push(
            self.downstream_driveway_information.code() * 16
                + self.upstream_driveway_information.code(),
        );
        bytes.push(self.dark_switching.code());
        let mut national = vstd::slice::slice_to_vec(
            self.nationally_specified_information.as_slice(),
        );
        bytes.append(&mut national);
        assert(bytes@ =~= signal_aspect_bytes(self@));
        bytes
    }

    /// The payload that holds the signal aspect.
    pub fn to_payload(&self) -> (payload: SCIPayload)
        ensures
            payload@ == signal_aspect_bytes(self@),
    {
        let bytes = self.to_bytes();
        SCIPayload::from_slice(bytes.as_slice())
    }

    /// Reads a signal aspect from the first eighteen bytes of `value`.
    /// Fails exactly where [`signal_aspect_error`] finds a fault, with the
    /// error that it gives.
    pub fn try_from(value: &[u8]) -> (r: Result<SCILSSignalAspect, SciError>)
        ensures
            match r {
                Ok(a) => signal_aspect_error(value@) is None && a@ == signal_aspect_of(value@),
                Err(e) => signal_aspect_error(value@) == Some(e),
            },
    {
        if value.len() < 18 {
            return Err(SciError::Malformed);
        }
        let main = SCILSMain::try_from(value[0])?;
        let additional = SCILSAdditional::try_from(value[1])?;
        let zs3 = SCILSZs3::try_from(value[2])?;
        let zs3v = SCILSZs3::try_from(value[3])?;
        let zs2 = SCILSZs2::try_from(value[4])?;
        let zs2v = SCILSZs2::try_from(value[5])?;
        let depreciation_information = SCILSDepreciationInformation::try_from(value[6])?;
        let downstream_driveway_information = SCILSDrivewayInformation::try_from(value[7] / 16)?;
        let upstream_driveway_information = SCILSDrivewayInformation::try_from(value[7] % 16)?;
        let dark_switching = SCILSDarkSwitching::try_from(value[8])?;
        let mut nationally_specified_information = [0u8; 9];
        let mut i: usize = 0;
        while i < 9
            invariant
                i <= 9,
                value.len() >= 18,
                forall|k: int| 0 <= k < i ==> nationally_specified_information@[k] == value@[9 + k],
            decreases 9 - i,
        {
            nationally_specified_information[i] = value[9 + i];
            i += 1;
        }
        assert(nationally_specified_information@ =~= value@.subrange(9, 18));
        Ok(
            SCILSSignalAspect {
                main,
                additional,
                zs3,
                zs3v,
                zs2,
                zs2v,
                depreciation_information,
                upstream_driveway_information,
                downstream_driveway_information,
                dark_switching,
                nationally_specified_information,
            },
        )
    }
}

impl SCITelegram {
    /// Asks a signal to show an aspect. The payload is the eighteen bytes of the signal
    /// aspect.
    pub fn scils_show_signal_aspect(sender: &str, receiver: &str, signal_aspect: SCILSSignalAspect) -> (t:
        SCITelegram)
        ensures
            t@ == (TelegramView {
                protocol_type: ProtocolType::SCIProtocolLS,
                message_type: SCIMessageType(SCILS_SHOW_SIGNAL_ASPECT),
                sender: sender@,
                receiver: receiver@,
                payload: signal_aspect_bytes(signal_aspect@),
            }),
    {
        let payload = signal_aspect.to_bytes();
        SCITelegram::assemble(
            ProtocolType::SCIProtocolLS,
            SCIMessageType::scils_show_signal_aspect(),
            sender,
            receiver,
            payload.as_slice(),
        )
    }

    /// Asks a signal to change its brightness to day or night: `Undefined`
    /// cannot be asked for. The payload is the one byte of the brightness.
    pub fn scils_change_brightness(sender: &str, receiver: &str, brightness: SCILSBrightness) -> (t:
        SCITelegram)
        requires
            brightness != SCILSBrightness::Undefined,
        ensures
            t@ == (TelegramView {
                protocol_type: ProtocolType::SCIProtocolLS,
                message_type: SCIMessageType(SCILS_CHANGE_BRIGHTNESS),
                sender: sender@,
                receiver: receiver@,
                payload: seq![brightness.spec_code()],
            }),
    {
        let payload = [brightness.code()];
        assert(payload@ =~= seq![brightness.spec_code()]);
        SCITelegram::assemble(
            ProtocolType::SCIProtocolLS,
            SCIMessageType::scils_change_brightness(),
            sender,
            receiver,
            payload.as_slice(),
        )
    }

    /// Reports the aspect that a signal shows. The payload is the eighteen bytes of the signal
    /// aspect.
    pub fn scils_signal_aspect_status(sender: &str, receiver: &str, signal_aspect: SCILSSignalAspect) -> (t:
        SCITelegram)
        ensures
            t@ == (TelegramView {
                protocol_type: ProtocolType::SCIProtocolLS,
                message_type: SCIMessageType(SCILS_SIGNAL_ASPECT_STATUS),
                sender: sender@,
                receiver: receiver@,
                payload: signal_aspect_bytes(signal_aspect@),
            }),
    {
        let payload = signal_aspect.to_bytes();
        SCITelegram::assemble(
            ProtocolType::SCIProtocolLS,
            SCIMessageType::scils_signal_aspect_status(),
            sender,
            receiver,
            payload.as_slice(),
        )
    }

    /// Reports the brightness of a signal. The payload is the one byte of the brightness.
    pub fn scils_brightness_status(sender: &str, receiver: &str, brightness: SCILSBrightness) -> (t:
        SCITelegram)
        ensures
            t@ == (TelegramView {
                protocol_type: ProtocolType::SCIProtocolLS,
                message_type: SCIMessageType(SCILS_BRIGHTNESS_STATUS),
                sender: sender@,
                receiver: receiver@,
                payload: seq![brightness.spec_code()],
            }),
    {
        let payload = [brightness.code()];
        assert(payload@ =~= seq![brightness.spec_code()]);
        SCITelegram::assemble(
            ProtocolType::SCIProtocolLS,
            SCIMessageType::scils_brightness_status(),
            sender,
            receiver,
            payload.as_slice(),
        )
    }
}

} // verus!
