//! Byte-coded enumerations shared by the System and Patch areas. Each
//! variant is encoded on the wire as its position in the declaration.
use vstd::prelude::*;

verus! {

/// Reusable Off/On switch.
#[derive(Debug, Clone, Copy, PartialEq, Eq, Structural)]
pub enum OnOff {
    Off,
    On,
}

impl OnOff {
    /// Wire byte of each variant.
    pub open spec fn byte_spec(self) -> u8 {
        match self {
            OnOff::Off => 0x00,
            OnOff::On => 0x01,
        }
    }

    /// The variant a wire byte stands for, if any.
    pub open spec fn from_byte_spec(b: u8) -> Option<Self> {
        if b == 0x00 {
            Some(OnOff::Off)
        } else if b == 0x01 {
            Some(OnOff::On)
        } else {
            None
        }
    }

    pub fn from_byte(b: u8) -> (r: Option<Self>)
        ensures
            r == Self::from_byte_spec(b),
    {
        match b {
            0x00 => Some(OnOff::Off),
            0x01 => Some(OnOff::On),
            _ => None,
        }
    }

    pub fn to_byte(self) -> (r: u8)
        ensures
            r == self.byte_spec(),
    {
        match self {
            OnOff::Off => 0x00,
            OnOff::On => 0x01,
        }
    }

    /// Law: every variant has a byte below 2, and that byte decodes back
    /// to the variant.
    pub proof fn lemma_round_trip(self)
        ensures
            self.byte_spec() < 2,
            Self::from_byte_spec(self.byte_spec()) == Some(self),
    {
    }

    /// Law: exactly the bytes below 2 decode, and each decodes to the
    /// variant whose byte it is.
    pub proof fn lemma_byte_round_trip(b: u8)
        ensures
            Self::from_byte_spec(b) is Some <==> b < 2,
            Self::from_byte_spec(b) matches Some(v) ==> v.byte_spec() == b,
    {
    }

    /// Law: the parameter's wire table: each byte listed decodes to the
    /// variant beside it, and each variant is written as its byte.
    pub proof fn lemma_wire_table()
        ensures
            Self::from_byte_spec(0x00) == Some(OnOff::Off),
            Self::from_byte_spec(0x01) == Some(OnOff::On),
            OnOff::Off.byte_spec() == 0x00,
            OnOff::On.byte_spec() == 0x01,
    {
    }
}

/// GK Set: which of 10 GK pickup user setups applies.
#[derive(Debug, Clone, Copy, PartialEq, Eq, Structural)]
pub enum GkSet {
    User1,
    User2,
    User3,
    User4,
    User5,
    User6,
    User7,
    User8,
    User9,
    User10,
}

impl GkSet {
    /// Wire byte of each variant.
    pub open spec fn byte_spec(self) -> u8 {
        match self {
            GkSet::User1 => 0x00,
            GkSet::User2 => 0x01,
            GkSet::User3 => 0x02,
            GkSet::User4 => 0x03,
            GkSet::User5 => 0x04,
            GkSet::User6 => 0x05,
            GkSet::User7 => 0x06,
            GkSet::User8 => 0x07,
            GkSet::User9 => 0x08,
            GkSet::User10 => 0x09,
        }
    }

    /// The variant a wire byte stands for, if any.
    pub open spec fn from_byte_spec(b: u8) -> Option<Self> {
        if b == 0x00 {
            Some(GkSet::User1)
        } else if b == 0x01 {
            Some(GkSet::User2)
        } else if b == 0x02 {
            Some(GkSet::User3)
        } else if b == 0x03 {
            Some(GkSet::User4)
        } else if b == 0x04 {
            Some(GkSet::User5)
        } else if b == 0x05 {
            Some(GkSet::User6)
        } else if b == 0x06 {
            Some(GkSet::User7)
        } else if b == 0x07 {
            Some(GkSet::User8)
        } else if b == 0x08 {
            Some(GkSet::User9)
        } else if b == 0x09 {
            Some(GkSet::User10)
        } else {
            None
        }
    }

    pub fn from_byte(b: u8) -> (r: Option<Self>)
        ensures
            r == Self::from_byte_spec(b),
    {
        match b {
            0x00 => Some(GkSet::User1),
            0x01 => Some(GkSet::User2),
            0x02 => Some(GkSet::User3),
            0x03 => Some(GkSet::User4),
            0x04 => Some(GkSet::User5),
            0x05 => Some(GkSet::User6),
            0x06 => Some(GkSet::User7),
            0x07 => Some(GkSet::User8),
            0x08 => Some(GkSet::User9),
            0x09 => Some(GkSet::User10),
            _ => None,
        }
    }

    pub fn to_byte(self) -> (r: u8)
        ensures
            r == self.byte_spec(),
    {
        match self {
            GkSet::User1 => 0x00,
            GkSet::User2 => 0x01,
            GkSet::User3 => 0x02,
            GkSet::User4 => 0x03,
            GkSet::User5 => 0x04,
            GkSet::User6 => 0x05,
            GkSet::User7 => 0x06,
            GkSet::User8 => 0x07,
            GkSet::User9 => 0x08,
            GkSet::User10 => 0x09,
        }
    }

    /// Law: every variant has a byte below 10, and that byte decodes back
    /// to the variant.
    pub proof fn lemma_round_trip(self)
        ensures
            self.byte_spec() < 10,
            Self::from_byte_spec(self.byte_spec()) == Some(self),
    {
    }

    /// Law: exactly the bytes below 10 decode, and each decodes to the
    /// variant whose byte it is.
    pub proof fn lemma_byte_round_trip(b: u8)
        ensures
            Self::from_byte_spec(b) is Some <==> b < 10,
            Self::from_byte_spec(b) matches Some(v) ==> v.byte_spec() == b,
    {
    }

    /// Law: the parameter's wire table: each byte listed decodes to the
    /// variant beside it, and each variant is written as its byte.
    pub proof fn lemma_wire_table()
        ensures
            Self::from_byte_spec(0x00) == Some(GkSet::User1),
            Self::from_byte_spec(0x01) == Some(GkSet::User2),
            Self::from_byte_spec(0x02) == Some(GkSet::User3),
            Self::from_byte_spec(0x03) == Some(GkSet::User4),
            Self::from_byte_spec(0x04) == Some(GkSet::User5),
            Self::from_byte_spec(0x05) == Some(GkSet::User6),
            Self::from_byte_spec(0x06) == Some(GkSet::User7),
            Self::from_byte_spec(0x07) == Some(GkSet::User8),
            Self::from_byte_spec(0x08) == Some(GkSet::User9),
            Self::from_byte_spec(0x09) == Some(GkSet::User10),
            GkSet::User1.byte_spec() == 0x00,
            GkSet::User2.byte_spec() == 0x01,
            GkSet::User3.byte_spec() == 0x02,
            GkSet::User4.byte_spec() == 0x03,
            GkSet::User5.byte_spec() == 0x04,
            GkSet::User6.byte_spec() == 0x05,
            GkSet::User7.byte_spec() == 0x06,
            GkSet::User8.byte_spec() == 0x07,
            GkSet::User9.byte_spec() == 0x08,
            GkSet::User10.byte_spec() == 0x09,
    {
    }
}

/// Output-stage routing target.
#[derive(Debug, Clone, Copy, PartialEq, Eq, Structural)]
pub enum OutputSelect {
    LinePhones,
    Jc120Amp,
    SmallAmp,
    ComboAmp,
    StackAmp,
    Jc120Return,
    ComboReturn,
    StackReturn,
    BassAmpWithHorn,
    BassAmpNoHorn,
}

impl OutputSelect {
    /// Wire byte of each variant.
    pub open spec fn byte_spec(self) -> u8 {
        match self {
            OutputSelect::LinePhones => 0x00,
            OutputSelect::Jc120Amp => 0x01,
            OutputSelect::SmallAmp => 0x02,
            OutputSelect::ComboAmp => 0x03,
            OutputSelect::StackAmp => 0x04,
            OutputSelect::Jc120Return => 0x05,
            OutputSelect::ComboReturn => 0x06,
            OutputSelect::StackReturn => 0x07,
            OutputSelect::BassAmpWithHorn => 0x08,
            OutputSelect::BassAmpNoHorn => 0x09,
        }
    }

    /// The variant a wire byte stands for, if any.
    pub open spec fn from_byte_spec(b: u8) -> Option<Self> {
        if b == 0x00 {
            Some(OutputSelect::LinePhones)
        } else if b == 0x01 {
            Some(OutputSelect::Jc120Amp)
        } else if b == 0x02 {
            Some(OutputSelect::SmallAmp)
        } else if b == 0x03 {
            Some(OutputSelect::ComboAmp)
        } else if b == 0x04 {
            Some(OutputSelect::StackAmp)
        } else if b == 0x05 {
            Some(OutputSelect::Jc120Return)
        } else if b == 0x06 {
            Some(OutputSelect::ComboReturn)
        } else if b == 0x07 {
            Some(OutputSelect::StackReturn)
        } else if b == 0x08 {
            Some(OutputSelect::BassAmpWithHorn)
        } else if b == 0x09 {
            Some(OutputSelect::BassAmpNoHorn)
        } else {
            None
        }
    }

    pub fn from_byte(b: u8) -> (r: Option<Self>)
        ensures
            r == Self::from_byte_spec(b),
    {
        match b {
            0x00 => Some(OutputSelect::LinePhones),
            0x01 => Some(OutputSelect::Jc120Amp),
            0x02 => Some(OutputSelect::SmallAmp),
            0x03 => Some(OutputSelect::ComboAmp),
            0x04 => Some(OutputSelect::StackAmp),
            0x05 => Some(OutputSelect::Jc120Return),
            0x06 => Some(OutputSelect::ComboReturn),
            0x07 => Some(OutputSelect::StackReturn),
            0x08 => Some(OutputSelect::BassAmpWithHorn),
            0x09 => Some(OutputSelect::BassAmpNoHorn),
            _ => None,
        }
    }

    pub fn to_byte(self) -> (r: u8)
        ensures
            r == self.byte_spec(),
    {
        match self {
            OutputSelect::LinePhones => 0x00,
            OutputSelect::Jc120Amp => 0x01,
            OutputSelect::SmallAmp => 0x02,
            OutputSelect::ComboAmp => 0x03,
            OutputSelect::StackAmp => 0x04,
            OutputSelect::Jc120Return => 0x05,
            OutputSelect::ComboReturn => 0x06,
            OutputSelect::StackReturn => 0x07,
            OutputSelect::BassAmpWithHorn => 0x08,
            OutputSelect::BassAmpNoHorn => 0x09,
        }
    }

    /// Law: every variant has a byte below 10, and that byte decodes back
    /// to the variant.
    pub proof fn lemma_round_trip(self)
        ensures
            self.byte_spec() < 10,
            Self::from_byte_spec(self.byte_spec()) == Some(self),
    {
    }

    /// Law: exactly the bytes below 10 decode, and each decodes to the
    /// variant whose byte it is.
    pub proof fn lemma_byte_round_trip(b: u8)
        ensures
            Self::from_byte_spec(b) is Some <==> b < 10,
            Self::from_byte_spec(b) matches Some(v) ==> v.byte_spec() == b,
    {
    }

    /// Law: the parameter's wire table: each byte listed decodes to the
    /// variant beside it, and each variant is written as its byte.
    pub proof fn lemma_wire_table()
        ensures
            Self::from_byte_spec(0x00) == Some(OutputSelect::LinePhones),
            Self::from_byte_spec(0x01) == Some(OutputSelect::Jc120Amp),
            Self::from_byte_spec(0x02) == Some(OutputSelect::SmallAmp),
            Self::from_byte_spec(0x03) == Some(OutputSelect::ComboAmp),
            Self::from_byte_spec(0x04) == Some(OutputSelect::StackAmp),
            Self::from_byte_spec(0x05) == Some(OutputSelect::Jc120Return),
            Self::from_byte_spec(0x06) == Some(OutputSelect::ComboReturn),
            Self::from_byte_spec(0x07) == Some(OutputSelect::StackReturn),
            Self::from_byte_spec(0x08) == Some(OutputSelect::BassAmpWithHorn),
            Self::from_byte_spec(0x09) == Some(OutputSelect::BassAmpNoHorn),
            OutputSelect::LinePhones.byte_spec() == 0x00,
            OutputSelect::Jc120Amp.byte_spec() == 0x01,
            OutputSelect::SmallAmp.byte_spec() == 0x02,
            OutputSelect::ComboAmp.byte_spec() == 0x03,
            OutputSelect::StackAmp.byte_spec() == 0x04,
            OutputSelect::Jc120Return.byte_spec() == 0x05,
            OutputSelect::ComboReturn.byte_spec() == 0x06,
            OutputSelect::StackReturn.byte_spec() == 0x07,
            OutputSelect::BassAmpWithHorn.byte_spec() == 0x08,
            OutputSelect::BassAmpNoHorn.byte_spec() == 0x09,
    {
    }
}

/// MIDI Out Mode (Mono / Poly).
#[derive(Debug, Clone, Copy, PartialEq, Eq, Structural)]
pub enum MidiOutMode {
    Mono,
    Poly,
}

impl MidiOutMode {
    /// Wire byte of each variant.
    pub open spec fn byte_spec(self) -> u8 {
        match self {
            MidiOutMode::Mono => 0x00,
            MidiOutMode::Poly => 0x01,
        }
    }

    /// The variant a wire byte stands for, if any.
    pub open spec fn from_byte_spec(b: u8) -> Option<Self> {
        if b == 0x00 {
            Some(MidiOutMode::Mono)
        } else if b == 0x01 {
            Some(MidiOutMode::Poly)
        } else {
            None
        }
    }

    pub fn from_byte(b: u8) -> (r: Option<Self>)
        ensures
            r == Self::from_byte_spec(b),
    {
        match b {
            0x00 => Some(MidiOutMode::Mono),
            0x01 => Some(MidiOutMode::Poly),
            _ => None,
        }
    }

    pub fn to_byte(self) -> (r: u8)
        ensures
            r == self.byte_spec(),
    {
        match self {
            MidiOutMode::Mono => 0x00,
            MidiOutMode::Poly => 0x01,
        }
    }

    /// Law: every variant has a byte below 2, and that byte decodes back
    /// to the variant.
    pub proof fn lemma_round_trip(self)
        ensures
            self.byte_spec() < 2,
            Self::from_byte_spec(self.byte_spec()) == Some(self),
    {
    }

    /// Law: exactly the bytes below 2 decode, and each decodes to the
    /// variant whose byte it is.
    pub proof fn lemma_byte_round_trip(b: u8)
        ensures
            Self::from_byte_spec(b) is Some <==> b < 2,
            Self::from_byte_spec(b) matches Some(v) ==> v.byte_spec() == b,
    {
    }

    /// Law: the parameter's wire table: each byte listed decodes to the
    /// variant beside it, and each variant is written as its byte.
    pub proof fn lemma_wire_table()
        ensures
            Self::from_byte_spec(0x00) == Some(MidiOutMode::Mono),
            Self::from_byte_spec(0x01) == Some(MidiOutMode::Poly),
            MidiOutMode::Mono.byte_spec() == 0x00,
            MidiOutMode::Poly.byte_spec() == 0x01,
    {
    }
}

/// CTL Hold Type (Type 1..=4).
#[derive(Debug, Clone, Copy, PartialEq, Eq, Structural)]
pub enum HoldType {
    Type1,
    Type2,
    Type3,
    Type4,
}

impl HoldType {
    /// Wire byte of each variant.
    pub open spec fn byte_spec(self) -> u8 {
        match self {
            HoldType::Type1 => 0x00,
            HoldType::Type2 => 0x01,
            HoldType::Type3 => 0x02,
            HoldType::Type4 => 0x03,
        }
    }

    /// The variant a wire byte stands for, if any.
    pub open spec fn from_byte_spec(b: u8) -> Option<Self> {
        if b == 0x00 {
            Some(HoldType::Type1)
        } else if b == 0x01 {
            Some(HoldType::Type2)
        } else if b == 0x02 {
            Some(HoldType::Type3)
        } else if b == 0x03 {
            Some(HoldType::Type4)
        } else {
            None
        }
    }

    pub fn from_byte(b: u8) -> (r: Option<Self>)
        ensures
            r == Self::from_byte_spec(b),
    {
        match b {
            0x00 => Some(HoldType::Type1),
            0x01 => Some(HoldType::Type2),
            0x02 => Some(HoldType::Type3),
            0x03 => Some(HoldType::Type4),
            _ => None,
        }
    }

    pub fn to_byte(self) -> (r: u8)
        ensures
            r == self.byte_spec(),
    {
        match self {
            HoldType::Type1 => 0x00,
            HoldType::Type2 => 0x01,
            HoldType::Type3 => 0x02,
            HoldType::Type4 => 0x03,
        }
    }

    /// Law: every variant has a byte below 4, and that byte decodes back
    /// to the variant.
    pub proof fn lemma_round_trip(self)
        ensures
            self.byte_spec() < 4,
            Self::from_byte_spec(self.byte_spec()) == Some(self),
    {
    }

    /// Law: exactly the bytes below 4 decode, and each decodes to the
    /// variant whose byte it is.
    pub proof fn lemma_byte_round_trip(b: u8)
        ensures
            Self::from_byte_spec(b) is Some <==> b < 4,
            Self::from_byte_spec(b) matches Some(v) ==> v.byte_spec() == b,
    {
    }

    /// Law: the parameter's wire table: each byte listed decodes to the
    /// variant beside it, and each variant is written as its byte.
    pub proof fn lemma_wire_table()
        ensures
            Self::from_byte_spec(0x00) == Some(HoldType::Type1),
            Self::from_byte_spec(0x01) == Some(HoldType::Type2),
            Self::from_byte_spec(0x02) == Some(HoldType::Type3),
            Self::from_byte_spec(0x03) == Some(HoldType::Type4),
            HoldType::Type1.byte_spec() == 0x00,
            HoldType::Type2.byte_spec() == 0x01,
            HoldType::Type3.byte_spec() == 0x02,
            HoldType::Type4.byte_spec() == 0x03,
    {
    }
}

/// Hold switch mode (Latch / Moment).
#[derive(Debug, Clone, Copy, PartialEq, Eq, Structural)]
pub enum SwitchMode {
    Latch,
    Moment,
}

impl SwitchMode {
    /// Wire byte of each variant.
    pub open spec fn byte_spec(self) -> u8 {
        match self {
            SwitchMode::Latch => 0x00,
            SwitchMode::Moment => 0x01,
        }
    }

    /// The variant a wire byte stands for, if any.
    pub open spec fn from_byte_spec(b: u8) -> Option<Self> {
        if b == 0x00 {
            Some(SwitchMode::Latch)
        } else if b == 0x01 {
            Some(SwitchMode::Moment)
        } else {
            None
        }
    }

    pub fn from_byte(b: u8) -> (r: Option<Self>)
        ensures
            r == Self::from_byte_spec(b),
    {
        match b {
            0x00 => Some(SwitchMode::Latch),
            0x01 => Some(SwitchMode::Moment),
            _ => None,
        }
    }

    pub fn to_byte(self) -> (r: u8)
        ensures
            r == self.byte_spec(),
    {
        match self {
            SwitchMode::Latch => 0x00,
            SwitchMode::Moment => 0x01,
        }
    }

    /// Law: every variant has a byte below 2, and that byte decodes back
    /// to the variant.
    pub proof fn lemma_round_trip(self)
        ensures
            self.byte_spec() < 2,
            Self::from_byte_spec(self.byte_spec()) == Some(self),
    {
    }

    /// Law: exactly the bytes below 2 decode, and each decodes to the
    /// variant whose byte it is.
    pub proof fn lemma_byte_round_trip(b: u8)
        ensures
            Self::from_byte_spec(b) is Some <==> b < 2,
            Self::from_byte_spec(b) matches Some(v) ==> v.byte_spec() == b,
    {
    }

    /// Law: the parameter's wire table: each byte listed decodes to the
    /// variant beside it, and each variant is written as its byte.
    pub proof fn lemma_wire_table()
        ensures
            Self::from_byte_spec(0x00) == Some(SwitchMode::Latch),
            Self::from_byte_spec(0x01) == Some(SwitchMode::Moment),
            SwitchMode::Latch.byte_spec() == 0x00,
            SwitchMode::Moment.byte_spec() == 0x01,
    {
    }
}
} // verus!
