//! Byte-coded enumerations of the GR-55 patch parameters. Each variant
//! is encoded on the wire as its position in the declaration (0, 1, 2, ...).
use vstd::prelude::*;

verus! {

/// Guitar/Bass mode discriminator at page `0x00` offset `0x00`.
#[derive(Debug, Clone, Copy, PartialEq, Eq, Structural)]
pub enum PatchMode {
    Guitar,
    Bass,
}

impl PatchMode {
    /// Wire byte of each variant.
    pub open spec fn byte_spec(self) -> u8 {
        match self {
            PatchMode::Guitar => 0x00,
            PatchMode::Bass => 0x01,
        }
    }

    /// The variant a wire byte stands for, if any.
    pub open spec fn from_byte_spec(b: u8) -> Option<Self> {
        if b == 0x00 {
            Some(PatchMode::Guitar)
        } else if b == 0x01 {
            Some(PatchMode::Bass)
        } else {
            None
        }
    }

    pub fn from_byte(b: u8) -> (r: Option<Self>)
        ensures
            r == Self::from_byte_spec(b),
    {
        match b {
            0x00 => Some(PatchMode::Guitar),
            0x01 => Some(PatchMode::Bass),
            _ => None,
        }
    }

    pub fn to_byte(self) -> (r: u8)
        ensures
            r == self.byte_spec(),
    {
        match self {
            PatchMode::Guitar => 0x00,
            PatchMode::Bass => 0x01,
        }
    }

    /// Law: every variant has a byte below 2, and that byte decodes back
    /// to the variant.
    pub proof fn lemma_round_trip(self)
        ensures
            self.byte_spec() < 2,
            Self::from_byte_spec(self.byte_spec()) == Some(self),
    {
    }

    /// Law: exactly the bytes below 2 decode, and each decodes to the
    /// variant whose byte it is.
    pub proof fn lemma_byte_round_trip(b: u8)
        ensures
            Self::from_byte_spec(b) is Some <==> b < 2,
            Self::from_byte_spec(b) matches Some(v) ==> v.byte_spec() == b,
    {
    }

    /// Law: the parameter's wire table: each byte listed decodes to the
    /// variant beside it, and each variant is written as its byte.
    pub proof fn lemma_wire_table()
        ensures
            Self::from_byte_spec(0x00) == Some(PatchMode::Guitar),
            Self::from_byte_spec(0x01) == Some(PatchMode::Bass),
            PatchMode::Guitar.byte_spec() == 0x00,
            PatchMode::Bass.byte_spec() == 0x01,
    {
    }
}

/// Patch CTL pedal function (page `0x00` offset `0x12`).
///
/// Distinct from the System-area `CtlPedalFunction` — the patch enum has 17
/// variants instead of 22 and includes `LedMoment` / `LedToggle` (LED
/// behaviour for the CTL switch) while omitting the System-area navigation
/// functions (Sound Style / Bank Number / Patch Number Inc/Dec) and the
/// `Patch Setting` variant. Mined from FloorBoard `midi.xml:38690-38708`.
#[derive(Debug, Clone, Copy, PartialEq, Eq, Structural)]
pub enum CtlFunction {
    Off,
    Hold,
    TapTempo,
    ToneSw,
    AmpSw,
    ModSw,
    MfxSw,
    DelaySw,
    ReverbSw,
    ChorusSw,
    AudioPlayerPlayStop,
    AudioPlayerSongInc,
    AudioPlayerSongDec,
    AudioPlayerSw,
    VLinkSw,
    LedMoment,
    LedToggle,
}

impl CtlFunction {
    /// Wire byte of each variant.
    pub open spec fn byte_spec(self) -> u8 {
        match self {
            CtlFunction::Off => 0x00,
            CtlFunction::Hold => 0x01,
            CtlFunction::TapTempo => 0x02,
            CtlFunction::ToneSw => 0x03,
            CtlFunction::AmpSw => 0x04,
            CtlFunction::ModSw => 0x05,
            CtlFunction::MfxSw => 0x06,
            CtlFunction::DelaySw => 0x07,
            CtlFunction::ReverbSw => 0x08,
            CtlFunction::ChorusSw => 0x09,
            CtlFunction::AudioPlayerPlayStop => 0x0A,
            CtlFunction::AudioPlayerSongInc => 0x0B,
            CtlFunction::AudioPlayerSongDec => 0x0C,
            CtlFunction::AudioPlayerSw => 0x0D,
            CtlFunction::VLinkSw => 0x0E,
            CtlFunction::LedMoment => 0x0F,
            CtlFunction::LedToggle => 0x10,
        }
    }

    /// The variant a wire byte stands for, if any.
    pub open spec fn from_byte_spec(b: u8) -> Option<Self> {
        if b == 0x00 {
            Some(CtlFunction::Off)
        } else if b == 0x01 {
            Some(CtlFunction::Hold)
        } else if b == 0x02 {
            Some(CtlFunction::TapTempo)
        } else if b == 0x03 {
            Some(CtlFunction::ToneSw)
        } else if b == 0x04 {
            Some(CtlFunction::AmpSw)
        } else if b == 0x05 {
            Some(CtlFunction::ModSw)
        } else if b == 0x06 {
            Some(CtlFunction::MfxSw)
        } else if b == 0x07 {
            Some(CtlFunction::DelaySw)
        } else if b == 0x08 {
            Some(CtlFunction::ReverbSw)
        } else if b == 0x09 {
            Some(CtlFunction::ChorusSw)
        } else if b == 0x0A {
            Some(CtlFunction::AudioPlayerPlayStop)
        } else if b == 0x0B {
            Some(CtlFunction::AudioPlayerSongInc)
        } else if b == 0x0C {
            Some(CtlFunction::AudioPlayerSongDec)
        } else if b == 0x0D {
            Some(CtlFunction::AudioPlayerSw)
        } else if b == 0x0E {
            Some(CtlFunction::VLinkSw)
        } else if b == 0x0F {
            Some(CtlFunction::LedMoment)
        } else if b == 0x10 {
            Some(CtlFunction::LedToggle)
        } else {
            None
        }
    }

    pub fn from_byte(b: u8) -> (r: Option<Self>)
        ensures
            r == Self::from_byte_spec(b),
    {
        match b {
            0x00 => Some(CtlFunction::Off),
            0x01 => Some(CtlFunction::Hold),
            0x02 => Some(CtlFunction::TapTempo),
            0x03 => Some(CtlFunction::ToneSw),
            0x04 => Some(CtlFunction::AmpSw),
            0x05 => Some(CtlFunction::ModSw),
            0x06 => Some(CtlFunction::MfxSw),
            0x07 => Some(CtlFunction::DelaySw),
            0x08 => Some(CtlFunction::ReverbSw),
            0x09 => Some(CtlFunction::ChorusSw),
            0x0A => Some(CtlFunction::AudioPlayerPlayStop),
            0x0B => Some(CtlFunction::AudioPlayerSongInc),
            0x0C => Some(CtlFunction::AudioPlayerSongDec),
            0x0D => Some(CtlFunction::AudioPlayerSw),
            0x0E => Some(CtlFunction::VLinkSw),
            0x0F => Some(CtlFunction::LedMoment),
            0x10 => Some(CtlFunction::LedToggle),
            _ => None,
        }
    }

    pub fn to_byte(self) -> (r: u8)
        ensures
            r == self.byte_spec(),
    {
        match self {
            CtlFunction::Off => 0x00,
            CtlFunction::Hold => 0x01,
            CtlFunction::TapTempo => 0x02,
            CtlFunction::ToneSw => 0x03,
            CtlFunction::AmpSw => 0x04,
            CtlFunction::ModSw => 0x05,
            CtlFunction::MfxSw => 0x06,
            CtlFunction::DelaySw => 0x07,
            CtlFunction::ReverbSw => 0x08,
            CtlFunction::ChorusSw => 0x09,
            CtlFunction::AudioPlayerPlayStop => 0x0A,
            CtlFunction::AudioPlayerSongInc => 0x0B,
            CtlFunction::AudioPlayerSongDec => 0x0C,
            CtlFunction::AudioPlayerSw => 0x0D,
            CtlFunction::VLinkSw => 0x0E,
            CtlFunction::LedMoment => 0x0F,
            CtlFunction::LedToggle => 0x10,
        }
    }

    /// Law: every variant has a byte below 17, and that byte decodes back
    /// to the variant.
    pub proof fn lemma_round_trip(self)
        ensures
            self.byte_spec() < 17,
            Self::from_byte_spec(self.byte_spec()) == Some(self),
    {
    }

    /// Law: exactly the bytes below 17 decode, and each decodes to the
    /// variant whose byte it is.
    pub proof fn lemma_byte_round_trip(b: u8)
        ensures
            Self::from_byte_spec(b) is Some <==> b < 17,
            Self::from_byte_spec(b) matches Some(v) ==> v.byte_spec() == b,
    {
    }

    /// Law: the parameter's wire table: each byte listed decodes to the
    /// variant beside it, and each variant is written as its byte.
    pub proof fn lemma_wire_table()
        ensures
            Self::from_byte_spec(0x00) == Some(CtlFunction::Off),
            Self::from_byte_spec(0x01) == Some(CtlFunction::Hold),
            Self::from_byte_spec(0x02) == Some(CtlFunction::TapTempo),
            Self::from_byte_spec(0x03) == Some(CtlFunction::ToneSw),
            Self::from_byte_spec(0x04) == Some(CtlFunction::AmpSw),
            Self::from_byte_spec(0x05) == Some(CtlFunction::ModSw),
            Self::from_byte_spec(0x06) == Some(CtlFunction::MfxSw),
            Self::from_byte_spec(0x07) == Some(CtlFunction::DelaySw),
            Self::from_byte_spec(0x08) == Some(CtlFunction::ReverbSw),
            Self::from_byte_spec(0x09) == Some(CtlFunction::ChorusSw),
            Self::from_byte_spec(0x0A) == Some(CtlFunction::AudioPlayerPlayStop),
            Self::from_byte_spec(0x0B) == Some(CtlFunction::AudioPlayerSongInc),
            Self::from_byte_spec(0x0C) == Some(CtlFunction::AudioPlayerSongDec),
            Self::from_byte_spec(0x0D) == Some(CtlFunction::AudioPlayerSw),
            Self::from_byte_spec(0x0E) == Some(CtlFunction::VLinkSw),
            Self::from_byte_spec(0x0F) == Some(CtlFunction::LedMoment),
            Self::from_byte_spec(0x10) == Some(CtlFunction::LedToggle),
            CtlFunction::Off.byte_spec() == 0x00,
            CtlFunction::Hold.byte_spec() == 0x01,
            CtlFunction::TapTempo.byte_spec() == 0x02,
            CtlFunction::ToneSw.byte_spec() == 0x03,
            CtlFunction::AmpSw.byte_spec() == 0x04,
            CtlFunction::ModSw.byte_spec() == 0x05,
            CtlFunction::MfxSw.byte_spec() == 0x06,
            CtlFunction::DelaySw.byte_spec() == 0x07,
            CtlFunction::ReverbSw.byte_spec() == 0x08,
            CtlFunction::ChorusSw.byte_spec() == 0x09,
            CtlFunction::AudioPlayerPlayStop.byte_spec() == 0x0A,
            CtlFunction::AudioPlayerSongInc.byte_spec() == 0x0B,
            CtlFunction::AudioPlayerSongDec.byte_spec() == 0x0C,
            CtlFunction::AudioPlayerSw.byte_spec() == 0x0D,
            CtlFunction::VLinkSw.byte_spec() == 0x0E,
            CtlFunction::LedMoment.byte_spec() == 0x0F,
            CtlFunction::LedToggle.byte_spec() == 0x10,
    {
    }
}

/// Patch EXP pedal function (page `0x00` offset `0x1F`).
///
/// 10 variants, mined from FloorBoard `midi.xml:38759-38770`. Differs from
/// the System-area `ExpPedalFunction` (which has 11 variants) by omitting
/// the `PatchSetting` option at byte 0x01 — at the patch level a "patch
/// setting" assignment would be self-referential. All other variants are
/// shifted down by one byte relative to the System enum:
///   patch 0x01 PatchVolume   == system 0x02 PatchVolume
///   patch 0x09 ModControl    == system 0x0A ModControl
#[derive(Debug, Clone, Copy, PartialEq, Eq, Structural)]
pub enum ExpFunction {
    Off,
    PatchVolume,
    ToneVolume,
    PitchBend,
    Modulation,
    CrossFader,
    DelayLevel,
    ReverbLevel,
    ChorusLevel,
    ModControl,
}

impl ExpFunction {
    /// Wire byte of each variant.
    pub open spec fn byte_spec(self) -> u8 {
        match self {
            ExpFunction::Off => 0x00,
            ExpFunction::PatchVolume => 0x01,
            ExpFunction::ToneVolume => 0x02,
            ExpFunction::PitchBend => 0x03,
            ExpFunction::Modulation => 0x04,
            ExpFunction::CrossFader => 0x05,
            ExpFunction::DelayLevel => 0x06,
            ExpFunction::ReverbLevel => 0x07,
            ExpFunction::ChorusLevel => 0x08,
            ExpFunction::ModControl => 0x09,
        }
    }

    /// The variant a wire byte stands for, if any.
    pub open spec fn from_byte_spec(b: u8) -> Option<Self> {
        if b == 0x00 {
            Some(ExpFunction::Off)
        } else if b == 0x01 {
            Some(ExpFunction::PatchVolume)
        } else if b == 0x02 {
            Some(ExpFunction::ToneVolume)
        } else if b == 0x03 {
            Some(ExpFunction::PitchBend)
        } else if b == 0x04 {
            Some(ExpFunction::Modulation)
        } else if b == 0x05 {
            Some(ExpFunction::CrossFader)
        } else if b == 0x06 {
            Some(ExpFunction::DelayLevel)
        } else if b == 0x07 {
            Some(ExpFunction::ReverbLevel)
        } else if b == 0x08 {
            Some(ExpFunction::ChorusLevel)
        } else if b == 0x09 {
            Some(ExpFunction::ModControl)
        } else {
            None
        }
    }

    pub fn from_byte(b: u8) -> (r: Option<Self>)
        ensures
            r == Self::from_byte_spec(b),
    {
        match b {
            0x00 => Some(ExpFunction::Off),
            0x01 => Some(ExpFunction::PatchVolume),
            0x02 => Some(ExpFunction::ToneVolume),
            0x03 => Some(ExpFunction::PitchBend),
            0x04 => Some(ExpFunction::Modulation),
            0x05 => Some(ExpFunction::CrossFader),
            0x06 => Some(ExpFunction::DelayLevel),
            0x07 => Some(ExpFunction::ReverbLevel),
            0x08 => Some(ExpFunction::ChorusLevel),
            0x09 => Some(ExpFunction::ModControl),
            _ => None,
        }
    }

    pub fn to_byte(self) -> (r: u8)
        ensures
            r == self.byte_spec(),
    {
        match self {
            ExpFunction::Off => 0x00,
            ExpFunction::PatchVolume => 0x01,
            ExpFunction::ToneVolume => 0x02,
            ExpFunction::PitchBend => 0x03,
            ExpFunction::Modulation => 0x04,
            ExpFunction::CrossFader => 0x05,
            ExpFunction::DelayLevel => 0x06,
            ExpFunction::ReverbLevel => 0x07,
            ExpFunction::ChorusLevel => 0x08,
            ExpFunction::ModControl => 0x09,
        }
    }

    /// Law: every variant has a byte below 10, and that byte decodes back
    /// to the variant.
    pub proof fn lemma_round_trip(self)
        ensures
            self.byte_spec() < 10,
            Self::from_byte_spec(self.byte_spec()) == Some(self),
    {
    }

    /// Law: exactly the bytes below 10 decode, and each decodes to the
    /// variant whose byte it is.
    pub proof fn lemma_byte_round_trip(b: u8)
        ensures
            Self::from_byte_spec(b) is Some <==> b < 10,
            Self::from_byte_spec(b) matches Some(v) ==> v.byte_spec() == b,
    {
    }

    /// Law: the parameter's wire table: each byte listed decodes to the
    /// variant beside it, and each variant is written as its byte.
    pub proof fn lemma_wire_table()
        ensures
            Self::from_byte_spec(0x00) == Some(ExpFunction::Off),
            Self::from_byte_spec(0x01) == Some(ExpFunction::PatchVolume),
            Self::from_byte_spec(0x02) == Some(ExpFunction::ToneVolume),
            Self::from_byte_spec(0x03) == Some(ExpFunction::PitchBend),
            Self::from_byte_spec(0x04) == Some(ExpFunction::Modulation),
            Self::from_byte_spec(0x05) == Some(ExpFunction::CrossFader),
            Self::from_byte_spec(0x06) == Some(ExpFunction::DelayLevel),
            Self::from_byte_spec(0x07) == Some(ExpFunction::ReverbLevel),
            Self::from_byte_spec(0x08) == Some(ExpFunction::ChorusLevel),
            Self::from_byte_spec(0x09) == Some(ExpFunction::ModControl),
            ExpFunction::Off.byte_spec() == 0x00,
            ExpFunction::PatchVolume.byte_spec() == 0x01,
            ExpFunction::ToneVolume.byte_spec() == 0x02,
            ExpFunction::PitchBend.byte_spec() == 0x03,
            ExpFunction::Modulation.byte_spec() == 0x04,
            ExpFunction::CrossFader.byte_spec() == 0x05,
            ExpFunction::DelayLevel.byte_spec() == 0x06,
            ExpFunction::ReverbLevel.byte_spec() == 0x07,
            ExpFunction::ChorusLevel.byte_spec() == 0x08,
            ExpFunction::ModControl.byte_spec() == 0x09,
    {
    }
}

/// Direction an EXP pedal's cross-fader assignment sweeps. Per-output:
/// PCM 1 / PCM 2 / Modeling / Normal PU each get their own setting at
/// `0x2C..=0x2F`. Mined from FloorBoard `midi.xml:38818-38835`.
#[derive(Debug, Clone, Copy, PartialEq, Eq, Structural)]
pub enum CrossFaderMode {
    Off,
    Toe,
    Heel,
}

impl CrossFaderMode {
    /// Wire byte of each variant.
    pub open spec fn byte_spec(self) -> u8 {
        match self {
            CrossFaderMode::Off => 0x00,
            CrossFaderMode::Toe => 0x01,
            CrossFaderMode::Heel => 0x02,
        }
    }

    /// The variant a wire byte stands for, if any.
    pub open spec fn from_byte_spec(b: u8) -> Option<Self> {
        if b == 0x00 {
            Some(CrossFaderMode::Off)
        } else if b == 0x01 {
            Some(CrossFaderMode::Toe)
        } else if b == 0x02 {
            Some(CrossFaderMode::Heel)
        } else {
            None
        }
    }

    pub fn from_byte(b: u8) -> (r: Option<Self>)
        ensures
            r == Self::from_byte_spec(b),
    {
        match b {
            0x00 => Some(CrossFaderMode::Off),
            0x01 => Some(CrossFaderMode::Toe),
            0x02 => Some(CrossFaderMode::Heel),
            _ => None,
        }
    }

    pub fn to_byte(self) -> (r: u8)
        ensures
            r == self.byte_spec(),
    {
        match self {
            CrossFaderMode::Off => 0x00,
            CrossFaderMode::Toe => 0x01,
            CrossFaderMode::Heel => 0x02,
        }
    }

    /// Law: every variant has a byte below 3, and that byte decodes back
    /// to the variant.
    pub proof fn lemma_round_trip(self)
        ensures
            self.byte_spec() < 3,
            Self::from_byte_spec(self.byte_spec()) == Some(self),
    {
    }

    /// Law: exactly the bytes below 3 decode, and each decodes to the
    /// variant whose byte it is.
    pub proof fn lemma_byte_round_trip(b: u8)
        ensures
            Self::from_byte_spec(b) is Some <==> b < 3,
            Self::from_byte_spec(b) matches Some(v) ==> v.byte_spec() == b,
    {
    }

    /// Law: the parameter's wire table: each byte listed decodes to the
    /// variant beside it, and each variant is written as its byte.
    pub proof fn lemma_wire_table()
        ensures
            Self::from_byte_spec(0x00) == Some(CrossFaderMode::Off),
            Self::from_byte_spec(0x01) == Some(CrossFaderMode::Toe),
            Self::from_byte_spec(0x02) == Some(CrossFaderMode::Heel),
            CrossFaderMode::Off.byte_spec() == 0x00,
            CrossFaderMode::Toe.byte_spec() == 0x01,
            CrossFaderMode::Heel.byte_spec() == 0x02,
    {
    }
}

/// Patch EXP pedal switch function (page `0x00` offset `0x4E`).
///
/// 14 variants. A strict subset of [`CtlFunction`] — it omits `Hold` and
/// the two LED behaviours, and a strict subset of System
/// `ExpPedalSwitchFunction` — it omits `PatchSetting`, the four navigation
/// variants (Sound Style / Bank Number / Patch Number Inc/Dec). Mined from
/// FloorBoard `midi.xml:38953-38968`.
#[derive(Debug, Clone, Copy, PartialEq, Eq, Structural)]
pub enum ExpSwFunction {
    Off,
    TapTempo,
    ToneSw,
    AmpSw,
    ModSw,
    MfxSw,
    DelaySw,
    ReverbSw,
    ChorusSw,
    AudioPlayerPlayStop,
    AudioPlayerSongInc,
    AudioPlayerSongDec,
    AudioPlayerSw,
    VLinkSw,
}

impl ExpSwFunction {
    /// Wire byte of each variant.
    pub open spec fn byte_spec(self) -> u8 {
        match self {
            ExpSwFunction::Off => 0x00,
            ExpSwFunction::TapTempo => 0x01,
            ExpSwFunction::ToneSw => 0x02,
            ExpSwFunction::AmpSw => 0x03,
            ExpSwFunction::ModSw => 0x04,
            ExpSwFunction::MfxSw => 0x05,
            ExpSwFunction::DelaySw => 0x06,
            ExpSwFunction::ReverbSw => 0x07,
            ExpSwFunction::ChorusSw => 0x08,
            ExpSwFunction::AudioPlayerPlayStop => 0x09,
            ExpSwFunction::AudioPlayerSongInc => 0x0A,
            ExpSwFunction::AudioPlayerSongDec => 0x0B,
            ExpSwFunction::AudioPlayerSw => 0x0C,
            ExpSwFunction::VLinkSw => 0x0D,
        }
    }

    /// The variant a wire byte stands for, if any.
    pub open spec fn from_byte_spec(b: u8) -> Option<Self> {
        if b == 0x00 {
            Some(ExpSwFunction::Off)
        } else if b == 0x01 {
            Some(ExpSwFunction::TapTempo)
        } else if b == 0x02 {
            Some(ExpSwFunction::ToneSw)
        } else if b == 0x03 {
            Some(ExpSwFunction::AmpSw)
        } else if b == 0x04 {
            Some(ExpSwFunction::ModSw)
        } else if b == 0x05 {
            Some(ExpSwFunction::MfxSw)
        } else if b == 0x06 {
            Some(ExpSwFunction::DelaySw)
        } else if b == 0x07 {
            Some(ExpSwFunction::ReverbSw)
        } else if b == 0x08 {
            Some(ExpSwFunction::ChorusSw)
        } else if b == 0x09 {
            Some(ExpSwFunction::AudioPlayerPlayStop)
        } else if b == 0x0A {
            Some(ExpSwFunction::AudioPlayerSongInc)
        } else if b == 0x0B {
            Some(ExpSwFunction::AudioPlayerSongDec)
        } else if b == 0x0C {
            Some(ExpSwFunction::AudioPlayerSw)
        } else if b == 0x0D {
            Some(ExpSwFunction::VLinkSw)
        } else {
            None
        }
    }

    pub fn from_byte(b: u8) -> (r: Option<Self>)
        ensures
            r == Self::from_byte_spec(b),
    {
        match b {
            0x00 => Some(ExpSwFunction::Off),
            0x01 => Some(ExpSwFunction::TapTempo),
            0x02 => Some(ExpSwFunction::ToneSw),
            0x03 => Some(ExpSwFunction::AmpSw),
            0x04 => Some(ExpSwFunction::ModSw),
            0x05 => Some(ExpSwFunction::MfxSw),
            0x06 => Some(ExpSwFunction::DelaySw),
            0x07 => Some(ExpSwFunction::ReverbSw),
            0x08 => Some(ExpSwFunction::ChorusSw),
            0x09 => Some(ExpSwFunction::AudioPlayerPlayStop),
            0x0A => Some(ExpSwFunction::AudioPlayerSongInc),
            0x0B => Some(ExpSwFunction::AudioPlayerSongDec),
            0x0C => Some(ExpSwFunction::AudioPlayerSw),
            0x0D => Some(ExpSwFunction::VLinkSw),
            _ => None,
        }
    }

    pub fn to_byte(self) -> (r: u8)
        ensures
            r == self.byte_spec(),
    {
        match self {
            ExpSwFunction::Off => 0x00,
            ExpSwFunction::TapTempo => 0x01,
            ExpSwFunction::ToneSw => 0x02,
            ExpSwFunction::AmpSw => 0x03,
            ExpSwFunction::ModSw => 0x04,
            ExpSwFunction::MfxSw => 0x05,
            ExpSwFunction::DelaySw => 0x06,
            ExpSwFunction::ReverbSw => 0x07,
            ExpSwFunction::ChorusSw => 0x08,
            ExpSwFunction::AudioPlayerPlayStop => 0x09,
            ExpSwFunction::AudioPlayerSongInc => 0x0A,
            ExpSwFunction::AudioPlayerSongDec => 0x0B,
            ExpSwFunction::AudioPlayerSw => 0x0C,
            ExpSwFunction::VLinkSw => 0x0D,
        }
    }

    /// Law: every variant has a byte below 14, and that byte decodes back
    /// to the variant.
    pub proof fn lemma_round_trip(self)
        ensures
            self.byte_spec() < 14,
            Self::from_byte_spec(self.byte_spec()) == Some(self),
    {
    }

    /// Law: exactly the bytes below 14 decode, and each decodes to the
    /// variant whose byte it is.
    pub proof fn lemma_byte_round_trip(b: u8)
        ensures
            Self::from_byte_spec(b) is Some <==> b < 14,
            Self::from_byte_spec(b) matches Some(v) ==> v.byte_spec() == b,
    {
    }

    /// Law: the parameter's wire table: each byte listed decodes to the
    /// variant beside it, and each variant is written as its byte.
    pub proof fn lemma_wire_table()
        ensures
            Self::from_byte_spec(0x00) == Some(ExpSwFunction::Off),
            Self::from_byte_spec(0x01) == Some(ExpSwFunction::TapTempo),
            Self::from_byte_spec(0x02) == Some(ExpSwFunction::ToneSw),
            Self::from_byte_spec(0x03) == Some(ExpSwFunction::AmpSw),
            Self::from_byte_spec(0x04) == Some(ExpSwFunction::ModSw),
            Self::from_byte_spec(0x05) == Some(ExpSwFunction::MfxSw),
            Self::from_byte_spec(0x06) == Some(ExpSwFunction::DelaySw),
            Self::from_byte_spec(0x07) == Some(ExpSwFunction::ReverbSw),
            Self::from_byte_spec(0x08) == Some(ExpSwFunction::ChorusSw),
            Self::from_byte_spec(0x09) == Some(ExpSwFunction::AudioPlayerPlayStop),
            Self::from_byte_spec(0x0A) == Some(ExpSwFunction::AudioPlayerSongInc),
            Self::from_byte_spec(0x0B) == Some(ExpSwFunction::AudioPlayerSongDec),
            Self::from_byte_spec(0x0C) == Some(ExpSwFunction::AudioPlayerSw),
            Self::from_byte_spec(0x0D) == Some(ExpSwFunction::VLinkSw),
            ExpSwFunction::Off.byte_spec() == 0x00,
            ExpSwFunction::TapTempo.byte_spec() == 0x01,
            ExpSwFunction::ToneSw.byte_spec() == 0x02,
            ExpSwFunction::AmpSw.byte_spec() == 0x03,
            ExpSwFunction::ModSw.byte_spec() == 0x04,
            ExpSwFunction::MfxSw.byte_spec() == 0x05,
            ExpSwFunction::DelaySw.byte_spec() == 0x06,
            ExpSwFunction::ReverbSw.byte_spec() == 0x07,
            ExpSwFunction::ChorusSw.byte_spec() == 0x08,
            ExpSwFunction::AudioPlayerPlayStop.byte_spec() == 0x09,
            ExpSwFunction::AudioPlayerSongInc.byte_spec() == 0x0A,
            ExpSwFunction::AudioPlayerSongDec.byte_spec() == 0x0B,
            ExpSwFunction::AudioPlayerSw.byte_spec() == 0x0C,
            ExpSwFunction::VLinkSw.byte_spec() == 0x0D,
    {
    }
}

/// Assign Source Mode — how the source maps to its target.
#[derive(Debug, Clone, Copy, PartialEq, Eq, Structural)]
pub enum AssignSourceMode {
    Moment,
    Toggle,
}

impl AssignSourceMode {
    /// Wire byte of each variant.
    pub open spec fn byte_spec(self) -> u8 {
        match self {
            AssignSourceMode::Moment => 0x00,
            AssignSourceMode::Toggle => 0x01,
        }
    }

    /// The variant a wire byte stands for, if any.
    pub open spec fn from_byte_spec(b: u8) -> Option<Self> {
        if b == 0x00 {
            Some(AssignSourceMode::Moment)
        } else if b == 0x01 {
            Some(AssignSourceMode::Toggle)
        } else {
            None
        }
    }

    pub fn from_byte(b: u8) -> (r: Option<Self>)
        ensures
            r == Self::from_byte_spec(b),
    {
        match b {
            0x00 => Some(AssignSourceMode::Moment),
            0x01 => Some(AssignSourceMode::Toggle),
            _ => None,
        }
    }

    pub fn to_byte(self) -> (r: u8)
        ensures
            r == self.byte_spec(),
    {
        match self {
            AssignSourceMode::Moment => 0x00,
            AssignSourceMode::Toggle => 0x01,
        }
    }

    /// Law: every variant has a byte below 2, and that byte decodes back
    /// to the variant.
    pub proof fn lemma_round_trip(self)
        ensures
            self.byte_spec() < 2,
            Self::from_byte_spec(self.byte_spec()) == Some(self),
    {
    }

    /// Law: exactly the bytes below 2 decode, and each decodes to the
    /// variant whose byte it is.
    pub proof fn lemma_byte_round_trip(b: u8)
        ensures
            Self::from_byte_spec(b) is Some <==> b < 2,
            Self::from_byte_spec(b) matches Some(v) ==> v.byte_spec() == b,
    {
    }

    /// Law: the parameter's wire table: each byte listed decodes to the
    /// variant beside it, and each variant is written as its byte.
    pub proof fn lemma_wire_table()
        ensures
            Self::from_byte_spec(0x00) == Some(AssignSourceMode::Moment),
            Self::from_byte_spec(0x01) == Some(AssignSourceMode::Toggle),
            AssignSourceMode::Moment.byte_spec() == 0x00,
            AssignSourceMode::Toggle.byte_spec() == 0x01,
    {
    }
}

/// Internal pedal trigger source for the Assign's Int Pedal.
///
/// 11 logical variants. **Note:** FloorBoard `midi.xml` ships a typo
/// here — both `EXP PDL SW` and `GK S1` are listed as `value="08"`, with
/// `value="09"` missing. The intended mapping is sequential: GK S1 = 0x09,
/// GK S2 = 0x0A. We encode that intended layout.
#[derive(Debug, Clone, Copy, PartialEq, Eq, Structural)]
pub enum AssignInternalTrigger {
    PatchChange,
    CtrlPdl,
    Exp1PdlLow,
    Exp1PdlMid,
    Exp1PdlHigh,
    Exp1PdlOnLow,
    Exp1PdlOnMid,
    Exp1PdlOnHigh,
    ExpPdlSw,
    GkS1,
    GkS2,
}

impl AssignInternalTrigger {
    /// Wire byte of each variant.
    pub open spec fn byte_spec(self) -> u8 {
        match self {
            AssignInternalTrigger::PatchChange => 0x00,
            AssignInternalTrigger::CtrlPdl => 0x01,
            AssignInternalTrigger::Exp1PdlLow => 0x02,
            AssignInternalTrigger::Exp1PdlMid => 0x03,
            AssignInternalTrigger::Exp1PdlHigh => 0x04,
            AssignInternalTrigger::Exp1PdlOnLow => 0x05,
            AssignInternalTrigger::Exp1PdlOnMid => 0x06,
            AssignInternalTrigger::Exp1PdlOnHigh => 0x07,
            AssignInternalTrigger::ExpPdlSw => 0x08,
            AssignInternalTrigger::GkS1 => 0x09,
            AssignInternalTrigger::GkS2 => 0x0A,
        }
    }

    /// The variant a wire byte stands for, if any.
    pub open spec fn from_byte_spec(b: u8) -> Option<Self> {
        if b == 0x00 {
            Some(AssignInternalTrigger::PatchChange)
        } else if b == 0x01 {
            Some(AssignInternalTrigger::CtrlPdl)
        } else if b == 0x02 {
            Some(AssignInternalTrigger::Exp1PdlLow)
        } else if b == 0x03 {
            Some(AssignInternalTrigger::Exp1PdlMid)
        } else if b == 0x04 {
            Some(AssignInternalTrigger::Exp1PdlHigh)
        } else if b == 0x05 {
            Some(AssignInternalTrigger::Exp1PdlOnLow)
        } else if b == 0x06 {
            Some(AssignInternalTrigger::Exp1PdlOnMid)
        } else if b == 0x07 {
            Some(AssignInternalTrigger::Exp1PdlOnHigh)
        } else if b == 0x08 {
            Some(AssignInternalTrigger::ExpPdlSw)
        } else if b == 0x09 {
            Some(AssignInternalTrigger::GkS1)
        } else if b == 0x0A {
            Some(AssignInternalTrigger::GkS2)
        } else {
            None
        }
    }

    pub fn from_byte(b: u8) -> (r: Option<Self>)
        ensures
            r == Self::from_byte_spec(b),
    {
        match b {
            0x00 => Some(AssignInternalTrigger::PatchChange),
            0x01 => Some(AssignInternalTrigger::CtrlPdl),
            0x02 => Some(AssignInternalTrigger::Exp1PdlLow),
            0x03 => Some(AssignInternalTrigger::Exp1PdlMid),
            0x04 => Some(AssignInternalTrigger::Exp1PdlHigh),
            0x05 => Some(AssignInternalTrigger::Exp1PdlOnLow),
            0x06 => Some(AssignInternalTrigger::Exp1PdlOnMid),
            0x07 => Some(AssignInternalTrigger::Exp1PdlOnHigh),
            0x08 => Some(AssignInternalTrigger::ExpPdlSw),
            0x09 => Some(AssignInternalTrigger::GkS1),
            0x0A => Some(AssignInternalTrigger::GkS2),
            _ => None,
        }
    }

    pub fn to_byte(self) -> (r: u8)
        ensures
            r == self.byte_spec(),
    {
        match self {
            AssignInternalTrigger::PatchChange => 0x00,
            AssignInternalTrigger::CtrlPdl => 0x01,
            AssignInternalTrigger::Exp1PdlLow => 0x02,
            AssignInternalTrigger::Exp1PdlMid => 0x03,
            AssignInternalTrigger::Exp1PdlHigh => 0x04,
            AssignInternalTrigger::Exp1PdlOnLow => 0x05,
            AssignInternalTrigger::Exp1PdlOnMid => 0x06,
            AssignInternalTrigger::Exp1PdlOnHigh => 0x07,
            AssignInternalTrigger::ExpPdlSw => 0x08,
            AssignInternalTrigger::GkS1 => 0x09,
            AssignInternalTrigger::GkS2 => 0x0A,
        }
    }

    /// Law: every variant has a byte below 11, and that byte decodes back
    /// to the variant.
    pub proof fn lemma_round_trip(self)
        ensures
            self.byte_spec() < 11,
            Self::from_byte_spec(self.byte_spec()) == Some(self),
    {
    }

    /// Law: exactly the bytes below 11 decode, and each decodes to the
    /// variant whose byte it is.
    pub proof fn lemma_byte_round_trip(b: u8)
        ensures
            Self::from_byte_spec(b) is Some <==> b < 11,
            Self::from_byte_spec(b) matches Some(v) ==> v.byte_spec() == b,
    {
    }

    /// Law: the parameter's wire table: each byte listed decodes to the
    /// variant beside it, and each variant is written as its byte.
    pub proof fn lemma_wire_table()
        ensures
            Self::from_byte_spec(0x00) == Some(AssignInternalTrigger::PatchChange),
            Self::from_byte_spec(0x01) == Some(AssignInternalTrigger::CtrlPdl),
            Self::from_byte_spec(0x02) == Some(AssignInternalTrigger::Exp1PdlLow),
            Self::from_byte_spec(0x03) == Some(AssignInternalTrigger::Exp1PdlMid),
            Self::from_byte_spec(0x04) == Some(AssignInternalTrigger::Exp1PdlHigh),
            Self::from_byte_spec(0x05) == Some(AssignInternalTrigger::Exp1PdlOnLow),
            Self::from_byte_spec(0x06) == Some(AssignInternalTrigger::Exp1PdlOnMid),
            Self::from_byte_spec(0x07) == Some(AssignInternalTrigger::Exp1PdlOnHigh),
            Self::from_byte_spec(0x08) == Some(AssignInternalTrigger::ExpPdlSw),
            Self::from_byte_spec(0x09) == Some(AssignInternalTrigger::GkS1),
            Self::from_byte_spec(0x0A) == Some(AssignInternalTrigger::GkS2),
            AssignInternalTrigger::PatchChange.byte_spec() == 0x00,
            AssignInternalTrigger::CtrlPdl.byte_spec() == 0x01,
            AssignInternalTrigger::Exp1PdlLow.byte_spec() == 0x02,
            AssignInternalTrigger::Exp1PdlMid.byte_spec() == 0x03,
            AssignInternalTrigger::Exp1PdlHigh.byte_spec() == 0x04,
            AssignInternalTrigger::Exp1PdlOnLow.byte_spec() == 0x05,
            AssignInternalTrigger::Exp1PdlOnMid.byte_spec() == 0x06,
            AssignInternalTrigger::Exp1PdlOnHigh.byte_spec() == 0x07,
            AssignInternalTrigger::ExpPdlSw.byte_spec() == 0x08,
            AssignInternalTrigger::GkS1.byte_spec() == 0x09,
            AssignInternalTrigger::GkS2.byte_spec() == 0x0A,
    {
    }
}

/// Internal-pedal acceleration curve.
#[derive(Debug, Clone, Copy, PartialEq, Eq, Structural)]
pub enum AssignIntPdlCurve {
    Linear,
    SlowRise,
    FastRise,
}

impl AssignIntPdlCurve {
    /// Wire byte of each variant.
    pub open spec fn byte_spec(self) -> u8 {
        match self {
            AssignIntPdlCurve::Linear => 0x00,
            AssignIntPdlCurve::SlowRise => 0x01,
            AssignIntPdlCurve::FastRise => 0x02,
        }
    }

    /// The variant a wire byte stands for, if any.
    pub open spec fn from_byte_spec(b: u8) -> Option<Self> {
        if b == 0x00 {
            Some(AssignIntPdlCurve::Linear)
        } else if b == 0x01 {
            Some(AssignIntPdlCurve::SlowRise)
        } else if b == 0x02 {
            Some(AssignIntPdlCurve::FastRise)
        } else {
            None
        }
    }

    pub fn from_byte(b: u8) -> (r: Option<Self>)
        ensures
            r == Self::from_byte_spec(b),
    {
        match b {
            0x00 => Some(AssignIntPdlCurve::Linear),
            0x01 => Some(AssignIntPdlCurve::SlowRise),
            0x02 => Some(AssignIntPdlCurve::FastRise),
            _ => None,
        }
    }

    pub fn to_byte(self) -> (r: u8)
        ensures
            r == self.byte_spec(),
    {
        match self {
            AssignIntPdlCurve::Linear => 0x00,
            AssignIntPdlCurve::SlowRise => 0x01,
            AssignIntPdlCurve::FastRise => 0x02,
        }
    }

    /// Law: every variant has a byte below 3, and that byte decodes back
    /// to the variant.
    pub proof fn lemma_round_trip(self)
        ensures
            self.byte_spec() < 3,
            Self::from_byte_spec(self.byte_spec()) == Some(self),
    {
    }

    /// Law: exactly the bytes below 3 decode, and each decodes to the
    /// variant whose byte it is.
    pub proof fn lemma_byte_round_trip(b: u8)
        ensures
            Self::from_byte_spec(b) is Some <==> b < 3,
            Self::from_byte_spec(b) matches Some(v) ==> v.byte_spec() == b,
    {
    }

    /// Law: the parameter's wire table: each byte listed decodes to the
    /// variant beside it, and each variant is written as its byte.
    pub proof fn lemma_wire_table()
        ensures
            Self::from_byte_spec(0x00) == Some(AssignIntPdlCurve::Linear),
            Self::from_byte_spec(0x01) == Some(AssignIntPdlCurve::SlowRise),
            Self::from_byte_spec(0x02) == Some(AssignIntPdlCurve::FastRise),
            AssignIntPdlCurve::Linear.byte_spec() == 0x00,
            AssignIntPdlCurve::SlowRise.byte_spec() == 0x01,
            AssignIntPdlCurve::FastRise.byte_spec() == 0x02,
    {
    }
}

/// Wave-pedal LFO waveform.
#[derive(Debug, Clone, Copy, PartialEq, Eq, Structural)]
pub enum AssignWaveForm {
    Saw,
    Triangle,
    Sine,
}

impl AssignWaveForm {
    /// Wire byte of each variant.
    pub open spec fn byte_spec(self) -> u8 {
        match self {
            AssignWaveForm::Saw => 0x00,
            AssignWaveForm::Triangle => 0x01,
            AssignWaveForm::Sine => 0x02,
        }
    }

    /// The variant a wire byte stands for, if any.
    pub open spec fn from_byte_spec(b: u8) -> Option<Self> {
        if b == 0x00 {
            Some(AssignWaveForm::Saw)
        } else if b == 0x01 {
            Some(AssignWaveForm::Triangle)
        } else if b == 0x02 {
            Some(AssignWaveForm::Sine)
        } else {
            None
        }
    }

    pub fn from_byte(b: u8) -> (r: Option<Self>)
        ensures
            r == Self::from_byte_spec(b),
    {
        match b {
            0x00 => Some(AssignWaveForm::Saw),
            0x01 => Some(AssignWaveForm::Triangle),
            0x02 => Some(AssignWaveForm::Sine),
            _ => None,
        }
    }

    pub fn to_byte(self) -> (r: u8)
        ensures
            r == self.byte_spec(),
    {
        match self {
            AssignWaveForm::Saw => 0x00,
            AssignWaveForm::Triangle => 0x01,
            AssignWaveForm::Sine => 0x02,
        }
    }

    /// Law: every variant has a byte below 3, and that byte decodes back
    /// to the variant.
    pub proof fn lemma_round_trip(self)
        ensures
            self.byte_spec() < 3,
            Self::from_byte_spec(self.byte_spec()) == Some(self),
    {
    }

    /// Law: exactly the bytes below 3 decode, and each decodes to the
    /// variant whose byte it is.
    pub proof fn lemma_byte_round_trip(b: u8)
        ensures
            Self::from_byte_spec(b) is Some <==> b < 3,
            Self::from_byte_spec(b) matches Some(v) ==> v.byte_spec() == b,
    {
    }

    /// Law: the parameter's wire table: each byte listed decodes to the
    /// variant beside it, and each variant is written as its byte.
    pub proof fn lemma_wire_table()
        ensures
            Self::from_byte_spec(0x00) == Some(AssignWaveForm::Saw),
            Self::from_byte_spec(0x01) == Some(AssignWaveForm::Triangle),
            Self::from_byte_spec(0x02) == Some(AssignWaveForm::Sine),
            AssignWaveForm::Saw.byte_spec() == 0x00,
            AssignWaveForm::Triangle.byte_spec() == 0x01,
            AssignWaveForm::Sine.byte_spec() == 0x02,
    {
    }
}

/// MFX effect type selector at page `0x03` (or `0x04` for MFX 2)
/// offset `0x05`. 20 variants. Mined from FloorBoard `midi.xml:40735-40755`.
#[derive(Debug, Clone, Copy, PartialEq, Eq, Structural)]
pub enum MfxType {
    Equalizer,
    SuperFilter,
    Phaser,
    StepPhaser,
    RingModulator,
    Tremolo,
    AutoPan,
    Slicer,
    VkRotary,
    HexaChorus,
    SpaceD,
    Flanger,
    StepFlanger,
    GuitarAmpSim,
    Compressor,
    Limiter,
    ThreeTapPanDelay,
    TimeCtrlDelay,
    LofiCompressor,
    PitchShifter,
}

impl MfxType {
    /// Wire byte of each variant.
    pub open spec fn byte_spec(self) -> u8 {
        match self {
            MfxType::Equalizer => 0x00,
            MfxType::SuperFilter => 0x01,
            MfxType::Phaser => 0x02,
            MfxType::StepPhaser => 0x03,
            MfxType::RingModulator => 0x04,
            MfxType::Tremolo => 0x05,
            MfxType::AutoPan => 0x06,
            MfxType::Slicer => 0x07,
            MfxType::VkRotary => 0x08,
            MfxType::HexaChorus => 0x09,
            MfxType::SpaceD => 0x0A,
            MfxType::Flanger => 0x0B,
            MfxType::StepFlanger => 0x0C,
            MfxType::GuitarAmpSim => 0x0D,
            MfxType::Compressor => 0x0E,
            MfxType::Limiter => 0x0F,
            MfxType::ThreeTapPanDelay => 0x10,
            MfxType::TimeCtrlDelay => 0x11,
            MfxType::LofiCompressor => 0x12,
            MfxType::PitchShifter => 0x13,
        }
    }

    /// The variant a wire byte stands for, if any.
    pub open spec fn from_byte_spec(b: u8) -> Option<Self> {
        if b == 0x00 {
            Some(MfxType::Equalizer)
        } else if b == 0x01 {
            Some(MfxType::SuperFilter)
        } else if b == 0x02 {
            Some(MfxType::Phaser)
        } else if b == 0x03 {
            Some(MfxType::StepPhaser)
        } else if b == 0x04 {
            Some(MfxType::RingModulator)
        } else if b == 0x05 {
            Some(MfxType::Tremolo)
        } else if b == 0x06 {
            Some(MfxType::AutoPan)
        } else if b == 0x07 {
            Some(MfxType::Slicer)
        } else if b == 0x08 {
            Some(MfxType::VkRotary)
        } else if b == 0x09 {
            Some(MfxType::HexaChorus)
        } else if b == 0x0A {
            Some(MfxType::SpaceD)
        } else if b == 0x0B {
            Some(MfxType::Flanger)
        } else if b == 0x0C {
            Some(MfxType::StepFlanger)
        } else if b == 0x0D {
            Some(MfxType::GuitarAmpSim)
        } else if b == 0x0E {
            Some(MfxType::Compressor)
        } else if b == 0x0F {
            Some(MfxType::Limiter)
        } else if b == 0x10 {
            Some(MfxType::ThreeTapPanDelay)
        } else if b == 0x11 {
            Some(MfxType::TimeCtrlDelay)
        } else if b == 0x12 {
            Some(MfxType::LofiCompressor)
        } else if b == 0x13 {
            Some(MfxType::PitchShifter)
        } else {
            None
        }
    }

    pub fn from_byte(b: u8) -> (r: Option<Self>)
        ensures
            r == Self::from_byte_spec(b),
    {
        match b {
            0x00 => Some(MfxType::Equalizer),
            0x01 => Some(MfxType::SuperFilter),
            0x02 => Some(MfxType::Phaser),
            0x03 => Some(MfxType::StepPhaser),
            0x04 => Some(MfxType::RingModulator),
            0x05 => Some(MfxType::Tremolo),
            0x06 => Some(MfxType::AutoPan),
            0x07 => Some(MfxType::Slicer),
            0x08 => Some(MfxType::VkRotary),
            0x09 => Some(MfxType::HexaChorus),
            0x0A => Some(MfxType::SpaceD),
            0x0B => Some(MfxType::Flanger),
            0x0C => Some(MfxType::StepFlanger),
            0x0D => Some(MfxType::GuitarAmpSim),
            0x0E => Some(MfxType::Compressor),
            0x0F => Some(MfxType::Limiter),
            0x10 => Some(MfxType::ThreeTapPanDelay),
            0x11 => Some(MfxType::TimeCtrlDelay),
            0x12 => Some(MfxType::LofiCompressor),
            0x13 => Some(MfxType::PitchShifter),
            _ => None,
        }
    }

    pub fn to_byte(self) -> (r: u8)
        ensures
            r == self.byte_spec(),
    {
        match self {
            MfxType::Equalizer => 0x00,
            MfxType::SuperFilter => 0x01,
            MfxType::Phaser => 0x02,
            MfxType::StepPhaser => 0x03,
            MfxType::RingModulator => 0x04,
            MfxType::Tremolo => 0x05,
            MfxType::AutoPan => 0x06,
            MfxType::Slicer => 0x07,
            MfxType::VkRotary => 0x08,
            MfxType::HexaChorus => 0x09,
            MfxType::SpaceD => 0x0A,
            MfxType::Flanger => 0x0B,
            MfxType::StepFlanger => 0x0C,
            MfxType::GuitarAmpSim => 0x0D,
            MfxType::Compressor => 0x0E,
            MfxType::Limiter => 0x0F,
            MfxType::ThreeTapPanDelay => 0x10,
            MfxType::TimeCtrlDelay => 0x11,
            MfxType::LofiCompressor => 0x12,
            MfxType::PitchShifter => 0x13,
        }
    }

    /// Law: every variant has a byte below 20, and that byte decodes back
    /// to the variant.
    pub proof fn lemma_round_trip(self)
        ensures
            self.byte_spec() < 20,
            Self::from_byte_spec(self.byte_spec()) == Some(self),
    {
    }

    /// Law: exactly the bytes below 20 decode, and each decodes to the
    /// variant whose byte it is.
    pub proof fn lemma_byte_round_trip(b: u8)
        ensures
            Self::from_byte_spec(b) is Some <==> b < 20,
            Self::from_byte_spec(b) matches Some(v) ==> v.byte_spec() == b,
    {
    }

    /// Law: the parameter's wire table: each byte listed decodes to the
    /// variant beside it, and each variant is written as its byte.
    pub proof fn lemma_wire_table()
        ensures
            Self::from_byte_spec(0x00) == Some(MfxType::Equalizer),
            Self::from_byte_spec(0x01) == Some(MfxType::SuperFilter),
            Self::from_byte_spec(0x02) == Some(MfxType::Phaser),
            Self::from_byte_spec(0x03) == Some(MfxType::StepPhaser),
            Self::from_byte_spec(0x04) == Some(MfxType::RingModulator),
            Self::from_byte_spec(0x05) == Some(MfxType::Tremolo),
            Self::from_byte_spec(0x06) == Some(MfxType::AutoPan),
            Self::from_byte_spec(0x07) == Some(MfxType::Slicer),
            Self::from_byte_spec(0x08) == Some(MfxType::VkRotary),
            Self::from_byte_spec(0x09) == Some(MfxType::HexaChorus),
            Self::from_byte_spec(0x0A) == Some(MfxType::SpaceD),
            Self::from_byte_spec(0x0B) == Some(MfxType::Flanger),
            Self::from_byte_spec(0x0C) == Some(MfxType::StepFlanger),
            Self::from_byte_spec(0x0D) == Some(MfxType::GuitarAmpSim),
            Self::from_byte_spec(0x0E) == Some(MfxType::Compressor),
            Self::from_byte_spec(0x0F) == Some(MfxType::Limiter),
            Self::from_byte_spec(0x10) == Some(MfxType::ThreeTapPanDelay),
            Self::from_byte_spec(0x11) == Some(MfxType::TimeCtrlDelay),
            Self::from_byte_spec(0x12) == Some(MfxType::LofiCompressor),
            Self::from_byte_spec(0x13) == Some(MfxType::PitchShifter),
            MfxType::Equalizer.byte_spec() == 0x00,
            MfxType::SuperFilter.byte_spec() == 0x01,
            MfxType::Phaser.byte_spec() == 0x02,
            MfxType::StepPhaser.byte_spec() == 0x03,
            MfxType::RingModulator.byte_spec() == 0x04,
            MfxType::Tremolo.byte_spec() == 0x05,
            MfxType::AutoPan.byte_spec() == 0x06,
            MfxType::Slicer.byte_spec() == 0x07,
            MfxType::VkRotary.byte_spec() == 0x08,
            MfxType::HexaChorus.byte_spec() == 0x09,
            MfxType::SpaceD.byte_spec() == 0x0A,
            MfxType::Flanger.byte_spec() == 0x0B,
            MfxType::StepFlanger.byte_spec() == 0x0C,
            MfxType::GuitarAmpSim.byte_spec() == 0x0D,
            MfxType::Compressor.byte_spec() == 0x0E,
            MfxType::Limiter.byte_spec() == 0x0F,
            MfxType::ThreeTapPanDelay.byte_spec() == 0x10,
            MfxType::TimeCtrlDelay.byte_spec() == 0x11,
            MfxType::LofiCompressor.byte_spec() == 0x12,
            MfxType::PitchShifter.byte_spec() == 0x13,
    {
    }
}

/// MFX EQ "Low" band frequency (2 settings).
#[derive(Debug, Clone, Copy, PartialEq, Eq, Structural)]
pub enum EqLowFreq {
    Hz200,
    Hz400,
}

impl EqLowFreq {
    /// Wire byte of each variant.
    pub open spec fn byte_spec(self) -> u8 {
        match self {
            EqLowFreq::Hz200 => 0x00,
            EqLowFreq::Hz400 => 0x01,
        }
    }

    /// The variant a wire byte stands for, if any.
    pub open spec fn from_byte_spec(b: u8) -> Option<Self> {
        if b == 0x00 {
            Some(EqLowFreq::Hz200)
        } else if b == 0x01 {
            Some(EqLowFreq::Hz400)
        } else {
            None
        }
    }

    pub fn from_byte(b: u8) -> (r: Option<Self>)
        ensures
            r == Self::from_byte_spec(b),
    {
        match b {
            0x00 => Some(EqLowFreq::Hz200),
            0x01 => Some(EqLowFreq::Hz400),
            _ => None,
        }
    }

    pub fn to_byte(self) -> (r: u8)
        ensures
            r == self.byte_spec(),
    {
        match self {
            EqLowFreq::Hz200 => 0x00,
            EqLowFreq::Hz400 => 0x01,
        }
    }

    /// Law: every variant has a byte below 2, and that byte decodes back
    /// to the variant.
    pub proof fn lemma_round_trip(self)
        ensures
            self.byte_spec() < 2,
            Self::from_byte_spec(self.byte_spec()) == Some(self),
    {
    }

    /// Law: exactly the bytes below 2 decode, and each decodes to the
    /// variant whose byte it is.
    pub proof fn lemma_byte_round_trip(b: u8)
        ensures
            Self::from_byte_spec(b) is Some <==> b < 2,
            Self::from_byte_spec(b) matches Some(v) ==> v.byte_spec() == b,
    {
    }

    /// Law: the parameter's wire table: each byte listed decodes to the
    /// variant beside it, and each variant is written as its byte.
    pub proof fn lemma_wire_table()
        ensures
            Self::from_byte_spec(0x00) == Some(EqLowFreq::Hz200),
            Self::from_byte_spec(0x01) == Some(EqLowFreq::Hz400),
            EqLowFreq::Hz200.byte_spec() == 0x00,
            EqLowFreq::Hz400.byte_spec() == 0x01,
    {
    }
}

/// MFX EQ "Mid" band frequency (17 settings, 200Hz..=8.0kHz).
#[derive(Debug, Clone, Copy, PartialEq, Eq, Structural)]
pub enum EqMidFreq {
    Hz200,
    Hz250,
    Hz315,
    Hz400,
    Hz500,
    Hz630,
    Hz800,
    Khz1_0,
    Khz1_25,
    Khz1_6,
    Khz2_0,
    Khz2_5,
    Khz3_15,
    Khz4_0,
    Khz5_0,
    Khz6_3,
    Khz8_0,
}

impl EqMidFreq {
    /// Wire byte of each variant.
    pub open spec fn byte_spec(self) -> u8 {
        match self {
            EqMidFreq::Hz200 => 0x00,
            EqMidFreq::Hz250 => 0x01,
            EqMidFreq::Hz315 => 0x02,
            EqMidFreq::Hz400 => 0x03,
            EqMidFreq::Hz500 => 0x04,
            EqMidFreq::Hz630 => 0x05,
            EqMidFreq::Hz800 => 0x06,
            EqMidFreq::Khz1_0 => 0x07,
            EqMidFreq::Khz1_25 => 0x08,
            EqMidFreq::Khz1_6 => 0x09,
            EqMidFreq::Khz2_0 => 0x0A,
            EqMidFreq::Khz2_5 => 0x0B,
            EqMidFreq::Khz3_15 => 0x0C,
            EqMidFreq::Khz4_0 => 0x0D,
            EqMidFreq::Khz5_0 => 0x0E,
            EqMidFreq::Khz6_3 => 0x0F,
            EqMidFreq::Khz8_0 => 0x10,
        }
    }

    /// The variant a wire byte stands for, if any.
    pub open spec fn from_byte_spec(b: u8) -> Option<Self> {
        if b == 0x00 {
            Some(EqMidFreq::Hz200)
        } else if b == 0x01 {
            Some(EqMidFreq::Hz250)
        } else if b == 0x02 {
            Some(EqMidFreq::Hz315)
        } else if b == 0x03 {
            Some(EqMidFreq::Hz400)
        } else if b == 0x04 {
            Some(EqMidFreq::Hz500)
        } else if b == 0x05 {
            Some(EqMidFreq::Hz630)
        } else if b == 0x06 {
            Some(EqMidFreq::Hz800)
        } else if b == 0x07 {
            Some(EqMidFreq::Khz1_0)
        } else if b == 0x08 {
            Some(EqMidFreq::Khz1_25)
        } else if b == 0x09 {
            Some(EqMidFreq::Khz1_6)
        } else if b == 0x0A {
            Some(EqMidFreq::Khz2_0)
        } else if b == 0x0B {
            Some(EqMidFreq::Khz2_5)
        } else if b == 0x0C {
            Some(EqMidFreq::Khz3_15)
        } else if b == 0x0D {
            Some(EqMidFreq::Khz4_0)
        } else if b == 0x0E {
            Some(EqMidFreq::Khz5_0)
        } else if b == 0x0F {
            Some(EqMidFreq::Khz6_3)
        } else if b == 0x10 {
            Some(EqMidFreq::Khz8_0)
        } else {
            None
        }
    }

    pub fn from_byte(b: u8) -> (r: Option<Self>)
        ensures
            r == Self::from_byte_spec(b),
    {
        match b {
            0x00 => Some(EqMidFreq::Hz200),
            0x01 => Some(EqMidFreq::Hz250),
            0x02 => Some(EqMidFreq::Hz315),
            0x03 => Some(EqMidFreq::Hz400),
            0x04 => Some(EqMidFreq::Hz500),
            0x05 => Some(EqMidFreq::Hz630),
            0x06 => Some(EqMidFreq::Hz800),
            0x07 => Some(EqMidFreq::Khz1_0),
            0x08 => Some(EqMidFreq::Khz1_25),
            0x09 => Some(EqMidFreq::Khz1_6),
            0x0A => Some(EqMidFreq::Khz2_0),
            0x0B => Some(EqMidFreq::Khz2_5),
            0x0C => Some(EqMidFreq::Khz3_15),
            0x0D => Some(EqMidFreq::Khz4_0),
            0x0E => Some(EqMidFreq::Khz5_0),
            0x0F => Some(EqMidFreq::Khz6_3),
            0x10 => Some(EqMidFreq::Khz8_0),
            _ => None,
        }
    }

    pub fn to_byte(self) -> (r: u8)
        ensures
            r == self.byte_spec(),
    {
        match self {
            EqMidFreq::Hz200 => 0x00,
            EqMidFreq::Hz250 => 0x01,
            EqMidFreq::Hz315 => 0x02,
            EqMidFreq::Hz400 => 0x03,
            EqMidFreq::Hz500 => 0x04,
            EqMidFreq::Hz630 => 0x05,
            EqMidFreq::Hz800 => 0x06,
            EqMidFreq::Khz1_0 => 0x07,
            EqMidFreq::Khz1_25 => 0x08,
            EqMidFreq::Khz1_6 => 0x09,
            EqMidFreq::Khz2_0 => 0x0A,
            EqMidFreq::Khz2_5 => 0x0B,
            EqMidFreq::Khz3_15 => 0x0C,
            EqMidFreq::Khz4_0 => 0x0D,
            EqMidFreq::Khz5_0 => 0x0E,
            EqMidFreq::Khz6_3 => 0x0F,
            EqMidFreq::Khz8_0 => 0x10,
        }
    }

    /// Law: every variant has a byte below 17, and that byte decodes back
    /// to the variant.
    pub proof fn lemma_round_trip(self)
        ensures
            self.byte_spec() < 17,
            Self::from_byte_spec(self.byte_spec()) == Some(self),
    {
    }

    /// Law: exactly the bytes below 17 decode, and each decodes to the
    /// variant whose byte it is.
    pub proof fn lemma_byte_round_trip(b: u8)
        ensures
            Self::from_byte_spec(b) is Some <==> b < 17,
            Self::from_byte_spec(b) matches Some(v) ==> v.byte_spec() == b,
    {
    }

    /// Law: the parameter's wire table: each byte listed decodes to the
    /// variant beside it, and each variant is written as its byte.
    pub proof fn lemma_wire_table()
        ensures
            Self::from_byte_spec(0x00) == Some(EqMidFreq::Hz200),
            Self::from_byte_spec(0x01) == Some(EqMidFreq::Hz250),
            Self::from_byte_spec(0x02) == Some(EqMidFreq::Hz315),
            Self::from_byte_spec(0x03) == Some(EqMidFreq::Hz400),
            Self::from_byte_spec(0x04) == Some(EqMidFreq::Hz500),
            Self::from_byte_spec(0x05) == Some(EqMidFreq::Hz630),
            Self::from_byte_spec(0x06) == Some(EqMidFreq::Hz800),
            Self::from_byte_spec(0x07) == Some(EqMidFreq::Khz1_0),
            Self::from_byte_spec(0x08) == Some(EqMidFreq::Khz1_25),
            Self::from_byte_spec(0x09) == Some(EqMidFreq::Khz1_6),
            Self::from_byte_spec(0x0A) == Some(EqMidFreq::Khz2_0),
            Self::from_byte_spec(0x0B) == Some(EqMidFreq::Khz2_5),
            Self::from_byte_spec(0x0C) == Some(EqMidFreq::Khz3_15),
            Self::from_byte_spec(0x0D) == Some(EqMidFreq::Khz4_0),
            Self::from_byte_spec(0x0E) == Some(EqMidFreq::Khz5_0),
            Self::from_byte_spec(0x0F) == Some(EqMidFreq::Khz6_3),
            Self::from_byte_spec(0x10) == Some(EqMidFreq::Khz8_0),
            EqMidFreq::Hz200.byte_spec() == 0x00,
            EqMidFreq::Hz250.byte_spec() == 0x01,
            EqMidFreq::Hz315.byte_spec() == 0x02,
            EqMidFreq::Hz400.byte_spec() == 0x03,
            EqMidFreq::Hz500.byte_spec() == 0x04,
            EqMidFreq::Hz630.byte_spec() == 0x05,
            EqMidFreq::Hz800.byte_spec() == 0x06,
            EqMidFreq::Khz1_0.byte_spec() == 0x07,
            EqMidFreq::Khz1_25.byte_spec() == 0x08,
            EqMidFreq::Khz1_6.byte_spec() == 0x09,
            EqMidFreq::Khz2_0.byte_spec() == 0x0A,
            EqMidFreq::Khz2_5.byte_spec() == 0x0B,
            EqMidFreq::Khz3_15.byte_spec() == 0x0C,
            EqMidFreq::Khz4_0.byte_spec() == 0x0D,
            EqMidFreq::Khz5_0.byte_spec() == 0x0E,
            EqMidFreq::Khz6_3.byte_spec() == 0x0F,
            EqMidFreq::Khz8_0.byte_spec() == 0x10,
    {
    }
}

/// MFX EQ "Mid" band Q factor (5 settings).
#[derive(Debug, Clone, Copy, PartialEq, Eq, Structural)]
pub enum EqMidQ {
    Q0_5,
    Q1,
    Q2,
    Q4,
    Q8,
}

impl EqMidQ {
    /// Wire byte of each variant.
    pub open spec fn byte_spec(self) -> u8 {
        match self {
            EqMidQ::Q0_5 => 0x00,
            EqMidQ::Q1 => 0x01,
            EqMidQ::Q2 => 0x02,
            EqMidQ::Q4 => 0x03,
            EqMidQ::Q8 => 0x04,
        }
    }

    /// The variant a wire byte stands for, if any.
    pub open spec fn from_byte_spec(b: u8) -> Option<Self> {
        if b == 0x00 {
            Some(EqMidQ::Q0_5)
        } else if b == 0x01 {
            Some(EqMidQ::Q1)
        } else if b == 0x02 {
            Some(EqMidQ::Q2)
        } else if b == 0x03 {
            Some(EqMidQ::Q4)
        } else if b == 0x04 {
            Some(EqMidQ::Q8)
        } else {
            None
        }
    }

    pub fn from_byte(b: u8) -> (r: Option<Self>)
        ensures
            r == Self::from_byte_spec(b),
    {
        match b {
            0x00 => Some(EqMidQ::Q0_5),
            0x01 => Some(EqMidQ::Q1),
            0x02 => Some(EqMidQ::Q2),
            0x03 => Some(EqMidQ::Q4),
            0x04 => Some(EqMidQ::Q8),
            _ => None,
        }
    }

    pub fn to_byte(self) -> (r: u8)
        ensures
            r == self.byte_spec(),
    {
        match self {
            EqMidQ::Q0_5 => 0x00,
            EqMidQ::Q1 => 0x01,
            EqMidQ::Q2 => 0x02,
            EqMidQ::Q4 => 0x03,
            EqMidQ::Q8 => 0x04,
        }
    }

    /// Law: every variant has a byte below 5, and that byte decodes back
    /// to the variant.
    pub proof fn lemma_round_trip(self)
        ensures
            self.byte_spec() < 5,
            Self::from_byte_spec(self.byte_spec()) == Some(self),
    {
    }

    /// Law: exactly the bytes below 5 decode, and each decodes to the
    /// variant whose byte it is.
    pub proof fn lemma_byte_round_trip(b: u8)
        ensures
            Self::from_byte_spec(b) is Some <==> b < 5,
            Self::from_byte_spec(b) matches Some(v) ==> v.byte_spec() == b,
    {
    }

    /// Law: the parameter's wire table: each byte listed decodes to the
    /// variant beside it, and each variant is written as its byte.
    pub proof fn lemma_wire_table()
        ensures
            Self::from_byte_spec(0x00) == Some(EqMidQ::Q0_5),
            Self::from_byte_spec(0x01) == Some(EqMidQ::Q1),
            Self::from_byte_spec(0x02) == Some(EqMidQ::Q2),
            Self::from_byte_spec(0x03) == Some(EqMidQ::Q4),
            Self::from_byte_spec(0x04) == Some(EqMidQ::Q8),
            EqMidQ::Q0_5.byte_spec() == 0x00,
            EqMidQ::Q1.byte_spec() == 0x01,
            EqMidQ::Q2.byte_spec() == 0x02,
            EqMidQ::Q4.byte_spec() == 0x03,
            EqMidQ::Q8.byte_spec() == 0x04,
    {
    }
}

/// MFX EQ "High" band frequency (3 settings).
#[derive(Debug, Clone, Copy, PartialEq, Eq, Structural)]
pub enum EqHighFreq {
    Khz2_0,
    Khz4_0,
    Khz8_0,
}

impl EqHighFreq {
    /// Wire byte of each variant.
    pub open spec fn byte_spec(self) -> u8 {
        match self {
            EqHighFreq::Khz2_0 => 0x00,
            EqHighFreq::Khz4_0 => 0x01,
            EqHighFreq::Khz8_0 => 0x02,
        }
    }

    /// The variant a wire byte stands for, if any.
    pub open spec fn from_byte_spec(b: u8) -> Option<Self> {
        if b == 0x00 {
            Some(EqHighFreq::Khz2_0)
        } else if b == 0x01 {
            Some(EqHighFreq::Khz4_0)
        } else if b == 0x02 {
            Some(EqHighFreq::Khz8_0)
        } else {
            None
        }
    }

    pub fn from_byte(b: u8) -> (r: Option<Self>)
        ensures
            r == Self::from_byte_spec(b),
    {
        match b {
            0x00 => Some(EqHighFreq::Khz2_0),
            0x01 => Some(EqHighFreq::Khz4_0),
            0x02 => Some(EqHighFreq::Khz8_0),
            _ => None,
        }
    }

    pub fn to_byte(self) -> (r: u8)
        ensures
            r == self.byte_spec(),
    {
        match self {
            EqHighFreq::Khz2_0 => 0x00,
            EqHighFreq::Khz4_0 => 0x01,
            EqHighFreq::Khz8_0 => 0x02,
        }
    }

    /// Law: every variant has a byte below 3, and that byte decodes back
    /// to the variant.
    pub proof fn lemma_round_trip(self)
        ensures
            self.byte_spec() < 3,
            Self::from_byte_spec(self.byte_spec()) == Some(self),
    {
    }

    /// Law: exactly the bytes below 3 decode, and each decodes to the
    /// variant whose byte it is.
    pub proof fn lemma_byte_round_trip(b: u8)
        ensures
            Self::from_byte_spec(b) is Some <==> b < 3,
            Self::from_byte_spec(b) matches Some(v) ==> v.byte_spec() == b,
    {
    }

    /// Law: the parameter's wire table: each byte listed decodes to the
    /// variant beside it, and each variant is written as its byte.
    pub proof fn lemma_wire_table()
        ensures
            Self::from_byte_spec(0x00) == Some(EqHighFreq::Khz2_0),
            Self::from_byte_spec(0x01) == Some(EqHighFreq::Khz4_0),
            Self::from_byte_spec(0x02) == Some(EqHighFreq::Khz8_0),
            EqHighFreq::Khz2_0.byte_spec() == 0x00,
            EqHighFreq::Khz4_0.byte_spec() == 0x01,
            EqHighFreq::Khz8_0.byte_spec() == 0x02,
    {
    }
}

/// PCM tone portamento switch at PCM-page offset `0x0C`.
#[derive(Debug, Clone, Copy, PartialEq, Eq, Structural)]
pub enum PortamentoSwitch {
    Off,
    On,
    Tone,
}

impl PortamentoSwitch {
    /// Wire byte of each variant.
    pub open spec fn byte_spec(self) -> u8 {
        match self {
            PortamentoSwitch::Off => 0x00,
            PortamentoSwitch::On => 0x01,
            PortamentoSwitch::Tone => 0x02,
        }
    }

    /// The variant a wire byte stands for, if any.
    pub open spec fn from_byte_spec(b: u8) -> Option<Self> {
        if b == 0x00 {
            Some(PortamentoSwitch::Off)
        } else if b == 0x01 {
            Some(PortamentoSwitch::On)
        } else if b == 0x02 {
            Some(PortamentoSwitch::Tone)
        } else {
            None
        }
    }

    pub fn from_byte(b: u8) -> (r: Option<Self>)
        ensures
            r == Self::from_byte_spec(b),
    {
        match b {
            0x00 => Some(PortamentoSwitch::Off),
            0x01 => Some(PortamentoSwitch::On),
            0x02 => Some(PortamentoSwitch::Tone),
            _ => None,
        }
    }

    pub fn to_byte(self) -> (r: u8)
        ensures
            r == self.byte_spec(),
    {
        match self {
            PortamentoSwitch::Off => 0x00,
            PortamentoSwitch::On => 0x01,
            PortamentoSwitch::Tone => 0x02,
        }
    }

    /// Law: every variant has a byte below 3, and that byte decodes back
    /// to the variant.
    pub proof fn lemma_round_trip(self)
        ensures
            self.byte_spec() < 3,
            Self::from_byte_spec(self.byte_spec()) == Some(self),
    {
    }

    /// Law: exactly the bytes below 3 decode, and each decodes to the
    /// variant whose byte it is.
    pub proof fn lemma_byte_round_trip(b: u8)
        ensures
            Self::from_byte_spec(b) is Some <==> b < 3,
            Self::from_byte_spec(b) matches Some(v) ==> v.byte_spec() == b,
    {
    }

    /// Law: the parameter's wire table: each byte listed decodes to the
    /// variant beside it, and each variant is written as its byte.
    pub proof fn lemma_wire_table()
        ensures
            Self::from_byte_spec(0x00) == Some(PortamentoSwitch::Off),
            Self::from_byte_spec(0x01) == Some(PortamentoSwitch::On),
            Self::from_byte_spec(0x02) == Some(PortamentoSwitch::Tone),
            PortamentoSwitch::Off.byte_spec() == 0x00,
            PortamentoSwitch::On.byte_spec() == 0x01,
            PortamentoSwitch::Tone.byte_spec() == 0x02,
    {
    }
}

/// PCM tone TVA release mode at PCM-page offset `0x0F`.
#[derive(Debug, Clone, Copy, PartialEq, Eq, Structural)]
pub enum TvaReleaseMode {
    Mode1,
    Mode2,
}

impl TvaReleaseMode {
    /// Wire byte of each variant.
    pub open spec fn byte_spec(self) -> u8 {
        match self {
            TvaReleaseMode::Mode1 => 0x00,
            TvaReleaseMode::Mode2 => 0x01,
        }
    }

    /// The variant a wire byte stands for, if any.
    pub open spec fn from_byte_spec(b: u8) -> Option<Self> {
        if b == 0x00 {
            Some(TvaReleaseMode::Mode1)
        } else if b == 0x01 {
            Some(TvaReleaseMode::Mode2)
        } else {
            None
        }
    }

    pub fn from_byte(b: u8) -> (r: Option<Self>)
        ensures
            r == Self::from_byte_spec(b),
    {
        match b {
            0x00 => Some(TvaReleaseMode::Mode1),
            0x01 => Some(TvaReleaseMode::Mode2),
            _ => None,
        }
    }

    pub fn to_byte(self) -> (r: u8)
        ensures
            r == self.byte_spec(),
    {
        match self {
            TvaReleaseMode::Mode1 => 0x00,
            TvaReleaseMode::Mode2 => 0x01,
        }
    }

    /// Law: every variant has a byte below 2, and that byte decodes back
    /// to the variant.
    pub proof fn lemma_round_trip(self)
        ensures
            self.byte_spec() < 2,
            Self::from_byte_spec(self.byte_spec()) == Some(self),
    {
    }

    /// Law: exactly the bytes below 2 decode, and each decodes to the
    /// variant whose byte it is.
    pub proof fn lemma_byte_round_trip(b: u8)
        ensures
            Self::from_byte_spec(b) is Some <==> b < 2,
            Self::from_byte_spec(b) matches Some(v) ==> v.byte_spec() == b,
    {
    }

    /// Law: the parameter's wire table: each byte listed decodes to the
    /// variant beside it, and each variant is written as its byte.
    pub proof fn lemma_wire_table()
        ensures
            Self::from_byte_spec(0x00) == Some(TvaReleaseMode::Mode1),
            Self::from_byte_spec(0x01) == Some(TvaReleaseMode::Mode2),
            TvaReleaseMode::Mode1.byte_spec() == 0x00,
            TvaReleaseMode::Mode2.byte_spec() == 0x01,
    {
    }
}

/// Guitar Mode modeling category at page `0x10` offset `0x00`. Selects
/// which of `gm_egtr_type` / `gm_acoustic_type` / `gm_ebass_type` /
/// `gm_synth_type` the device actually plays. Mined from FloorBoard
/// `midi.xml:43855-43860`.
#[derive(Debug, Clone, Copy, PartialEq, Eq, Structural)]
pub enum GuitarModeCategory {
    ElectricGuitar,
    Acoustic,
    ElectricBass,
    Synth,
}

impl GuitarModeCategory {
    /// Wire byte of each variant.
    pub open spec fn byte_spec(self) -> u8 {
        match self {
            GuitarModeCategory::ElectricGuitar => 0x00,
            GuitarModeCategory::Acoustic => 0x01,
            GuitarModeCategory::ElectricBass => 0x02,
            GuitarModeCategory::Synth => 0x03,
        }
    }

    /// The variant a wire byte stands for, if any.
    pub open spec fn from_byte_spec(b: u8) -> Option<Self> {
        if b == 0x00 {
            Some(GuitarModeCategory::ElectricGuitar)
        } else if b == 0x01 {
            Some(GuitarModeCategory::Acoustic)
        } else if b == 0x02 {
            Some(GuitarModeCategory::ElectricBass)
        } else if b == 0x03 {
            Some(GuitarModeCategory::Synth)
        } else {
            None
        }
    }

    pub fn from_byte(b: u8) -> (r: Option<Self>)
        ensures
            r == Self::from_byte_spec(b),
    {
        match b {
            0x00 => Some(GuitarModeCategory::ElectricGuitar),
            0x01 => Some(GuitarModeCategory::Acoustic),
            0x02 => Some(GuitarModeCategory::ElectricBass),
            0x03 => Some(GuitarModeCategory::Synth),
            _ => None,
        }
    }

    pub fn to_byte(self) -> (r: u8)
        ensures
            r == self.byte_spec(),
    {
        match self {
            GuitarModeCategory::ElectricGuitar => 0x00,
            GuitarModeCategory::Acoustic => 0x01,
            GuitarModeCategory::ElectricBass => 0x02,
            GuitarModeCategory::Synth => 0x03,
        }
    }

    /// Law: every variant has a byte below 4, and that byte decodes back
    /// to the variant.
    pub proof fn lemma_round_trip(self)
        ensures
            self.byte_spec() < 4,
            Self::from_byte_spec(self.byte_spec()) == Some(self),
    {
    }

    /// Law: exactly the bytes below 4 decode, and each decodes to the
    /// variant whose byte it is.
    pub proof fn lemma_byte_round_trip(b: u8)
        ensures
            Self::from_byte_spec(b) is Some <==> b < 4,
            Self::from_byte_spec(b) matches Some(v) ==> v.byte_spec() == b,
    {
    }

    /// Law: the parameter's wire table: each byte listed decodes to the
    /// variant beside it, and each variant is written as its byte.
    pub proof fn lemma_wire_table()
        ensures
            Self::from_byte_spec(0x00) == Some(GuitarModeCategory::ElectricGuitar),
            Self::from_byte_spec(0x01) == Some(GuitarModeCategory::Acoustic),
            Self::from_byte_spec(0x02) == Some(GuitarModeCategory::ElectricBass),
            Self::from_byte_spec(0x03) == Some(GuitarModeCategory::Synth),
            GuitarModeCategory::ElectricGuitar.byte_spec() == 0x00,
            GuitarModeCategory::Acoustic.byte_spec() == 0x01,
            GuitarModeCategory::ElectricBass.byte_spec() == 0x02,
            GuitarModeCategory::Synth.byte_spec() == 0x03,
    {
    }
}

/// Guitar Mode E.Guitar type at page `0x10` offset `0x01`. 10 vintage-amp /
/// instrument emulations. Mined from FloorBoard `midi.xml:43862-43873`.
#[derive(Debug, Clone, Copy, PartialEq, Eq, Structural)]
pub enum GmEGuitarType {
    ClassicStrat,
    ModernStrat,
    HhStrat,
    Telecaster,
    LesPaul,
    LesPaulP90,
    Lips,
    Rickenbacker,
    Gibson335,
    GibsonL4,
}

impl GmEGuitarType {
    /// Wire byte of each variant.
    pub open spec fn byte_spec(self) -> u8 {
        match self {
            GmEGuitarType::ClassicStrat => 0x00,
            GmEGuitarType::ModernStrat => 0x01,
            GmEGuitarType::HhStrat => 0x02,
            GmEGuitarType::Telecaster => 0x03,
            GmEGuitarType::LesPaul => 0x04,
            GmEGuitarType::LesPaulP90 => 0x05,
            GmEGuitarType::Lips => 0x06,
            GmEGuitarType::Rickenbacker => 0x07,
            GmEGuitarType::Gibson335 => 0x08,
            GmEGuitarType::GibsonL4 => 0x09,
        }
    }

    /// The variant a wire byte stands for, if any.
    pub open spec fn from_byte_spec(b: u8) -> Option<Self> {
        if b == 0x00 {
            Some(GmEGuitarType::ClassicStrat)
        } else if b == 0x01 {
            Some(GmEGuitarType::ModernStrat)
        } else if b == 0x02 {
            Some(GmEGuitarType::HhStrat)
        } else if b == 0x03 {
            Some(GmEGuitarType::Telecaster)
        } else if b == 0x04 {
            Some(GmEGuitarType::LesPaul)
        } else if b == 0x05 {
            Some(GmEGuitarType::LesPaulP90)
        } else if b == 0x06 {
            Some(GmEGuitarType::Lips)
        } else if b == 0x07 {
            Some(GmEGuitarType::Rickenbacker)
        } else if b == 0x08 {
            Some(GmEGuitarType::Gibson335)
        } else if b == 0x09 {
            Some(GmEGuitarType::GibsonL4)
        } else {
            None
        }
    }

    pub fn from_byte(b: u8) -> (r: Option<Self>)
        ensures
            r == Self::from_byte_spec(b),
    {
        match b {
            0x00 => Some(GmEGuitarType::ClassicStrat),
            0x01 => Some(GmEGuitarType::ModernStrat),
            0x02 => Some(GmEGuitarType::HhStrat),
            0x03 => Some(GmEGuitarType::Telecaster),
            0x04 => Some(GmEGuitarType::LesPaul),
            0x05 => Some(GmEGuitarType::LesPaulP90),
            0x06 => Some(GmEGuitarType::Lips),
            0x07 => Some(GmEGuitarType::Rickenbacker),
            0x08 => Some(GmEGuitarType::Gibson335),
            0x09 => Some(GmEGuitarType::GibsonL4),
            _ => None,
        }
    }

    pub fn to_byte(self) -> (r: u8)
        ensures
            r == self.byte_spec(),
    {
        match self {
            GmEGuitarType::ClassicStrat => 0x00,
            GmEGuitarType::ModernStrat => 0x01,
            GmEGuitarType::HhStrat => 0x02,
            GmEGuitarType::Telecaster => 0x03,
            GmEGuitarType::LesPaul => 0x04,
            GmEGuitarType::LesPaulP90 => 0x05,
            GmEGuitarType::Lips => 0x06,
            GmEGuitarType::Rickenbacker => 0x07,
            GmEGuitarType::Gibson335 => 0x08,
            GmEGuitarType::GibsonL4 => 0x09,
        }
    }

    /// Law: every variant has a byte below 10, and that byte decodes back
    /// to the variant.
    pub proof fn lemma_round_trip(self)
        ensures
            self.byte_spec() < 10,
            Self::from_byte_spec(self.byte_spec()) == Some(self),
    {
    }

    /// Law: exactly the bytes below 10 decode, and each decodes to the
    /// variant whose byte it is.
    pub proof fn lemma_byte_round_trip(b: u8)
        ensures
            Self::from_byte_spec(b) is Some <==> b < 10,
            Self::from_byte_spec(b) matches Some(v) ==> v.byte_spec() == b,
    {
    }

    /// Law: the parameter's wire table: each byte listed decodes to the
    /// variant beside it, and each variant is written as its byte.
    pub proof fn lemma_wire_table()
        ensures
            Self::from_byte_spec(0x00) == Some(GmEGuitarType::ClassicStrat),
            Self::from_byte_spec(0x01) == Some(GmEGuitarType::ModernStrat),
            Self::from_byte_spec(0x02) == Some(GmEGuitarType::HhStrat),
            Self::from_byte_spec(0x03) == Some(GmEGuitarType::Telecaster),
            Self::from_byte_spec(0x04) == Some(GmEGuitarType::LesPaul),
            Self::from_byte_spec(0x05) == Some(GmEGuitarType::LesPaulP90),
            Self::from_byte_spec(0x06) == Some(GmEGuitarType::Lips),
            Self::from_byte_spec(0x07) == Some(GmEGuitarType::Rickenbacker),
            Self::from_byte_spec(0x08) == Some(GmEGuitarType::Gibson335),
            Self::from_byte_spec(0x09) == Some(GmEGuitarType::GibsonL4),
            GmEGuitarType::ClassicStrat.byte_spec() == 0x00,
            GmEGuitarType::ModernStrat.byte_spec() == 0x01,
            GmEGuitarType::HhStrat.byte_spec() == 0x02,
            GmEGuitarType::Telecaster.byte_spec() == 0x03,
            GmEGuitarType::LesPaul.byte_spec() == 0x04,
            GmEGuitarType::LesPaulP90.byte_spec() == 0x05,
            GmEGuitarType::Lips.byte_spec() == 0x06,
            GmEGuitarType::Rickenbacker.byte_spec() == 0x07,
            GmEGuitarType::Gibson335.byte_spec() == 0x08,
            GmEGuitarType::GibsonL4.byte_spec() == 0x09,
    {
    }
}

/// Guitar Mode Acoustic instrument type at page `0x10` offset `0x02`.
#[derive(Debug, Clone, Copy, PartialEq, Eq, Structural)]
pub enum GmAcousticType {
    Steel,
    Nylon,
    Sitar,
    Banjo,
    Resonator,
}

impl GmAcousticType {
    /// Wire byte of each variant.
    pub open spec fn byte_spec(self) -> u8 {
        match self {
            GmAcousticType::Steel => 0x00,
            GmAcousticType::Nylon => 0x01,
            GmAcousticType::Sitar => 0x02,
            GmAcousticType::Banjo => 0x03,
            GmAcousticType::Resonator => 0x04,
        }
    }

    /// The variant a wire byte stands for, if any.
    pub open spec fn from_byte_spec(b: u8) -> Option<Self> {
        if b == 0x00 {
            Some(GmAcousticType::Steel)
        } else if b == 0x01 {
            Some(GmAcousticType::Nylon)
        } else if b == 0x02 {
            Some(GmAcousticType::Sitar)
        } else if b == 0x03 {
            Some(GmAcousticType::Banjo)
        } else if b == 0x04 {
            Some(GmAcousticType::Resonator)
        } else {
            None
        }
    }

    pub fn from_byte(b: u8) -> (r: Option<Self>)
        ensures
            r == Self::from_byte_spec(b),
    {
        match b {
            0x00 => Some(GmAcousticType::Steel),
            0x01 => Some(GmAcousticType::Nylon),
            0x02 => Some(GmAcousticType::Sitar),
            0x03 => Some(GmAcousticType::Banjo),
            0x04 => Some(GmAcousticType::Resonator),
            _ => None,
        }
    }

    pub fn to_byte(self) -> (r: u8)
        ensures
            r == self.byte_spec(),
    {
        match self {
            GmAcousticType::Steel => 0x00,
            GmAcousticType::Nylon => 0x01,
            GmAcousticType::Sitar => 0x02,
            GmAcousticType::Banjo => 0x03,
            GmAcousticType::Resonator => 0x04,
        }
    }

    /// Law: every variant has a byte below 5, and that byte decodes back
    /// to the variant.
    pub proof fn lemma_round_trip(self)
        ensures
            self.byte_spec() < 5,
            Self::from_byte_spec(self.byte_spec()) == Some(self),
    {
    }

    /// Law: exactly the bytes below 5 decode, and each decodes to the
    /// variant whose byte it is.
    pub proof fn lemma_byte_round_trip(b: u8)
        ensures
            Self::from_byte_spec(b) is Some <==> b < 5,
            Self::from_byte_spec(b) matches Some(v) ==> v.byte_spec() == b,
    {
    }

    /// Law: the parameter's wire table: each byte listed decodes to the
    /// variant beside it, and each variant is written as its byte.
    pub proof fn lemma_wire_table()
        ensures
            Self::from_byte_spec(0x00) == Some(GmAcousticType::Steel),
            Self::from_byte_spec(0x01) == Some(GmAcousticType::Nylon),
            Self::from_byte_spec(0x02) == Some(GmAcousticType::Sitar),
            Self::from_byte_spec(0x03) == Some(GmAcousticType::Banjo),
            Self::from_byte_spec(0x04) == Some(GmAcousticType::Resonator),
            GmAcousticType::Steel.byte_spec() == 0x00,
            GmAcousticType::Nylon.byte_spec() == 0x01,
            GmAcousticType::Sitar.byte_spec() == 0x02,
            GmAcousticType::Banjo.byte_spec() == 0x03,
            GmAcousticType::Resonator.byte_spec() == 0x04,
    {
    }
}

/// Guitar Mode E.Bass type at page `0x10` offset `0x03`.
#[derive(Debug, Clone, Copy, PartialEq, Eq, Structural)]
pub enum GmEBassType {
    JazzBass,
    PBass,
}

impl GmEBassType {
    /// Wire byte of each variant.
    pub open spec fn byte_spec(self) -> u8 {
        match self {
            GmEBassType::JazzBass => 0x00,
            GmEBassType::PBass => 0x01,
        }
    }

    /// The variant a wire byte stands for, if any.
    pub open spec fn from_byte_spec(b: u8) -> Option<Self> {
        if b == 0x00 {
            Some(GmEBassType::JazzBass)
        } else if b == 0x01 {
            Some(GmEBassType::PBass)
        } else {
            None
        }
    }

    pub fn from_byte(b: u8) -> (r: Option<Self>)
        ensures
            r == Self::from_byte_spec(b),
    {
        match b {
            0x00 => Some(GmEBassType::JazzBass),
            0x01 => Some(GmEBassType::PBass),
            _ => None,
        }
    }

    pub fn to_byte(self) -> (r: u8)
        ensures
            r == self.byte_spec(),
    {
        match self {
            GmEBassType::JazzBass => 0x00,
            GmEBassType::PBass => 0x01,
        }
    }

    /// Law: every variant has a byte below 2, and that byte decodes back
    /// to the variant.
    pub proof fn lemma_round_trip(self)
        ensures
            self.byte_spec() < 2,
            Self::from_byte_spec(self.byte_spec()) == Some(self),
    {
    }

    /// Law: exactly the bytes below 2 decode, and each decodes to the
    /// variant whose byte it is.
    pub proof fn lemma_byte_round_trip(b: u8)
        ensures
            Self::from_byte_spec(b) is Some <==> b < 2,
            Self::from_byte_spec(b) matches Some(v) ==> v.byte_spec() == b,
    {
    }

    /// Law: the parameter's wire table: each byte listed decodes to the
    /// variant beside it, and each variant is written as its byte.
    pub proof fn lemma_wire_table()
        ensures
            Self::from_byte_spec(0x00) == Some(GmEBassType::JazzBass),
            Self::from_byte_spec(0x01) == Some(GmEBassType::PBass),
            GmEBassType::JazzBass.byte_spec() == 0x00,
            GmEBassType::PBass.byte_spec() == 0x01,
    {
    }
}

/// Modeling Synth type. Used at both page `0x10` offset `0x04` (Guitar
/// Mode) and page `0x10` offset `0x08` (Bass Mode) — the byte layout
/// is identical for both modes.
#[derive(Debug, Clone, Copy, PartialEq, Eq, Structural)]
pub enum ModelingSynthType {
    AnalogGr,
    Wave,
    FilterBass,
    Crystal,
    Organ,
    Brass,
}

impl ModelingSynthType {
    /// Wire byte of each variant.
    pub open spec fn byte_spec(self) -> u8 {
        match self {
            ModelingSynthType::AnalogGr => 0x00,
            ModelingSynthType::Wave => 0x01,
            ModelingSynthType::FilterBass => 0x02,
            ModelingSynthType::Crystal => 0x03,
            ModelingSynthType::Organ => 0x04,
            ModelingSynthType::Brass => 0x05,
        }
    }

    /// The variant a wire byte stands for, if any.
    pub open spec fn from_byte_spec(b: u8) -> Option<Self> {
        if b == 0x00 {
            Some(ModelingSynthType::AnalogGr)
        } else if b == 0x01 {
            Some(ModelingSynthType::Wave)
        } else if b == 0x02 {
            Some(ModelingSynthType::FilterBass)
        } else if b == 0x03 {
            Some(ModelingSynthType::Crystal)
        } else if b == 0x04 {
            Some(ModelingSynthType::Organ)
        } else if b == 0x05 {
            Some(ModelingSynthType::Brass)
        } else {
            None
        }
    }

    pub fn from_byte(b: u8) -> (r: Option<Self>)
        ensures
            r == Self::from_byte_spec(b),
    {
        match b {
            0x00 => Some(ModelingSynthType::AnalogGr),
            0x01 => Some(ModelingSynthType::Wave),
            0x02 => Some(ModelingSynthType::FilterBass),
            0x03 => Some(ModelingSynthType::Crystal),
            0x04 => Some(ModelingSynthType::Organ),
            0x05 => Some(ModelingSynthType::Brass),
            _ => None,
        }
    }

    pub fn to_byte(self) -> (r: u8)
        ensures
            r == self.byte_spec(),
    {
        match self {
            ModelingSynthType::AnalogGr => 0x00,
            ModelingSynthType::Wave => 0x01,
            ModelingSynthType::FilterBass => 0x02,
            ModelingSynthType::Crystal => 0x03,
            ModelingSynthType::Organ => 0x04,
            ModelingSynthType::Brass => 0x05,
        }
    }

    /// Law: every variant has a byte below 6, and that byte decodes back
    /// to the variant.
    pub proof fn lemma_round_trip(self)
        ensures
            self.byte_spec() < 6,
            Self::from_byte_spec(self.byte_spec()) == Some(self),
    {
    }

    /// Law: exactly the bytes below 6 decode, and each decodes to the
    /// variant whose byte it is.
    pub proof fn lemma_byte_round_trip(b: u8)
        ensures
            Self::from_byte_spec(b) is Some <==> b < 6,
            Self::from_byte_spec(b) matches Some(v) ==> v.byte_spec() == b,
    {
    }

    /// Law: the parameter's wire table: each byte listed decodes to the
    /// variant beside it, and each variant is written as its byte.
    pub proof fn lemma_wire_table()
        ensures
            Self::from_byte_spec(0x00) == Some(ModelingSynthType::AnalogGr),
            Self::from_byte_spec(0x01) == Some(ModelingSynthType::Wave),
            Self::from_byte_spec(0x02) == Some(ModelingSynthType::FilterBass),
            Self::from_byte_spec(0x03) == Some(ModelingSynthType::Crystal),
            Self::from_byte_spec(0x04) == Some(ModelingSynthType::Organ),
            Self::from_byte_spec(0x05) == Some(ModelingSynthType::Brass),
            ModelingSynthType::AnalogGr.byte_spec() == 0x00,
            ModelingSynthType::Wave.byte_spec() == 0x01,
            ModelingSynthType::FilterBass.byte_spec() == 0x02,
            ModelingSynthType::Crystal.byte_spec() == 0x03,
            ModelingSynthType::Organ.byte_spec() == 0x04,
            ModelingSynthType::Brass.byte_spec() == 0x05,
    {
    }
}

/// Bass Mode modeling category at page `0x10` offset `0x05`. Distinct
/// from `GuitarModeCategory` — Bass Mode omits `Acoustic` and reorders
/// the remaining three.
#[derive(Debug, Clone, Copy, PartialEq, Eq, Structural)]
pub enum BassModeCategory {
    ElectricBass,
    Synth,
    ElectricGuitar,
}

impl BassModeCategory {
    /// Wire byte of each variant.
    pub open spec fn byte_spec(self) -> u8 {
        match self {
            BassModeCategory::ElectricBass => 0x00,
            BassModeCategory::Synth => 0x01,
            BassModeCategory::ElectricGuitar => 0x02,
        }
    }

    /// The variant a wire byte stands for, if any.
    pub open spec fn from_byte_spec(b: u8) -> Option<Self> {
        if b == 0x00 {
            Some(BassModeCategory::ElectricBass)
        } else if b == 0x01 {
            Some(BassModeCategory::Synth)
        } else if b == 0x02 {
            Some(BassModeCategory::ElectricGuitar)
        } else {
            None
        }
    }

    pub fn from_byte(b: u8) -> (r: Option<Self>)
        ensures
            r == Self::from_byte_spec(b),
    {
        match b {
            0x00 => Some(BassModeCategory::ElectricBass),
            0x01 => Some(BassModeCategory::Synth),
            0x02 => Some(BassModeCategory::ElectricGuitar),
            _ => None,
        }
    }

    pub fn to_byte(self) -> (r: u8)
        ensures
            r == self.byte_spec(),
    {
        match self {
            BassModeCategory::ElectricBass => 0x00,
            BassModeCategory::Synth => 0x01,
            BassModeCategory::ElectricGuitar => 0x02,
        }
    }

    /// Law: every variant has a byte below 3, and that byte decodes back
    /// to the variant.
    pub proof fn lemma_round_trip(self)
        ensures
            self.byte_spec() < 3,
            Self::from_byte_spec(self.byte_spec()) == Some(self),
    {
    }

    /// Law: exactly the bytes below 3 decode, and each decodes to the
    /// variant whose byte it is.
    pub proof fn lemma_byte_round_trip(b: u8)
        ensures
            Self::from_byte_spec(b) is Some <==> b < 3,
            Self::from_byte_spec(b) matches Some(v) ==> v.byte_spec() == b,
    {
    }

    /// Law: the parameter's wire table: each byte listed decodes to the
    /// variant beside it, and each variant is written as its byte.
    pub proof fn lemma_wire_table()
        ensures
            Self::from_byte_spec(0x00) == Some(BassModeCategory::ElectricBass),
            Self::from_byte_spec(0x01) == Some(BassModeCategory::Synth),
            Self::from_byte_spec(0x02) == Some(BassModeCategory::ElectricGuitar),
            BassModeCategory::ElectricBass.byte_spec() == 0x00,
            BassModeCategory::Synth.byte_spec() == 0x01,
            BassModeCategory::ElectricGuitar.byte_spec() == 0x02,
    {
    }
}

/// Bass Mode E.Bass type at page `0x10` offset `0x06`.
#[derive(Debug, Clone, Copy, PartialEq, Eq, Structural)]
pub enum BmEBassType {
    VintJazzBass,
    JazzBass,
    VintPBass,
    PBass,
    MusicMan,
    Rickenbacker,
    ThunderBird,
    Active,
    HofnerViolin,
}

impl BmEBassType {
    /// Wire byte of each variant.
    pub open spec fn byte_spec(self) -> u8 {
        match self {
            BmEBassType::VintJazzBass => 0x00,
            BmEBassType::JazzBass => 0x01,
            BmEBassType::VintPBass => 0x02,
            BmEBassType::PBass => 0x03,
            BmEBassType::MusicMan => 0x04,
            BmEBassType::Rickenbacker => 0x05,
            BmEBassType::ThunderBird => 0x06,
            BmEBassType::Active => 0x07,
            BmEBassType::HofnerViolin => 0x08,
        }
    }

    /// The variant a wire byte stands for, if any.
    pub open spec fn from_byte_spec(b: u8) -> Option<Self> {
        if b == 0x00 {
            Some(BmEBassType::VintJazzBass)
        } else if b == 0x01 {
            Some(BmEBassType::JazzBass)
        } else if b == 0x02 {
            Some(BmEBassType::VintPBass)
        } else if b == 0x03 {
            Some(BmEBassType::PBass)
        } else if b == 0x04 {
            Some(BmEBassType::MusicMan)
        } else if b == 0x05 {
            Some(BmEBassType::Rickenbacker)
        } else if b == 0x06 {
            Some(BmEBassType::ThunderBird)
        } else if b == 0x07 {
            Some(BmEBassType::Active)
        } else if b == 0x08 {
            Some(BmEBassType::HofnerViolin)
        } else {
            None
        }
    }

    pub fn from_byte(b: u8) -> (r: Option<Self>)
        ensures
            r == Self::from_byte_spec(b),
    {
        match b {
            0x00 => Some(BmEBassType::VintJazzBass),
            0x01 => Some(BmEBassType::JazzBass),
            0x02 => Some(BmEBassType::VintPBass),
            0x03 => Some(BmEBassType::PBass),
            0x04 => Some(BmEBassType::MusicMan),
            0x05 => Some(BmEBassType::Rickenbacker),
            0x06 => Some(BmEBassType::ThunderBird),
            0x07 => Some(BmEBassType::Active),
            0x08 => Some(BmEBassType::HofnerViolin),
            _ => None,
        }
    }

    pub fn to_byte(self) -> (r: u8)
        ensures
            r == self.byte_spec(),
    {
        match self {
            BmEBassType::VintJazzBass => 0x00,
            BmEBassType::JazzBass => 0x01,
            BmEBassType::VintPBass => 0x02,
            BmEBassType::PBass => 0x03,
            BmEBassType::MusicMan => 0x04,
            BmEBassType::Rickenbacker => 0x05,
            BmEBassType::ThunderBird => 0x06,
            BmEBassType::Active => 0x07,
            BmEBassType::HofnerViolin => 0x08,
        }
    }

    /// Law: every variant has a byte below 9, and that byte decodes back
    /// to the variant.
    pub proof fn lemma_round_trip(self)
        ensures
            self.byte_spec() < 9,
            Self::from_byte_spec(self.byte_spec()) == Some(self),
    {
    }

    /// Law: exactly the bytes below 9 decode, and each decodes to the
    /// variant whose byte it is.
    pub proof fn lemma_byte_round_trip(b: u8)
        ensures
            Self::from_byte_spec(b) is Some <==> b < 9,
            Self::from_byte_spec(b) matches Some(v) ==> v.byte_spec() == b,
    {
    }

    /// Law: the parameter's wire table: each byte listed decodes to the
    /// variant beside it, and each variant is written as its byte.
    pub proof fn lemma_wire_table()
        ensures
            Self::from_byte_spec(0x00) == Some(BmEBassType::VintJazzBass),
            Self::from_byte_spec(0x01) == Some(BmEBassType::JazzBass),
            Self::from_byte_spec(0x02) == Some(BmEBassType::VintPBass),
            Self::from_byte_spec(0x03) == Some(BmEBassType::PBass),
            Self::from_byte_spec(0x04) == Some(BmEBassType::MusicMan),
            Self::from_byte_spec(0x05) == Some(BmEBassType::Rickenbacker),
            Self::from_byte_spec(0x06) == Some(BmEBassType::ThunderBird),
            Self::from_byte_spec(0x07) == Some(BmEBassType::Active),
            Self::from_byte_spec(0x08) == Some(BmEBassType::HofnerViolin),
            BmEBassType::VintJazzBass.byte_spec() == 0x00,
            BmEBassType::JazzBass.byte_spec() == 0x01,
            BmEBassType::VintPBass.byte_spec() == 0x02,
            BmEBassType::PBass.byte_spec() == 0x03,
            BmEBassType::MusicMan.byte_spec() == 0x04,
            BmEBassType::Rickenbacker.byte_spec() == 0x05,
            BmEBassType::ThunderBird.byte_spec() == 0x06,
            BmEBassType::Active.byte_spec() == 0x07,
            BmEBassType::HofnerViolin.byte_spec() == 0x08,
    {
    }
}

/// Bass Mode E.Guitar type at page `0x10` offset `0x07` (only 2 vars —
/// Classic Strat and Les Paul).
#[derive(Debug, Clone, Copy, PartialEq, Eq, Structural)]
pub enum BmEGuitarType {
    ClassicStrat,
    LesPaul,
}

impl BmEGuitarType {
    /// Wire byte of each variant.
    pub open spec fn byte_spec(self) -> u8 {
        match self {
            BmEGuitarType::ClassicStrat => 0x00,
            BmEGuitarType::LesPaul => 0x01,
        }
    }

    /// The variant a wire byte stands for, if any.
    pub open spec fn from_byte_spec(b: u8) -> Option<Self> {
        if b == 0x00 {
            Some(BmEGuitarType::ClassicStrat)
        } else if b == 0x01 {
            Some(BmEGuitarType::LesPaul)
        } else {
            None
        }
    }

    pub fn from_byte(b: u8) -> (r: Option<Self>)
        ensures
            r == Self::from_byte_spec(b),
    {
        match b {
            0x00 => Some(BmEGuitarType::ClassicStrat),
            0x01 => Some(BmEGuitarType::LesPaul),
            _ => None,
        }
    }

    pub fn to_byte(self) -> (r: u8)
        ensures
            r == self.byte_spec(),
    {
        match self {
            BmEGuitarType::ClassicStrat => 0x00,
            BmEGuitarType::LesPaul => 0x01,
        }
    }

    /// Law: every variant has a byte below 2, and that byte decodes back
    /// to the variant.
    pub proof fn lemma_round_trip(self)
        ensures
            self.byte_spec() < 2,
            Self::from_byte_spec(self.byte_spec()) == Some(self),
    {
    }

    /// Law: exactly the bytes below 2 decode, and each decodes to the
    /// variant whose byte it is.
    pub proof fn lemma_byte_round_trip(b: u8)
        ensures
            Self::from_byte_spec(b) is Some <==> b < 2,
            Self::from_byte_spec(b) matches Some(v) ==> v.byte_spec() == b,
    {
    }

    /// Law: the parameter's wire table: each byte listed decodes to the
    /// variant beside it, and each variant is written as its byte.
    pub proof fn lemma_wire_table()
        ensures
            Self::from_byte_spec(0x00) == Some(BmEGuitarType::ClassicStrat),
            Self::from_byte_spec(0x01) == Some(BmEGuitarType::LesPaul),
            BmEGuitarType::ClassicStrat.byte_spec() == 0x00,
            BmEGuitarType::LesPaul.byte_spec() == 0x01,
    {
    }
}

/// PreAmp model at page `0x07` offset `0x01`. 42 variants — all the
/// classic-amp emulations the GR-55 ships with, grouped into named
/// families (JC Clean, TW Clean, Crunch, Combo, Match, BG Lead, MS
/// Classic, MS Modern, R-Fier, T-Amp, HI-Gain, METAL, Bass). Mined
/// from FloorBoard `midi.xml:43069-43111`.
#[derive(Debug, Clone, Copy, PartialEq, Eq, Structural)]
pub enum PreampType {
    BossClean,
    Jc120,
    JazzCombo,
    FullRange,
    CleanTwin,
    ProCrunch,
    Tweed,
    DeluxCrunch,
    BossCrunch,
    Blues,
    WildCrunch,
    StackCrunch,
    VoDrive,
    VoLead,
    VoClean,
    MatchDrive,
    FatMatch,
    MatchLead,
    BgLead,
    BgDrive,
    BgRhythm,
    Ms1959I,
    Ms1959IPlusII,
    MsHiGain,
    MsScoop,
    RFierVintage,
    RFierModern,
    RFierClean,
    TAmpLead,
    TAmpCrunch,
    TAmpClean,
    BossDrive,
    Sldn,
    LeadStack,
    HeavyLead,
    BossMetal,
    Drive5150,
    MetalLead,
    EdgeLead,
    BassClean,
    BassCrunch,
    BassHiGain,
}

impl PreampType {
    /// Wire byte of each variant.
    pub open spec fn byte_spec(self) -> u8 {
        match self {
            PreampType::BossClean => 0x00,
            PreampType::Jc120 => 0x01,
            PreampType::JazzCombo => 0x02,
            PreampType::FullRange => 0x03,
            PreampType::CleanTwin => 0x04,
            PreampType::ProCrunch => 0x05,
            PreampType::Tweed => 0x06,
            PreampType::DeluxCrunch => 0x07,
            PreampType::BossCrunch => 0x08,
            PreampType::Blues => 0x09,
            PreampType::WildCrunch => 0x0A,
            PreampType::StackCrunch => 0x0B,
            PreampType::VoDrive => 0x0C,
            PreampType::VoLead => 0x0D,
            PreampType::VoClean => 0x0E,
            PreampType::MatchDrive => 0x0F,
            PreampType::FatMatch => 0x10,
            PreampType::MatchLead => 0x11,
            PreampType::BgLead => 0x12,
            PreampType::BgDrive => 0x13,
            PreampType::BgRhythm => 0x14,
            PreampType::Ms1959I => 0x15,
            PreampType::Ms1959IPlusII => 0x16,
            PreampType::MsHiGain => 0x17,
            PreampType::MsScoop => 0x18,
            PreampType::RFierVintage => 0x19,
            PreampType::RFierModern => 0x1A,
            PreampType::RFierClean => 0x1B,
            PreampType::TAmpLead => 0x1C,
            PreampType::TAmpCrunch => 0x1D,
            PreampType::TAmpClean => 0x1E,
            PreampType::BossDrive => 0x1F,
            PreampType::Sldn => 0x20,
            PreampType::LeadStack => 0x21,
            PreampType::HeavyLead => 0x22,
            PreampType::BossMetal => 0x23,
            PreampType::Drive5150 => 0x24,
            PreampType::MetalLead => 0x25,
            PreampType::EdgeLead => 0x26,
            PreampType::BassClean => 0x27,
            PreampType::BassCrunch => 0x28,
            PreampType::BassHiGain => 0x29,
        }
    }

    /// The variant a wire byte stands for, if any.
    pub open spec fn from_byte_spec(b: u8) -> Option<Self> {
        if b == 0x00 {
            Some(PreampType::BossClean)
        } else if b == 0x01 {
            Some(PreampType::Jc120)
        } else if b == 0x02 {
            Some(PreampType::JazzCombo)
        } else if b == 0x03 {
            Some(PreampType::FullRange)
        } else if b == 0x04 {
            Some(PreampType::CleanTwin)
        } else if b == 0x05 {
            Some(PreampType::ProCrunch)
        } else if b == 0x06 {
            Some(PreampType::Tweed)
        } else if b == 0x07 {
            Some(PreampType::DeluxCrunch)
        } else if b == 0x08 {
            Some(PreampType::BossCrunch)
        } else if b == 0x09 {
            Some(PreampType::Blues)
        } else if b == 0x0A {
            Some(PreampType::WildCrunch)
        } else if b == 0x0B {
            Some(PreampType::StackCrunch)
        } else if b == 0x0C {
            Some(PreampType::VoDrive)
        } else if b == 0x0D {
            Some(PreampType::VoLead)
        } else if b == 0x0E {
            Some(PreampType::VoClean)
        } else if b == 0x0F {
            Some(PreampType::MatchDrive)
        } else if b == 0x10 {
            Some(PreampType::FatMatch)
        } else if b == 0x11 {
            Some(PreampType::MatchLead)
        } else if b == 0x12 {
            Some(PreampType::BgLead)
        } else if b == 0x13 {
            Some(PreampType::BgDrive)
        } else if b == 0x14 {
            Some(PreampType::BgRhythm)
        } else if b == 0x15 {
            Some(PreampType::Ms1959I)
        } else if b == 0x16 {
            Some(PreampType::Ms1959IPlusII)
        } else if b == 0x17 {
            Some(PreampType::MsHiGain)
        } else if b == 0x18 {
            Some(PreampType::MsScoop)
        } else if b == 0x19 {
            Some(PreampType::RFierVintage)
        } else if b == 0x1A {
            Some(PreampType::RFierModern)
        } else if b == 0x1B {
            Some(PreampType::RFierClean)
        } else if b == 0x1C {
            Some(PreampType::TAmpLead)
        } else if b == 0x1D {
            Some(PreampType::TAmpCrunch)
        } else if b == 0x1E {
            Some(PreampType::TAmpClean)
        } else if b == 0x1F {
            Some(PreampType::BossDrive)
        } else if b == 0x20 {
            Some(PreampType::Sldn)
        } else if b == 0x21 {
            Some(PreampType::LeadStack)
        } else if b == 0x22 {
            Some(PreampType::HeavyLead)
        } else if b == 0x23 {
            Some(PreampType::BossMetal)
        } else if b == 0x24 {
            Some(PreampType::Drive5150)
        } else if b == 0x25 {
            Some(PreampType::MetalLead)
        } else if b == 0x26 {
            Some(PreampType::EdgeLead)
        } else if b == 0x27 {
            Some(PreampType::BassClean)
        } else if b == 0x28 {
            Some(PreampType::BassCrunch)
        } else if b == 0x29 {
            Some(PreampType::BassHiGain)
        } else {
            None
        }
    }

    pub fn from_byte(b: u8) -> (r: Option<Self>)
        ensures
            r == Self::from_byte_spec(b),
    {
        match b {
            0x00 => Some(PreampType::BossClean),
            0x01 => Some(PreampType::Jc120),
            0x02 => Some(PreampType::JazzCombo),
            0x03 => Some(PreampType::FullRange),
            0x04 => Some(PreampType::CleanTwin),
            0x05 => Some(PreampType::ProCrunch),
            0x06 => Some(PreampType::Tweed),
            0x07 => Some(PreampType::DeluxCrunch),
            0x08 => Some(PreampType::BossCrunch),
            0x09 => Some(PreampType::Blues),
            0x0A => Some(PreampType::WildCrunch),
            0x0B => Some(PreampType::StackCrunch),
            0x0C => Some(PreampType::VoDrive),
            0x0D => Some(PreampType::VoLead),
            0x0E => Some(PreampType::VoClean),
            0x0F => Some(PreampType::MatchDrive),
            0x10 => Some(PreampType::FatMatch),
            0x11 => Some(PreampType::MatchLead),
            0x12 => Some(PreampType::BgLead),
            0x13 => Some(PreampType::BgDrive),
            0x14 => Some(PreampType::BgRhythm),
            0x15 => Some(PreampType::Ms1959I),
            0x16 => Some(PreampType::Ms1959IPlusII),
            0x17 => Some(PreampType::MsHiGain),
            0x18 => Some(PreampType::MsScoop),
            0x19 => Some(PreampType::RFierVintage),
            0x1A => Some(PreampType::RFierModern),
            0x1B => Some(PreampType::RFierClean),
            0x1C => Some(PreampType::TAmpLead),
            0x1D => Some(PreampType::TAmpCrunch),
            0x1E => Some(PreampType::TAmpClean),
            0x1F => Some(PreampType::BossDrive),
            0x20 => Some(PreampType::Sldn),
            0x21 => Some(PreampType::LeadStack),
            0x22 => Some(PreampType::HeavyLead),
            0x23 => Some(PreampType::BossMetal),
            0x24 => Some(PreampType::Drive5150),
            0x25 => Some(PreampType::MetalLead),
            0x26 => Some(PreampType::EdgeLead),
            0x27 => Some(PreampType::BassClean),
            0x28 => Some(PreampType::BassCrunch),
            0x29 => Some(PreampType::BassHiGain),
            _ => None,
        }
    }

    pub fn to_byte(self) -> (r: u8)
        ensures
            r == self.byte_spec(),
    {
        match self {
            PreampType::BossClean => 0x00,
            PreampType::Jc120 => 0x01,
            PreampType::JazzCombo => 0x02,
            PreampType::FullRange => 0x03,
            PreampType::CleanTwin => 0x04,
            PreampType::ProCrunch => 0x05,
            PreampType::Tweed => 0x06,
            PreampType::DeluxCrunch => 0x07,
            PreampType::BossCrunch => 0x08,
            PreampType::Blues => 0x09,
            PreampType::WildCrunch => 0x0A,
            PreampType::StackCrunch => 0x0B,
            PreampType::VoDrive => 0x0C,
            PreampType::VoLead => 0x0D,
            PreampType::VoClean => 0x0E,
            PreampType::MatchDrive => 0x0F,
            PreampType::FatMatch => 0x10,
            PreampType::MatchLead => 0x11,
            PreampType::BgLead => 0x12,
            PreampType::BgDrive => 0x13,
            PreampType::BgRhythm => 0x14,
            PreampType::Ms1959I => 0x15,
            PreampType::Ms1959IPlusII => 0x16,
            PreampType::MsHiGain => 0x17,
            PreampType::MsScoop => 0x18,
            PreampType::RFierVintage => 0x19,
            PreampType::RFierModern => 0x1A,
            PreampType::RFierClean => 0x1B,
            PreampType::TAmpLead => 0x1C,
            PreampType::TAmpCrunch => 0x1D,
            PreampType::TAmpClean => 0x1E,
            PreampType::BossDrive => 0x1F,
            PreampType::Sldn => 0x20,
            PreampType::LeadStack => 0x21,
            PreampType::HeavyLead => 0x22,
            PreampType::BossMetal => 0x23,
            PreampType::Drive5150 => 0x24,
            PreampType::MetalLead => 0x25,
            PreampType::EdgeLead => 0x26,
            PreampType::BassClean => 0x27,
            PreampType::BassCrunch => 0x28,
            PreampType::BassHiGain => 0x29,
        }
    }

    /// Law: every variant has a byte below 42, and that byte decodes back
    /// to the variant.
    pub proof fn lemma_round_trip(self)
        ensures
            self.byte_spec() < 42,
            Self::from_byte_spec(self.byte_spec()) == Some(self),
    {
    }

    /// Law: exactly the bytes below 42 decode, and each decodes to the
    /// variant whose byte it is.
    pub proof fn lemma_byte_round_trip(b: u8)
        ensures
            Self::from_byte_spec(b) is Some <==> b < 42,
            Self::from_byte_spec(b) matches Some(v) ==> v.byte_spec() == b,
    {
    }

    /// Law: the parameter's wire table: each byte listed decodes to the
    /// variant beside it, and each variant is written as its byte.
    pub proof fn lemma_wire_table()
        ensures
            Self::from_byte_spec(0x00) == Some(PreampType::BossClean),
            Self::from_byte_spec(0x01) == Some(PreampType::Jc120),
            Self::from_byte_spec(0x02) == Some(PreampType::JazzCombo),
            Self::from_byte_spec(0x03) == Some(PreampType::FullRange),
            Self::from_byte_spec(0x04) == Some(PreampType::CleanTwin),
            Self::from_byte_spec(0x05) == Some(PreampType::ProCrunch),
            Self::from_byte_spec(0x06) == Some(PreampType::Tweed),
            Self::from_byte_spec(0x07) == Some(PreampType::DeluxCrunch),
            Self::from_byte_spec(0x08) == Some(PreampType::BossCrunch),
            Self::from_byte_spec(0x09) == Some(PreampType::Blues),
            Self::from_byte_spec(0x0A) == Some(PreampType::WildCrunch),
            Self::from_byte_spec(0x0B) == Some(PreampType::StackCrunch),
            Self::from_byte_spec(0x0C) == Some(PreampType::VoDrive),
            Self::from_byte_spec(0x0D) == Some(PreampType::VoLead),
            Self::from_byte_spec(0x0E) == Some(PreampType::VoClean),
            Self::from_byte_spec(0x0F) == Some(PreampType::MatchDrive),
            Self::from_byte_spec(0x10) == Some(PreampType::FatMatch),
            Self::from_byte_spec(0x11) == Some(PreampType::MatchLead),
            Self::from_byte_spec(0x12) == Some(PreampType::BgLead),
            Self::from_byte_spec(0x13) == Some(PreampType::BgDrive),
            Self::from_byte_spec(0x14) == Some(PreampType::BgRhythm),
            Self::from_byte_spec(0x15) == Some(PreampType::Ms1959I),
            Self::from_byte_spec(0x16) == Some(PreampType::Ms1959IPlusII),
            Self::from_byte_spec(0x17) == Some(PreampType::MsHiGain),
            Self::from_byte_spec(0x18) == Some(PreampType::MsScoop),
            Self::from_byte_spec(0x19) == Some(PreampType::RFierVintage),
            Self::from_byte_spec(0x1A) == Some(PreampType::RFierModern),
            Self::from_byte_spec(0x1B) == Some(PreampType::RFierClean),
            Self::from_byte_spec(0x1C) == Some(PreampType::TAmpLead),
            Self::from_byte_spec(0x1D) == Some(PreampType::TAmpCrunch),
            Self::from_byte_spec(0x1E) == Some(PreampType::TAmpClean),
            Self::from_byte_spec(0x1F) == Some(PreampType::BossDrive),
            Self::from_byte_spec(0x20) == Some(PreampType::Sldn),
            Self::from_byte_spec(0x21) == Some(PreampType::LeadStack),
            Self::from_byte_spec(0x22) == Some(PreampType::HeavyLead),
            Self::from_byte_spec(0x23) == Some(PreampType::BossMetal),
            Self::from_byte_spec(0x24) == Some(PreampType::Drive5150),
            Self::from_byte_spec(0x25) == Some(PreampType::MetalLead),
            Self::from_byte_spec(0x26) == Some(PreampType::EdgeLead),
            Self::from_byte_spec(0x27) == Some(PreampType::BassClean),
            Self::from_byte_spec(0x28) == Some(PreampType::BassCrunch),
            Self::from_byte_spec(0x29) == Some(PreampType::BassHiGain),
            PreampType::BossClean.byte_spec() == 0x00,
            PreampType::Jc120.byte_spec() == 0x01,
            PreampType::JazzCombo.byte_spec() == 0x02,
            PreampType::FullRange.byte_spec() == 0x03,
            PreampType::CleanTwin.byte_spec() == 0x04,
            PreampType::ProCrunch.byte_spec() == 0x05,
            PreampType::Tweed.byte_spec() == 0x06,
            PreampType::DeluxCrunch.byte_spec() == 0x07,
            PreampType::BossCrunch.byte_spec() == 0x08,
            PreampType::Blues.byte_spec() == 0x09,
            PreampType::WildCrunch.byte_spec() == 0x0A,
            PreampType::StackCrunch.byte_spec() == 0x0B,
            PreampType::VoDrive.byte_spec() == 0x0C,
            PreampType::VoLead.byte_spec() == 0x0D,
            PreampType::VoClean.byte_spec() == 0x0E,
            PreampType::MatchDrive.byte_spec() == 0x0F,
            PreampType::FatMatch.byte_spec() == 0x10,
            PreampType::MatchLead.byte_spec() == 0x11,
            PreampType::BgLead.byte_spec() == 0x12,
            PreampType::BgDrive.byte_spec() == 0x13,
            PreampType::BgRhythm.byte_spec() == 0x14,
            PreampType::Ms1959I.byte_spec() == 0x15,
            PreampType::Ms1959IPlusII.byte_spec() == 0x16,
            PreampType::MsHiGain.byte_spec() == 0x17,
            PreampType::MsScoop.byte_spec() == 0x18,
            PreampType::RFierVintage.byte_spec() == 0x19,
            PreampType::RFierModern.byte_spec() == 0x1A,
            PreampType::RFierClean.byte_spec() == 0x1B,
            PreampType::TAmpLead.byte_spec() == 0x1C,
            PreampType::TAmpCrunch.byte_spec() == 0x1D,
            PreampType::TAmpClean.byte_spec() == 0x1E,
            PreampType::BossDrive.byte_spec() == 0x1F,
            PreampType::Sldn.byte_spec() == 0x20,
            PreampType::LeadStack.byte_spec() == 0x21,
            PreampType::HeavyLead.byte_spec() == 0x22,
            PreampType::BossMetal.byte_spec() == 0x23,
            PreampType::Drive5150.byte_spec() == 0x24,
            PreampType::MetalLead.byte_spec() == 0x25,
            PreampType::EdgeLead.byte_spec() == 0x26,
            PreampType::BassClean.byte_spec() == 0x27,
            PreampType::BassCrunch.byte_spec() == 0x28,
            PreampType::BassHiGain.byte_spec() == 0x29,
    {
    }
}

/// PreAmp Gain switch at page `0x07` offset `0x04`.
#[derive(Debug, Clone, Copy, PartialEq, Eq, Structural)]
pub enum PreampGainSw {
    Low,
    Middle,
    High,
}

impl PreampGainSw {
    /// Wire byte of each variant.
    pub open spec fn byte_spec(self) -> u8 {
        match self {
            PreampGainSw::Low => 0x00,
            PreampGainSw::Middle => 0x01,
            PreampGainSw::High => 0x02,
        }
    }

    /// The variant a wire byte stands for, if any.
    pub open spec fn from_byte_spec(b: u8) -> Option<Self> {
        if b == 0x00 {
            Some(PreampGainSw::Low)
        } else if b == 0x01 {
            Some(PreampGainSw::Middle)
        } else if b == 0x02 {
            Some(PreampGainSw::High)
        } else {
            None
        }
    }

    pub fn from_byte(b: u8) -> (r: Option<Self>)
        ensures
            r == Self::from_byte_spec(b),
    {
        match b {
            0x00 => Some(PreampGainSw::Low),
            0x01 => Some(PreampGainSw::Middle),
            0x02 => Some(PreampGainSw::High),
            _ => None,
        }
    }

    pub fn to_byte(self) -> (r: u8)
        ensures
            r == self.byte_spec(),
    {
        match self {
            PreampGainSw::Low => 0x00,
            PreampGainSw::Middle => 0x01,
            PreampGainSw::High => 0x02,
        }
    }

    /// Law: every variant has a byte below 3, and that byte decodes back
    /// to the variant.
    pub proof fn lemma_round_trip(self)
        ensures
            self.byte_spec() < 3,
            Self::from_byte_spec(self.byte_spec()) == Some(self),
    {
    }

    /// Law: exactly the bytes below 3 decode, and each decodes to the
    /// variant whose byte it is.
    pub proof fn lemma_byte_round_trip(b: u8)
        ensures
            Self::from_byte_spec(b) is Some <==> b < 3,
            Self::from_byte_spec(b) matches Some(v) ==> v.byte_spec() == b,
    {
    }

    /// Law: the parameter's wire table: each byte listed decodes to the
    /// variant beside it, and each variant is written as its byte.
    pub proof fn lemma_wire_table()
        ensures
            Self::from_byte_spec(0x00) == Some(PreampGainSw::Low),
            Self::from_byte_spec(0x01) == Some(PreampGainSw::Middle),
            Self::from_byte_spec(0x02) == Some(PreampGainSw::High),
            PreampGainSw::Low.byte_spec() == 0x00,
            PreampGainSw::Middle.byte_spec() == 0x01,
            PreampGainSw::High.byte_spec() == 0x02,
    {
    }
}

/// Speaker simulator cabinet at page `0x07` offset `0x0C`.
#[derive(Debug, Clone, Copy, PartialEq, Eq, Structural)]
pub enum SpeakerType {
    Off,
    Original,
    OneByEight,
    OneByTen,
    OneByTwelve,
    TwoByTwelve,
    FourByTen,
    FourByTwelve,
    EightByTwelve,
}

impl SpeakerType {
    /// Wire byte of each variant.
    pub open spec fn byte_spec(self) -> u8 {
        match self {
            SpeakerType::Off => 0x00,
            SpeakerType::Original => 0x01,
            SpeakerType::OneByEight => 0x02,
            SpeakerType::OneByTen => 0x03,
            SpeakerType::OneByTwelve => 0x04,
            SpeakerType::TwoByTwelve => 0x05,
            SpeakerType::FourByTen => 0x06,
            SpeakerType::FourByTwelve => 0x07,
            SpeakerType::EightByTwelve => 0x08,
        }
    }

    /// The variant a wire byte stands for, if any.
    pub open spec fn from_byte_spec(b: u8) -> Option<Self> {
        if b == 0x00 {
            Some(SpeakerType::Off)
        } else if b == 0x01 {
            Some(SpeakerType::Original)
        } else if b == 0x02 {
            Some(SpeakerType::OneByEight)
        } else if b == 0x03 {
            Some(SpeakerType::OneByTen)
        } else if b == 0x04 {
            Some(SpeakerType::OneByTwelve)
        } else if b == 0x05 {
            Some(SpeakerType::TwoByTwelve)
        } else if b == 0x06 {
            Some(SpeakerType::FourByTen)
        } else if b == 0x07 {
            Some(SpeakerType::FourByTwelve)
        } else if b == 0x08 {
            Some(SpeakerType::EightByTwelve)
        } else {
            None
        }
    }

    pub fn from_byte(b: u8) -> (r: Option<Self>)
        ensures
            r == Self::from_byte_spec(b),
    {
        match b {
            0x00 => Some(SpeakerType::Off),
            0x01 => Some(SpeakerType::Original),
            0x02 => Some(SpeakerType::OneByEight),
            0x03 => Some(SpeakerType::OneByTen),
            0x04 => Some(SpeakerType::OneByTwelve),
            0x05 => Some(SpeakerType::TwoByTwelve),
            0x06 => Some(SpeakerType::FourByTen),
            0x07 => Some(SpeakerType::FourByTwelve),
            0x08 => Some(SpeakerType::EightByTwelve),
            _ => None,
        }
    }

    pub fn to_byte(self) -> (r: u8)
        ensures
            r == self.byte_spec(),
    {
        match self {
            SpeakerType::Off => 0x00,
            SpeakerType::Original => 0x01,
            SpeakerType::OneByEight => 0x02,
            SpeakerType::OneByTen => 0x03,
            SpeakerType::OneByTwelve => 0x04,
            SpeakerType::TwoByTwelve => 0x05,
            SpeakerType::FourByTen => 0x06,
            SpeakerType::FourByTwelve => 0x07,
            SpeakerType::EightByTwelve => 0x08,
        }
    }

    /// Law: every variant has a byte below 9, and that byte decodes back
    /// to the variant.
    pub proof fn lemma_round_trip(self)
        ensures
            self.byte_spec() < 9,
            Self::from_byte_spec(self.byte_spec()) == Some(self),
    {
    }

    /// Law: exactly the bytes below 9 decode, and each decodes to the
    /// variant whose byte it is.
    pub proof fn lemma_byte_round_trip(b: u8)
        ensures
            Self::from_byte_spec(b) is Some <==> b < 9,
            Self::from_byte_spec(b) matches Some(v) ==> v.byte_spec() == b,
    {
    }

    /// Law: the parameter's wire table: each byte listed decodes to the
    /// variant beside it, and each variant is written as its byte.
    pub proof fn lemma_wire_table()
        ensures
            Self::from_byte_spec(0x00) == Some(SpeakerType::Off),
            Self::from_byte_spec(0x01) == Some(SpeakerType::Original),
            Self::from_byte_spec(0x02) == Some(SpeakerType::OneByEight),
            Self::from_byte_spec(0x03) == Some(SpeakerType::OneByTen),
            Self::from_byte_spec(0x04) == Some(SpeakerType::OneByTwelve),
            Self::from_byte_spec(0x05) == Some(SpeakerType::TwoByTwelve),
            Self::from_byte_spec(0x06) == Some(SpeakerType::FourByTen),
            Self::from_byte_spec(0x07) == Some(SpeakerType::FourByTwelve),
            Self::from_byte_spec(0x08) == Some(SpeakerType::EightByTwelve),
            SpeakerType::Off.byte_spec() == 0x00,
            SpeakerType::Original.byte_spec() == 0x01,
            SpeakerType::OneByEight.byte_spec() == 0x02,
            SpeakerType::OneByTen.byte_spec() == 0x03,
            SpeakerType::OneByTwelve.byte_spec() == 0x04,
            SpeakerType::TwoByTwelve.byte_spec() == 0x05,
            SpeakerType::FourByTen.byte_spec() == 0x06,
            SpeakerType::FourByTwelve.byte_spec() == 0x07,
            SpeakerType::EightByTwelve.byte_spec() == 0x08,
    {
    }
}

/// Microphone model at page `0x07` offset `0x0D`.
#[derive(Debug, Clone, Copy, PartialEq, Eq, Structural)]
pub enum MicType {
    Dyn57,
    Dyn421,
    Cnd451,
    Cnd87,
    Flat,
}

impl MicType {
    /// Wire byte of each variant.
    pub open spec fn byte_spec(self) -> u8 {
        match self {
            MicType::Dyn57 => 0x00,
            MicType::Dyn421 => 0x01,
            MicType::Cnd451 => 0x02,
            MicType::Cnd87 => 0x03,
            MicType::Flat => 0x04,
        }
    }

    /// The variant a wire byte stands for, if any.
    pub open spec fn from_byte_spec(b: u8) -> Option<Self> {
        if b == 0x00 {
            Some(MicType::Dyn57)
        } else if b == 0x01 {
            Some(MicType::Dyn421)
        } else if b == 0x02 {
            Some(MicType::Cnd451)
        } else if b == 0x03 {
            Some(MicType::Cnd87)
        } else if b == 0x04 {
            Some(MicType::Flat)
        } else {
            None
        }
    }

    pub fn from_byte(b: u8) -> (r: Option<Self>)
        ensures
            r == Self::from_byte_spec(b),
    {
        match b {
            0x00 => Some(MicType::Dyn57),
            0x01 => Some(MicType::Dyn421),
            0x02 => Some(MicType::Cnd451),
            0x03 => Some(MicType::Cnd87),
            0x04 => Some(MicType::Flat),
            _ => None,
        }
    }

    pub fn to_byte(self) -> (r: u8)
        ensures
            r == self.byte_spec(),
    {
        match self {
            MicType::Dyn57 => 0x00,
            MicType::Dyn421 => 0x01,
            MicType::Cnd451 => 0x02,
            MicType::Cnd87 => 0x03,
            MicType::Flat => 0x04,
        }
    }

    /// Law: every variant has a byte below 5, and that byte decodes back
    /// to the variant.
    pub proof fn lemma_round_trip(self)
        ensures
            self.byte_spec() < 5,
            Self::from_byte_spec(self.byte_spec()) == Some(self),
    {
    }

    /// Law: exactly the bytes below 5 decode, and each decodes to the
    /// variant whose byte it is.
    pub proof fn lemma_byte_round_trip(b: u8)
        ensures
            Self::from_byte_spec(b) is Some <==> b < 5,
            Self::from_byte_spec(b) matches Some(v) ==> v.byte_spec() == b,
    {
    }

    /// Law: the parameter's wire table: each byte listed decodes to the
    /// variant beside it, and each variant is written as its byte.
    pub proof fn lemma_wire_table()
        ensures
            Self::from_byte_spec(0x00) == Some(MicType::Dyn57),
            Self::from_byte_spec(0x01) == Some(MicType::Dyn421),
            Self::from_byte_spec(0x02) == Some(MicType::Cnd451),
            Self::from_byte_spec(0x03) == Some(MicType::Cnd87),
            Self::from_byte_spec(0x04) == Some(MicType::Flat),
            MicType::Dyn57.byte_spec() == 0x00,
            MicType::Dyn421.byte_spec() == 0x01,
            MicType::Cnd451.byte_spec() == 0x02,
            MicType::Cnd87.byte_spec() == 0x03,
            MicType::Flat.byte_spec() == 0x04,
    {
    }
}

/// Microphone distance (off-mic / on-mic) at page `0x07` offset `0x0E`.
#[derive(Debug, Clone, Copy, PartialEq, Eq, Structural)]
pub enum MicDistance {
    OffMic,
    OnMic,
}

impl MicDistance {
    /// Wire byte of each variant.
    pub open spec fn byte_spec(self) -> u8 {
        match self {
            MicDistance::OffMic => 0x00,
            MicDistance::OnMic => 0x01,
        }
    }

    /// The variant a wire byte stands for, if any.
    pub open spec fn from_byte_spec(b: u8) -> Option<Self> {
        if b == 0x00 {
            Some(MicDistance::OffMic)
        } else if b == 0x01 {
            Some(MicDistance::OnMic)
        } else {
            None
        }
    }

    pub fn from_byte(b: u8) -> (r: Option<Self>)
        ensures
            r == Self::from_byte_spec(b),
    {
        match b {
            0x00 => Some(MicDistance::OffMic),
            0x01 => Some(MicDistance::OnMic),
            _ => None,
        }
    }

    pub fn to_byte(self) -> (r: u8)
        ensures
            r == self.byte_spec(),
    {
        match self {
            MicDistance::OffMic => 0x00,
            MicDistance::OnMic => 0x01,
        }
    }

    /// Law: every variant has a byte below 2, and that byte decodes back
    /// to the variant.
    pub proof fn lemma_round_trip(self)
        ensures
            self.byte_spec() < 2,
            Self::from_byte_spec(self.byte_spec()) == Some(self),
    {
    }

    /// Law: exactly the bytes below 2 decode, and each decodes to the
    /// variant whose byte it is.
    pub proof fn lemma_byte_round_trip(b: u8)
        ensures
            Self::from_byte_spec(b) is Some <==> b < 2,
            Self::from_byte_spec(b) matches Some(v) ==> v.byte_spec() == b,
    {
    }

    /// Law: the parameter's wire table: each byte listed decodes to the
    /// variant beside it, and each variant is written as its byte.
    pub proof fn lemma_wire_table()
        ensures
            Self::from_byte_spec(0x00) == Some(MicDistance::OffMic),
            Self::from_byte_spec(0x01) == Some(MicDistance::OnMic),
            MicDistance::OffMic.byte_spec() == 0x00,
            MicDistance::OnMic.byte_spec() == 0x01,
    {
    }
}

/// MOD effect type at page `0x07` offset `0x16`. 14 variants determining
/// what the bytes at `0x18..=0x7F` mean. Mined from FloorBoard
/// `midi.xml:43221-43236`.
#[derive(Debug, Clone, Copy, PartialEq, Eq, Structural)]
pub enum ModType {
    Distortion,
    Wah,
    Compressor,
    Limiter,
    Octave,
    Phaser,
    Flanger,
    Tremolo,
    Rotary,
    UniVibe,
    Panner,
    Delay,
    Chorus,
    Equalizer,
}

impl ModType {
    /// Wire byte of each variant.
    pub open spec fn byte_spec(self) -> u8 {
        match self {
            ModType::Distortion => 0x00,
            ModType::Wah => 0x01,
            ModType::Compressor => 0x02,
            ModType::Limiter => 0x03,
            ModType::Octave => 0x04,
            ModType::Phaser => 0x05,
            ModType::Flanger => 0x06,
            ModType::Tremolo => 0x07,
            ModType::Rotary => 0x08,
            ModType::UniVibe => 0x09,
            ModType::Panner => 0x0A,
            ModType::Delay => 0x0B,
            ModType::Chorus => 0x0C,
            ModType::Equalizer => 0x0D,
        }
    }

    /// The variant a wire byte stands for, if any.
    pub open spec fn from_byte_spec(b: u8) -> Option<Self> {
        if b == 0x00 {
            Some(ModType::Distortion)
        } else if b == 0x01 {
            Some(ModType::Wah)
        } else if b == 0x02 {
            Some(ModType::Compressor)
        } else if b == 0x03 {
            Some(ModType::Limiter)
        } else if b == 0x04 {
            Some(ModType::Octave)
        } else if b == 0x05 {
            Some(ModType::Phaser)
        } else if b == 0x06 {
            Some(ModType::Flanger)
        } else if b == 0x07 {
            Some(ModType::Tremolo)
        } else if b == 0x08 {
            Some(ModType::Rotary)
        } else if b == 0x09 {
            Some(ModType::UniVibe)
        } else if b == 0x0A {
            Some(ModType::Panner)
        } else if b == 0x0B {
            Some(ModType::Delay)
        } else if b == 0x0C {
            Some(ModType::Chorus)
        } else if b == 0x0D {
            Some(ModType::Equalizer)
        } else {
            None
        }
    }

    pub fn from_byte(b: u8) -> (r: Option<Self>)
        ensures
            r == Self::from_byte_spec(b),
    {
        match b {
            0x00 => Some(ModType::Distortion),
            0x01 => Some(ModType::Wah),
            0x02 => Some(ModType::Compressor),
            0x03 => Some(ModType::Limiter),
            0x04 => Some(ModType::Octave),
            0x05 => Some(ModType::Phaser),
            0x06 => Some(ModType::Flanger),
            0x07 => Some(ModType::Tremolo),
            0x08 => Some(ModType::Rotary),
            0x09 => Some(ModType::UniVibe),
            0x0A => Some(ModType::Panner),
            0x0B => Some(ModType::Delay),
            0x0C => Some(ModType::Chorus),
            0x0D => Some(ModType::Equalizer),
            _ => None,
        }
    }

    pub fn to_byte(self) -> (r: u8)
        ensures
            r == self.byte_spec(),
    {
        match self {
            ModType::Distortion => 0x00,
            ModType::Wah => 0x01,
            ModType::Compressor => 0x02,
            ModType::Limiter => 0x03,
            ModType::Octave => 0x04,
            ModType::Phaser => 0x05,
            ModType::Flanger => 0x06,
            ModType::Tremolo => 0x07,
            ModType::Rotary => 0x08,
            ModType::UniVibe => 0x09,
            ModType::Panner => 0x0A,
            ModType::Delay => 0x0B,
            ModType::Chorus => 0x0C,
            ModType::Equalizer => 0x0D,
        }
    }

    /// Law: every variant has a byte below 14, and that byte decodes back
    /// to the variant.
    pub proof fn lemma_round_trip(self)
        ensures
            self.byte_spec() < 14,
            Self::from_byte_spec(self.byte_spec()) == Some(self),
    {
    }

    /// Law: exactly the bytes below 14 decode, and each decodes to the
    /// variant whose byte it is.
    pub proof fn lemma_byte_round_trip(b: u8)
        ensures
            Self::from_byte_spec(b) is Some <==> b < 14,
            Self::from_byte_spec(b) matches Some(v) ==> v.byte_spec() == b,
    {
    }

    /// Law: the parameter's wire table: each byte listed decodes to the
    /// variant beside it, and each variant is written as its byte.
    pub proof fn lemma_wire_table()
        ensures
            Self::from_byte_spec(0x00) == Some(ModType::Distortion),
            Self::from_byte_spec(0x01) == Some(ModType::Wah),
            Self::from_byte_spec(0x02) == Some(ModType::Compressor),
            Self::from_byte_spec(0x03) == Some(ModType::Limiter),
            Self::from_byte_spec(0x04) == Some(ModType::Octave),
            Self::from_byte_spec(0x05) == Some(ModType::Phaser),
            Self::from_byte_spec(0x06) == Some(ModType::Flanger),
            Self::from_byte_spec(0x07) == Some(ModType::Tremolo),
            Self::from_byte_spec(0x08) == Some(ModType::Rotary),
            Self::from_byte_spec(0x09) == Some(ModType::UniVibe),
            Self::from_byte_spec(0x0A) == Some(ModType::Panner),
            Self::from_byte_spec(0x0B) == Some(ModType::Delay),
            Self::from_byte_spec(0x0C) == Some(ModType::Chorus),
            Self::from_byte_spec(0x0D) == Some(ModType::Equalizer),
            ModType::Distortion.byte_spec() == 0x00,
            ModType::Wah.byte_spec() == 0x01,
            ModType::Compressor.byte_spec() == 0x02,
            ModType::Limiter.byte_spec() == 0x03,
            ModType::Octave.byte_spec() == 0x04,
            ModType::Phaser.byte_spec() == 0x05,
            ModType::Flanger.byte_spec() == 0x06,
            ModType::Tremolo.byte_spec() == 0x07,
            ModType::Rotary.byte_spec() == 0x08,
            ModType::UniVibe.byte_spec() == 0x09,
            ModType::Panner.byte_spec() == 0x0A,
            ModType::Delay.byte_spec() == 0x0B,
            ModType::Chorus.byte_spec() == 0x0C,
            ModType::Equalizer.byte_spec() == 0x0D,
    {
    }
}

/// Chorus algorithm at page `0x06` offset `0x01`.
#[derive(Debug, Clone, Copy, PartialEq, Eq, Structural)]
pub enum ChorusType {
    Mono,
    Stereo,
    MonoMild,
    StereoMild,
}

impl ChorusType {
    /// Wire byte of each variant.
    pub open spec fn byte_spec(self) -> u8 {
        match self {
            ChorusType::Mono => 0x00,
            ChorusType::Stereo => 0x01,
            ChorusType::MonoMild => 0x02,
            ChorusType::StereoMild => 0x03,
        }
    }

    /// The variant a wire byte stands for, if any.
    pub open spec fn from_byte_spec(b: u8) -> Option<Self> {
        if b == 0x00 {
            Some(ChorusType::Mono)
        } else if b == 0x01 {
            Some(ChorusType::Stereo)
        } else if b == 0x02 {
            Some(ChorusType::MonoMild)
        } else if b == 0x03 {
            Some(ChorusType::StereoMild)
        } else {
            None
        }
    }

    pub fn from_byte(b: u8) -> (r: Option<Self>)
        ensures
            r == Self::from_byte_spec(b),
    {
        match b {
            0x00 => Some(ChorusType::Mono),
            0x01 => Some(ChorusType::Stereo),
            0x02 => Some(ChorusType::MonoMild),
            0x03 => Some(ChorusType::StereoMild),
            _ => None,
        }
    }

    pub fn to_byte(self) -> (r: u8)
        ensures
            r == self.byte_spec(),
    {
        match self {
            ChorusType::Mono => 0x00,
            ChorusType::Stereo => 0x01,
            ChorusType::MonoMild => 0x02,
            ChorusType::StereoMild => 0x03,
        }
    }

    /// Law: every variant has a byte below 4, and that byte decodes back
    /// to the variant.
    pub proof fn lemma_round_trip(self)
        ensures
            self.byte_spec() < 4,
            Self::from_byte_spec(self.byte_spec()) == Some(self),
    {
    }

    /// Law: exactly the bytes below 4 decode, and each decodes to the
    /// variant whose byte it is.
    pub proof fn lemma_byte_round_trip(b: u8)
        ensures
            Self::from_byte_spec(b) is Some <==> b < 4,
            Self::from_byte_spec(b) matches Some(v) ==> v.byte_spec() == b,
    {
    }

    /// Law: the parameter's wire table: each byte listed decodes to the
    /// variant beside it, and each variant is written as its byte.
    pub proof fn lemma_wire_table()
        ensures
            Self::from_byte_spec(0x00) == Some(ChorusType::Mono),
            Self::from_byte_spec(0x01) == Some(ChorusType::Stereo),
            Self::from_byte_spec(0x02) == Some(ChorusType::MonoMild),
            Self::from_byte_spec(0x03) == Some(ChorusType::StereoMild),
            ChorusType::Mono.byte_spec() == 0x00,
            ChorusType::Stereo.byte_spec() == 0x01,
            ChorusType::MonoMild.byte_spec() == 0x02,
            ChorusType::StereoMild.byte_spec() == 0x03,
    {
    }
}

/// Delay algorithm at page `0x06` offset `0x06`.
#[derive(Debug, Clone, Copy, PartialEq, Eq, Structural)]
pub enum DelayType {
    Single,
    Pan,
    Reverse,
    Analog,
    Tape,
    Modulate,
    HiCut,
}

impl DelayType {
    /// Wire byte of each variant.
    pub open spec fn byte_spec(self) -> u8 {
        match self {
            DelayType::Single => 0x00,
            DelayType::Pan => 0x01,
            DelayType::Reverse => 0x02,
            DelayType::Analog => 0x03,
            DelayType::Tape => 0x04,
            DelayType::Modulate => 0x05,
            DelayType::HiCut => 0x06,
        }
    }

    /// The variant a wire byte stands for, if any.
    pub open spec fn from_byte_spec(b: u8) -> Option<Self> {
        if b == 0x00 {
            Some(DelayType::Single)
        } else if b == 0x01 {
            Some(DelayType::Pan)
        } else if b == 0x02 {
            Some(DelayType::Reverse)
        } else if b == 0x03 {
            Some(DelayType::Analog)
        } else if b == 0x04 {
            Some(DelayType::Tape)
        } else if b == 0x05 {
            Some(DelayType::Modulate)
        } else if b == 0x06 {
            Some(DelayType::HiCut)
        } else {
            None
        }
    }

    pub fn from_byte(b: u8) -> (r: Option<Self>)
        ensures
            r == Self::from_byte_spec(b),
    {
        match b {
            0x00 => Some(DelayType::Single),
            0x01 => Some(DelayType::Pan),
            0x02 => Some(DelayType::Reverse),
            0x03 => Some(DelayType::Analog),
            0x04 => Some(DelayType::Tape),
            0x05 => Some(DelayType::Modulate),
            0x06 => Some(DelayType::HiCut),
            _ => None,
        }
    }

    pub fn to_byte(self) -> (r: u8)
        ensures
            r == self.byte_spec(),
    {
        match self {
            DelayType::Single => 0x00,
            DelayType::Pan => 0x01,
            DelayType::Reverse => 0x02,
            DelayType::Analog => 0x03,
            DelayType::Tape => 0x04,
            DelayType::Modulate => 0x05,
            DelayType::HiCut => 0x06,
        }
    }

    /// Law: every variant has a byte below 7, and that byte decodes back
    /// to the variant.
    pub proof fn lemma_round_trip(self)
        ensures
            self.byte_spec() < 7,
            Self::from_byte_spec(self.byte_spec()) == Some(self),
    {
    }

    /// Law: exactly the bytes below 7 decode, and each decodes to the
    /// variant whose byte it is.
    pub proof fn lemma_byte_round_trip(b: u8)
        ensures
            Self::from_byte_spec(b) is Some <==> b < 7,
            Self::from_byte_spec(b) matches Some(v) ==> v.byte_spec() == b,
    {
    }

    /// Law: the parameter's wire table: each byte listed decodes to the
    /// variant beside it, and each variant is written as its byte.
    pub proof fn lemma_wire_table()
        ensures
            Self::from_byte_spec(0x00) == Some(DelayType::Single),
            Self::from_byte_spec(0x01) == Some(DelayType::Pan),
            Self::from_byte_spec(0x02) == Some(DelayType::Reverse),
            Self::from_byte_spec(0x03) == Some(DelayType::Analog),
            Self::from_byte_spec(0x04) == Some(DelayType::Tape),
            Self::from_byte_spec(0x05) == Some(DelayType::Modulate),
            Self::from_byte_spec(0x06) == Some(DelayType::HiCut),
            DelayType::Single.byte_spec() == 0x00,
            DelayType::Pan.byte_spec() == 0x01,
            DelayType::Reverse.byte_spec() == 0x02,
            DelayType::Analog.byte_spec() == 0x03,
            DelayType::Tape.byte_spec() == 0x04,
            DelayType::Modulate.byte_spec() == 0x05,
            DelayType::HiCut.byte_spec() == 0x06,
    {
    }
}

/// Reverb algorithm at page `0x06` offset `0x0D`.
#[derive(Debug, Clone, Copy, PartialEq, Eq, Structural)]
pub enum ReverbType {
    Ambience,
    Room,
    Hall1,
    Hall2,
    Plate,
}

impl ReverbType {
    /// Wire byte of each variant.
    pub open spec fn byte_spec(self) -> u8 {
        match self {
            ReverbType::Ambience => 0x00,
            ReverbType::Room => 0x01,
            ReverbType::Hall1 => 0x02,
            ReverbType::Hall2 => 0x03,
            ReverbType::Plate => 0x04,
        }
    }

    /// The variant a wire byte stands for, if any.
    pub open spec fn from_byte_spec(b: u8) -> Option<Self> {
        if b == 0x00 {
            Some(ReverbType::Ambience)
        } else if b == 0x01 {
            Some(ReverbType::Room)
        } else if b == 0x02 {
            Some(ReverbType::Hall1)
        } else if b == 0x03 {
            Some(ReverbType::Hall2)
        } else if b == 0x04 {
            Some(ReverbType::Plate)
        } else {
            None
        }
    }

    pub fn from_byte(b: u8) -> (r: Option<Self>)
        ensures
            r == Self::from_byte_spec(b),
    {
        match b {
            0x00 => Some(ReverbType::Ambience),
            0x01 => Some(ReverbType::Room),
            0x02 => Some(ReverbType::Hall1),
            0x03 => Some(ReverbType::Hall2),
            0x04 => Some(ReverbType::Plate),
            _ => None,
        }
    }

    pub fn to_byte(self) -> (r: u8)
        ensures
            r == self.byte_spec(),
    {
        match self {
            ReverbType::Ambience => 0x00,
            ReverbType::Room => 0x01,
            ReverbType::Hall1 => 0x02,
            ReverbType::Hall2 => 0x03,
            ReverbType::Plate => 0x04,
        }
    }

    /// Law: every variant has a byte below 5, and that byte decodes back
    /// to the variant.
    pub proof fn lemma_round_trip(self)
        ensures
            self.byte_spec() < 5,
            Self::from_byte_spec(self.byte_spec()) == Some(self),
    {
    }

    /// Law: exactly the bytes below 5 decode, and each decodes to the
    /// variant whose byte it is.
    pub proof fn lemma_byte_round_trip(b: u8)
        ensures
            Self::from_byte_spec(b) is Some <==> b < 5,
            Self::from_byte_spec(b) matches Some(v) ==> v.byte_spec() == b,
    {
    }

    /// Law: the parameter's wire table: each byte listed decodes to the
    /// variant beside it, and each variant is written as its byte.
    pub proof fn lemma_wire_table()
        ensures
            Self::from_byte_spec(0x00) == Some(ReverbType::Ambience),
            Self::from_byte_spec(0x01) == Some(ReverbType::Room),
            Self::from_byte_spec(0x02) == Some(ReverbType::Hall1),
            Self::from_byte_spec(0x03) == Some(ReverbType::Hall2),
            Self::from_byte_spec(0x04) == Some(ReverbType::Plate),
            ReverbType::Ambience.byte_spec() == 0x00,
            ReverbType::Room.byte_spec() == 0x01,
            ReverbType::Hall1.byte_spec() == 0x02,
            ReverbType::Hall2.byte_spec() == 0x03,
            ReverbType::Plate.byte_spec() == 0x04,
    {
    }
}

/// Reverb High Cut at page `0x06` offset `0x0F` (10 settings).
#[derive(Debug, Clone, Copy, PartialEq, Eq, Structural)]
pub enum ReverbHighCut {
    Hz700,
    Khz1_0,
    Khz1_4,
    Khz2_0,
    Khz3_0,
    Khz4_0,
    Khz6_0,
    Khz8_0,
    Khz11,
    Flat,
}

impl ReverbHighCut {
    /// Wire byte of each variant.
    pub open spec fn byte_spec(self) -> u8 {
        match self {
            ReverbHighCut::Hz700 => 0x00,
            ReverbHighCut::Khz1_0 => 0x01,
            ReverbHighCut::Khz1_4 => 0x02,
            ReverbHighCut::Khz2_0 => 0x03,
            ReverbHighCut::Khz3_0 => 0x04,
            ReverbHighCut::Khz4_0 => 0x05,
            ReverbHighCut::Khz6_0 => 0x06,
            ReverbHighCut::Khz8_0 => 0x07,
            ReverbHighCut::Khz11 => 0x08,
            ReverbHighCut::Flat => 0x09,
        }
    }

    /// The variant a wire byte stands for, if any.
    pub open spec fn from_byte_spec(b: u8) -> Option<Self> {
        if b == 0x00 {
            Some(ReverbHighCut::Hz700)
        } else if b == 0x01 {
            Some(ReverbHighCut::Khz1_0)
        } else if b == 0x02 {
            Some(ReverbHighCut::Khz1_4)
        } else if b == 0x03 {
            Some(ReverbHighCut::Khz2_0)
        } else if b == 0x04 {
            Some(ReverbHighCut::Khz3_0)
        } else if b == 0x05 {
            Some(ReverbHighCut::Khz4_0)
        } else if b == 0x06 {
            Some(ReverbHighCut::Khz6_0)
        } else if b == 0x07 {
            Some(ReverbHighCut::Khz8_0)
        } else if b == 0x08 {
            Some(ReverbHighCut::Khz11)
        } else if b == 0x09 {
            Some(ReverbHighCut::Flat)
        } else {
            None
        }
    }

    pub fn from_byte(b: u8) -> (r: Option<Self>)
        ensures
            r == Self::from_byte_spec(b),
    {
        match b {
            0x00 => Some(ReverbHighCut::Hz700),
            0x01 => Some(ReverbHighCut::Khz1_0),
            0x02 => Some(ReverbHighCut::Khz1_4),
            0x03 => Some(ReverbHighCut::Khz2_0),
            0x04 => Some(ReverbHighCut::Khz3_0),
            0x05 => Some(ReverbHighCut::Khz4_0),
            0x06 => Some(ReverbHighCut::Khz6_0),
            0x07 => Some(ReverbHighCut::Khz8_0),
            0x08 => Some(ReverbHighCut::Khz11),
            0x09 => Some(ReverbHighCut::Flat),
            _ => None,
        }
    }

    pub fn to_byte(self) -> (r: u8)
        ensures
            r == self.byte_spec(),
    {
        match self {
            ReverbHighCut::Hz700 => 0x00,
            ReverbHighCut::Khz1_0 => 0x01,
            ReverbHighCut::Khz1_4 => 0x02,
            ReverbHighCut::Khz2_0 => 0x03,
            ReverbHighCut::Khz3_0 => 0x04,
            ReverbHighCut::Khz4_0 => 0x05,
            ReverbHighCut::Khz6_0 => 0x06,
            ReverbHighCut::Khz8_0 => 0x07,
            ReverbHighCut::Khz11 => 0x08,
            ReverbHighCut::Flat => 0x09,
        }
    }

    /// Law: every variant has a byte below 10, and that byte decodes back
    /// to the variant.
    pub proof fn lemma_round_trip(self)
        ensures
            self.byte_spec() < 10,
            Self::from_byte_spec(self.byte_spec()) == Some(self),
    {
    }

    /// Law: exactly the bytes below 10 decode, and each decodes to the
    /// variant whose byte it is.
    pub proof fn lemma_byte_round_trip(b: u8)
        ensures
            Self::from_byte_spec(b) is Some <==> b < 10,
            Self::from_byte_spec(b) matches Some(v) ==> v.byte_spec() == b,
    {
    }

    /// Law: the parameter's wire table: each byte listed decodes to the
    /// variant beside it, and each variant is written as its byte.
    pub proof fn lemma_wire_table()
        ensures
            Self::from_byte_spec(0x00) == Some(ReverbHighCut::Hz700),
            Self::from_byte_spec(0x01) == Some(ReverbHighCut::Khz1_0),
            Self::from_byte_spec(0x02) == Some(ReverbHighCut::Khz1_4),
            Self::from_byte_spec(0x03) == Some(ReverbHighCut::Khz2_0),
            Self::from_byte_spec(0x04) == Some(ReverbHighCut::Khz3_0),
            Self::from_byte_spec(0x05) == Some(ReverbHighCut::Khz4_0),
            Self::from_byte_spec(0x06) == Some(ReverbHighCut::Khz6_0),
            Self::from_byte_spec(0x07) == Some(ReverbHighCut::Khz8_0),
            Self::from_byte_spec(0x08) == Some(ReverbHighCut::Khz11),
            Self::from_byte_spec(0x09) == Some(ReverbHighCut::Flat),
            ReverbHighCut::Hz700.byte_spec() == 0x00,
            ReverbHighCut::Khz1_0.byte_spec() == 0x01,
            ReverbHighCut::Khz1_4.byte_spec() == 0x02,
            ReverbHighCut::Khz2_0.byte_spec() == 0x03,
            ReverbHighCut::Khz3_0.byte_spec() == 0x04,
            ReverbHighCut::Khz4_0.byte_spec() == 0x05,
            ReverbHighCut::Khz6_0.byte_spec() == 0x06,
            ReverbHighCut::Khz8_0.byte_spec() == 0x07,
            ReverbHighCut::Khz11.byte_spec() == 0x08,
            ReverbHighCut::Flat.byte_spec() == 0x09,
    {
    }
}

/// Patch EQ Lo Cut at page `0x06` offset `0x12` (11 settings).
#[derive(Debug, Clone, Copy, PartialEq, Eq, Structural)]
pub enum PatchEqLoCut {
    Flat,
    Hz55,
    Hz110,
    Hz165,
    Hz200,
    Hz280,
    Hz340,
    Hz400,
    Hz500,
    Hz630,
    Hz800,
}

impl PatchEqLoCut {
    /// Wire byte of each variant.
    pub open spec fn byte_spec(self) -> u8 {
        match self {
            PatchEqLoCut::Flat => 0x00,
            PatchEqLoCut::Hz55 => 0x01,
            PatchEqLoCut::Hz110 => 0x02,
            PatchEqLoCut::Hz165 => 0x03,
            PatchEqLoCut::Hz200 => 0x04,
            PatchEqLoCut::Hz280 => 0x05,
            PatchEqLoCut::Hz340 => 0x06,
            PatchEqLoCut::Hz400 => 0x07,
            PatchEqLoCut::Hz500 => 0x08,
            PatchEqLoCut::Hz630 => 0x09,
            PatchEqLoCut::Hz800 => 0x0A,
        }
    }

    /// The variant a wire byte stands for, if any.
    pub open spec fn from_byte_spec(b: u8) -> Option<Self> {
        if b == 0x00 {
            Some(PatchEqLoCut::Flat)
        } else if b == 0x01 {
            Some(PatchEqLoCut::Hz55)
        } else if b == 0x02 {
            Some(PatchEqLoCut::Hz110)
        } else if b == 0x03 {
            Some(PatchEqLoCut::Hz165)
        } else if b == 0x04 {
            Some(PatchEqLoCut::Hz200)
        } else if b == 0x05 {
            Some(PatchEqLoCut::Hz280)
        } else if b == 0x06 {
            Some(PatchEqLoCut::Hz340)
        } else if b == 0x07 {
            Some(PatchEqLoCut::Hz400)
        } else if b == 0x08 {
            Some(PatchEqLoCut::Hz500)
        } else if b == 0x09 {
            Some(PatchEqLoCut::Hz630)
        } else if b == 0x0A {
            Some(PatchEqLoCut::Hz800)
        } else {
            None
        }
    }

    pub fn from_byte(b: u8) -> (r: Option<Self>)
        ensures
            r == Self::from_byte_spec(b),
    {
        match b {
            0x00 => Some(PatchEqLoCut::Flat),
            0x01 => Some(PatchEqLoCut::Hz55),
            0x02 => Some(PatchEqLoCut::Hz110),
            0x03 => Some(PatchEqLoCut::Hz165),
            0x04 => Some(PatchEqLoCut::Hz200),
            0x05 => Some(PatchEqLoCut::Hz280),
            0x06 => Some(PatchEqLoCut::Hz340),
            0x07 => Some(PatchEqLoCut::Hz400),
            0x08 => Some(PatchEqLoCut::Hz500),
            0x09 => Some(PatchEqLoCut::Hz630),
            0x0A => Some(PatchEqLoCut::Hz800),
            _ => None,
        }
    }

    pub fn to_byte(self) -> (r: u8)
        ensures
            r == self.byte_spec(),
    {
        match self {
            PatchEqLoCut::Flat => 0x00,
            PatchEqLoCut::Hz55 => 0x01,
            PatchEqLoCut::Hz110 => 0x02,
            PatchEqLoCut::Hz165 => 0x03,
            PatchEqLoCut::Hz200 => 0x04,
            PatchEqLoCut::Hz280 => 0x05,
            PatchEqLoCut::Hz340 => 0x06,
            PatchEqLoCut::Hz400 => 0x07,
            PatchEqLoCut::Hz500 => 0x08,
            PatchEqLoCut::Hz630 => 0x09,
            PatchEqLoCut::Hz800 => 0x0A,
        }
    }

    /// Law: every variant has a byte below 11, and that byte decodes back
    /// to the variant.
    pub proof fn lemma_round_trip(self)
        ensures
            self.byte_spec() < 11,
            Self::from_byte_spec(self.byte_spec()) == Some(self),
    {
    }

    /// Law: exactly the bytes below 11 decode, and each decodes to the
    /// variant whose byte it is.
    pub proof fn lemma_byte_round_trip(b: u8)
        ensures
            Self::from_byte_spec(b) is Some <==> b < 11,
            Self::from_byte_spec(b) matches Some(v) ==> v.byte_spec() == b,
    {
    }

    /// Law: the parameter's wire table: each byte listed decodes to the
    /// variant beside it, and each variant is written as its byte.
    pub proof fn lemma_wire_table()
        ensures
            Self::from_byte_spec(0x00) == Some(PatchEqLoCut::Flat),
            Self::from_byte_spec(0x01) == Some(PatchEqLoCut::Hz55),
            Self::from_byte_spec(0x02) == Some(PatchEqLoCut::Hz110),
            Self::from_byte_spec(0x03) == Some(PatchEqLoCut::Hz165),
            Self::from_byte_spec(0x04) == Some(PatchEqLoCut::Hz200),
            Self::from_byte_spec(0x05) == Some(PatchEqLoCut::Hz280),
            Self::from_byte_spec(0x06) == Some(PatchEqLoCut::Hz340),
            Self::from_byte_spec(0x07) == Some(PatchEqLoCut::Hz400),
            Self::from_byte_spec(0x08) == Some(PatchEqLoCut::Hz500),
            Self::from_byte_spec(0x09) == Some(PatchEqLoCut::Hz630),
            Self::from_byte_spec(0x0A) == Some(PatchEqLoCut::Hz800),
            PatchEqLoCut::Flat.byte_spec() == 0x00,
            PatchEqLoCut::Hz55.byte_spec() == 0x01,
            PatchEqLoCut::Hz110.byte_spec() == 0x02,
            PatchEqLoCut::Hz165.byte_spec() == 0x03,
            PatchEqLoCut::Hz200.byte_spec() == 0x04,
            PatchEqLoCut::Hz280.byte_spec() == 0x05,
            PatchEqLoCut::Hz340.byte_spec() == 0x06,
            PatchEqLoCut::Hz400.byte_spec() == 0x07,
            PatchEqLoCut::Hz500.byte_spec() == 0x08,
            PatchEqLoCut::Hz630.byte_spec() == 0x09,
            PatchEqLoCut::Hz800.byte_spec() == 0x0A,
    {
    }
}

/// Patch EQ Lo/Hi Mid Freq at page `0x06` offsets `0x14` and `0x17`
/// (28 settings, 20Hz..=10kHz). Reused for both bands.
#[derive(Debug, Clone, Copy, PartialEq, Eq, Structural)]
pub enum PatchEqMidFreq {
    Hz20_0,
    Hz25_0,
    Hz31_5,
    Hz40_0,
    Hz50_0,
    Hz63_0,
    Hz80_0,
    Hz100,
    Hz125,
    Hz160,
    Hz200,
    Hz250,
    Hz315,
    Hz400,
    Hz500,
    Hz630,
    Hz800,
    Khz1_00,
    Khz1_25,
    Khz1_60,
    Khz2_00,
    Khz2_50,
    Khz3_15,
    Khz4_00,
    Khz5_00,
    Khz6_30,
    Khz8_00,
    Khz10_0,
}

impl PatchEqMidFreq {
    /// Wire byte of each variant.
    pub open spec fn byte_spec(self) -> u8 {
        match self {
            PatchEqMidFreq::Hz20_0 => 0x00,
            PatchEqMidFreq::Hz25_0 => 0x01,
            PatchEqMidFreq::Hz31_5 => 0x02,
            PatchEqMidFreq::Hz40_0 => 0x03,
            PatchEqMidFreq::Hz50_0 => 0x04,
            PatchEqMidFreq::Hz63_0 => 0x05,
            PatchEqMidFreq::Hz80_0 => 0x06,
            PatchEqMidFreq::Hz100 => 0x07,
            PatchEqMidFreq::Hz125 => 0x08,
            PatchEqMidFreq::Hz160 => 0x09,
            PatchEqMidFreq::Hz200 => 0x0A,
            PatchEqMidFreq::Hz250 => 0x0B,
            PatchEqMidFreq::Hz315 => 0x0C,
            PatchEqMidFreq::Hz400 => 0x0D,
            PatchEqMidFreq::Hz500 => 0x0E,
            PatchEqMidFreq::Hz630 => 0x0F,
            PatchEqMidFreq::Hz800 => 0x10,
            PatchEqMidFreq::Khz1_00 => 0x11,
            PatchEqMidFreq::Khz1_25 => 0x12,
            PatchEqMidFreq::Khz1_60 => 0x13,
            PatchEqMidFreq::Khz2_00 => 0x14,
            PatchEqMidFreq::Khz2_50 => 0x15,
            PatchEqMidFreq::Khz3_15 => 0x16,
            PatchEqMidFreq::Khz4_00 => 0x17,
            PatchEqMidFreq::Khz5_00 => 0x18,
            PatchEqMidFreq::Khz6_30 => 0x19,
            PatchEqMidFreq::Khz8_00 => 0x1A,
            PatchEqMidFreq::Khz10_0 => 0x1B,
        }
    }

    /// The variant a wire byte stands for, if any.
    pub open spec fn from_byte_spec(b: u8) -> Option<Self> {
        if b == 0x00 {
            Some(PatchEqMidFreq::Hz20_0)
        } else if b == 0x01 {
            Some(PatchEqMidFreq::Hz25_0)
        } else if b == 0x02 {
            Some(PatchEqMidFreq::Hz31_5)
        } else if b == 0x03 {
            Some(PatchEqMidFreq::Hz40_0)
        } else if b == 0x04 {
            Some(PatchEqMidFreq::Hz50_0)
        } else if b == 0x05 {
            Some(PatchEqMidFreq::Hz63_0)
        } else if b == 0x06 {
            Some(PatchEqMidFreq::Hz80_0)
        } else if b == 0x07 {
            Some(PatchEqMidFreq::Hz100)
        } else if b == 0x08 {
            Some(PatchEqMidFreq::Hz125)
        } else if b == 0x09 {
            Some(PatchEqMidFreq::Hz160)
        } else if b == 0x0A {
            Some(PatchEqMidFreq::Hz200)
        } else if b == 0x0B {
            Some(PatchEqMidFreq::Hz250)
        } else if b == 0x0C {
            Some(PatchEqMidFreq::Hz315)
        } else if b == 0x0D {
            Some(PatchEqMidFreq::Hz400)
        } else if b == 0x0E {
            Some(PatchEqMidFreq::Hz500)
        } else if b == 0x0F {
            Some(PatchEqMidFreq::Hz630)
        } else if b == 0x10 {
            Some(PatchEqMidFreq::Hz800)
        } else if b == 0x11 {
            Some(PatchEqMidFreq::Khz1_00)
        } else if b == 0x12 {
            Some(PatchEqMidFreq::Khz1_25)
        } else if b == 0x13 {
            Some(PatchEqMidFreq::Khz1_60)
        } else if b == 0x14 {
            Some(PatchEqMidFreq::Khz2_00)
        } else if b == 0x15 {
            Some(PatchEqMidFreq::Khz2_50)
        } else if b == 0x16 {
            Some(PatchEqMidFreq::Khz3_15)
        } else if b == 0x17 {
            Some(PatchEqMidFreq::Khz4_00)
        } else if b == 0x18 {
            Some(PatchEqMidFreq::Khz5_00)
        } else if b == 0x19 {
            Some(PatchEqMidFreq::Khz6_30)
        } else if b == 0x1A {
            Some(PatchEqMidFreq::Khz8_00)
        } else if b == 0x1B {
            Some(PatchEqMidFreq::Khz10_0)
        } else {
            None
        }
    }

    pub fn from_byte(b: u8) -> (r: Option<Self>)
        ensures
            r == Self::from_byte_spec(b),
    {
        match b {
            0x00 => Some(PatchEqMidFreq::Hz20_0),
            0x01 => Some(PatchEqMidFreq::Hz25_0),
            0x02 => Some(PatchEqMidFreq::Hz31_5),
            0x03 => Some(PatchEqMidFreq::Hz40_0),
            0x04 => Some(PatchEqMidFreq::Hz50_0),
            0x05 => Some(PatchEqMidFreq::Hz63_0),
            0x06 => Some(PatchEqMidFreq::Hz80_0),
            0x07 => Some(PatchEqMidFreq::Hz100),
            0x08 => Some(PatchEqMidFreq::Hz125),
            0x09 => Some(PatchEqMidFreq::Hz160),
            0x0A => Some(PatchEqMidFreq::Hz200),
            0x0B => Some(PatchEqMidFreq::Hz250),
            0x0C => Some(PatchEqMidFreq::Hz315),
            0x0D => Some(PatchEqMidFreq::Hz400),
            0x0E => Some(PatchEqMidFreq::Hz500),
            0x0F => Some(PatchEqMidFreq::Hz630),
            0x10 => Some(PatchEqMidFreq::Hz800),
            0x11 => Some(PatchEqMidFreq::Khz1_00),
            0x12 => Some(PatchEqMidFreq::Khz1_25),
            0x13 => Some(PatchEqMidFreq::Khz1_60),
            0x14 => Some(PatchEqMidFreq::Khz2_00),
            0x15 => Some(PatchEqMidFreq::Khz2_50),
            0x16 => Some(PatchEqMidFreq::Khz3_15),
            0x17 => Some(PatchEqMidFreq::Khz4_00),
            0x18 => Some(PatchEqMidFreq::Khz5_00),
            0x19 => Some(PatchEqMidFreq::Khz6_30),
            0x1A => Some(PatchEqMidFreq::Khz8_00),
            0x1B => Some(PatchEqMidFreq::Khz10_0),
            _ => None,
        }
    }

    pub fn to_byte(self) -> (r: u8)
        ensures
            r == self.byte_spec(),
    {
        match self {
            PatchEqMidFreq::Hz20_0 => 0x00,
            PatchEqMidFreq::Hz25_0 => 0x01,
            PatchEqMidFreq::Hz31_5 => 0x02,
            PatchEqMidFreq::Hz40_0 => 0x03,
            PatchEqMidFreq::Hz50_0 => 0x04,
            PatchEqMidFreq::Hz63_0 => 0x05,
            PatchEqMidFreq::Hz80_0 => 0x06,
            PatchEqMidFreq::Hz100 => 0x07,
            PatchEqMidFreq::Hz125 => 0x08,
            PatchEqMidFreq::Hz160 => 0x09,
            PatchEqMidFreq::Hz200 => 0x0A,
            PatchEqMidFreq::Hz250 => 0x0B,
            PatchEqMidFreq::Hz315 => 0x0C,
            PatchEqMidFreq::Hz400 => 0x0D,
            PatchEqMidFreq::Hz500 => 0x0E,
            PatchEqMidFreq::Hz630 => 0x0F,
            PatchEqMidFreq::Hz800 => 0x10,
            PatchEqMidFreq::Khz1_00 => 0x11,
            PatchEqMidFreq::Khz1_25 => 0x12,
            PatchEqMidFreq::Khz1_60 => 0x13,
            PatchEqMidFreq::Khz2_00 => 0x14,
            PatchEqMidFreq::Khz2_50 => 0x15,
            PatchEqMidFreq::Khz3_15 => 0x16,
            PatchEqMidFreq::Khz4_00 => 0x17,
            PatchEqMidFreq::Khz5_00 => 0x18,
            PatchEqMidFreq::Khz6_30 => 0x19,
            PatchEqMidFreq::Khz8_00 => 0x1A,
            PatchEqMidFreq::Khz10_0 => 0x1B,
        }
    }

    /// Law: every variant has a byte below 28, and that byte decodes back
    /// to the variant.
    pub proof fn lemma_round_trip(self)
        ensures
            self.byte_spec() < 28,
            Self::from_byte_spec(self.byte_spec()) == Some(self),
    {
    }

    /// Law: exactly the bytes below 28 decode, and each decodes to the
    /// variant whose byte it is.
    pub proof fn lemma_byte_round_trip(b: u8)
        ensures
            Self::from_byte_spec(b) is Some <==> b < 28,
            Self::from_byte_spec(b) matches Some(v) ==> v.byte_spec() == b,
    {
    }

    /// Law: the parameter's wire table: each byte listed decodes to the
    /// variant beside it, and each variant is written as its byte.
    pub proof fn lemma_wire_table()
        ensures
            Self::from_byte_spec(0x00) == Some(PatchEqMidFreq::Hz20_0),
            Self::from_byte_spec(0x01) == Some(PatchEqMidFreq::Hz25_0),
            Self::from_byte_spec(0x02) == Some(PatchEqMidFreq::Hz31_5),
            Self::from_byte_spec(0x03) == Some(PatchEqMidFreq::Hz40_0),
            Self::from_byte_spec(0x04) == Some(PatchEqMidFreq::Hz50_0),
            Self::from_byte_spec(0x05) == Some(PatchEqMidFreq::Hz63_0),
            Self::from_byte_spec(0x06) == Some(PatchEqMidFreq::Hz80_0),
            Self::from_byte_spec(0x07) == Some(PatchEqMidFreq::Hz100),
            Self::from_byte_spec(0x08) == Some(PatchEqMidFreq::Hz125),
            Self::from_byte_spec(0x09) == Some(PatchEqMidFreq::Hz160),
            Self::from_byte_spec(0x0A) == Some(PatchEqMidFreq::Hz200),
            Self::from_byte_spec(0x0B) == Some(PatchEqMidFreq::Hz250),
            Self::from_byte_spec(0x0C) == Some(PatchEqMidFreq::Hz315),
            Self::from_byte_spec(0x0D) == Some(PatchEqMidFreq::Hz400),
            Self::from_byte_spec(0x0E) == Some(PatchEqMidFreq::Hz500),
            Self::from_byte_spec(0x0F) == Some(PatchEqMidFreq::Hz630),
            Self::from_byte_spec(0x10) == Some(PatchEqMidFreq::Hz800),
            Self::from_byte_spec(0x11) == Some(PatchEqMidFreq::Khz1_00),
            Self::from_byte_spec(0x12) == Some(PatchEqMidFreq::Khz1_25),
            Self::from_byte_spec(0x13) == Some(PatchEqMidFreq::Khz1_60),
            Self::from_byte_spec(0x14) == Some(PatchEqMidFreq::Khz2_00),
            Self::from_byte_spec(0x15) == Some(PatchEqMidFreq::Khz2_50),
            Self::from_byte_spec(0x16) == Some(PatchEqMidFreq::Khz3_15),
            Self::from_byte_spec(0x17) == Some(PatchEqMidFreq::Khz4_00),
            Self::from_byte_spec(0x18) == Some(PatchEqMidFreq::Khz5_00),
            Self::from_byte_spec(0x19) == Some(PatchEqMidFreq::Khz6_30),
            Self::from_byte_spec(0x1A) == Some(PatchEqMidFreq::Khz8_00),
            Self::from_byte_spec(0x1B) == Some(PatchEqMidFreq::Khz10_0),
            PatchEqMidFreq::Hz20_0.byte_spec() == 0x00,
            PatchEqMidFreq::Hz25_0.byte_spec() == 0x01,
            PatchEqMidFreq::Hz31_5.byte_spec() == 0x02,
            PatchEqMidFreq::Hz40_0.byte_spec() == 0x03,
            PatchEqMidFreq::Hz50_0.byte_spec() == 0x04,
            PatchEqMidFreq::Hz63_0.byte_spec() == 0x05,
            PatchEqMidFreq::Hz80_0.byte_spec() == 0x06,
            PatchEqMidFreq::Hz100.byte_spec() == 0x07,
            PatchEqMidFreq::Hz125.byte_spec() == 0x08,
            PatchEqMidFreq::Hz160.byte_spec() == 0x09,
            PatchEqMidFreq::Hz200.byte_spec() == 0x0A,
            PatchEqMidFreq::Hz250.byte_spec() == 0x0B,
            PatchEqMidFreq::Hz315.byte_spec() == 0x0C,
            PatchEqMidFreq::Hz400.byte_spec() == 0x0D,
            PatchEqMidFreq::Hz500.byte_spec() == 0x0E,
            PatchEqMidFreq::Hz630.byte_spec() == 0x0F,
            PatchEqMidFreq::Hz800.byte_spec() == 0x10,
            PatchEqMidFreq::Khz1_00.byte_spec() == 0x11,
            PatchEqMidFreq::Khz1_25.byte_spec() == 0x12,
            PatchEqMidFreq::Khz1_60.byte_spec() == 0x13,
            PatchEqMidFreq::Khz2_00.byte_spec() == 0x14,
            PatchEqMidFreq::Khz2_50.byte_spec() == 0x15,
            PatchEqMidFreq::Khz3_15.byte_spec() == 0x16,
            PatchEqMidFreq::Khz4_00.byte_spec() == 0x17,
            PatchEqMidFreq::Khz5_00.byte_spec() == 0x18,
            PatchEqMidFreq::Khz6_30.byte_spec() == 0x19,
            PatchEqMidFreq::Khz8_00.byte_spec() == 0x1A,
            PatchEqMidFreq::Khz10_0.byte_spec() == 0x1B,
    {
    }
}

/// Patch EQ Lo/Hi Mid Q at page `0x06` offsets `0x15` and `0x18`
/// (6 settings). Reused for both bands.
#[derive(Debug, Clone, Copy, PartialEq, Eq, Structural)]
pub enum PatchEqMidQ {
    Q0_5,
    Q1,
    Q2,
    Q4,
    Q8,
    Q16,
}

impl PatchEqMidQ {
    /// Wire byte of each variant.
    pub open spec fn byte_spec(self) -> u8 {
        match self {
            PatchEqMidQ::Q0_5 => 0x00,
            PatchEqMidQ::Q1 => 0x01,
            PatchEqMidQ::Q2 => 0x02,
            PatchEqMidQ::Q4 => 0x03,
            PatchEqMidQ::Q8 => 0x04,
            PatchEqMidQ::Q16 => 0x05,
        }
    }

    /// The variant a wire byte stands for, if any.
    pub open spec fn from_byte_spec(b: u8) -> Option<Self> {
        if b == 0x00 {
            Some(PatchEqMidQ::Q0_5)
        } else if b == 0x01 {
            Some(PatchEqMidQ::Q1)
        } else if b == 0x02 {
            Some(PatchEqMidQ::Q2)
        } else if b == 0x03 {
            Some(PatchEqMidQ::Q4)
        } else if b == 0x04 {
            Some(PatchEqMidQ::Q8)
        } else if b == 0x05 {
            Some(PatchEqMidQ::Q16)
        } else {
            None
        }
    }

    pub fn from_byte(b: u8) -> (r: Option<Self>)
        ensures
            r == Self::from_byte_spec(b),
    {
        match b {
            0x00 => Some(PatchEqMidQ::Q0_5),
            0x01 => Some(PatchEqMidQ::Q1),
            0x02 => Some(PatchEqMidQ::Q2),
            0x03 => Some(PatchEqMidQ::Q4),
            0x04 => Some(PatchEqMidQ::Q8),
            0x05 => Some(PatchEqMidQ::Q16),
            _ => None,
        }
    }

    pub fn to_byte(self) -> (r: u8)
        ensures
            r == self.byte_spec(),
    {
        match self {
            PatchEqMidQ::Q0_5 => 0x00,
            PatchEqMidQ::Q1 => 0x01,
            PatchEqMidQ::Q2 => 0x02,
            PatchEqMidQ::Q4 => 0x03,
            PatchEqMidQ::Q8 => 0x04,
            PatchEqMidQ::Q16 => 0x05,
        }
    }

    /// Law: every variant has a byte below 6, and that byte decodes back
    /// to the variant.
    pub proof fn lemma_round_trip(self)
        ensures
            self.byte_spec() < 6,
            Self::from_byte_spec(self.byte_spec()) == Some(self),
    {
    }

    /// Law: exactly the bytes below 6 decode, and each decodes to the
    /// variant whose byte it is.
    pub proof fn lemma_byte_round_trip(b: u8)
        ensures
            Self::from_byte_spec(b) is Some <==> b < 6,
            Self::from_byte_spec(b) matches Some(v) ==> v.byte_spec() == b,
    {
    }

    /// Law: the parameter's wire table: each byte listed decodes to the
    /// variant beside it, and each variant is written as its byte.
    pub proof fn lemma_wire_table()
        ensures
            Self::from_byte_spec(0x00) == Some(PatchEqMidQ::Q0_5),
            Self::from_byte_spec(0x01) == Some(PatchEqMidQ::Q1),
            Self::from_byte_spec(0x02) == Some(PatchEqMidQ::Q2),
            Self::from_byte_spec(0x03) == Some(PatchEqMidQ::Q4),
            Self::from_byte_spec(0x04) == Some(PatchEqMidQ::Q8),
            Self::from_byte_spec(0x05) == Some(PatchEqMidQ::Q16),
            PatchEqMidQ::Q0_5.byte_spec() == 0x00,
            PatchEqMidQ::Q1.byte_spec() == 0x01,
            PatchEqMidQ::Q2.byte_spec() == 0x02,
            PatchEqMidQ::Q4.byte_spec() == 0x03,
            PatchEqMidQ::Q8.byte_spec() == 0x04,
            PatchEqMidQ::Q16.byte_spec() == 0x05,
    {
    }
}

/// Patch EQ High Cut at page `0x06` offset `0x1A` (10 settings,
/// 700Hz..=11kHz + Flat). Same byte layout as [`ReverbHighCut`].
#[derive(Debug, Clone, Copy, PartialEq, Eq, Structural)]
pub enum PatchEqHighCut {
    Hz700,
    Khz1_00,
    Khz1_40,
    Khz2_00,
    Khz3_00,
    Khz4_00,
    Khz6_00,
    Khz8_00,
    Khz11_0,
    Flat,
}

impl PatchEqHighCut {
    /// Wire byte of each variant.
    pub open spec fn byte_spec(self) -> u8 {
        match self {
            PatchEqHighCut::Hz700 => 0x00,
            PatchEqHighCut::Khz1_00 => 0x01,
            PatchEqHighCut::Khz1_40 => 0x02,
            PatchEqHighCut::Khz2_00 => 0x03,
            PatchEqHighCut::Khz3_00 => 0x04,
            PatchEqHighCut::Khz4_00 => 0x05,
            PatchEqHighCut::Khz6_00 => 0x06,
            PatchEqHighCut::Khz8_00 => 0x07,
            PatchEqHighCut::Khz11_0 => 0x08,
            PatchEqHighCut::Flat => 0x09,
        }
    }

    /// The variant a wire byte stands for, if any.
    pub open spec fn from_byte_spec(b: u8) -> Option<Self> {
        if b == 0x00 {
            Some(PatchEqHighCut::Hz700)
        } else if b == 0x01 {
            Some(PatchEqHighCut::Khz1_00)
        } else if b == 0x02 {
            Some(PatchEqHighCut::Khz1_40)
        } else if b == 0x03 {
            Some(PatchEqHighCut::Khz2_00)
        } else if b == 0x04 {
            Some(PatchEqHighCut::Khz3_00)
        } else if b == 0x05 {
            Some(PatchEqHighCut::Khz4_00)
        } else if b == 0x06 {
            Some(PatchEqHighCut::Khz6_00)
        } else if b == 0x07 {
            Some(PatchEqHighCut::Khz8_00)
        } else if b == 0x08 {
            Some(PatchEqHighCut::Khz11_0)
        } else if b == 0x09 {
            Some(PatchEqHighCut::Flat)
        } else {
            None
        }
    }

    pub fn from_byte(b: u8) -> (r: Option<Self>)
        ensures
            r == Self::from_byte_spec(b),
    {
        match b {
            0x00 => Some(PatchEqHighCut::Hz700),
            0x01 => Some(PatchEqHighCut::Khz1_00),
            0x02 => Some(PatchEqHighCut::Khz1_40),
            0x03 => Some(PatchEqHighCut::Khz2_00),
            0x04 => Some(PatchEqHighCut::Khz3_00),
            0x05 => Some(PatchEqHighCut::Khz4_00),
            0x06 => Some(PatchEqHighCut::Khz6_00),
            0x07 => Some(PatchEqHighCut::Khz8_00),
            0x08 => Some(PatchEqHighCut::Khz11_0),
            0x09 => Some(PatchEqHighCut::Flat),
            _ => None,
        }
    }

    pub fn to_byte(self) -> (r: u8)
        ensures
            r == self.byte_spec(),
    {
        match self {
            PatchEqHighCut::Hz700 => 0x00,
            PatchEqHighCut::Khz1_00 => 0x01,
            PatchEqHighCut::Khz1_40 => 0x02,
            PatchEqHighCut::Khz2_00 => 0x03,
            PatchEqHighCut::Khz3_00 => 0x04,
            PatchEqHighCut::Khz4_00 => 0x05,
            PatchEqHighCut::Khz6_00 => 0x06,
            PatchEqHighCut::Khz8_00 => 0x07,
            PatchEqHighCut::Khz11_0 => 0x08,
            PatchEqHighCut::Flat => 0x09,
        }
    }

    /// Law: every variant has a byte below 10, and that byte decodes back
    /// to the variant.
    pub proof fn lemma_round_trip(self)
        ensures
            self.byte_spec() < 10,
            Self::from_byte_spec(self.byte_spec()) == Some(self),
    {
    }

    /// Law: exactly the bytes below 10 decode, and each decodes to the
    /// variant whose byte it is.
    pub proof fn lemma_byte_round_trip(b: u8)
        ensures
            Self::from_byte_spec(b) is Some <==> b < 10,
            Self::from_byte_spec(b) matches Some(v) ==> v.byte_spec() == b,
    {
    }

    /// Law: the parameter's wire table: each byte listed decodes to the
    /// variant beside it, and each variant is written as its byte.
    pub proof fn lemma_wire_table()
        ensures
            Self::from_byte_spec(0x00) == Some(PatchEqHighCut::Hz700),
            Self::from_byte_spec(0x01) == Some(PatchEqHighCut::Khz1_00),
            Self::from_byte_spec(0x02) == Some(PatchEqHighCut::Khz1_40),
            Self::from_byte_spec(0x03) == Some(PatchEqHighCut::Khz2_00),
            Self::from_byte_spec(0x04) == Some(PatchEqHighCut::Khz3_00),
            Self::from_byte_spec(0x05) == Some(PatchEqHighCut::Khz4_00),
            Self::from_byte_spec(0x06) == Some(PatchEqHighCut::Khz6_00),
            Self::from_byte_spec(0x07) == Some(PatchEqHighCut::Khz8_00),
            Self::from_byte_spec(0x08) == Some(PatchEqHighCut::Khz11_0),
            Self::from_byte_spec(0x09) == Some(PatchEqHighCut::Flat),
            PatchEqHighCut::Hz700.byte_spec() == 0x00,
            PatchEqHighCut::Khz1_00.byte_spec() == 0x01,
            PatchEqHighCut::Khz1_40.byte_spec() == 0x02,
            PatchEqHighCut::Khz2_00.byte_spec() == 0x03,
            PatchEqHighCut::Khz3_00.byte_spec() == 0x04,
            PatchEqHighCut::Khz4_00.byte_spec() == 0x05,
            PatchEqHighCut::Khz6_00.byte_spec() == 0x06,
            PatchEqHighCut::Khz8_00.byte_spec() == 0x07,
            PatchEqHighCut::Khz11_0.byte_spec() == 0x08,
            PatchEqHighCut::Flat.byte_spec() == 0x09,
    {
    }
}

/// Patch EQ Character at page `0x06` offset `0x1D` (-3..=+3).
#[derive(Debug, Clone, Copy, PartialEq, Eq, Structural)]
pub enum PatchEqCharacter {
    Minus3,
    Minus2,
    Minus1,
    Zero,
    Plus1,
    Plus2,
    Plus3,
}

impl PatchEqCharacter {
    /// Wire byte of each variant.
    pub open spec fn byte_spec(self) -> u8 {
        match self {
            PatchEqCharacter::Minus3 => 0x00,
            PatchEqCharacter::Minus2 => 0x01,
            PatchEqCharacter::Minus1 => 0x02,
            PatchEqCharacter::Zero => 0x03,
            PatchEqCharacter::Plus1 => 0x04,
            PatchEqCharacter::Plus2 => 0x05,
            PatchEqCharacter::Plus3 => 0x06,
        }
    }

    /// The variant a wire byte stands for, if any.
    pub open spec fn from_byte_spec(b: u8) -> Option<Self> {
        if b == 0x00 {
            Some(PatchEqCharacter::Minus3)
        } else if b == 0x01 {
            Some(PatchEqCharacter::Minus2)
        } else if b == 0x02 {
            Some(PatchEqCharacter::Minus1)
        } else if b == 0x03 {
            Some(PatchEqCharacter::Zero)
        } else if b == 0x04 {
            Some(PatchEqCharacter::Plus1)
        } else if b == 0x05 {
            Some(PatchEqCharacter::Plus2)
        } else if b == 0x06 {
            Some(PatchEqCharacter::Plus3)
        } else {
            None
        }
    }

    pub fn from_byte(b: u8) -> (r: Option<Self>)
        ensures
            r == Self::from_byte_spec(b),
    {
        match b {
            0x00 => Some(PatchEqCharacter::Minus3),
            0x01 => Some(PatchEqCharacter::Minus2),
            0x02 => Some(PatchEqCharacter::Minus1),
            0x03 => Some(PatchEqCharacter::Zero),
            0x04 => Some(PatchEqCharacter::Plus1),
            0x05 => Some(PatchEqCharacter::Plus2),
            0x06 => Some(PatchEqCharacter::Plus3),
            _ => None,
        }
    }

    pub fn to_byte(self) -> (r: u8)
        ensures
            r == self.byte_spec(),
    {
        match self {
            PatchEqCharacter::Minus3 => 0x00,
            PatchEqCharacter::Minus2 => 0x01,
            PatchEqCharacter::Minus1 => 0x02,
            PatchEqCharacter::Zero => 0x03,
            PatchEqCharacter::Plus1 => 0x04,
            PatchEqCharacter::Plus2 => 0x05,
            PatchEqCharacter::Plus3 => 0x06,
        }
    }

    /// Law: every variant has a byte below 7, and that byte decodes back
    /// to the variant.
    pub proof fn lemma_round_trip(self)
        ensures
            self.byte_spec() < 7,
            Self::from_byte_spec(self.byte_spec()) == Some(self),
    {
    }

    /// Law: exactly the bytes below 7 decode, and each decodes to the
    /// variant whose byte it is.
    pub proof fn lemma_byte_round_trip(b: u8)
        ensures
            Self::from_byte_spec(b) is Some <==> b < 7,
            Self::from_byte_spec(b) matches Some(v) ==> v.byte_spec() == b,
    {
    }

    /// Law: the parameter's wire table: each byte listed decodes to the
    /// variant beside it, and each variant is written as its byte.
    pub proof fn lemma_wire_table()
        ensures
            Self::from_byte_spec(0x00) == Some(PatchEqCharacter::Minus3),
            Self::from_byte_spec(0x01) == Some(PatchEqCharacter::Minus2),
            Self::from_byte_spec(0x02) == Some(PatchEqCharacter::Minus1),
            Self::from_byte_spec(0x03) == Some(PatchEqCharacter::Zero),
            Self::from_byte_spec(0x04) == Some(PatchEqCharacter::Plus1),
            Self::from_byte_spec(0x05) == Some(PatchEqCharacter::Plus2),
            Self::from_byte_spec(0x06) == Some(PatchEqCharacter::Plus3),
            PatchEqCharacter::Minus3.byte_spec() == 0x00,
            PatchEqCharacter::Minus2.byte_spec() == 0x01,
            PatchEqCharacter::Minus1.byte_spec() == 0x02,
            PatchEqCharacter::Zero.byte_spec() == 0x03,
            PatchEqCharacter::Plus1.byte_spec() == 0x04,
            PatchEqCharacter::Plus2.byte_spec() == 0x05,
            PatchEqCharacter::Plus3.byte_spec() == 0x06,
    {
    }
}

/// GK Set selector at page `0x02` offset `0x24`. 11 variants: System
/// (= follow the global system-area setting) plus the 10 per-patch
/// overrides. Mined from FloorBoard `midi.xml:39880-39895`.
#[derive(Debug, Clone, Copy, PartialEq, Eq, Structural)]
pub enum PatchGkSet {
    System,
    User1,
    User2,
    User3,
    User4,
    User5,
    User6,
    User7,
    User8,
    User9,
    User10,
}

impl PatchGkSet {
    /// Wire byte of each variant.
    pub open spec fn byte_spec(self) -> u8 {
        match self {
            PatchGkSet::System => 0x00,
            PatchGkSet::User1 => 0x01,
            PatchGkSet::User2 => 0x02,
            PatchGkSet::User3 => 0x03,
            PatchGkSet::User4 => 0x04,
            PatchGkSet::User5 => 0x05,
            PatchGkSet::User6 => 0x06,
            PatchGkSet::User7 => 0x07,
            PatchGkSet::User8 => 0x08,
            PatchGkSet::User9 => 0x09,
            PatchGkSet::User10 => 0x0A,
        }
    }

    /// The variant a wire byte stands for, if any.
    pub open spec fn from_byte_spec(b: u8) -> Option<Self> {
        if b == 0x00 {
            Some(PatchGkSet::System)
        } else if b == 0x01 {
            Some(PatchGkSet::User1)
        } else if b == 0x02 {
            Some(PatchGkSet::User2)
        } else if b == 0x03 {
            Some(PatchGkSet::User3)
        } else if b == 0x04 {
            Some(PatchGkSet::User4)
        } else if b == 0x05 {
            Some(PatchGkSet::User5)
        } else if b == 0x06 {
            Some(PatchGkSet::User6)
        } else if b == 0x07 {
            Some(PatchGkSet::User7)
        } else if b == 0x08 {
            Some(PatchGkSet::User8)
        } else if b == 0x09 {
            Some(PatchGkSet::User9)
        } else if b == 0x0A {
            Some(PatchGkSet::User10)
        } else {
            None
        }
    }

    pub fn from_byte(b: u8) -> (r: Option<Self>)
        ensures
            r == Self::from_byte_spec(b),
    {
        match b {
            0x00 => Some(PatchGkSet::System),
            0x01 => Some(PatchGkSet::User1),
            0x02 => Some(PatchGkSet::User2),
            0x03 => Some(PatchGkSet::User3),
            0x04 => Some(PatchGkSet::User4),
            0x05 => Some(PatchGkSet::User5),
            0x06 => Some(PatchGkSet::User6),
            0x07 => Some(PatchGkSet::User7),
            0x08 => Some(PatchGkSet::User8),
            0x09 => Some(PatchGkSet::User9),
            0x0A => Some(PatchGkSet::User10),
            _ => None,
        }
    }

    pub fn to_byte(self) -> (r: u8)
        ensures
            r == self.byte_spec(),
    {
        match self {
            PatchGkSet::System => 0x00,
            PatchGkSet::User1 => 0x01,
            PatchGkSet::User2 => 0x02,
            PatchGkSet::User3 => 0x03,
            PatchGkSet::User4 => 0x04,
            PatchGkSet::User5 => 0x05,
            PatchGkSet::User6 => 0x06,
            PatchGkSet::User7 => 0x07,
            PatchGkSet::User8 => 0x08,
            PatchGkSet::User9 => 0x09,
            PatchGkSet::User10 => 0x0A,
        }
    }

    /// Law: every variant has a byte below 11, and that byte decodes back
    /// to the variant.
    pub proof fn lemma_round_trip(self)
        ensures
            self.byte_spec() < 11,
            Self::from_byte_spec(self.byte_spec()) == Some(self),
    {
    }

    /// Law: exactly the bytes below 11 decode, and each decodes to the
    /// variant whose byte it is.
    pub proof fn lemma_byte_round_trip(b: u8)
        ensures
            Self::from_byte_spec(b) is Some <==> b < 11,
            Self::from_byte_spec(b) matches Some(v) ==> v.byte_spec() == b,
    {
    }

    /// Law: the parameter's wire table: each byte listed decodes to the
    /// variant beside it, and each variant is written as its byte.
    pub proof fn lemma_wire_table()
        ensures
            Self::from_byte_spec(0x00) == Some(PatchGkSet::System),
            Self::from_byte_spec(0x01) == Some(PatchGkSet::User1),
            Self::from_byte_spec(0x02) == Some(PatchGkSet::User2),
            Self::from_byte_spec(0x03) == Some(PatchGkSet::User3),
            Self::from_byte_spec(0x04) == Some(PatchGkSet::User4),
            Self::from_byte_spec(0x05) == Some(PatchGkSet::User5),
            Self::from_byte_spec(0x06) == Some(PatchGkSet::User6),
            Self::from_byte_spec(0x07) == Some(PatchGkSet::User7),
            Self::from_byte_spec(0x08) == Some(PatchGkSet::User8),
            Self::from_byte_spec(0x09) == Some(PatchGkSet::User9),
            Self::from_byte_spec(0x0A) == Some(PatchGkSet::User10),
            PatchGkSet::System.byte_spec() == 0x00,
            PatchGkSet::User1.byte_spec() == 0x01,
            PatchGkSet::User2.byte_spec() == 0x02,
            PatchGkSet::User3.byte_spec() == 0x03,
            PatchGkSet::User4.byte_spec() == 0x04,
            PatchGkSet::User5.byte_spec() == 0x05,
            PatchGkSet::User6.byte_spec() == 0x06,
            PatchGkSet::User7.byte_spec() == 0x07,
            PatchGkSet::User8.byte_spec() == 0x08,
            PatchGkSet::User9.byte_spec() == 0x09,
            PatchGkSet::User10.byte_spec() == 0x0A,
    {
    }
}

/// Guitar Out routing at page `0x02` offset `0x25`.
#[derive(Debug, Clone, Copy, PartialEq, Eq, Structural)]
pub enum GuitarOut {
    Off,
    NormalPu,
    Modeling,
    Both,
}

impl GuitarOut {
    /// Wire byte of each variant.
    pub open spec fn byte_spec(self) -> u8 {
        match self {
            GuitarOut::Off => 0x00,
            GuitarOut::NormalPu => 0x01,
            GuitarOut::Modeling => 0x02,
            GuitarOut::Both => 0x03,
        }
    }

    /// The variant a wire byte stands for, if any.
    pub open spec fn from_byte_spec(b: u8) -> Option<Self> {
        if b == 0x00 {
            Some(GuitarOut::Off)
        } else if b == 0x01 {
            Some(GuitarOut::NormalPu)
        } else if b == 0x02 {
            Some(GuitarOut::Modeling)
        } else if b == 0x03 {
            Some(GuitarOut::Both)
        } else {
            None
        }
    }

    pub fn from_byte(b: u8) -> (r: Option<Self>)
        ensures
            r == Self::from_byte_spec(b),
    {
        match b {
            0x00 => Some(GuitarOut::Off),
            0x01 => Some(GuitarOut::NormalPu),
            0x02 => Some(GuitarOut::Modeling),
            0x03 => Some(GuitarOut::Both),
            _ => None,
        }
    }

    pub fn to_byte(self) -> (r: u8)
        ensures
            r == self.byte_spec(),
    {
        match self {
            GuitarOut::Off => 0x00,
            GuitarOut::NormalPu => 0x01,
            GuitarOut::Modeling => 0x02,
            GuitarOut::Both => 0x03,
        }
    }

    /// Law: every variant has a byte below 4, and that byte decodes back
    /// to the variant.
    pub proof fn lemma_round_trip(self)
        ensures
            self.byte_spec() < 4,
            Self::from_byte_spec(self.byte_spec()) == Some(self),
    {
    }

    /// Law: exactly the bytes below 4 decode, and each decodes to the
    /// variant whose byte it is.
    pub proof fn lemma_byte_round_trip(b: u8)
        ensures
            Self::from_byte_spec(b) is Some <==> b < 4,
            Self::from_byte_spec(b) matches Some(v) ==> v.byte_spec() == b,
    {
    }

    /// Law: the parameter's wire table: each byte listed decodes to the
    /// variant beside it, and each variant is written as its byte.
    pub proof fn lemma_wire_table()
        ensures
            Self::from_byte_spec(0x00) == Some(GuitarOut::Off),
            Self::from_byte_spec(0x01) == Some(GuitarOut::NormalPu),
            Self::from_byte_spec(0x02) == Some(GuitarOut::Modeling),
            Self::from_byte_spec(0x03) == Some(GuitarOut::Both),
            GuitarOut::Off.byte_spec() == 0x00,
            GuitarOut::NormalPu.byte_spec() == 0x01,
            GuitarOut::Modeling.byte_spec() == 0x02,
            GuitarOut::Both.byte_spec() == 0x03,
    {
    }
}

/// V-LINK control target (EXP, EXP ON, GK VOL fields at page `0x02`
/// offsets `0x29..=0x2B`).
#[derive(Debug, Clone, Copy, PartialEq, Eq, Structural)]
pub enum VLinkControl {
    Off,
    ColorCb,
    ColorCr,
    Bright,
    PlaySpeed,
}

impl VLinkControl {
    /// Wire byte of each variant.
    pub open spec fn byte_spec(self) -> u8 {
        match self {
            VLinkControl::Off => 0x00,
            VLinkControl::ColorCb => 0x01,
            VLinkControl::ColorCr => 0x02,
            VLinkControl::Bright => 0x03,
            VLinkControl::PlaySpeed => 0x04,
        }
    }

    /// The variant a wire byte stands for, if any.
    pub open spec fn from_byte_spec(b: u8) -> Option<Self> {
        if b == 0x00 {
            Some(VLinkControl::Off)
        } else if b == 0x01 {
            Some(VLinkControl::ColorCb)
        } else if b == 0x02 {
            Some(VLinkControl::ColorCr)
        } else if b == 0x03 {
            Some(VLinkControl::Bright)
        } else if b == 0x04 {
            Some(VLinkControl::PlaySpeed)
        } else {
            None
        }
    }

    pub fn from_byte(b: u8) -> (r: Option<Self>)
        ensures
            r == Self::from_byte_spec(b),
    {
        match b {
            0x00 => Some(VLinkControl::Off),
            0x01 => Some(VLinkControl::ColorCb),
            0x02 => Some(VLinkControl::ColorCr),
            0x03 => Some(VLinkControl::Bright),
            0x04 => Some(VLinkControl::PlaySpeed),
            _ => None,
        }
    }

    pub fn to_byte(self) -> (r: u8)
        ensures
            r == self.byte_spec(),
    {
        match self {
            VLinkControl::Off => 0x00,
            VLinkControl::ColorCb => 0x01,
            VLinkControl::ColorCr => 0x02,
            VLinkControl::Bright => 0x03,
            VLinkControl::PlaySpeed => 0x04,
        }
    }

    /// Law: every variant has a byte below 5, and that byte decodes back
    /// to the variant.
    pub proof fn lemma_round_trip(self)
        ensures
            self.byte_spec() < 5,
            Self::from_byte_spec(self.byte_spec()) == Some(self),
    {
    }

    /// Law: exactly the bytes below 5 decode, and each decodes to the
    /// variant whose byte it is.
    pub proof fn lemma_byte_round_trip(b: u8)
        ensures
            Self::from_byte_spec(b) is Some <==> b < 5,
            Self::from_byte_spec(b) matches Some(v) ==> v.byte_spec() == b,
    {
    }

    /// Law: the parameter's wire table: each byte listed decodes to the
    /// variant beside it, and each variant is written as its byte.
    pub proof fn lemma_wire_table()
        ensures
            Self::from_byte_spec(0x00) == Some(VLinkControl::Off),
            Self::from_byte_spec(0x01) == Some(VLinkControl::ColorCb),
            Self::from_byte_spec(0x02) == Some(VLinkControl::ColorCr),
            Self::from_byte_spec(0x03) == Some(VLinkControl::Bright),
            Self::from_byte_spec(0x04) == Some(VLinkControl::PlaySpeed),
            VLinkControl::Off.byte_spec() == 0x00,
            VLinkControl::ColorCb.byte_spec() == 0x01,
            VLinkControl::ColorCr.byte_spec() == 0x02,
            VLinkControl::Bright.byte_spec() == 0x03,
            VLinkControl::PlaySpeed.byte_spec() == 0x04,
    {
    }
}

/// Patch structure selector at page `0x02` offset `0x2C`.
#[derive(Debug, Clone, Copy, PartialEq, Eq, Structural)]
pub enum PatchStructure {
    Structure1,
    Structure2,
}

impl PatchStructure {
    /// Wire byte of each variant.
    pub open spec fn byte_spec(self) -> u8 {
        match self {
            PatchStructure::Structure1 => 0x00,
            PatchStructure::Structure2 => 0x01,
        }
    }

    /// The variant a wire byte stands for, if any.
    pub open spec fn from_byte_spec(b: u8) -> Option<Self> {
        if b == 0x00 {
            Some(PatchStructure::Structure1)
        } else if b == 0x01 {
            Some(PatchStructure::Structure2)
        } else {
            None
        }
    }

    pub fn from_byte(b: u8) -> (r: Option<Self>)
        ensures
            r == Self::from_byte_spec(b),
    {
        match b {
            0x00 => Some(PatchStructure::Structure1),
            0x01 => Some(PatchStructure::Structure2),
            _ => None,
        }
    }

    pub fn to_byte(self) -> (r: u8)
        ensures
            r == self.byte_spec(),
    {
        match self {
            PatchStructure::Structure1 => 0x00,
            PatchStructure::Structure2 => 0x01,
        }
    }

    /// Law: every variant has a byte below 2, and that byte decodes back
    /// to the variant.
    pub proof fn lemma_round_trip(self)
        ensures
            self.byte_spec() < 2,
            Self::from_byte_spec(self.byte_spec()) == Some(self),
    {
    }

    /// Law: exactly the bytes below 2 decode, and each decodes to the
    /// variant whose byte it is.
    pub proof fn lemma_byte_round_trip(b: u8)
        ensures
            Self::from_byte_spec(b) is Some <==> b < 2,
            Self::from_byte_spec(b) matches Some(v) ==> v.byte_spec() == b,
    {
    }

    /// Law: the parameter's wire table: each byte listed decodes to the
    /// variant beside it, and each variant is written as its byte.
    pub proof fn lemma_wire_table()
        ensures
            Self::from_byte_spec(0x00) == Some(PatchStructure::Structure1),
            Self::from_byte_spec(0x01) == Some(PatchStructure::Structure2),
            PatchStructure::Structure1.byte_spec() == 0x00,
            PatchStructure::Structure2.byte_spec() == 0x01,
    {
    }
}

/// Per-mode line route at page `0x02` offsets `0x2D` (Modeling) and `0x2E`
/// (AnalogPU). Three positions: `ByPass`, `Amp/MOD`, `MFX`.
#[derive(Debug, Clone, Copy, PartialEq, Eq, Structural)]
pub enum LineRoute {
    ByPass,
    AmpMod,
    Mfx,
}

impl LineRoute {
    /// Wire byte of each variant.
    pub open spec fn byte_spec(self) -> u8 {
        match self {
            LineRoute::ByPass => 0x00,
            LineRoute::AmpMod => 0x01,
            LineRoute::Mfx => 0x02,
        }
    }

    /// The variant a wire byte stands for, if any.
    pub open spec fn from_byte_spec(b: u8) -> Option<Self> {
        if b == 0x00 {
            Some(LineRoute::ByPass)
        } else if b == 0x01 {
            Some(LineRoute::AmpMod)
        } else if b == 0x02 {
            Some(LineRoute::Mfx)
        } else {
            None
        }
    }

    pub fn from_byte(b: u8) -> (r: Option<Self>)
        ensures
            r == Self::from_byte_spec(b),
    {
        match b {
            0x00 => Some(LineRoute::ByPass),
            0x01 => Some(LineRoute::AmpMod),
            0x02 => Some(LineRoute::Mfx),
            _ => None,
        }
    }

    pub fn to_byte(self) -> (r: u8)
        ensures
            r == self.byte_spec(),
    {
        match self {
            LineRoute::ByPass => 0x00,
            LineRoute::AmpMod => 0x01,
            LineRoute::Mfx => 0x02,
        }
    }

    /// Law: every variant has a byte below 3, and that byte decodes back
    /// to the variant.
    pub proof fn lemma_round_trip(self)
        ensures
            self.byte_spec() < 3,
            Self::from_byte_spec(self.byte_spec()) == Some(self),
    {
    }

    /// Law: exactly the bytes below 3 decode, and each decodes to the
    /// variant whose byte it is.
    pub proof fn lemma_byte_round_trip(b: u8)
        ensures
            Self::from_byte_spec(b) is Some <==> b < 3,
            Self::from_byte_spec(b) matches Some(v) ==> v.byte_spec() == b,
    {
    }

    /// Law: the parameter's wire table: each byte listed decodes to the
    /// variant beside it, and each variant is written as its byte.
    pub proof fn lemma_wire_table()
        ensures
            Self::from_byte_spec(0x00) == Some(LineRoute::ByPass),
            Self::from_byte_spec(0x01) == Some(LineRoute::AmpMod),
            Self::from_byte_spec(0x02) == Some(LineRoute::Mfx),
            LineRoute::ByPass.byte_spec() == 0x00,
            LineRoute::AmpMod.byte_spec() == 0x01,
            LineRoute::Mfx.byte_spec() == 0x02,
    {
    }
}

/// Analog PU "Tone Sw" at page `0x02` offset `0x32`. **WIRE-REVERSED**
/// — FloorBoard `midi.xml` lists value 0x00 as `On` and 0x01 as `Off`,
/// the opposite of the standard [`OnOff`] enum. We model it as a
/// distinct type to keep that wire reversal explicit at every site.
#[derive(Debug, Clone, Copy, PartialEq, Eq, Structural)]
pub enum AnalogPuToneSw {
    On,
    Off,
}

impl AnalogPuToneSw {
    /// Wire byte of each variant.
    pub open spec fn byte_spec(self) -> u8 {
        match self {
            AnalogPuToneSw::On => 0x00,
            AnalogPuToneSw::Off => 0x01,
        }
    }

    /// The variant a wire byte stands for, if any.
    pub open spec fn from_byte_spec(b: u8) -> Option<Self> {
        if b == 0x00 {
            Some(AnalogPuToneSw::On)
        } else if b == 0x01 {
            Some(AnalogPuToneSw::Off)
        } else {
            None
        }
    }

    pub fn from_byte(b: u8) -> (r: Option<Self>)
        ensures
            r == Self::from_byte_spec(b),
    {
        match b {
            0x00 => Some(AnalogPuToneSw::On),
            0x01 => Some(AnalogPuToneSw::Off),
            _ => None,
        }
    }

    pub fn to_byte(self) -> (r: u8)
        ensures
            r == self.byte_spec(),
    {
        match self {
            AnalogPuToneSw::On => 0x00,
            AnalogPuToneSw::Off => 0x01,
        }
    }

    /// Law: every variant has a byte below 2, and that byte decodes back
    /// to the variant.
    pub proof fn lemma_round_trip(self)
        ensures
            self.byte_spec() < 2,
            Self::from_byte_spec(self.byte_spec()) == Some(self),
    {
    }

    /// Law: exactly the bytes below 2 decode, and each decodes to the
    /// variant whose byte it is.
    pub proof fn lemma_byte_round_trip(b: u8)
        ensures
            Self::from_byte_spec(b) is Some <==> b < 2,
            Self::from_byte_spec(b) matches Some(v) ==> v.byte_spec() == b,
    {
    }

    /// Law: the parameter's wire table: each byte listed decodes to the
    /// variant beside it, and each variant is written as its byte.
    pub proof fn lemma_wire_table()
        ensures
            Self::from_byte_spec(0x00) == Some(AnalogPuToneSw::On),
            Self::from_byte_spec(0x01) == Some(AnalogPuToneSw::Off),
            AnalogPuToneSw::On.byte_spec() == 0x00,
            AnalogPuToneSw::Off.byte_spec() == 0x01,
    {
    }
}

/// Alt Tuning preset at page `0x02` offset `0x35`. 13 variants.
///
/// **NOTE:** FloorBoard `midi.xml` has a data bug here — entries for
/// `-1 Octave`, `+1 Octave`, and `User` all collide at `value="0A"`.
/// We assume the intended sequential mapping (`0x0A`, `0x0B`, `0x0C`)
/// since the device has 13 distinct alt-tuning presets.
#[derive(Debug, Clone, Copy, PartialEq, Eq, Structural)]
pub enum AltTuningType {
    OpenD,
    OpenE,
    OpenG,
    OpenA,
    DropD,
    DModal,
    MinusOneStep,
    MinusTwoStep,
    Baritone,
    Nashville,
    MinusOneOctave,
    PlusOneOctave,
    User,
}

impl AltTuningType {
    /// Wire byte of each variant.
    pub open spec fn byte_spec(self) -> u8 {
        match self {
            AltTuningType::OpenD => 0x00,
            AltTuningType::OpenE => 0x01,
            AltTuningType::OpenG => 0x02,
            AltTuningType::OpenA => 0x03,
            AltTuningType::DropD => 0x04,
            AltTuningType::DModal => 0x05,
            AltTuningType::MinusOneStep => 0x06,
            AltTuningType::MinusTwoStep => 0x07,
            AltTuningType::Baritone => 0x08,
            AltTuningType::Nashville => 0x09,
            AltTuningType::MinusOneOctave => 0x0A,
            AltTuningType::PlusOneOctave => 0x0B,
            AltTuningType::User => 0x0C,
        }
    }

    /// The variant a wire byte stands for, if any.
    pub open spec fn from_byte_spec(b: u8) -> Option<Self> {
        if b == 0x00 {
            Some(AltTuningType::OpenD)
        } else if b == 0x01 {
            Some(AltTuningType::OpenE)
        } else if b == 0x02 {
            Some(AltTuningType::OpenG)
        } else if b == 0x03 {
            Some(AltTuningType::OpenA)
        } else if b == 0x04 {
            Some(AltTuningType::DropD)
        } else if b == 0x05 {
            Some(AltTuningType::DModal)
        } else if b == 0x06 {
            Some(AltTuningType::MinusOneStep)
        } else if b == 0x07 {
            Some(AltTuningType::MinusTwoStep)
        } else if b == 0x08 {
            Some(AltTuningType::Baritone)
        } else if b == 0x09 {
            Some(AltTuningType::Nashville)
        } else if b == 0x0A {
            Some(AltTuningType::MinusOneOctave)
        } else if b == 0x0B {
            Some(AltTuningType::PlusOneOctave)
        } else if b == 0x0C {
            Some(AltTuningType::User)
        } else {
            None
        }
    }

    pub fn from_byte(b: u8) -> (r: Option<Self>)
        ensures
            r == Self::from_byte_spec(b),
    {
        match b {
            0x00 => Some(AltTuningType::OpenD),
            0x01 => Some(AltTuningType::OpenE),
            0x02 => Some(AltTuningType::OpenG),
            0x03 => Some(AltTuningType::OpenA),
            0x04 => Some(AltTuningType::DropD),
            0x05 => Some(AltTuningType::DModal),
            0x06 => Some(AltTuningType::MinusOneStep),
            0x07 => Some(AltTuningType::MinusTwoStep),
            0x08 => Some(AltTuningType::Baritone),
            0x09 => Some(AltTuningType::Nashville),
            0x0A => Some(AltTuningType::MinusOneOctave),
            0x0B => Some(AltTuningType::PlusOneOctave),
            0x0C => Some(AltTuningType::User),
            _ => None,
        }
    }

    pub fn to_byte(self) -> (r: u8)
        ensures
            r == self.byte_spec(),
    {
        match self {
            AltTuningType::OpenD => 0x00,
            AltTuningType::OpenE => 0x01,
            AltTuningType::OpenG => 0x02,
            AltTuningType::OpenA => 0x03,
            AltTuningType::DropD => 0x04,
            AltTuningType::DModal => 0x05,
            AltTuningType::MinusOneStep => 0x06,
            AltTuningType::MinusTwoStep => 0x07,
            AltTuningType::Baritone => 0x08,
            AltTuningType::Nashville => 0x09,
            AltTuningType::MinusOneOctave => 0x0A,
            AltTuningType::PlusOneOctave => 0x0B,
            AltTuningType::User => 0x0C,
        }
    }

    /// Law: every variant has a byte below 13, and that byte decodes back
    /// to the variant.
    pub proof fn lemma_round_trip(self)
        ensures
            self.byte_spec() < 13,
            Self::from_byte_spec(self.byte_spec()) == Some(self),
    {
    }

    /// Law: exactly the bytes below 13 decode, and each decodes to the
    /// variant whose byte it is.
    pub proof fn lemma_byte_round_trip(b: u8)
        ensures
            Self::from_byte_spec(b) is Some <==> b < 13,
            Self::from_byte_spec(b) matches Some(v) ==> v.byte_spec() == b,
    {
    }

    /// Law: the parameter's wire table: each byte listed decodes to the
    /// variant beside it, and each variant is written as its byte.
    pub proof fn lemma_wire_table()
        ensures
            Self::from_byte_spec(0x00) == Some(AltTuningType::OpenD),
            Self::from_byte_spec(0x01) == Some(AltTuningType::OpenE),
            Self::from_byte_spec(0x02) == Some(AltTuningType::OpenG),
            Self::from_byte_spec(0x03) == Some(AltTuningType::OpenA),
            Self::from_byte_spec(0x04) == Some(AltTuningType::DropD),
            Self::from_byte_spec(0x05) == Some(AltTuningType::DModal),
            Self::from_byte_spec(0x06) == Some(AltTuningType::MinusOneStep),
            Self::from_byte_spec(0x07) == Some(AltTuningType::MinusTwoStep),
            Self::from_byte_spec(0x08) == Some(AltTuningType::Baritone),
            Self::from_byte_spec(0x09) == Some(AltTuningType::Nashville),
            Self::from_byte_spec(0x0A) == Some(AltTuningType::MinusOneOctave),
            Self::from_byte_spec(0x0B) == Some(AltTuningType::PlusOneOctave),
            Self::from_byte_spec(0x0C) == Some(AltTuningType::User),
            AltTuningType::OpenD.byte_spec() == 0x00,
            AltTuningType::OpenE.byte_spec() == 0x01,
            AltTuningType::OpenG.byte_spec() == 0x02,
            AltTuningType::OpenA.byte_spec() == 0x03,
            AltTuningType::DropD.byte_spec() == 0x04,
            AltTuningType::DModal.byte_spec() == 0x05,
            AltTuningType::MinusOneStep.byte_spec() == 0x06,
            AltTuningType::MinusTwoStep.byte_spec() == 0x07,
            AltTuningType::Baritone.byte_spec() == 0x08,
            AltTuningType::Nashville.byte_spec() == 0x09,
            AltTuningType::MinusOneOctave.byte_spec() == 0x0A,
            AltTuningType::PlusOneOctave.byte_spec() == 0x0B,
            AltTuningType::User.byte_spec() == 0x0C,
    {
    }
}
} // verus!
