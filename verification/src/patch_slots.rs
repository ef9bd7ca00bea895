//! The Patch area's sub-structures: Master Assigns, the MFX, MOD and
//! Modeling slots and the two PCM tones. Each maps its own offsets to wire
//! bytes (`at`) and takes bytes one at a time (`store_byte`).
use vstd::prelude::*;
use crate::byte_map::ByteMap;
use crate::patch_enums::{AnalogPuToneSw, AssignIntPdlCurve, AssignInternalTrigger, AssignSourceMode, AssignWaveForm, BassModeCategory, BmEBassType, BmEGuitarType, EqHighFreq, EqLowFreq, EqMidFreq, EqMidQ, GmAcousticType, GmEBassType, GmEGuitarType, GuitarModeCategory, LineRoute, MfxType, ModType, ModelingSynthType, PortamentoSwitch, TvaReleaseMode};
use crate::patch_values::{AssignSource, PcmToneIndex};
use crate::system_enums::OnOff;

verus! {

/// One Master Assign: 19 bytes of target, range, source and modulation
/// settings, each typed.
#[derive(Debug, Clone, Copy, PartialEq, Eq, Structural)]
pub struct Assign {
    pub on_off: Option<OnOff>,
    pub target: Option<u8>,
    pub target_b: Option<u8>,
    pub target_c: Option<u8>,
    pub min: Option<u8>,
    pub min_b: Option<u8>,
    pub min_c: Option<u8>,
    pub max: Option<u8>,
    pub max_b: Option<u8>,
    pub max_c: Option<u8>,
    pub source: Option<AssignSource>,
    pub source_mode: Option<AssignSourceMode>,
    pub range_low: Option<u8>,
    pub range_high: Option<u8>,
    pub internal_trigger: Option<AssignInternalTrigger>,
    pub int_pdl_time: Option<u8>,
    pub int_pdl_curve: Option<AssignIntPdlCurve>,
    pub wave_rate: Option<u8>,
    pub wave_form: Option<AssignWaveForm>,
}

impl Assign {
    /// Whether the slot takes byte `b` at byte `off`.
    pub open spec fn accepts(off: u32, b: u8) -> bool {
        if off == 0x00 {
            b < 2
        } else if off == 0x01 {
            b <= 15
        } else if off == 0x02 {
            b <= 15
        } else if off == 0x03 {
            b <= 15
        } else if off == 0x04 {
            b <= 15
        } else if off == 0x05 {
            b <= 15
        } else if off == 0x06 {
            b <= 15
        } else if off == 0x07 {
            b <= 15
        } else if off == 0x08 {
            b <= 15
        } else if off == 0x09 {
            b <= 15
        } else if off == 0x0A {
            b <= 0x47
        } else if off == 0x0B {
            b < 2
        } else if off == 0x0C {
            b <= 126
        } else if off == 0x0D {
            1 <= b <= 127
        } else if off == 0x0E {
            b < 11
        } else if off == 0x0F {
            b <= 100
        } else if off == 0x10 {
            b < 3
        } else if off == 0x11 {
            b <= 113
        } else if off == 0x12 {
            b < 3
        } else {
            false
        }
    }

    /// The wire byte the slot holds at byte `off`.
    pub open spec fn at(self, off: u32) -> Option<u8> {
        if off == 0x00 {
            match self.on_off {
                Some(v) => Some(v.byte_spec()),
                None => None,
            }
        } else if off == 0x01 {
            self.target
        } else if off == 0x02 {
            self.target_b
        } else if off == 0x03 {
            self.target_c
        } else if off == 0x04 {
            self.min
        } else if off == 0x05 {
            self.min_b
        } else if off == 0x06 {
            self.min_c
        } else if off == 0x07 {
            self.max
        } else if off == 0x08 {
            self.max_b
        } else if off == 0x09 {
            self.max_c
        } else if off == 0x0A {
            match self.source {
                Some(v) => Some(v.byte_spec()),
                None => None,
            }
        } else if off == 0x0B {
            match self.source_mode {
                Some(v) => Some(v.byte_spec()),
                None => None,
            }
        } else if off == 0x0C {
            self.range_low
        } else if off == 0x0D {
            self.range_high
        } else if off == 0x0E {
            match self.internal_trigger {
                Some(v) => Some(v.byte_spec()),
                None => None,
            }
        } else if off == 0x0F {
            self.int_pdl_time
        } else if off == 0x10 {
            match self.int_pdl_curve {
                Some(v) => Some(v.byte_spec()),
                None => None,
            }
        } else if off == 0x11 {
            self.wave_rate
        } else if off == 0x12 {
            match self.wave_form {
                Some(v) => Some(v.byte_spec()),
                None => None,
            }
        } else {
            None
        }
    }

    /// Law: which bytes each typed field of the slot takes: an enumerated
    /// field the bytes of its wire table, a numeric field the bytes up to
    /// its maximum.
    pub proof fn lemma_field_ranges()
        ensures
            forall|b: u8| #[trigger] Self::accepts(0x00, b) == (OnOff::from_byte_spec(b) is Some),
            forall|b: u8| #[trigger] Self::accepts(0x01, b) == (b <= 0x0F),
            forall|b: u8| #[trigger] Self::accepts(0x02, b) == (b <= 0x0F),
            forall|b: u8| #[trigger] Self::accepts(0x03, b) == (b <= 0x0F),
            forall|b: u8| #[trigger] Self::accepts(0x04, b) == (b <= 0x0F),
            forall|b: u8| #[trigger] Self::accepts(0x05, b) == (b <= 0x0F),
            forall|b: u8| #[trigger] Self::accepts(0x06, b) == (b <= 0x0F),
            forall|b: u8| #[trigger] Self::accepts(0x07, b) == (b <= 0x0F),
            forall|b: u8| #[trigger] Self::accepts(0x08, b) == (b <= 0x0F),
            forall|b: u8| #[trigger] Self::accepts(0x09, b) == (b <= 0x0F),
            forall|b: u8| #[trigger] Self::accepts(0x0A, b) == (AssignSource::from_byte_spec(b) is Some),
            forall|b: u8| #[trigger] Self::accepts(0x0B, b) == (AssignSourceMode::from_byte_spec(b) is Some),
            forall|b: u8| #[trigger] Self::accepts(0x0C, b) == (b <= 126),
            forall|b: u8| #[trigger] Self::accepts(0x0E, b) == (AssignInternalTrigger::from_byte_spec(b) is Some),
            forall|b: u8| #[trigger] Self::accepts(0x0F, b) == (b <= 100),
            forall|b: u8| #[trigger] Self::accepts(0x10, b) == (AssignIntPdlCurve::from_byte_spec(b) is Some),
            forall|b: u8| #[trigger] Self::accepts(0x11, b) == (b <= 0x71),
            forall|b: u8| #[trigger] Self::accepts(0x12, b) == (AssignWaveForm::from_byte_spec(b) is Some),
    {
    }

    /// Law: where each typed field of the slot sits: the byte at each
    /// offset listed is that field's value (an enumerated field's wire
    /// byte).
    pub proof fn lemma_field_offsets(self)
        ensures
            self.at(0x00) == (match self.on_off {
                Some(v) => Some(v.byte_spec()),
                None => None,
            }),
            self.at(0x01) == self.target,
            self.at(0x02) == self.target_b,
            self.at(0x03) == self.target_c,
            self.at(0x04) == self.min,
            self.at(0x05) == self.min_b,
            self.at(0x06) == self.min_c,
            self.at(0x07) == self.max,
            self.at(0x08) == self.max_b,
            self.at(0x09) == self.max_c,
            self.at(0x0A) == (match self.source {
                Some(v) => Some(v.byte_spec()),
                None => None,
            }),
            self.at(0x0B) == (match self.source_mode {
                Some(v) => Some(v.byte_spec()),
                None => None,
            }),
            self.at(0x0C) == self.range_low,
            self.at(0x0D) == self.range_high,
            self.at(0x0E) == (match self.internal_trigger {
                Some(v) => Some(v.byte_spec()),
                None => None,
            }),
            self.at(0x0F) == self.int_pdl_time,
            self.at(0x10) == (match self.int_pdl_curve {
                Some(v) => Some(v.byte_spec()),
                None => None,
            }),
            self.at(0x11) == self.wave_rate,
            self.at(0x12) == (match self.wave_form {
                Some(v) => Some(v.byte_spec()),
                None => None,
            }),
    {
    }

    /// A slot with nothing set.
    pub fn empty() -> (r: Assign)
        ensures
            forall|o: u32| #[trigger] r.at(o) is None,

    {
        Assign {
            on_off: None,
            target: None,
            target_b: None,
            target_c: None,
            min: None,
            min_b: None,
            min_c: None,
            max: None,
            max_b: None,
            max_c: None,
            source: None,
            source_mode: None,
            range_low: None,
            range_high: None,
            internal_trigger: None,
            int_pdl_time: None,
            int_pdl_curve: None,
            wave_rate: None,
            wave_form: None,
        }
    }

    /// Take byte `b` at byte `off` if the slot accepts it there;
    /// return whether it did. A refused byte leaves the slot unchanged.
    pub fn store_byte(&mut self, off: u32, b: u8) -> (r: bool)
        ensures
            r == Self::accepts(off, b),
            r ==> final(self).at(off) == Some(b),
            !r ==> *final(self) == *old(self),
            forall|o: u32| o != off ==> #[trigger] final(self).at(o) == old(self).at(o),
    {
        match off {
            0x00 => {
                proof {
                    OnOff::lemma_byte_round_trip(b);
                }
                match OnOff::from_byte(b) {
                    Some(v) => {
                        self.on_off = Some(v);
                        true
                    },
                    None => false,
                }
            },
            0x01 => {
                if b <= 15 {
                    self.target = Some(b);
                    true
                } else {
                    false
                }
            },
            0x02 => {
                if b <= 15 {
                    self.target_b = Some(b);
                    true
                } else {
                    false
                }
            },
            0x03 => {
                if b <= 15 {
                    self.target_c = Some(b);
                    true
                } else {
                    false
                }
            },
            0x04 => {
                if b <= 15 {
                    self.min = Some(b);
                    true
                } else {
                    false
                }
            },
            0x05 => {
                if b <= 15 {
                    self.min_b = Some(b);
                    true
                } else {
                    false
                }
            },
            0x06 => {
                if b <= 15 {
                    self.min_c = Some(b);
                    true
                } else {
                    false
                }
            },
            0x07 => {
                if b <= 15 {
                    self.max = Some(b);
                    true
                } else {
                    false
                }
            },
            0x08 => {
                if b <= 15 {
                    self.max_b = Some(b);
                    true
                } else {
                    false
                }
            },
            0x09 => {
                if b <= 15 {
                    self.max_c = Some(b);
                    true
                } else {
                    false
                }
            },
            0x0A => {
                proof {
                    AssignSource::lemma_byte_round_trip(b);
                }
                match AssignSource::from_byte(b) {
                    Some(v) => {
                        self.source = Some(v);
                        true
                    },
                    None => false,
                }
            },
            0x0B => {
                proof {
                    AssignSourceMode::lemma_byte_round_trip(b);
                }
                match AssignSourceMode::from_byte(b) {
                    Some(v) => {
                        self.source_mode = Some(v);
                        true
                    },
                    None => false,
                }
            },
            0x0C => {
                if b <= 126 {
                    self.range_low = Some(b);
                    true
                } else {
                    false
                }
            },
            0x0D => {
                if 1 <= b && b <= 127 {
                    self.range_high = Some(b);
                    true
                } else {
                    false
                }
            },
            0x0E => {
                proof {
                    AssignInternalTrigger::lemma_byte_round_trip(b);
                }
                match AssignInternalTrigger::from_byte(b) {
                    Some(v) => {
                        self.internal_trigger = Some(v);
                        true
                    },
                    None => false,
                }
            },
            0x0F => {
                if b <= 100 {
                    self.int_pdl_time = Some(b);
                    true
                } else {
                    false
                }
            },
            0x10 => {
                proof {
                    AssignIntPdlCurve::lemma_byte_round_trip(b);
                }
                match AssignIntPdlCurve::from_byte(b) {
                    Some(v) => {
                        self.int_pdl_curve = Some(v);
                        true
                    },
                    None => false,
                }
            },
            0x11 => {
                if b <= 113 {
                    self.wave_rate = Some(b);
                    true
                } else {
                    false
                }
            },
            0x12 => {
                proof {
                    AssignWaveForm::lemma_byte_round_trip(b);
                }
                match AssignWaveForm::from_byte(b) {
                    Some(v) => {
                        self.wave_form = Some(v);
                        true
                    },
                    None => false,
                }
            },
            _ => false,
        }
    }

    /// The wire byte the slot holds at byte `off`.
    pub fn byte_at(&self, off: u32) -> (r: Option<u8>)
        ensures
            r == self.at(off),
    {
        match off {
            0x00 => match self.on_off {
                Some(v) => Some(v.to_byte()),
                None => None,
            },
            0x01 => self.target,
            0x02 => self.target_b,
            0x03 => self.target_c,
            0x04 => self.min,
            0x05 => self.min_b,
            0x06 => self.min_c,
            0x07 => self.max,
            0x08 => self.max_b,
            0x09 => self.max_c,
            0x0A => match self.source {
                Some(v) => Some(v.to_byte()),
                None => None,
            },
            0x0B => match self.source_mode {
                Some(v) => Some(v.to_byte()),
                None => None,
            },
            0x0C => self.range_low,
            0x0D => self.range_high,
            0x0E => match self.internal_trigger {
                Some(v) => Some(v.to_byte()),
                None => None,
            },
            0x0F => self.int_pdl_time,
            0x10 => match self.int_pdl_curve {
                Some(v) => Some(v.to_byte()),
                None => None,
            },
            0x11 => self.wave_rate,
            0x12 => match self.wave_form {
                Some(v) => Some(v.to_byte()),
                None => None,
            },
            _ => None,
        }
    }
}

/// The Patch's MFX slot over pages `0x03`/`0x04` (linear offsets
/// `0x00..=0xFF`): a typed common header and EQ block, and the
/// type-specific tail kept raw.
#[derive(Debug, Clone, PartialEq, Eq)]
pub struct Mfx {
    pub chorus_send: Option<u8>,
    pub delay_send: Option<u8>,
    pub reverb_send: Option<u8>,
    pub reserved: Option<u8>,
    pub switch: Option<OnOff>,
    pub mfx_type: Option<MfxType>,
    pub pan: Option<u8>,
    pub eq_low_freq: Option<EqLowFreq>,
    pub eq_low_gain: Option<u8>,
    pub eq_mid1_freq: Option<EqMidFreq>,
    pub eq_mid1_gain: Option<u8>,
    pub eq_mid1_q: Option<EqMidQ>,
    pub eq_mid2_freq: Option<EqMidFreq>,
    pub eq_mid2_gain: Option<u8>,
    pub eq_mid2_q: Option<EqMidQ>,
    pub eq_high_freq: Option<EqHighFreq>,
    pub eq_high_gain: Option<u8>,
    pub eq_level: Option<u8>,
    /// Type-specific bytes at linear offsets `0x12..=0xFF`, keyed by offset.
    pub raw_tail: ByteMap,
}

impl Mfx {
    /// Whether the slot takes byte `b` at linear offset `off`.
    pub open spec fn accepts(off: u32, b: u8) -> bool {
        if off == 0x00 {
            b <= 100
        } else if off == 0x01 {
            b <= 100
        } else if off == 0x02 {
            b <= 100
        } else if off == 0x03 {
            true
        } else if off == 0x04 {
            b < 2
        } else if off == 0x05 {
            b < 20
        } else if off == 0x06 {
            b <= 100
        } else if off == 0x07 {
            b < 2
        } else if off == 0x08 {
            b <= 30
        } else if off == 0x09 {
            b < 17
        } else if off == 0x0A {
            b <= 30
        } else if off == 0x0B {
            b < 5
        } else if off == 0x0C {
            b < 17
        } else if off == 0x0D {
            b <= 30
        } else if off == 0x0E {
            b < 5
        } else if off == 0x0F {
            b < 3
        } else if off == 0x10 {
            b <= 30
        } else if off == 0x11 {
            b <= 127
        } else if 0x12 <= off <= 0xFF {
            true
        } else {
            false
        }
    }

    /// The wire byte the slot holds at linear offset `off`.
    pub open spec fn at(self, off: u32) -> Option<u8> {
        if off == 0x00 {
            self.chorus_send
        } else if off == 0x01 {
            self.delay_send
        } else if off == 0x02 {
            self.reverb_send
        } else if off == 0x03 {
            self.reserved
        } else if off == 0x04 {
            match self.switch {
                Some(v) => Some(v.byte_spec()),
                None => None,
            }
        } else if off == 0x05 {
            match self.mfx_type {
                Some(v) => Some(v.byte_spec()),
                None => None,
            }
        } else if off == 0x06 {
            self.pan
        } else if off == 0x07 {
            match self.eq_low_freq {
                Some(v) => Some(v.byte_spec()),
                None => None,
            }
        } else if off == 0x08 {
            self.eq_low_gain
        } else if off == 0x09 {
            match self.eq_mid1_freq {
                Some(v) => Some(v.byte_spec()),
                None => None,
            }
        } else if off == 0x0A {
            self.eq_mid1_gain
        } else if off == 0x0B {
            match self.eq_mid1_q {
                Some(v) => Some(v.byte_spec()),
                None => None,
            }
        } else if off == 0x0C {
            match self.eq_mid2_freq {
                Some(v) => Some(v.byte_spec()),
                None => None,
            }
        } else if off == 0x0D {
            self.eq_mid2_gain
        } else if off == 0x0E {
            match self.eq_mid2_q {
                Some(v) => Some(v.byte_spec()),
                None => None,
            }
        } else if off == 0x0F {
            match self.eq_high_freq {
                Some(v) => Some(v.byte_spec()),
                None => None,
            }
        } else if off == 0x10 {
            self.eq_high_gain
        } else if off == 0x11 {
            self.eq_level
        } else if 0x12 <= off <= 0xFF {
            self.raw_tail@.get(off)
        } else {
            None
        }
    }

    /// Every raw-tail key is inside the slot's tail range.
    pub open spec fn raw_ok(self) -> bool {
        forall|k: u32| #[trigger] self.raw_tail@.contains_key(k) ==> 0x12 <= k <= 0xFF
    }

    /// Law: which bytes each typed field of the slot takes: an enumerated
    /// field the bytes of its wire table, a numeric field the bytes up to
    /// its maximum.
    pub proof fn lemma_field_ranges()
        ensures
            forall|b: u8| #[trigger] Self::accepts(0x00, b) == (b <= 100),
            forall|b: u8| #[trigger] Self::accepts(0x01, b) == (b <= 100),
            forall|b: u8| #[trigger] Self::accepts(0x02, b) == (b <= 100),
            forall|b: u8| #[trigger] Self::accepts(0x03, b) == (true),
            forall|b: u8| #[trigger] Self::accepts(0x04, b) == (OnOff::from_byte_spec(b) is Some),
            forall|b: u8| #[trigger] Self::accepts(0x05, b) == (MfxType::from_byte_spec(b) is Some),
            forall|b: u8| #[trigger] Self::accepts(0x06, b) == (b <= 100),
            forall|b: u8| #[trigger] Self::accepts(0x07, b) == (EqLowFreq::from_byte_spec(b) is Some),
            forall|b: u8| #[trigger] Self::accepts(0x08, b) == (b <= 0x1E),
            forall|b: u8| #[trigger] Self::accepts(0x09, b) == (EqMidFreq::from_byte_spec(b) is Some),
            forall|b: u8| #[trigger] Self::accepts(0x0A, b) == (b <= 0x1E),
            forall|b: u8| #[trigger] Self::accepts(0x0B, b) == (EqMidQ::from_byte_spec(b) is Some),
            forall|b: u8| #[trigger] Self::accepts(0x0C, b) == (EqMidFreq::from_byte_spec(b) is Some),
            forall|b: u8| #[trigger] Self::accepts(0x0D, b) == (b <= 0x1E),
            forall|b: u8| #[trigger] Self::accepts(0x0E, b) == (EqMidQ::from_byte_spec(b) is Some),
            forall|b: u8| #[trigger] Self::accepts(0x0F, b) == (EqHighFreq::from_byte_spec(b) is Some),
            forall|b: u8| #[trigger] Self::accepts(0x10, b) == (b <= 0x1E),
            forall|b: u8| #[trigger] Self::accepts(0x11, b) == (b <= 0x7F),
    {
    }

    /// Law: where each typed field of the slot sits: the byte at each
    /// offset listed is that field's value (an enumerated field's wire
    /// byte).
    pub proof fn lemma_field_offsets(self)
        ensures
            self.at(0x00) == self.chorus_send,
            self.at(0x01) == self.delay_send,
            self.at(0x02) == self.reverb_send,
            self.at(0x03) == self.reserved,
            self.at(0x04) == (match self.switch {
                Some(v) => Some(v.byte_spec()),
                None => None,
            }),
            self.at(0x05) == (match self.mfx_type {
                Some(v) => Some(v.byte_spec()),
                None => None,
            }),
            self.at(0x06) == self.pan,
            self.at(0x07) == (match self.eq_low_freq {
                Some(v) => Some(v.byte_spec()),
                None => None,
            }),
            self.at(0x08) == self.eq_low_gain,
            self.at(0x09) == (match self.eq_mid1_freq {
                Some(v) => Some(v.byte_spec()),
                None => None,
            }),
            self.at(0x0A) == self.eq_mid1_gain,
            self.at(0x0B) == (match self.eq_mid1_q {
                Some(v) => Some(v.byte_spec()),
                None => None,
            }),
            self.at(0x0C) == (match self.eq_mid2_freq {
                Some(v) => Some(v.byte_spec()),
                None => None,
            }),
            self.at(0x0D) == self.eq_mid2_gain,
            self.at(0x0E) == (match self.eq_mid2_q {
                Some(v) => Some(v.byte_spec()),
                None => None,
            }),
            self.at(0x0F) == (match self.eq_high_freq {
                Some(v) => Some(v.byte_spec()),
                None => None,
            }),
            self.at(0x10) == self.eq_high_gain,
            self.at(0x11) == self.eq_level,
    {
    }

    /// A slot with nothing set.
    pub fn empty() -> (r: Mfx)
        ensures
            r.raw_tail@ == Map::<u32, u8>::empty(),
            forall|o: u32| #[trigger] r.at(o) is None,
            r.raw_ok(),
    {
        Mfx {
            chorus_send: None,
            delay_send: None,
            reverb_send: None,
            reserved: None,
            switch: None,
            mfx_type: None,
            pan: None,
            eq_low_freq: None,
            eq_low_gain: None,
            eq_mid1_freq: None,
            eq_mid1_gain: None,
            eq_mid1_q: None,
            eq_mid2_freq: None,
            eq_mid2_gain: None,
            eq_mid2_q: None,
            eq_high_freq: None,
            eq_high_gain: None,
            eq_level: None,
            raw_tail: ByteMap::new(),
        }
    }

    /// Take byte `b` at linear offset `off` if the slot accepts it there;
    /// return whether it did. A refused byte leaves the slot unchanged.
    pub fn store_byte(&mut self, off: u32, b: u8) -> (r: bool)
        ensures
            r == Self::accepts(off, b),
            r ==> final(self).at(off) == Some(b),
            !r ==> *final(self) == *old(self),
            forall|o: u32| o != off ==> #[trigger] final(self).at(o) == old(self).at(o),
            old(self).raw_ok() ==> final(self).raw_ok(),
            final(self).raw_tail@ == (if r && 0x12 <= off <= 0xFF {
                old(self).raw_tail@.insert(off, b)
            } else {
                old(self).raw_tail@
            }),
    {
        match off {
            0x00 => {
                if b <= 100 {
                    self.chorus_send = Some(b);
                    true
                } else {
                    false
                }
            },
            0x01 => {
                if b <= 100 {
                    self.delay_send = Some(b);
                    true
                } else {
                    false
                }
            },
            0x02 => {
                if b <= 100 {
                    self.reverb_send = Some(b);
                    true
                } else {
                    false
                }
            },
            0x03 => {
                self.reserved = Some(b);
                true
            },
            0x04 => {
                proof {
                    OnOff::lemma_byte_round_trip(b);
                }
                match OnOff::from_byte(b) {
                    Some(v) => {
                        self.switch = Some(v);
                        true
                    },
                    None => false,
                }
            },
            0x05 => {
                proof {
                    MfxType::lemma_byte_round_trip(b);
                }
                match MfxType::from_byte(b) {
                    Some(v) => {
                        self.mfx_type = Some(v);
                        true
                    },
                    None => false,
                }
            },
            0x06 => {
                if b <= 100 {
                    self.pan = Some(b);
                    true
                } else {
                    false
                }
            },
            0x07 => {
                proof {
                    EqLowFreq::lemma_byte_round_trip(b);
                }
                match EqLowFreq::from_byte(b) {
                    Some(v) => {
                        self.eq_low_freq = Some(v);
                        true
                    },
                    None => false,
                }
            },
            0x08 => {
                if b <= 30 {
                    self.eq_low_gain = Some(b);
                    true
                } else {
                    false
                }
            },
            0x09 => {
                proof {
                    EqMidFreq::lemma_byte_round_trip(b);
                }
                match EqMidFreq::from_byte(b) {
                    Some(v) => {
                        self.eq_mid1_freq = Some(v);
                        true
                    },
                    None => false,
                }
            },
            0x0A => {
                if b <= 30 {
                    self.eq_mid1_gain = Some(b);
                    true
                } else {
                    false
                }
            },
            0x0B => {
                proof {
                    EqMidQ::lemma_byte_round_trip(b);
                }
                match EqMidQ::from_byte(b) {
                    Some(v) => {
                        self.eq_mid1_q = Some(v);
                        true
                    },
                    None => false,
                }
            },
            0x0C => {
                proof {
                    EqMidFreq::lemma_byte_round_trip(b);
                }
                match EqMidFreq::from_byte(b) {
                    Some(v) => {
                        self.eq_mid2_freq = Some(v);
                        true
                    },
                    None => false,
                }
            },
            0x0D => {
                if b <= 30 {
                    self.eq_mid2_gain = Some(b);
                    true
                } else {
                    false
                }
            },
            0x0E => {
                proof {
                    EqMidQ::lemma_byte_round_trip(b);
                }
                match EqMidQ::from_byte(b) {
                    Some(v) => {
                        self.eq_mid2_q = Some(v);
                        true
                    },
                    None => false,
                }
            },
            0x0F => {
                proof {
                    EqHighFreq::lemma_byte_round_trip(b);
                }
                match EqHighFreq::from_byte(b) {
                    Some(v) => {
                        self.eq_high_freq = Some(v);
                        true
                    },
                    None => false,
                }
            },
            0x10 => {
                if b <= 30 {
                    self.eq_high_gain = Some(b);
                    true
                } else {
                    false
                }
            },
            0x11 => {
                if b <= 127 {
                    self.eq_level = Some(b);
                    true
                } else {
                    false
                }
            },
            0x12..=0xFF => {
                self.raw_tail.insert(off, b);
                true
            },
            _ => false,
        }
    }

    /// The wire byte the slot holds at linear offset `off`.
    pub fn byte_at(&self, off: u32) -> (r: Option<u8>)
        ensures
            r == self.at(off),
    {
        match off {
            0x00 => self.chorus_send,
            0x01 => self.delay_send,
            0x02 => self.reverb_send,
            0x03 => self.reserved,
            0x04 => match self.switch {
                Some(v) => Some(v.to_byte()),
                None => None,
            },
            0x05 => match self.mfx_type {
                Some(v) => Some(v.to_byte()),
                None => None,
            },
            0x06 => self.pan,
            0x07 => match self.eq_low_freq {
                Some(v) => Some(v.to_byte()),
                None => None,
            },
            0x08 => self.eq_low_gain,
            0x09 => match self.eq_mid1_freq {
                Some(v) => Some(v.to_byte()),
                None => None,
            },
            0x0A => self.eq_mid1_gain,
            0x0B => match self.eq_mid1_q {
                Some(v) => Some(v.to_byte()),
                None => None,
            },
            0x0C => match self.eq_mid2_freq {
                Some(v) => Some(v.to_byte()),
                None => None,
            },
            0x0D => self.eq_mid2_gain,
            0x0E => match self.eq_mid2_q {
                Some(v) => Some(v.to_byte()),
                None => None,
            },
            0x0F => match self.eq_high_freq {
                Some(v) => Some(v.to_byte()),
                None => None,
            },
            0x10 => self.eq_high_gain,
            0x11 => self.eq_level,
            0x12..=0xFF => self.raw_tail.get(off),
            _ => None,
        }
    }

    /// The MFX type currently selected.
    pub fn active_type(&self) -> (r: Option<MfxType>)
        ensures
            r == self.mfx_type,
    {
        self.mfx_type
    }
}

/// The Patch's MOD slot on page `0x07` offsets `0x11..=0x59`: a typed
/// header and the type-specific tail kept raw.
#[derive(Debug, Clone, PartialEq, Eq)]
pub struct Mod {
    pub chorus_send: Option<u8>,
    pub delay_send: Option<u8>,
    pub reverb_send: Option<u8>,
    pub null_14: Option<u8>,
    pub switch: Option<OnOff>,
    pub mod_type: Option<ModType>,
    pub pan: Option<u8>,
    /// Type-specific bytes at page offsets `0x18..=0x59`, keyed by offset.
    pub raw_tail: ByteMap,
}

impl Mod {
    /// Whether the slot takes byte `b` at page offset `off`.
    pub open spec fn accepts(off: u32, b: u8) -> bool {
        if off == 0x11 {
            b <= 100
        } else if off == 0x12 {
            b <= 100
        } else if off == 0x13 {
            b <= 100
        } else if off == 0x14 {
            true
        } else if off == 0x15 {
            b < 2
        } else if off == 0x16 {
            b < 14
        } else if off == 0x17 {
            b <= 100
        } else if 0x18 <= off <= 0x59 {
            true
        } else {
            false
        }
    }

    /// The wire byte the slot holds at page offset `off`.
    pub open spec fn at(self, off: u32) -> Option<u8> {
        if off == 0x11 {
            self.chorus_send
        } else if off == 0x12 {
            self.delay_send
        } else if off == 0x13 {
            self.reverb_send
        } else if off == 0x14 {
            self.null_14
        } else if off == 0x15 {
            match self.switch {
                Some(v) => Some(v.byte_spec()),
                None => None,
            }
        } else if off == 0x16 {
            match self.mod_type {
                Some(v) => Some(v.byte_spec()),
                None => None,
            }
        } else if off == 0x17 {
            self.pan
        } else if 0x18 <= off <= 0x59 {
            self.raw_tail@.get(off)
        } else {
            None
        }
    }

    /// Every raw-tail key is inside the slot's tail range.
    pub open spec fn raw_ok(self) -> bool {
        forall|k: u32| #[trigger] self.raw_tail@.contains_key(k) ==> 0x18 <= k <= 0x59
    }

    /// Law: which bytes each typed field of the slot takes: an enumerated
    /// field the bytes of its wire table, a numeric field the bytes up to
    /// its maximum.
    pub proof fn lemma_field_ranges()
        ensures
            forall|b: u8| #[trigger] Self::accepts(0x11, b) == (b <= 100),
            forall|b: u8| #[trigger] Self::accepts(0x12, b) == (b <= 100),
            forall|b: u8| #[trigger] Self::accepts(0x13, b) == (b <= 100),
            forall|b: u8| #[trigger] Self::accepts(0x14, b) == (true),
            forall|b: u8| #[trigger] Self::accepts(0x15, b) == (OnOff::from_byte_spec(b) is Some),
            forall|b: u8| #[trigger] Self::accepts(0x16, b) == (ModType::from_byte_spec(b) is Some),
            forall|b: u8| #[trigger] Self::accepts(0x17, b) == (b <= 100),
    {
    }

    /// Law: where each typed field of the slot sits: the byte at each
    /// offset listed is that field's value (an enumerated field's wire
    /// byte).
    pub proof fn lemma_field_offsets(self)
        ensures
            self.at(0x11) == self.chorus_send,
            self.at(0x12) == self.delay_send,
            self.at(0x13) == self.reverb_send,
            self.at(0x14) == self.null_14,
            self.at(0x15) == (match self.switch {
                Some(v) => Some(v.byte_spec()),
                None => None,
            }),
            self.at(0x16) == (match self.mod_type {
                Some(v) => Some(v.byte_spec()),
                None => None,
            }),
            self.at(0x17) == self.pan,
    {
    }

    /// A slot with nothing set.
    pub fn empty() -> (r: Mod)
        ensures
            r.raw_tail@ == Map::<u32, u8>::empty(),
            forall|o: u32| #[trigger] r.at(o) is None,
            r.raw_ok(),
    {
        Mod {
            chorus_send: None,
            delay_send: None,
            reverb_send: None,
            null_14: None,
            switch: None,
            mod_type: None,
            pan: None,
            raw_tail: ByteMap::new(),
        }
    }

    /// Take byte `b` at page offset `off` if the slot accepts it there;
    /// return whether it did. A refused byte leaves the slot unchanged.
    pub fn store_byte(&mut self, off: u32, b: u8) -> (r: bool)
        ensures
            r == Self::accepts(off, b),
            r ==> final(self).at(off) == Some(b),
            !r ==> *final(self) == *old(self),
            forall|o: u32| o != off ==> #[trigger] final(self).at(o) == old(self).at(o),
            old(self).raw_ok() ==> final(self).raw_ok(),
            final(self).raw_tail@ == (if r && 0x18 <= off <= 0x59 {
                old(self).raw_tail@.insert(off, b)
            } else {
                old(self).raw_tail@
            }),
    {
        match off {
            0x11 => {
                if b <= 100 {
                    self.chorus_send = Some(b);
                    true
                } else {
                    false
                }
            },
            0x12 => {
                if b <= 100 {
                    self.delay_send = Some(b);
                    true
                } else {
                    false
                }
            },
            0x13 => {
                if b <= 100 {
                    self.reverb_send = Some(b);
                    true
                } else {
                    false
                }
            },
            0x14 => {
                self.null_14 = Some(b);
                true
            },
            0x15 => {
                proof {
                    OnOff::lemma_byte_round_trip(b);
                }
                match OnOff::from_byte(b) {
                    Some(v) => {
                        self.switch = Some(v);
                        true
                    },
                    None => false,
                }
            },
            0x16 => {
                proof {
                    ModType::lemma_byte_round_trip(b);
                }
                match ModType::from_byte(b) {
                    Some(v) => {
                        self.mod_type = Some(v);
                        true
                    },
                    None => false,
                }
            },
            0x17 => {
                if b <= 100 {
                    self.pan = Some(b);
                    true
                } else {
                    false
                }
            },
            0x18..=0x59 => {
                self.raw_tail.insert(off, b);
                true
            },
            _ => false,
        }
    }

    /// The wire byte the slot holds at page offset `off`.
    pub fn byte_at(&self, off: u32) -> (r: Option<u8>)
        ensures
            r == self.at(off),
    {
        match off {
            0x11 => self.chorus_send,
            0x12 => self.delay_send,
            0x13 => self.reverb_send,
            0x14 => self.null_14,
            0x15 => match self.switch {
                Some(v) => Some(v.to_byte()),
                None => None,
            },
            0x16 => match self.mod_type {
                Some(v) => Some(v.to_byte()),
                None => None,
            },
            0x17 => self.pan,
            0x18..=0x59 => self.raw_tail.get(off),
            _ => None,
        }
    }

    /// The MOD type currently selected.
    pub fn active_type(&self) -> (r: Option<ModType>)
        ensures
            r == self.mod_type,
    {
        self.mod_type
    }
}

/// The Patch's Modeling slot over pages `0x10`/`0x11` (linear offsets
/// `0x00..=0xFF`): a typed common header and the type-specific tail kept
/// raw.
#[derive(Debug, Clone, PartialEq, Eq)]
pub struct Modeling {
    pub gm_category: Option<GuitarModeCategory>,
    pub gm_egtr_type: Option<GmEGuitarType>,
    pub gm_acoustic_type: Option<GmAcousticType>,
    pub gm_ebass_type: Option<GmEBassType>,
    pub gm_synth_type: Option<ModelingSynthType>,
    pub bm_category: Option<BassModeCategory>,
    pub bm_ebass_type: Option<BmEBassType>,
    pub bm_egtr_type: Option<BmEGuitarType>,
    pub bm_synth_type: Option<ModelingSynthType>,
    pub tone_level: Option<u8>,
    pub tone_sw: Option<AnalogPuToneSw>,
    pub string_level: [Option<u8>; 6],
    pub pitch_step: [Option<u8>; 6],
    pub pitch_fine: [Option<u8>; 6],
    pub twelve_string: Option<OnOff>,
    /// Type-specific bytes at linear offsets `0x1E..=0xFF`, keyed by offset.
    pub raw_tail: ByteMap,
}

impl Modeling {
    /// Whether the slot takes byte `b` at linear offset `off`.
    pub open spec fn accepts(off: u32, b: u8) -> bool {
        if off == 0x00 {
            b < 4
        } else if off == 0x01 {
            b < 10
        } else if off == 0x02 {
            b < 5
        } else if off == 0x03 {
            b < 2
        } else if off == 0x04 {
            b < 6
        } else if off == 0x05 {
            b < 3
        } else if off == 0x06 {
            b < 9
        } else if off == 0x07 {
            b < 2
        } else if off == 0x08 {
            b < 6
        } else if off == 0x09 {
            b <= 100
        } else if off == 0x0A {
            b < 2
        } else if off == 0x0B {
            b <= 100
        } else if off == 0x0C {
            b <= 100
        } else if off == 0x0D {
            b <= 100
        } else if off == 0x0E {
            b <= 100
        } else if off == 0x0F {
            b <= 100
        } else if off == 0x10 {
            b <= 100
        } else if off == 0x11 {
            b <= 48
        } else if off == 0x12 {
            b <= 100
        } else if off == 0x13 {
            b <= 48
        } else if off == 0x14 {
            b <= 100
        } else if off == 0x15 {
            b <= 48
        } else if off == 0x16 {
            b <= 100
        } else if off == 0x17 {
            b <= 48
        } else if off == 0x18 {
            b <= 100
        } else if off == 0x19 {
            b <= 48
        } else if off == 0x1A {
            b <= 100
        } else if off == 0x1B {
            b <= 48
        } else if off == 0x1C {
            b <= 100
        } else if off == 0x1D {
            b < 2
        } else if 0x1E <= off <= 0xFF {
            true
        } else {
            false
        }
    }

    /// The wire byte the slot holds at linear offset `off`.
    pub open spec fn at(self, off: u32) -> Option<u8> {
        if off == 0x00 {
            match self.gm_category {
                Some(v) => Some(v.byte_spec()),
                None => None,
            }
        } else if off == 0x01 {
            match self.gm_egtr_type {
                Some(v) => Some(v.byte_spec()),
                None => None,
            }
        } else if off == 0x02 {
            match self.gm_acoustic_type {
                Some(v) => Some(v.byte_spec()),
                None => None,
            }
        } else if off == 0x03 {
            match self.gm_ebass_type {
                Some(v) => Some(v.byte_spec()),
                None => None,
            }
        } else if off == 0x04 {
            match self.gm_synth_type {
                Some(v) => Some(v.byte_spec()),
                None => None,
            }
        } else if off == 0x05 {
            match self.bm_category {
                Some(v) => Some(v.byte_spec()),
                None => None,
            }
        } else if off == 0x06 {
            match self.bm_ebass_type {
                Some(v) => Some(v.byte_spec()),
                None => None,
            }
        } else if off == 0x07 {
            match self.bm_egtr_type {
                Some(v) => Some(v.byte_spec()),
                None => None,
            }
        } else if off == 0x08 {
            match self.bm_synth_type {
                Some(v) => Some(v.byte_spec()),
                None => None,
            }
        } else if off == 0x09 {
            self.tone_level
        } else if off == 0x0A {
            match self.tone_sw {
                Some(v) => Some(v.byte_spec()),
                None => None,
            }
        } else if off == 0x0B {
            self.string_level@[0]
        } else if off == 0x0C {
            self.string_level@[1]
        } else if off == 0x0D {
            self.string_level@[2]
        } else if off == 0x0E {
            self.string_level@[3]
        } else if off == 0x0F {
            self.string_level@[4]
        } else if off == 0x10 {
            self.string_level@[5]
        } else if off == 0x11 {
            self.pitch_step@[0]
        } else if off == 0x12 {
            self.pitch_fine@[0]
        } else if off == 0x13 {
            self.pitch_step@[1]
        } else if off == 0x14 {
            self.pitch_fine@[1]
        } else if off == 0x15 {
            self.pitch_step@[2]
        } else if off == 0x16 {
            self.pitch_fine@[2]
        } else if off == 0x17 {
            self.pitch_step@[3]
        } else if off == 0x18 {
            self.pitch_fine@[3]
        } else if off == 0x19 {
            self.pitch_step@[4]
        } else if off == 0x1A {
            self.pitch_fine@[4]
        } else if off == 0x1B {
            self.pitch_step@[5]
        } else if off == 0x1C {
            self.pitch_fine@[5]
        } else if off == 0x1D {
            match self.twelve_string {
                Some(v) => Some(v.byte_spec()),
                None => None,
            }
        } else if 0x1E <= off <= 0xFF {
            self.raw_tail@.get(off)
        } else {
            None
        }
    }

    /// Every raw-tail key is inside the slot's tail range.
    pub open spec fn raw_ok(self) -> bool {
        forall|k: u32| #[trigger] self.raw_tail@.contains_key(k) ==> 0x1E <= k <= 0xFF
    }

    /// Law: which bytes each typed field of the slot takes: an enumerated
    /// field the bytes of its wire table, a numeric field the bytes up to
    /// its maximum.
    pub proof fn lemma_field_ranges()
        ensures
            forall|b: u8| #[trigger] Self::accepts(0x00, b) == (GuitarModeCategory::from_byte_spec(b) is Some),
            forall|b: u8| #[trigger] Self::accepts(0x01, b) == (GmEGuitarType::from_byte_spec(b) is Some),
            forall|b: u8| #[trigger] Self::accepts(0x02, b) == (GmAcousticType::from_byte_spec(b) is Some),
            forall|b: u8| #[trigger] Self::accepts(0x03, b) == (GmEBassType::from_byte_spec(b) is Some),
            forall|b: u8| #[trigger] Self::accepts(0x04, b) == (ModelingSynthType::from_byte_spec(b) is Some),
            forall|b: u8| #[trigger] Self::accepts(0x05, b) == (BassModeCategory::from_byte_spec(b) is Some),
            forall|b: u8| #[trigger] Self::accepts(0x06, b) == (BmEBassType::from_byte_spec(b) is Some),
            forall|b: u8| #[trigger] Self::accepts(0x07, b) == (BmEGuitarType::from_byte_spec(b) is Some),
            forall|b: u8| #[trigger] Self::accepts(0x08, b) == (ModelingSynthType::from_byte_spec(b) is Some),
            forall|b: u8| #[trigger] Self::accepts(0x09, b) == (b <= 100),
            forall|b: u8| #[trigger] Self::accepts(0x0A, b) == (AnalogPuToneSw::from_byte_spec(b) is Some),
            forall|b: u8| #[trigger] Self::accepts(0x1D, b) == (OnOff::from_byte_spec(b) is Some),
    {
    }

    /// Law: where each typed field of the slot sits: the byte at each
    /// offset listed is that field's value (an enumerated field's wire
    /// byte).
    pub proof fn lemma_field_offsets(self)
        ensures
            self.at(0x00) == (match self.gm_category {
                Some(v) => Some(v.byte_spec()),
                None => None,
            }),
            self.at(0x01) == (match self.gm_egtr_type {
                Some(v) => Some(v.byte_spec()),
                None => None,
            }),
            self.at(0x02) == (match self.gm_acoustic_type {
                Some(v) => Some(v.byte_spec()),
                None => None,
            }),
            self.at(0x03) == (match self.gm_ebass_type {
                Some(v) => Some(v.byte_spec()),
                None => None,
            }),
            self.at(0x04) == (match self.gm_synth_type {
                Some(v) => Some(v.byte_spec()),
                None => None,
            }),
            self.at(0x05) == (match self.bm_category {
                Some(v) => Some(v.byte_spec()),
                None => None,
            }),
            self.at(0x06) == (match self.bm_ebass_type {
                Some(v) => Some(v.byte_spec()),
                None => None,
            }),
            self.at(0x07) == (match self.bm_egtr_type {
                Some(v) => Some(v.byte_spec()),
                None => None,
            }),
            self.at(0x08) == (match self.bm_synth_type {
                Some(v) => Some(v.byte_spec()),
                None => None,
            }),
            self.at(0x09) == self.tone_level,
            self.at(0x0A) == (match self.tone_sw {
                Some(v) => Some(v.byte_spec()),
                None => None,
            }),
            self.at(0x1D) == (match self.twelve_string {
                Some(v) => Some(v.byte_spec()),
                None => None,
            }),
    {
    }

    /// A slot with nothing set.
    pub fn empty() -> (r: Modeling)
        ensures
            r.raw_tail@ == Map::<u32, u8>::empty(),
            forall|o: u32| #[trigger] r.at(o) is None,
            r.raw_ok(),
    {
        Modeling {
            gm_category: None,
            gm_egtr_type: None,
            gm_acoustic_type: None,
            gm_ebass_type: None,
            gm_synth_type: None,
            bm_category: None,
            bm_ebass_type: None,
            bm_egtr_type: None,
            bm_synth_type: None,
            tone_level: None,
            tone_sw: None,
            string_level: [None, None, None, None, None, None],
            pitch_step: [None, None, None, None, None, None],
            pitch_fine: [None, None, None, None, None, None],
            twelve_string: None,
            raw_tail: ByteMap::new(),
        }
    }

    #[verifier::rlimit(40)]
    /// Take byte `b` at linear offset `off` if the slot accepts it there;
    /// return whether it did. A refused byte leaves the slot unchanged.
    pub fn store_byte(&mut self, off: u32, b: u8) -> (r: bool)
        ensures
            r == Self::accepts(off, b),
            r ==> final(self).at(off) == Some(b),
            !r ==> *final(self) == *old(self),
            forall|o: u32| o != off ==> #[trigger] final(self).at(o) == old(self).at(o),
            old(self).raw_ok() ==> final(self).raw_ok(),
            final(self).raw_tail@ == (if r && 0x1E <= off <= 0xFF {
                old(self).raw_tail@.insert(off, b)
            } else {
                old(self).raw_tail@
            }),
    {
        match off {
            0x00 => {
                proof {
                    GuitarModeCategory::lemma_byte_round_trip(b);
                }
                match GuitarModeCategory::from_byte(b) {
                    Some(v) => {
                        self.gm_category = Some(v);
                        true
                    },
                    None => false,
                }
            },
            0x01 => {
                proof {
                    GmEGuitarType::lemma_byte_round_trip(b);
                }
                match GmEGuitarType::from_byte(b) {
                    Some(v) => {
                        self.gm_egtr_type = Some(v);
                        true
                    },
                    None => false,
                }
            },
            0x02 => {
                proof {
                    GmAcousticType::lemma_byte_round_trip(b);
                }
                match GmAcousticType::from_byte(b) {
                    Some(v) => {
                        self.gm_acoustic_type = Some(v);
                        true
                    },
                    None => false,
                }
            },
            0x03 => {
                proof {
                    GmEBassType::lemma_byte_round_trip(b);
                }
                match GmEBassType::from_byte(b) {
                    Some(v) => {
                        self.gm_ebass_type = Some(v);
                        true
                    },
                    None => false,
                }
            },
            0x04 => {
                proof {
                    ModelingSynthType::lemma_byte_round_trip(b);
                }
                match ModelingSynthType::from_byte(b) {
                    Some(v) => {
                        self.gm_synth_type = Some(v);
                        true
                    },
                    None => false,
                }
            },
            0x05 => {
                proof {
                    BassModeCategory::lemma_byte_round_trip(b);
                }
                match BassModeCategory::from_byte(b) {
                    Some(v) => {
                        self.bm_category = Some(v);
                        true
                    },
                    None => false,
                }
            },
            0x06 => {
                proof {
                    BmEBassType::lemma_byte_round_trip(b);
                }
                match BmEBassType::from_byte(b) {
                    Some(v) => {
                        self.bm_ebass_type = Some(v);
                        true
                    },
                    None => false,
                }
            },
            0x07 => {
                proof {
                    BmEGuitarType::lemma_byte_round_trip(b);
                }
                match BmEGuitarType::from_byte(b) {
                    Some(v) => {
                        self.bm_egtr_type = Some(v);
                        true
                    },
                    None => false,
                }
            },
            0x08 => {
                proof {
                    ModelingSynthType::lemma_byte_round_trip(b);
                }
                match ModelingSynthType::from_byte(b) {
                    Some(v) => {
                        self.bm_synth_type = Some(v);
                        true
                    },
                    None => false,
                }
            },
            0x09 => {
                if b <= 100 {
                    self.tone_level = Some(b);
                    true
                } else {
                    false
                }
            },
            0x0A => {
                proof {
                    AnalogPuToneSw::lemma_byte_round_trip(b);
                }
                match AnalogPuToneSw::from_byte(b) {
                    Some(v) => {
                        self.tone_sw = Some(v);
                        true
                    },
                    None => false,
                }
            },
            0x0B => {
                if b <= 100 {
                    self.string_level[0] = Some(b);
                    true
                } else {
                    false
                }
            },
            0x0C => {
                if b <= 100 {
                    self.string_level[1] = Some(b);
                    true
                } else {
                    false
                }
            },
            0x0D => {
                if b <= 100 {
                    self.string_level[2] = Some(b);
                    true
                } else {
                    false
                }
            },
            0x0E => {
                if b <= 100 {
                    self.string_level[3] = Some(b);
                    true
                } else {
                    false
                }
            },
            0x0F => {
                if b <= 100 {
                    self.string_level[4] = Some(b);
                    true
                } else {
                    false
                }
            },
            0x10 => {
                if b <= 100 {
                    self.string_level[5] = Some(b);
                    true
                } else {
                    false
                }
            },
            0x11 => {
                if b <= 48 {
                    self.pitch_step[0] = Some(b);
                    true
                } else {
                    false
                }
            },
            0x12 => {
                if b <= 100 {
                    self.pitch_fine[0] = Some(b);
                    true
                } else {
                    false
                }
            },
            0x13 => {
                if b <= 48 {
                    self.pitch_step[1] = Some(b);
                    true
                } else {
                    false
                }
            },
            0x14 => {
                if b <= 100 {
                    self.pitch_fine[1] = Some(b);
                    true
                } else {
                    false
                }
            },
            0x15 => {
                if b <= 48 {
                    self.pitch_step[2] = Some(b);
                    true
                } else {
                    false
                }
            },
            0x16 => {
                if b <= 100 {
                    self.pitch_fine[2] = Some(b);
                    true
                } else {
                    false
                }
            },
            0x17 => {
                if b <= 48 {
                    self.pitch_step[3] = Some(b);
                    true
                } else {
                    false
                }
            },
            0x18 => {
                if b <= 100 {
                    self.pitch_fine[3] = Some(b);
                    true
                } else {
                    false
                }
            },
            0x19 => {
                if b <= 48 {
                    self.pitch_step[4] = Some(b);
                    true
                } else {
                    false
                }
            },
            0x1A => {
                if b <= 100 {
                    self.pitch_fine[4] = Some(b);
                    true
                } else {
                    false
                }
            },
            0x1B => {
                if b <= 48 {
                    self.pitch_step[5] = Some(b);
                    true
                } else {
                    false
                }
            },
            0x1C => {
                if b <= 100 {
                    self.pitch_fine[5] = Some(b);
                    true
                } else {
                    false
                }
            },
            0x1D => {
                proof {
                    OnOff::lemma_byte_round_trip(b);
                }
                match OnOff::from_byte(b) {
                    Some(v) => {
                        self.twelve_string = Some(v);
                        true
                    },
                    None => false,
                }
            },
            0x1E..=0xFF => {
                self.raw_tail.insert(off, b);
                true
            },
            _ => false,
        }
    }

    /// The wire byte the slot holds at linear offset `off`.
    pub fn byte_at(&self, off: u32) -> (r: Option<u8>)
        ensures
            r == self.at(off),
    {
        match off {
            0x00 => match self.gm_category {
                Some(v) => Some(v.to_byte()),
                None => None,
            },
            0x01 => match self.gm_egtr_type {
                Some(v) => Some(v.to_byte()),
                None => None,
            },
            0x02 => match self.gm_acoustic_type {
                Some(v) => Some(v.to_byte()),
                None => None,
            },
            0x03 => match self.gm_ebass_type {
                Some(v) => Some(v.to_byte()),
                None => None,
            },
            0x04 => match self.gm_synth_type {
                Some(v) => Some(v.to_byte()),
                None => None,
            },
            0x05 => match self.bm_category {
                Some(v) => Some(v.to_byte()),
                None => None,
            },
            0x06 => match self.bm_ebass_type {
                Some(v) => Some(v.to_byte()),
                None => None,
            },
            0x07 => match self.bm_egtr_type {
                Some(v) => Some(v.to_byte()),
                None => None,
            },
            0x08 => match self.bm_synth_type {
                Some(v) => Some(v.to_byte()),
                None => None,
            },
            0x09 => self.tone_level,
            0x0A => match self.tone_sw {
                Some(v) => Some(v.to_byte()),
                None => None,
            },
            0x0B => self.string_level[0],
            0x0C => self.string_level[1],
            0x0D => self.string_level[2],
            0x0E => self.string_level[3],
            0x0F => self.string_level[4],
            0x10 => self.string_level[5],
            0x11 => self.pitch_step[0],
            0x12 => self.pitch_fine[0],
            0x13 => self.pitch_step[1],
            0x14 => self.pitch_fine[1],
            0x15 => self.pitch_step[2],
            0x16 => self.pitch_fine[2],
            0x17 => self.pitch_step[3],
            0x18 => self.pitch_fine[3],
            0x19 => self.pitch_step[4],
            0x1A => self.pitch_fine[4],
            0x1B => self.pitch_step[5],
            0x1C => self.pitch_fine[5],
            0x1D => match self.twelve_string {
                Some(v) => Some(v.to_byte()),
                None => None,
            },
            0x1E..=0xFF => self.raw_tail.get(off),
            _ => None,
        }
    }
}

/// One PCM tone slot: a typed header page (`0x20`/`0x21`) and a raw tail
/// page (`0x30`/`0x31`). The tone selector's bank and position bytes wait in
/// `pending_bank`/`pending_pos` until both are known, then become
/// `synth_tone` (see [`Pcm::finalize`]).
#[derive(Debug, Clone, PartialEq, Eq)]
pub struct Pcm {
    pub synth_mode: Option<u8>,
    pub synth_tone: Option<PcmToneIndex>,
    pub tone_sw: Option<AnalogPuToneSw>,
    pub tone_level: Option<u8>,
    pub octave: Option<u8>,
    pub chromatic: Option<OnOff>,
    pub legato: Option<OnOff>,
    pub nuance_sw: Option<OnOff>,
    pub pan: Option<u8>,
    pub pitch_shift: Option<u8>,
    pub pitch_fine: Option<u8>,
    pub portamento_sw: Option<PortamentoSwitch>,
    pub portamento_time: Option<u8>,
    pub portamento_raw_0e: Option<u8>,
    pub tva_release_mode: Option<TvaReleaseMode>,
    pub string_level: [Option<u8>; 6],
    pub line_route: Option<LineRoute>,
    /// Tone bank byte seen without a matching, valid position byte.
    pub pending_bank: Option<u8>,
    /// Tone position byte seen without a matching, valid bank byte.
    pub pending_pos: Option<u8>,
    /// Tail-page bytes at offsets `0x00..=0x7F`, keyed by offset.
    pub raw_tail: ByteMap,
}

impl Pcm {
    /// Whether the header page takes byte `b` at offset `off`.
    pub open spec fn accepts_header(off: u32, b: u8) -> bool {
        if off == 1 || off == 2 {
            true
        } else if off == 0x00 {
            true
        } else if off == 0x03 {
            b < 2
        } else if off == 0x04 {
            b <= 127
        } else if off == 0x05 {
            61 <= b <= 67
        } else if off == 0x06 {
            b < 2
        } else if off == 0x07 {
            b < 2
        } else if off == 0x08 {
            b < 2
        } else if off == 0x09 {
            b <= 127
        } else if off == 0x0A {
            40 <= b <= 88
        } else if off == 0x0B {
            14 <= b <= 114
        } else if off == 0x0C {
            b < 3
        } else if off == 0x0D {
            b <= 7
        } else if off == 0x0E {
            b <= 15
        } else if off == 0x0F {
            b < 2
        } else if off == 0x10 {
            b <= 100
        } else if off == 0x11 {
            b <= 100
        } else if off == 0x12 {
            b <= 100
        } else if off == 0x13 {
            b <= 100
        } else if off == 0x14 {
            b <= 100
        } else if off == 0x15 {
            b <= 100
        } else if off == 0x16 {
            b < 3
        } else {
            false
        }
    }

    /// The wire byte the header page holds at offset `off`: the tone
    /// selector bytes come from `synth_tone` when it is set.
    pub open spec fn at_header(self, off: u32) -> Option<u8> {
        if off == 1 {
            match self.synth_tone {
                Some(t) => Some(t.bytes_spec().0),
                None => self.pending_bank,
            }
        } else if off == 2 {
            match self.synth_tone {
                Some(t) => Some(t.bytes_spec().1),
                None => self.pending_pos,
            }
        } else if off == 0x00 {
            self.synth_mode
        } else if off == 0x03 {
            match self.tone_sw {
                Some(v) => Some(v.byte_spec()),
                None => None,
            }
        } else if off == 0x04 {
            self.tone_level
        } else if off == 0x05 {
            self.octave
        } else if off == 0x06 {
            match self.chromatic {
                Some(v) => Some(v.byte_spec()),
                None => None,
            }
        } else if off == 0x07 {
            match self.legato {
                Some(v) => Some(v.byte_spec()),
                None => None,
            }
        } else if off == 0x08 {
            match self.nuance_sw {
                Some(v) => Some(v.byte_spec()),
                None => None,
            }
        } else if off == 0x09 {
            self.pan
        } else if off == 0x0A {
            self.pitch_shift
        } else if off == 0x0B {
            self.pitch_fine
        } else if off == 0x0C {
            match self.portamento_sw {
                Some(v) => Some(v.byte_spec()),
                None => None,
            }
        } else if off == 0x0D {
            self.portamento_time
        } else if off == 0x0E {
            self.portamento_raw_0e
        } else if off == 0x0F {
            match self.tva_release_mode {
                Some(v) => Some(v.byte_spec()),
                None => None,
            }
        } else if off == 0x10 {
            self.string_level@[0]
        } else if off == 0x11 {
            self.string_level@[1]
        } else if off == 0x12 {
            self.string_level@[2]
        } else if off == 0x13 {
            self.string_level@[3]
        } else if off == 0x14 {
            self.string_level@[4]
        } else if off == 0x15 {
            self.string_level@[5]
        } else if off == 0x16 {
            match self.line_route {
                Some(v) => Some(v.byte_spec()),
                None => None,
            }
        } else {
            None
        }
    }

    /// The wire byte the tail page holds at offset `off`.
    pub open spec fn at_tail(self, off: u32) -> Option<u8> {
        if off <= 0x7F {
            self.raw_tail@.get(off)
        } else {
            None
        }
    }

    /// Every raw-tail key is a tail-page offset.
    pub open spec fn raw_ok(self) -> bool {
        forall|k: u32| #[trigger] self.raw_tail@.contains_key(k) ==> k <= 0x7F
    }

    /// Law: which bytes each typed field of the slot takes: an enumerated
    /// field the bytes of its wire table, a numeric field the bytes up to
    /// its maximum.
    pub proof fn lemma_field_ranges()
        ensures
            forall|b: u8| #[trigger] Self::accepts_header(0x00, b) == (true),
            forall|b: u8| #[trigger] Self::accepts_header(0x01, b) == (true),
            forall|b: u8| #[trigger] Self::accepts_header(0x02, b) == (true),
            forall|b: u8| #[trigger] Self::accepts_header(0x03, b) == (AnalogPuToneSw::from_byte_spec(b) is Some),
            forall|b: u8| #[trigger] Self::accepts_header(0x04, b) == (b <= 0x7F),
            forall|b: u8| #[trigger] Self::accepts_header(0x06, b) == (OnOff::from_byte_spec(b) is Some),
            forall|b: u8| #[trigger] Self::accepts_header(0x07, b) == (OnOff::from_byte_spec(b) is Some),
            forall|b: u8| #[trigger] Self::accepts_header(0x08, b) == (OnOff::from_byte_spec(b) is Some),
            forall|b: u8| #[trigger] Self::accepts_header(0x09, b) == (b <= 0x7F),
            forall|b: u8| #[trigger] Self::accepts_header(0x0C, b) == (PortamentoSwitch::from_byte_spec(b) is Some),
            forall|b: u8| #[trigger] Self::accepts_header(0x0D, b) == (b <= 7),
            forall|b: u8| #[trigger] Self::accepts_header(0x0E, b) == (b <= 0x0F),
            forall|b: u8| #[trigger] Self::accepts_header(0x0F, b) == (TvaReleaseMode::from_byte_spec(b) is Some),
            forall|b: u8| #[trigger] Self::accepts_header(0x16, b) == (LineRoute::from_byte_spec(b) is Some),
    {
    }

    /// Law: where each typed field of the slot sits: the byte at each
    /// offset listed is that field's value (an enumerated field's wire
    /// byte).
    pub proof fn lemma_field_offsets(self)
        ensures
            self.at_header(0x00) == self.synth_mode,
            self.at_header(0x03) == (match self.tone_sw {
                Some(v) => Some(v.byte_spec()),
                None => None,
            }),
            self.at_header(0x04) == self.tone_level,
            self.at_header(0x05) == self.octave,
            self.at_header(0x06) == (match self.chromatic {
                Some(v) => Some(v.byte_spec()),
                None => None,
            }),
            self.at_header(0x07) == (match self.legato {
                Some(v) => Some(v.byte_spec()),
                None => None,
            }),
            self.at_header(0x08) == (match self.nuance_sw {
                Some(v) => Some(v.byte_spec()),
                None => None,
            }),
            self.at_header(0x09) == self.pan,
            self.at_header(0x0A) == self.pitch_shift,
            self.at_header(0x0B) == self.pitch_fine,
            self.at_header(0x0C) == (match self.portamento_sw {
                Some(v) => Some(v.byte_spec()),
                None => None,
            }),
            self.at_header(0x0D) == self.portamento_time,
            self.at_header(0x0E) == self.portamento_raw_0e,
            self.at_header(0x0F) == (match self.tva_release_mode {
                Some(v) => Some(v.byte_spec()),
                None => None,
            }),
            self.at_header(0x16) == (match self.line_route {
                Some(v) => Some(v.byte_spec()),
                None => None,
            }),
    {
    }

    /// A tone slot with nothing set.
    pub fn empty() -> (r: Pcm)
        ensures
            r.raw_tail@ == Map::<u32, u8>::empty(),
            forall|o: u32| #[trigger] r.at_header(o) is None,
            forall|o: u32| #[trigger] r.at_tail(o) is None,
            r.synth_tone is None,
            r.pending_bank is None,
            r.pending_pos is None,
            r.raw_ok(),
    {
        Pcm {
            synth_mode: None,
            synth_tone: None,
            tone_sw: None,
            tone_level: None,
            octave: None,
            chromatic: None,
            legato: None,
            nuance_sw: None,
            pan: None,
            pitch_shift: None,
            pitch_fine: None,
            portamento_sw: None,
            portamento_time: None,
            portamento_raw_0e: None,
            tva_release_mode: None,
            string_level: [None, None, None, None, None, None],
            line_route: None,
            pending_bank: None,
            pending_pos: None,
            raw_tail: ByteMap::new(),
        }
    }

    /// Take a header-page byte if the slot accepts it at `off`; return
    /// whether it did. Bank and position bytes are parked in
    /// `pending_bank`/`pending_pos`.
    pub fn store_header_byte(&mut self, off: u32, b: u8) -> (r: bool)
        ensures
            r == Self::accepts_header(off, b),
            r ==> final(self).at_header(off) == (if (off == 1 || off == 2) && old(self).synth_tone is Some {
                old(self).at_header(off)
            } else {
                Some(b)
            }),
            !r ==> *final(self) == *old(self),
            forall|o: u32| o != off ==> #[trigger] final(self).at_header(o) == old(self).at_header(o),
            forall|o: u32| #[trigger] final(self).at_tail(o) == old(self).at_tail(o),
            final(self).synth_tone == old(self).synth_tone,
            final(self).raw_tail == old(self).raw_tail,
            final(self).pending_bank == (if off == 1 { Some(b) } else { old(self).pending_bank }),
            final(self).pending_pos == (if off == 2 { Some(b) } else { old(self).pending_pos }),
    {
        match off {
            0x01 => {
                self.pending_bank = Some(b);
                true
            },
            0x02 => {
                self.pending_pos = Some(b);
                true
            },
            0x00 => {
                self.synth_mode = Some(b);
                true
            },
            0x03 => {
                proof {
                    AnalogPuToneSw::lemma_byte_round_trip(b);
                }
                match AnalogPuToneSw::from_byte(b) {
                    Some(v) => {
                        self.tone_sw = Some(v);
                        true
                    },
                    None => false,
                }
            },
            0x04 => {
                if b <= 127 {
                    self.tone_level = Some(b);
                    true
                } else {
                    false
                }
            },
            0x05 => {
                if 61 <= b && b <= 67 {
                    self.octave = Some(b);
                    true
                } else {
                    false
                }
            },
            0x06 => {
                proof {
                    OnOff::lemma_byte_round_trip(b);
                }
                match OnOff::from_byte(b) {
                    Some(v) => {
                        self.chromatic = Some(v);
                        true
                    },
                    None => false,
                }
            },
            0x07 => {
                proof {
                    OnOff::lemma_byte_round_trip(b);
                }
                match OnOff::from_byte(b) {
                    Some(v) => {
                        self.legato = Some(v);
                        true
                    },
                    None => false,
                }
            },
            0x08 => {
                proof {
                    OnOff::lemma_byte_round_trip(b);
                }
                match OnOff::from_byte(b) {
                    Some(v) => {
                        self.nuance_sw = Some(v);
                        true
                    },
                    None => false,
                }
            },
            0x09 => {
                if b <= 127 {
                    self.pan = Some(b);
                    true
                } else {
                    false
                }
            },
            0x0A => {
                if 40 <= b && b <= 88 {
                    self.pitch_shift = Some(b);
                    true
                } else {
                    false
                }
            },
            0x0B => {
                if 14 <= b && b <= 114 {
                    self.pitch_fine = Some(b);
                    true
                } else {
                    false
                }
            },
            0x0C => {
                proof {
                    PortamentoSwitch::lemma_byte_round_trip(b);
                }
                match PortamentoSwitch::from_byte(b) {
                    Some(v) => {
                        self.portamento_sw = Some(v);
                        true
                    },
                    None => false,
                }
            },
            0x0D => {
                if b <= 7 {
                    self.portamento_time = Some(b);
                    true
                } else {
                    false
                }
            },
            0x0E => {
                if b <= 15 {
                    self.portamento_raw_0e = Some(b);
                    true
                } else {
                    false
                }
            },
            0x0F => {
                proof {
                    TvaReleaseMode::lemma_byte_round_trip(b);
                }
                match TvaReleaseMode::from_byte(b) {
                    Some(v) => {
                        self.tva_release_mode = Some(v);
                        true
                    },
                    None => false,
                }
            },
            0x10 => {
                if b <= 100 {
                    self.string_level[0] = Some(b);
                    true
                } else {
                    false
                }
            },
            0x11 => {
                if b <= 100 {
                    self.string_level[1] = Some(b);
                    true
                } else {
                    false
                }
            },
            0x12 => {
                if b <= 100 {
                    self.string_level[2] = Some(b);
                    true
                } else {
                    false
                }
            },
            0x13 => {
                if b <= 100 {
                    self.string_level[3] = Some(b);
                    true
                } else {
                    false
                }
            },
            0x14 => {
                if b <= 100 {
                    self.string_level[4] = Some(b);
                    true
                } else {
                    false
                }
            },
            0x15 => {
                if b <= 100 {
                    self.string_level[5] = Some(b);
                    true
                } else {
                    false
                }
            },
            0x16 => {
                proof {
                    LineRoute::lemma_byte_round_trip(b);
                }
                match LineRoute::from_byte(b) {
                    Some(v) => {
                        self.line_route = Some(v);
                        true
                    },
                    None => false,
                }
            },
            _ => false,
        }
    }

    /// Take a tail-page byte; offsets past `0x7F` are refused.
    pub fn store_tail_byte(&mut self, off: u32, b: u8) -> (r: bool)
        ensures
            r == (off <= 0x7F),
            r ==> final(self).at_tail(off) == Some(b),
            !r ==> *final(self) == *old(self),
            forall|o: u32| o != off ==> #[trigger] final(self).at_tail(o) == old(self).at_tail(o),
            forall|o: u32| #[trigger] final(self).at_header(o) == old(self).at_header(o),
            final(self).synth_tone == old(self).synth_tone,
            old(self).raw_ok() ==> final(self).raw_ok(),
            final(self).pending_bank == old(self).pending_bank,
            final(self).pending_pos == old(self).pending_pos,
            final(self).raw_tail@ == (if r {
                old(self).raw_tail@.insert(off, b)
            } else {
                old(self).raw_tail@
            }),
    {
        if off <= 0x7F {
            self.raw_tail.insert(off, b);
            true
        } else {
            false
        }
    }

    /// Once both tone-selector bytes are known and name a catalogue entry,
    /// lift them into `synth_tone`; otherwise leave the slot as it is.
    /// `after` is this slot once its parked tone-selector bytes are lifted:
    /// when both are parked and name a catalogue entry, `synth_tone` takes
    /// that entry and the parked bytes are cleared (the header view stays
    /// as it was if no tone was set before); otherwise nothing changes.
    pub open spec fn finalizes_to(self, after: Pcm) -> bool {
        match (self.pending_bank, self.pending_pos) {
            (Some(bank), Some(pos)) => if bank <= 7 && pos <= 0x7F && bank * 128 + pos <= 909 {
                &&& after.synth_tone matches Some(t) && t.value() == bank * 128 + pos
                &&& after == (Pcm { synth_tone: after.synth_tone, pending_bank: None, pending_pos: None, ..self })
            } else {
                after == self
            },
            _ => after == self,
        }
    }

    pub fn finalize(&mut self)
        ensures
            old(self).finalizes_to(*final(self)),
            old(self).synth_tone is None ==> forall|o: u32| #[trigger] final(self).at_header(o) == old(self).at_header(o),
            forall|o: u32| #[trigger] final(self).at_tail(o) == old(self).at_tail(o),
            match (old(self).pending_bank, old(self).pending_pos) {
                (Some(bank), Some(pos)) => if bank <= 7 && pos <= 0x7F && bank * 128 + pos <= 909
                    && old(self).synth_tone is None {
                    &&& final(self).synth_tone matches Some(t) && t.value() == bank * 128 + pos
                    &&& final(self).pending_bank is None
                    &&& final(self).pending_pos is None
                    &&& *final(self) == (Pcm { synth_tone: final(self).synth_tone, pending_bank: None, pending_pos: None, ..*old(self) })
                } else if bank <= 7 && pos <= 0x7F && bank * 128 + pos <= 909 {
                    &&& final(self).synth_tone matches Some(t) && t.value() == bank * 128 + pos
                    &&& *final(self) == (Pcm { synth_tone: final(self).synth_tone, pending_bank: None, pending_pos: None, ..*old(self) })
                } else {
                    *final(self) == *old(self)
                },
                _ => *final(self) == *old(self),
            },
    {
        if let (Some(bank), Some(pos)) = (self.pending_bank, self.pending_pos) {
            if let Some(idx) = PcmToneIndex::from_two_bytes(bank, pos) {
                self.synth_tone = Some(idx);
                self.pending_bank = None;
                self.pending_pos = None;
            }
        }
    }

    /// The wire byte the header page holds at offset `off`.
    pub fn byte_at_header(&self, off: u32) -> (r: Option<u8>)
        ensures
            r == self.at_header(off),
    {
        match off {
            0x01 => match self.synth_tone {
                Some(t) => Some(t.to_two_bytes()[0]),
                None => self.pending_bank,
            },
            0x02 => match self.synth_tone {
                Some(t) => Some(t.to_two_bytes()[1]),
                None => self.pending_pos,
            },
            0x00 => self.synth_mode,
            0x03 => match self.tone_sw {
                Some(v) => Some(v.to_byte()),
                None => None,
            },
            0x04 => self.tone_level,
            0x05 => self.octave,
            0x06 => match self.chromatic {
                Some(v) => Some(v.to_byte()),
                None => None,
            },
            0x07 => match self.legato {
                Some(v) => Some(v.to_byte()),
                None => None,
            },
            0x08 => match self.nuance_sw {
                Some(v) => Some(v.to_byte()),
                None => None,
            },
            0x09 => self.pan,
            0x0A => self.pitch_shift,
            0x0B => self.pitch_fine,
            0x0C => match self.portamento_sw {
                Some(v) => Some(v.to_byte()),
                None => None,
            },
            0x0D => self.portamento_time,
            0x0E => self.portamento_raw_0e,
            0x0F => match self.tva_release_mode {
                Some(v) => Some(v.to_byte()),
                None => None,
            },
            0x10 => self.string_level[0],
            0x11 => self.string_level[1],
            0x12 => self.string_level[2],
            0x13 => self.string_level[3],
            0x14 => self.string_level[4],
            0x15 => self.string_level[5],
            0x16 => match self.line_route {
                Some(v) => Some(v.to_byte()),
                None => None,
            },
            _ => None,
        }
    }

    /// The wire byte the tail page holds at offset `off`.
    pub fn byte_at_tail(&self, off: u32) -> (r: Option<u8>)
        ensures
            r == self.at_tail(off),
    {
        if off <= 0x7F {
            self.raw_tail.get(off)
        } else {
            None
        }
    }
}

impl Default for Assign {
    /// An empty slot, as [`Assign::empty`] gives.
    fn default() -> (r: Assign)
        ensures
            forall|o: u32| #[trigger] r.at(o) is None,
    {
        Assign::empty()
    }
}

impl Default for Mfx {
    /// An empty slot, as [`Mfx::empty`] gives.
    fn default() -> (r: Mfx)
        ensures
            forall|o: u32| #[trigger] r.at(o) is None,
            r.raw_ok(),
    {
        Mfx::empty()
    }
}

impl Default for Mod {
    /// An empty slot, as [`Mod::empty`] gives.
    fn default() -> (r: Mod)
        ensures
            forall|o: u32| #[trigger] r.at(o) is None,
            r.raw_ok(),
    {
        Mod::empty()
    }
}

impl Default for Modeling {
    /// An empty slot, as [`Modeling::empty`] gives.
    fn default() -> (r: Modeling)
        ensures
            forall|o: u32| #[trigger] r.at(o) is None,
            r.raw_ok(),
    {
        Modeling::empty()
    }
}

impl Default for Pcm {
    /// An empty slot, as [`Pcm::empty`] gives.
    fn default() -> (r: Pcm)
        ensures
            forall|o: u32| #[trigger] r.at_header(o) is None,
            forall|o: u32| #[trigger] r.at_tail(o) is None,
            r.synth_tone is None,
            r.pending_bank is None,
            r.pending_pos is None,
            r.raw_ok(),
    {
        Pcm::empty()
    }
}

} // verus!
