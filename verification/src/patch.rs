//! Typed model of one GR-55 patch: every byte of a patch's address range
//! (pages `0x00`..`0x31` below the patch's MSB), either in a typed field or,
//! when not modelled or out of range, in `unknown_bytes`. The model does not
//! depend on the MSB; callers give it to [`PatchArea::from_frames_at`] and
//! [`PatchArea::to_frames`].
use vstd::prelude::*;
use crate::byte_map::{ByteMap, entries_map, sorted_keys, lemma_entries_facts, lemma_entries_map_prefix};
use crate::codec::CodecError;
pub use crate::patch_slots::{Assign, Mfx, Mod, Modeling, Pcm};
pub use crate::patch_values::{AssignSource, PatchName, PatchNameError, PatchTempo, PcmToneIndex};
pub use crate::patch_enums::{AltTuningType, AnalogPuToneSw, AssignIntPdlCurve, AssignInternalTrigger, AssignSourceMode, AssignWaveForm, BassModeCategory, BmEBassType, BmEGuitarType, ChorusType, CrossFaderMode, CtlFunction, DelayType, EqHighFreq, EqLowFreq, EqMidFreq, EqMidQ, ExpFunction, ExpSwFunction, GmAcousticType, GmEBassType, GmEGuitarType, GuitarModeCategory, GuitarOut, LineRoute, MfxType, MicDistance, MicType, ModType, ModelingSynthType, PatchEqCharacter, PatchEqHighCut, PatchEqLoCut, PatchEqMidFreq, PatchEqMidQ, PatchGkSet, PatchMode, PatchStructure, PortamentoSwitch, PreampGainSw, PreampType, ReverbHighCut, ReverbType, SpeakerType, TvaReleaseMode, VLinkControl};
use crate::system::{PatchLevel, PitchBendDepth, address_key, key_of, key_bytes, lemma_key_bytes, nibble_pair_bytes, opt_insert};
use crate::system_enums::{HoldType, OnOff, SwitchMode};
use crate::sysex::{Frame, FrameView};

verus! {

broadcast use vstd::array::lemma_array_index;

/// The wire byte of a `AltTuningType` field is in range.
pub proof fn lemma_opt_byte_alt_tuning_type_valid(o: Option<AltTuningType>)
    ensures
        opt_byte_alt_tuning_type(o) matches Some(b) ==> b < 13,
{
    reveal(opt_byte_alt_tuning_type);
    if o is Some {
        o.unwrap().lemma_round_trip();
    }
}

/// Wire byte of an optional `AltTuningType` field.
#[verifier::opaque]
pub open spec fn opt_byte_alt_tuning_type(o: Option<AltTuningType>) -> Option<u8> {
    match o {
        Some(v) => Some(v.byte_spec()),
        None => None,
    }
}

/// Decoding byte `b` into a `AltTuningType` field and reading it back gives `b`
/// when it is in range.
pub proof fn lemma_opt_byte_alt_tuning_type(b: u8)
    ensures
        opt_byte_alt_tuning_type(AltTuningType::from_byte_spec(b)) == (if b < 13 {
            Some(b)
        } else {
            None
        }),
{
    reveal(opt_byte_alt_tuning_type);
    AltTuningType::lemma_byte_round_trip(b);
}

/// The wire byte of a `AnalogPuToneSw` field is in range.
pub proof fn lemma_opt_byte_analog_pu_tone_sw_valid(o: Option<AnalogPuToneSw>)
    ensures
        opt_byte_analog_pu_tone_sw(o) matches Some(b) ==> b < 2,
{
    reveal(opt_byte_analog_pu_tone_sw);
    if o is Some {
        o.unwrap().lemma_round_trip();
    }
}

/// Wire byte of an optional `AnalogPuToneSw` field.
#[verifier::opaque]
pub open spec fn opt_byte_analog_pu_tone_sw(o: Option<AnalogPuToneSw>) -> Option<u8> {
    match o {
        Some(v) => Some(v.byte_spec()),
        None => None,
    }
}

/// Decoding byte `b` into a `AnalogPuToneSw` field and reading it back gives `b`
/// when it is in range.
pub proof fn lemma_opt_byte_analog_pu_tone_sw(b: u8)
    ensures
        opt_byte_analog_pu_tone_sw(AnalogPuToneSw::from_byte_spec(b)) == (if b < 2 {
            Some(b)
        } else {
            None
        }),
{
    reveal(opt_byte_analog_pu_tone_sw);
    AnalogPuToneSw::lemma_byte_round_trip(b);
}

/// The wire byte of a `ChorusType` field is in range.
pub proof fn lemma_opt_byte_chorus_type_valid(o: Option<ChorusType>)
    ensures
        opt_byte_chorus_type(o) matches Some(b) ==> b < 4,
{
    reveal(opt_byte_chorus_type);
    if o is Some {
        o.unwrap().lemma_round_trip();
    }
}

/// Wire byte of an optional `ChorusType` field.
#[verifier::opaque]
pub open spec fn opt_byte_chorus_type(o: Option<ChorusType>) -> Option<u8> {
    match o {
        Some(v) => Some(v.byte_spec()),
        None => None,
    }
}

/// Decoding byte `b` into a `ChorusType` field and reading it back gives `b`
/// when it is in range.
pub proof fn lemma_opt_byte_chorus_type(b: u8)
    ensures
        opt_byte_chorus_type(ChorusType::from_byte_spec(b)) == (if b < 4 {
            Some(b)
        } else {
            None
        }),
{
    reveal(opt_byte_chorus_type);
    ChorusType::lemma_byte_round_trip(b);
}

/// The wire byte of a `CrossFaderMode` field is in range.
pub proof fn lemma_opt_byte_cross_fader_mode_valid(o: Option<CrossFaderMode>)
    ensures
        opt_byte_cross_fader_mode(o) matches Some(b) ==> b < 3,
{
    reveal(opt_byte_cross_fader_mode);
    if o is Some {
        o.unwrap().lemma_round_trip();
    }
}

/// Wire byte of an optional `CrossFaderMode` field.
#[verifier::opaque]
pub open spec fn opt_byte_cross_fader_mode(o: Option<CrossFaderMode>) -> Option<u8> {
    match o {
        Some(v) => Some(v.byte_spec()),
        None => None,
    }
}

/// Decoding byte `b` into a `CrossFaderMode` field and reading it back gives `b`
/// when it is in range.
pub proof fn lemma_opt_byte_cross_fader_mode(b: u8)
    ensures
        opt_byte_cross_fader_mode(CrossFaderMode::from_byte_spec(b)) == (if b < 3 {
            Some(b)
        } else {
            None
        }),
{
    reveal(opt_byte_cross_fader_mode);
    CrossFaderMode::lemma_byte_round_trip(b);
}

/// The wire byte of a `CtlFunction` field is in range.
pub proof fn lemma_opt_byte_ctl_function_valid(o: Option<CtlFunction>)
    ensures
        opt_byte_ctl_function(o) matches Some(b) ==> b < 17,
{
    reveal(opt_byte_ctl_function);
    if o is Some {
        o.unwrap().lemma_round_trip();
    }
}

/// Wire byte of an optional `CtlFunction` field.
#[verifier::opaque]
pub open spec fn opt_byte_ctl_function(o: Option<CtlFunction>) -> Option<u8> {
    match o {
        Some(v) => Some(v.byte_spec()),
        None => None,
    }
}

/// Decoding byte `b` into a `CtlFunction` field and reading it back gives `b`
/// when it is in range.
pub proof fn lemma_opt_byte_ctl_function(b: u8)
    ensures
        opt_byte_ctl_function(CtlFunction::from_byte_spec(b)) == (if b < 17 {
            Some(b)
        } else {
            None
        }),
{
    reveal(opt_byte_ctl_function);
    CtlFunction::lemma_byte_round_trip(b);
}

/// The wire byte of a `DelayType` field is in range.
pub proof fn lemma_opt_byte_delay_type_valid(o: Option<DelayType>)
    ensures
        opt_byte_delay_type(o) matches Some(b) ==> b < 7,
{
    reveal(opt_byte_delay_type);
    if o is Some {
        o.unwrap().lemma_round_trip();
    }
}

/// Wire byte of an optional `DelayType` field.
#[verifier::opaque]
pub open spec fn opt_byte_delay_type(o: Option<DelayType>) -> Option<u8> {
    match o {
        Some(v) => Some(v.byte_spec()),
        None => None,
    }
}

/// Decoding byte `b` into a `DelayType` field and reading it back gives `b`
/// when it is in range.
pub proof fn lemma_opt_byte_delay_type(b: u8)
    ensures
        opt_byte_delay_type(DelayType::from_byte_spec(b)) == (if b < 7 {
            Some(b)
        } else {
            None
        }),
{
    reveal(opt_byte_delay_type);
    DelayType::lemma_byte_round_trip(b);
}

/// The wire byte of a `ExpFunction` field is in range.
pub proof fn lemma_opt_byte_exp_function_valid(o: Option<ExpFunction>)
    ensures
        opt_byte_exp_function(o) matches Some(b) ==> b < 10,
{
    reveal(opt_byte_exp_function);
    if o is Some {
        o.unwrap().lemma_round_trip();
    }
}

/// Wire byte of an optional `ExpFunction` field.
#[verifier::opaque]
pub open spec fn opt_byte_exp_function(o: Option<ExpFunction>) -> Option<u8> {
    match o {
        Some(v) => Some(v.byte_spec()),
        None => None,
    }
}

/// Decoding byte `b` into a `ExpFunction` field and reading it back gives `b`
/// when it is in range.
pub proof fn lemma_opt_byte_exp_function(b: u8)
    ensures
        opt_byte_exp_function(ExpFunction::from_byte_spec(b)) == (if b < 10 {
            Some(b)
        } else {
            None
        }),
{
    reveal(opt_byte_exp_function);
    ExpFunction::lemma_byte_round_trip(b);
}

/// The wire byte of a `ExpSwFunction` field is in range.
pub proof fn lemma_opt_byte_exp_sw_function_valid(o: Option<ExpSwFunction>)
    ensures
        opt_byte_exp_sw_function(o) matches Some(b) ==> b < 14,
{
    reveal(opt_byte_exp_sw_function);
    if o is Some {
        o.unwrap().lemma_round_trip();
    }
}

/// Wire byte of an optional `ExpSwFunction` field.
#[verifier::opaque]
pub open spec fn opt_byte_exp_sw_function(o: Option<ExpSwFunction>) -> Option<u8> {
    match o {
        Some(v) => Some(v.byte_spec()),
        None => None,
    }
}

/// Decoding byte `b` into a `ExpSwFunction` field and reading it back gives `b`
/// when it is in range.
pub proof fn lemma_opt_byte_exp_sw_function(b: u8)
    ensures
        opt_byte_exp_sw_function(ExpSwFunction::from_byte_spec(b)) == (if b < 14 {
            Some(b)
        } else {
            None
        }),
{
    reveal(opt_byte_exp_sw_function);
    ExpSwFunction::lemma_byte_round_trip(b);
}

/// The wire byte of a `GuitarOut` field is in range.
pub proof fn lemma_opt_byte_guitar_out_valid(o: Option<GuitarOut>)
    ensures
        opt_byte_guitar_out(o) matches Some(b) ==> b < 4,
{
    reveal(opt_byte_guitar_out);
    if o is Some {
        o.unwrap().lemma_round_trip();
    }
}

/// Wire byte of an optional `GuitarOut` field.
#[verifier::opaque]
pub open spec fn opt_byte_guitar_out(o: Option<GuitarOut>) -> Option<u8> {
    match o {
        Some(v) => Some(v.byte_spec()),
        None => None,
    }
}

/// Decoding byte `b` into a `GuitarOut` field and reading it back gives `b`
/// when it is in range.
pub proof fn lemma_opt_byte_guitar_out(b: u8)
    ensures
        opt_byte_guitar_out(GuitarOut::from_byte_spec(b)) == (if b < 4 {
            Some(b)
        } else {
            None
        }),
{
    reveal(opt_byte_guitar_out);
    GuitarOut::lemma_byte_round_trip(b);
}

/// The wire byte of a `HoldType` field is in range.
pub proof fn lemma_opt_byte_hold_type_valid(o: Option<HoldType>)
    ensures
        opt_byte_hold_type(o) matches Some(b) ==> b < 4,
{
    reveal(opt_byte_hold_type);
    if o is Some {
        o.unwrap().lemma_round_trip();
    }
}

/// Wire byte of an optional `HoldType` field.
#[verifier::opaque]
pub open spec fn opt_byte_hold_type(o: Option<HoldType>) -> Option<u8> {
    match o {
        Some(v) => Some(v.byte_spec()),
        None => None,
    }
}

/// Decoding byte `b` into a `HoldType` field and reading it back gives `b`
/// when it is in range.
pub proof fn lemma_opt_byte_hold_type(b: u8)
    ensures
        opt_byte_hold_type(HoldType::from_byte_spec(b)) == (if b < 4 {
            Some(b)
        } else {
            None
        }),
{
    reveal(opt_byte_hold_type);
    HoldType::lemma_byte_round_trip(b);
}

/// The wire byte of a `LineRoute` field is in range.
pub proof fn lemma_opt_byte_line_route_valid(o: Option<LineRoute>)
    ensures
        opt_byte_line_route(o) matches Some(b) ==> b < 3,
{
    reveal(opt_byte_line_route);
    if o is Some {
        o.unwrap().lemma_round_trip();
    }
}

/// Wire byte of an optional `LineRoute` field.
#[verifier::opaque]
pub open spec fn opt_byte_line_route(o: Option<LineRoute>) -> Option<u8> {
    match o {
        Some(v) => Some(v.byte_spec()),
        None => None,
    }
}

/// Decoding byte `b` into a `LineRoute` field and reading it back gives `b`
/// when it is in range.
pub proof fn lemma_opt_byte_line_route(b: u8)
    ensures
        opt_byte_line_route(LineRoute::from_byte_spec(b)) == (if b < 3 {
            Some(b)
        } else {
            None
        }),
{
    reveal(opt_byte_line_route);
    LineRoute::lemma_byte_round_trip(b);
}

/// The wire byte of a `MicDistance` field is in range.
pub proof fn lemma_opt_byte_mic_distance_valid(o: Option<MicDistance>)
    ensures
        opt_byte_mic_distance(o) matches Some(b) ==> b < 2,
{
    reveal(opt_byte_mic_distance);
    if o is Some {
        o.unwrap().lemma_round_trip();
    }
}

/// Wire byte of an optional `MicDistance` field.
#[verifier::opaque]
pub open spec fn opt_byte_mic_distance(o: Option<MicDistance>) -> Option<u8> {
    match o {
        Some(v) => Some(v.byte_spec()),
        None => None,
    }
}

/// Decoding byte `b` into a `MicDistance` field and reading it back gives `b`
/// when it is in range.
pub proof fn lemma_opt_byte_mic_distance(b: u8)
    ensures
        opt_byte_mic_distance(MicDistance::from_byte_spec(b)) == (if b < 2 {
            Some(b)
        } else {
            None
        }),
{
    reveal(opt_byte_mic_distance);
    MicDistance::lemma_byte_round_trip(b);
}

/// The wire byte of a `MicType` field is in range.
pub proof fn lemma_opt_byte_mic_type_valid(o: Option<MicType>)
    ensures
        opt_byte_mic_type(o) matches Some(b) ==> b < 5,
{
    reveal(opt_byte_mic_type);
    if o is Some {
        o.unwrap().lemma_round_trip();
    }
}

/// Wire byte of an optional `MicType` field.
#[verifier::opaque]
pub open spec fn opt_byte_mic_type(o: Option<MicType>) -> Option<u8> {
    match o {
        Some(v) => Some(v.byte_spec()),
        None => None,
    }
}

/// Decoding byte `b` into a `MicType` field and reading it back gives `b`
/// when it is in range.
pub proof fn lemma_opt_byte_mic_type(b: u8)
    ensures
        opt_byte_mic_type(MicType::from_byte_spec(b)) == (if b < 5 {
            Some(b)
        } else {
            None
        }),
{
    reveal(opt_byte_mic_type);
    MicType::lemma_byte_round_trip(b);
}

/// The wire byte of a `OnOff` field is in range.
pub proof fn lemma_opt_byte_on_off_valid(o: Option<OnOff>)
    ensures
        opt_byte_on_off(o) matches Some(b) ==> b < 2,
{
    reveal(opt_byte_on_off);
    if o is Some {
        o.unwrap().lemma_round_trip();
    }
}

/// Wire byte of an optional `OnOff` field.
#[verifier::opaque]
pub open spec fn opt_byte_on_off(o: Option<OnOff>) -> Option<u8> {
    match o {
        Some(v) => Some(v.byte_spec()),
        None => None,
    }
}

/// Decoding byte `b` into a `OnOff` field and reading it back gives `b`
/// when it is in range.
pub proof fn lemma_opt_byte_on_off(b: u8)
    ensures
        opt_byte_on_off(OnOff::from_byte_spec(b)) == (if b < 2 {
            Some(b)
        } else {
            None
        }),
{
    reveal(opt_byte_on_off);
    OnOff::lemma_byte_round_trip(b);
}

/// The wire byte of a `PatchEqCharacter` field is in range.
pub proof fn lemma_opt_byte_patch_eq_character_valid(o: Option<PatchEqCharacter>)
    ensures
        opt_byte_patch_eq_character(o) matches Some(b) ==> b < 7,
{
    reveal(opt_byte_patch_eq_character);
    if o is Some {
        o.unwrap().lemma_round_trip();
    }
}

/// Wire byte of an optional `PatchEqCharacter` field.
#[verifier::opaque]
pub open spec fn opt_byte_patch_eq_character(o: Option<PatchEqCharacter>) -> Option<u8> {
    match o {
        Some(v) => Some(v.byte_spec()),
        None => None,
    }
}

/// Decoding byte `b` into a `PatchEqCharacter` field and reading it back gives `b`
/// when it is in range.
pub proof fn lemma_opt_byte_patch_eq_character(b: u8)
    ensures
        opt_byte_patch_eq_character(PatchEqCharacter::from_byte_spec(b)) == (if b < 7 {
            Some(b)
        } else {
            None
        }),
{
    reveal(opt_byte_patch_eq_character);
    PatchEqCharacter::lemma_byte_round_trip(b);
}

/// The wire byte of a `PatchEqHighCut` field is in range.
pub proof fn lemma_opt_byte_patch_eq_high_cut_valid(o: Option<PatchEqHighCut>)
    ensures
        opt_byte_patch_eq_high_cut(o) matches Some(b) ==> b < 10,
{
    reveal(opt_byte_patch_eq_high_cut);
    if o is Some {
        o.unwrap().lemma_round_trip();
    }
}

/// Wire byte of an optional `PatchEqHighCut` field.
#[verifier::opaque]
pub open spec fn opt_byte_patch_eq_high_cut(o: Option<PatchEqHighCut>) -> Option<u8> {
    match o {
        Some(v) => Some(v.byte_spec()),
        None => None,
    }
}

/// Decoding byte `b` into a `PatchEqHighCut` field and reading it back gives `b`
/// when it is in range.
pub proof fn lemma_opt_byte_patch_eq_high_cut(b: u8)
    ensures
        opt_byte_patch_eq_high_cut(PatchEqHighCut::from_byte_spec(b)) == (if b < 10 {
            Some(b)
        } else {
            None
        }),
{
    reveal(opt_byte_patch_eq_high_cut);
    PatchEqHighCut::lemma_byte_round_trip(b);
}

/// The wire byte of a `PatchEqLoCut` field is in range.
pub proof fn lemma_opt_byte_patch_eq_lo_cut_valid(o: Option<PatchEqLoCut>)
    ensures
        opt_byte_patch_eq_lo_cut(o) matches Some(b) ==> b < 11,
{
    reveal(opt_byte_patch_eq_lo_cut);
    if o is Some {
        o.unwrap().lemma_round_trip();
    }
}

/// Wire byte of an optional `PatchEqLoCut` field.
#[verifier::opaque]
pub open spec fn opt_byte_patch_eq_lo_cut(o: Option<PatchEqLoCut>) -> Option<u8> {
    match o {
        Some(v) => Some(v.byte_spec()),
        None => None,
    }
}

/// Decoding byte `b` into a `PatchEqLoCut` field and reading it back gives `b`
/// when it is in range.
pub proof fn lemma_opt_byte_patch_eq_lo_cut(b: u8)
    ensures
        opt_byte_patch_eq_lo_cut(PatchEqLoCut::from_byte_spec(b)) == (if b < 11 {
            Some(b)
        } else {
            None
        }),
{
    reveal(opt_byte_patch_eq_lo_cut);
    PatchEqLoCut::lemma_byte_round_trip(b);
}

/// The wire byte of a `PatchEqMidFreq` field is in range.
pub proof fn lemma_opt_byte_patch_eq_mid_freq_valid(o: Option<PatchEqMidFreq>)
    ensures
        opt_byte_patch_eq_mid_freq(o) matches Some(b) ==> b < 28,
{
    reveal(opt_byte_patch_eq_mid_freq);
    if o is Some {
        o.unwrap().lemma_round_trip();
    }
}

/// Wire byte of an optional `PatchEqMidFreq` field.
#[verifier::opaque]
pub open spec fn opt_byte_patch_eq_mid_freq(o: Option<PatchEqMidFreq>) -> Option<u8> {
    match o {
        Some(v) => Some(v.byte_spec()),
        None => None,
    }
}

/// Decoding byte `b` into a `PatchEqMidFreq` field and reading it back gives `b`
/// when it is in range.
pub proof fn lemma_opt_byte_patch_eq_mid_freq(b: u8)
    ensures
        opt_byte_patch_eq_mid_freq(PatchEqMidFreq::from_byte_spec(b)) == (if b < 28 {
            Some(b)
        } else {
            None
        }),
{
    reveal(opt_byte_patch_eq_mid_freq);
    PatchEqMidFreq::lemma_byte_round_trip(b);
}

/// The wire byte of a `PatchEqMidQ` field is in range.
pub proof fn lemma_opt_byte_patch_eq_mid_q_valid(o: Option<PatchEqMidQ>)
    ensures
        opt_byte_patch_eq_mid_q(o) matches Some(b) ==> b < 6,
{
    reveal(opt_byte_patch_eq_mid_q);
    if o is Some {
        o.unwrap().lemma_round_trip();
    }
}

/// Wire byte of an optional `PatchEqMidQ` field.
#[verifier::opaque]
pub open spec fn opt_byte_patch_eq_mid_q(o: Option<PatchEqMidQ>) -> Option<u8> {
    match o {
        Some(v) => Some(v.byte_spec()),
        None => None,
    }
}

/// Decoding byte `b` into a `PatchEqMidQ` field and reading it back gives `b`
/// when it is in range.
pub proof fn lemma_opt_byte_patch_eq_mid_q(b: u8)
    ensures
        opt_byte_patch_eq_mid_q(PatchEqMidQ::from_byte_spec(b)) == (if b < 6 {
            Some(b)
        } else {
            None
        }),
{
    reveal(opt_byte_patch_eq_mid_q);
    PatchEqMidQ::lemma_byte_round_trip(b);
}

/// The wire byte of a `PatchGkSet` field is in range.
pub proof fn lemma_opt_byte_patch_gk_set_valid(o: Option<PatchGkSet>)
    ensures
        opt_byte_patch_gk_set(o) matches Some(b) ==> b < 11,
{
    reveal(opt_byte_patch_gk_set);
    if o is Some {
        o.unwrap().lemma_round_trip();
    }
}

/// Wire byte of an optional `PatchGkSet` field.
#[verifier::opaque]
pub open spec fn opt_byte_patch_gk_set(o: Option<PatchGkSet>) -> Option<u8> {
    match o {
        Some(v) => Some(v.byte_spec()),
        None => None,
    }
}

/// Decoding byte `b` into a `PatchGkSet` field and reading it back gives `b`
/// when it is in range.
pub proof fn lemma_opt_byte_patch_gk_set(b: u8)
    ensures
        opt_byte_patch_gk_set(PatchGkSet::from_byte_spec(b)) == (if b < 11 {
            Some(b)
        } else {
            None
        }),
{
    reveal(opt_byte_patch_gk_set);
    PatchGkSet::lemma_byte_round_trip(b);
}

/// The wire byte of a `PatchMode` field is in range.
pub proof fn lemma_opt_byte_patch_mode_valid(o: Option<PatchMode>)
    ensures
        opt_byte_patch_mode(o) matches Some(b) ==> b < 2,
{
    reveal(opt_byte_patch_mode);
    if o is Some {
        o.unwrap().lemma_round_trip();
    }
}

/// Wire byte of an optional `PatchMode` field.
#[verifier::opaque]
pub open spec fn opt_byte_patch_mode(o: Option<PatchMode>) -> Option<u8> {
    match o {
        Some(v) => Some(v.byte_spec()),
        None => None,
    }
}

/// Decoding byte `b` into a `PatchMode` field and reading it back gives `b`
/// when it is in range.
pub proof fn lemma_opt_byte_patch_mode(b: u8)
    ensures
        opt_byte_patch_mode(PatchMode::from_byte_spec(b)) == (if b < 2 {
            Some(b)
        } else {
            None
        }),
{
    reveal(opt_byte_patch_mode);
    PatchMode::lemma_byte_round_trip(b);
}

/// The wire byte of a `PatchStructure` field is in range.
pub proof fn lemma_opt_byte_patch_structure_valid(o: Option<PatchStructure>)
    ensures
        opt_byte_patch_structure(o) matches Some(b) ==> b < 2,
{
    reveal(opt_byte_patch_structure);
    if o is Some {
        o.unwrap().lemma_round_trip();
    }
}

/// Wire byte of an optional `PatchStructure` field.
#[verifier::opaque]
pub open spec fn opt_byte_patch_structure(o: Option<PatchStructure>) -> Option<u8> {
    match o {
        Some(v) => Some(v.byte_spec()),
        None => None,
    }
}

/// Decoding byte `b` into a `PatchStructure` field and reading it back gives `b`
/// when it is in range.
pub proof fn lemma_opt_byte_patch_structure(b: u8)
    ensures
        opt_byte_patch_structure(PatchStructure::from_byte_spec(b)) == (if b < 2 {
            Some(b)
        } else {
            None
        }),
{
    reveal(opt_byte_patch_structure);
    PatchStructure::lemma_byte_round_trip(b);
}

/// The wire byte of a `PitchBendDepth` field is in range.
pub proof fn lemma_opt_byte_pitch_bend_depth_valid(o: Option<PitchBendDepth>)
    requires
        o matches Some(v) ==> -12 <= v.value() <= 12,
    ensures
        opt_byte_pitch_bend_depth(o) matches Some(b) ==> b < 25,
{
    reveal(opt_byte_pitch_bend_depth);
}

/// Wire byte of an optional `PitchBendDepth` field.
#[verifier::opaque]
pub open spec fn opt_byte_pitch_bend_depth(o: Option<PitchBendDepth>) -> Option<u8> {
    match o {
        Some(v) => Some(v.byte_spec()),
        None => None,
    }
}

/// Decoding byte `b` into a `PitchBendDepth` field and reading it back gives `b`
/// when it is in range.
pub proof fn lemma_opt_byte_pitch_bend_depth(b: u8)
    ensures
        opt_byte_pitch_bend_depth(PitchBendDepth::from_byte_spec(b)) == (if b < 25 {
            Some(b)
        } else {
            None
        }),
{
    reveal(opt_byte_pitch_bend_depth);
    PitchBendDepth::lemma_byte_round_trip(b);
}

/// The wire byte of a `PreampGainSw` field is in range.
pub proof fn lemma_opt_byte_preamp_gain_sw_valid(o: Option<PreampGainSw>)
    ensures
        opt_byte_preamp_gain_sw(o) matches Some(b) ==> b < 3,
{
    reveal(opt_byte_preamp_gain_sw);
    if o is Some {
        o.unwrap().lemma_round_trip();
    }
}

/// Wire byte of an optional `PreampGainSw` field.
#[verifier::opaque]
pub open spec fn opt_byte_preamp_gain_sw(o: Option<PreampGainSw>) -> Option<u8> {
    match o {
        Some(v) => Some(v.byte_spec()),
        None => None,
    }
}

/// Decoding byte `b` into a `PreampGainSw` field and reading it back gives `b`
/// when it is in range.
pub proof fn lemma_opt_byte_preamp_gain_sw(b: u8)
    ensures
        opt_byte_preamp_gain_sw(PreampGainSw::from_byte_spec(b)) == (if b < 3 {
            Some(b)
        } else {
            None
        }),
{
    reveal(opt_byte_preamp_gain_sw);
    PreampGainSw::lemma_byte_round_trip(b);
}

/// The wire byte of a `PreampType` field is in range.
pub proof fn lemma_opt_byte_preamp_type_valid(o: Option<PreampType>)
    ensures
        opt_byte_preamp_type(o) matches Some(b) ==> b < 42,
{
    reveal(opt_byte_preamp_type);
    if o is Some {
        o.unwrap().lemma_round_trip();
    }
}

/// Wire byte of an optional `PreampType` field.
#[verifier::opaque]
pub open spec fn opt_byte_preamp_type(o: Option<PreampType>) -> Option<u8> {
    match o {
        Some(v) => Some(v.byte_spec()),
        None => None,
    }
}

/// Decoding byte `b` into a `PreampType` field and reading it back gives `b`
/// when it is in range.
pub proof fn lemma_opt_byte_preamp_type(b: u8)
    ensures
        opt_byte_preamp_type(PreampType::from_byte_spec(b)) == (if b < 42 {
            Some(b)
        } else {
            None
        }),
{
    reveal(opt_byte_preamp_type);
    PreampType::lemma_byte_round_trip(b);
}

/// The wire byte of a `ReverbHighCut` field is in range.
pub proof fn lemma_opt_byte_reverb_high_cut_valid(o: Option<ReverbHighCut>)
    ensures
        opt_byte_reverb_high_cut(o) matches Some(b) ==> b < 10,
{
    reveal(opt_byte_reverb_high_cut);
    if o is Some {
        o.unwrap().lemma_round_trip();
    }
}

/// Wire byte of an optional `ReverbHighCut` field.
#[verifier::opaque]
pub open spec fn opt_byte_reverb_high_cut(o: Option<ReverbHighCut>) -> Option<u8> {
    match o {
        Some(v) => Some(v.byte_spec()),
        None => None,
    }
}

/// Decoding byte `b` into a `ReverbHighCut` field and reading it back gives `b`
/// when it is in range.
pub proof fn lemma_opt_byte_reverb_high_cut(b: u8)
    ensures
        opt_byte_reverb_high_cut(ReverbHighCut::from_byte_spec(b)) == (if b < 10 {
            Some(b)
        } else {
            None
        }),
{
    reveal(opt_byte_reverb_high_cut);
    ReverbHighCut::lemma_byte_round_trip(b);
}

/// The wire byte of a `ReverbType` field is in range.
pub proof fn lemma_opt_byte_reverb_type_valid(o: Option<ReverbType>)
    ensures
        opt_byte_reverb_type(o) matches Some(b) ==> b < 5,
{
    reveal(opt_byte_reverb_type);
    if o is Some {
        o.unwrap().lemma_round_trip();
    }
}

/// Wire byte of an optional `ReverbType` field.
#[verifier::opaque]
pub open spec fn opt_byte_reverb_type(o: Option<ReverbType>) -> Option<u8> {
    match o {
        Some(v) => Some(v.byte_spec()),
        None => None,
    }
}

/// Decoding byte `b` into a `ReverbType` field and reading it back gives `b`
/// when it is in range.
pub proof fn lemma_opt_byte_reverb_type(b: u8)
    ensures
        opt_byte_reverb_type(ReverbType::from_byte_spec(b)) == (if b < 5 {
            Some(b)
        } else {
            None
        }),
{
    reveal(opt_byte_reverb_type);
    ReverbType::lemma_byte_round_trip(b);
}

/// The wire byte of a `SpeakerType` field is in range.
pub proof fn lemma_opt_byte_speaker_type_valid(o: Option<SpeakerType>)
    ensures
        opt_byte_speaker_type(o) matches Some(b) ==> b < 9,
{
    reveal(opt_byte_speaker_type);
    if o is Some {
        o.unwrap().lemma_round_trip();
    }
}

/// Wire byte of an optional `SpeakerType` field.
#[verifier::opaque]
pub open spec fn opt_byte_speaker_type(o: Option<SpeakerType>) -> Option<u8> {
    match o {
        Some(v) => Some(v.byte_spec()),
        None => None,
    }
}

/// Decoding byte `b` into a `SpeakerType` field and reading it back gives `b`
/// when it is in range.
pub proof fn lemma_opt_byte_speaker_type(b: u8)
    ensures
        opt_byte_speaker_type(SpeakerType::from_byte_spec(b)) == (if b < 9 {
            Some(b)
        } else {
            None
        }),
{
    reveal(opt_byte_speaker_type);
    SpeakerType::lemma_byte_round_trip(b);
}

/// The wire byte of a `SwitchMode` field is in range.
pub proof fn lemma_opt_byte_switch_mode_valid(o: Option<SwitchMode>)
    ensures
        opt_byte_switch_mode(o) matches Some(b) ==> b < 2,
{
    reveal(opt_byte_switch_mode);
    if o is Some {
        o.unwrap().lemma_round_trip();
    }
}

/// Wire byte of an optional `SwitchMode` field.
#[verifier::opaque]
pub open spec fn opt_byte_switch_mode(o: Option<SwitchMode>) -> Option<u8> {
    match o {
        Some(v) => Some(v.byte_spec()),
        None => None,
    }
}

/// Decoding byte `b` into a `SwitchMode` field and reading it back gives `b`
/// when it is in range.
pub proof fn lemma_opt_byte_switch_mode(b: u8)
    ensures
        opt_byte_switch_mode(SwitchMode::from_byte_spec(b)) == (if b < 2 {
            Some(b)
        } else {
            None
        }),
{
    reveal(opt_byte_switch_mode);
    SwitchMode::lemma_byte_round_trip(b);
}

/// The wire byte of a `VLinkControl` field is in range.
pub proof fn lemma_opt_byte_v_link_control_valid(o: Option<VLinkControl>)
    ensures
        opt_byte_v_link_control(o) matches Some(b) ==> b < 5,
{
    reveal(opt_byte_v_link_control);
    if o is Some {
        o.unwrap().lemma_round_trip();
    }
}

/// Wire byte of an optional `VLinkControl` field.
#[verifier::opaque]
pub open spec fn opt_byte_v_link_control(o: Option<VLinkControl>) -> Option<u8> {
    match o {
        Some(v) => Some(v.byte_spec()),
        None => None,
    }
}

/// Decoding byte `b` into a `VLinkControl` field and reading it back gives `b`
/// when it is in range.
pub proof fn lemma_opt_byte_v_link_control(b: u8)
    ensures
        opt_byte_v_link_control(VLinkControl::from_byte_spec(b)) == (if b < 5 {
            Some(b)
        } else {
            None
        }),
{
    reveal(opt_byte_v_link_control);
    VLinkControl::lemma_byte_round_trip(b);
}

/// Typed view of one patch.
#[derive(Debug, Clone, PartialEq, Eq)]
pub struct PatchArea {
    pub mode: Option<PatchMode>,
    pub name: PatchName,
    pub ctl_status: Option<OnOff>,
    pub ctl_function: Option<CtlFunction>,
    pub ctl_hold_type: Option<HoldType>,
    pub ctl_switch_mode: Option<SwitchMode>,
    pub ctl_hold_pcm_1: Option<OnOff>,
    pub ctl_hold_pcm_2: Option<OnOff>,
    pub ctl_tone_sw_off_pcm_1: Option<OnOff>,
    pub ctl_tone_sw_off_pcm_2: Option<OnOff>,
    pub ctl_tone_sw_off_modeling: Option<OnOff>,
    pub ctl_tone_sw_off_normal_pu: Option<OnOff>,
    pub ctl_tone_sw_on_pcm_1: Option<OnOff>,
    pub ctl_tone_sw_on_pcm_2: Option<OnOff>,
    pub ctl_tone_sw_on_modeling: Option<OnOff>,
    pub ctl_tone_sw_on_normal_pu: Option<OnOff>,
    pub exp_function: Option<ExpFunction>,
    pub exp_tone_vol_pcm_1: Option<OnOff>,
    pub exp_tone_vol_pcm_2: Option<OnOff>,
    pub exp_tone_vol_modeling: Option<OnOff>,
    pub exp_tone_vol_normal_pu: Option<OnOff>,
    pub exp_pitch_bend_depth: Option<PitchBendDepth>,
    pub exp_pitch_bend_pcm_1: Option<OnOff>,
    pub exp_pitch_bend_pcm_2: Option<OnOff>,
    pub exp_pitch_bend_modeling: Option<OnOff>,
    pub exp_mod_min: Option<u8>,
    pub exp_mod_max: Option<u8>,
    pub exp_mod_pcm_1: Option<OnOff>,
    pub exp_mod_pcm_2: Option<OnOff>,
    pub exp_cross_fader_pcm_1: Option<CrossFaderMode>,
    pub exp_cross_fader_pcm_2: Option<CrossFaderMode>,
    pub exp_cross_fader_modeling: Option<CrossFaderMode>,
    pub exp_cross_fader_normal_pu: Option<CrossFaderMode>,
    pub exp_delay_min: Option<u8>,
    pub exp_delay_max: Option<u8>,
    pub exp_reverb_min: Option<u8>,
    pub exp_reverb_max: Option<u8>,
    pub exp_chorus_min: Option<u8>,
    pub exp_chorus_max: Option<u8>,
    pub exp_on_function: Option<ExpFunction>,
    pub exp_on_tone_vol_pcm_1: Option<OnOff>,
    pub exp_on_tone_vol_pcm_2: Option<OnOff>,
    pub exp_on_tone_vol_modeling: Option<OnOff>,
    pub exp_on_tone_vol_normal_pu: Option<OnOff>,
    pub exp_on_pitch_bend_depth: Option<PitchBendDepth>,
    pub exp_on_pitch_bend_pcm_1: Option<OnOff>,
    pub exp_on_pitch_bend_pcm_2: Option<OnOff>,
    pub exp_on_pitch_bend_modeling: Option<OnOff>,
    pub exp_on_mod_min: Option<u8>,
    pub exp_on_mod_max: Option<u8>,
    pub exp_on_mod_pcm_1: Option<OnOff>,
    pub exp_on_mod_pcm_2: Option<OnOff>,
    pub exp_on_cross_fader_pcm_1: Option<CrossFaderMode>,
    pub exp_on_cross_fader_pcm_2: Option<CrossFaderMode>,
    pub exp_on_cross_fader_modeling: Option<CrossFaderMode>,
    pub exp_on_cross_fader_normal_pu: Option<CrossFaderMode>,
    pub exp_on_delay_min: Option<u8>,
    pub exp_on_delay_max: Option<u8>,
    pub exp_on_reverb_min: Option<u8>,
    pub exp_on_reverb_max: Option<u8>,
    pub exp_on_chorus_min: Option<u8>,
    pub exp_on_chorus_max: Option<u8>,
    pub exp_sw_status: Option<OnOff>,
    pub exp_sw_function: Option<ExpSwFunction>,
    pub exp_sw_tone_sw_off_pcm_1: Option<OnOff>,
    pub exp_sw_tone_sw_off_pcm_2: Option<OnOff>,
    pub exp_sw_tone_sw_off_modeling: Option<OnOff>,
    pub exp_sw_tone_sw_off_normal_pu: Option<OnOff>,
    pub exp_sw_tone_sw_on_pcm_1: Option<OnOff>,
    pub exp_sw_tone_sw_on_pcm_2: Option<OnOff>,
    pub exp_sw_tone_sw_on_modeling: Option<OnOff>,
    pub exp_sw_tone_sw_on_normal_pu: Option<OnOff>,
    pub gk_vol_function: Option<ExpFunction>,
    pub gk_vol_tone_vol_pcm_1: Option<OnOff>,
    pub gk_vol_tone_vol_pcm_2: Option<OnOff>,
    pub gk_vol_tone_vol_modeling: Option<OnOff>,
    pub gk_vol_tone_vol_normal_pu: Option<OnOff>,
    pub gk_vol_pitch_bend_depth: Option<PitchBendDepth>,
    pub gk_vol_pitch_bend_pcm_1: Option<OnOff>,
    pub gk_vol_pitch_bend_pcm_2: Option<OnOff>,
    pub gk_vol_pitch_bend_modeling: Option<OnOff>,
    pub gk_vol_mod_min: Option<u8>,
    pub gk_vol_mod_max: Option<u8>,
    pub gk_vol_mod_pcm_1: Option<OnOff>,
    pub gk_vol_mod_pcm_2: Option<OnOff>,
    pub gk_vol_cross_fader_pcm_1: Option<CrossFaderMode>,
    pub gk_vol_cross_fader_pcm_2: Option<CrossFaderMode>,
    pub gk_vol_cross_fader_modeling: Option<CrossFaderMode>,
    pub gk_vol_cross_fader_normal_pu: Option<CrossFaderMode>,
    pub gk_vol_delay_min: Option<u8>,
    pub gk_vol_delay_max: Option<u8>,
    pub gk_vol_reverb_min: Option<u8>,
    pub gk_vol_reverb_max: Option<u8>,
    pub gk_vol_chorus_min: Option<u8>,
    pub gk_vol_chorus_max: Option<u8>,
    pub gk_s1_function: Option<ExpSwFunction>,
    pub gk_s1_tone_sw_off_pcm_1: Option<OnOff>,
    pub gk_s1_tone_sw_off_pcm_2: Option<OnOff>,
    pub gk_s1_tone_sw_off_modeling: Option<OnOff>,
    pub gk_s1_tone_sw_off_normal_pu: Option<OnOff>,
    pub gk_s1_tone_sw_on_pcm_1: Option<OnOff>,
    pub gk_s1_tone_sw_on_pcm_2: Option<OnOff>,
    pub gk_s1_tone_sw_on_modeling: Option<OnOff>,
    pub gk_s1_tone_sw_on_normal_pu: Option<OnOff>,
    pub gk_s2_function: Option<ExpSwFunction>,
    pub gk_s2_tone_sw_off_pcm_1: Option<OnOff>,
    pub gk_s2_tone_sw_off_pcm_2: Option<OnOff>,
    pub gk_s2_tone_sw_off_modeling: Option<OnOff>,
    pub gk_s2_tone_sw_off_normal_pu: Option<OnOff>,
    pub gk_s2_tone_sw_on_pcm_1: Option<OnOff>,
    pub gk_s2_tone_sw_on_pcm_2: Option<OnOff>,
    pub gk_s2_tone_sw_on_modeling: Option<OnOff>,
    pub gk_s2_tone_sw_on_normal_pu: Option<OnOff>,
    pub master_assigns: [Option<Assign>; 8],
    pub gk_set: Option<PatchGkSet>,
    pub guitar_out: Option<GuitarOut>,
    pub v_link_pallet: Option<u8>,
    pub v_link_clip: Option<u8>,
    pub v_link_note_clip_change: Option<u8>,
    pub v_link_exp: Option<VLinkControl>,
    pub v_link_exp_on: Option<VLinkControl>,
    pub v_link_gk_vol: Option<VLinkControl>,
    pub structure: Option<PatchStructure>,
    pub modeling_line_route: Option<LineRoute>,
    pub analog_pu_line_route: Option<LineRoute>,
    pub patch_level: Option<PatchLevel>,
    pub analog_pu_tone_sw: Option<AnalogPuToneSw>,
    pub analog_pu_tone_level: Option<u8>,
    pub alt_tuning_sw: Option<OnOff>,
    pub alt_tuning_type: Option<AltTuningType>,
    pub alt_tuning_user_shift: [Option<u8>; 6],
    pub patch_tempo: Option<PatchTempo>,
    pub bypass_chorus: Option<u8>,
    pub bypass_delay: Option<u8>,
    pub bypass_reverb: Option<u8>,
    pub exp_mod_min_envelope: Option<u8>,
    pub exp_mod_max_envelope: Option<u8>,
    pub exp_on_mod_min_envelope: Option<u8>,
    pub exp_on_mod_max_envelope: Option<u8>,
    pub gk_vol_mod_min_envelope: Option<u8>,
    pub gk_vol_mod_max_envelope: Option<u8>,
    pub mfx: Option<Mfx>,
    pub chorus_switch: Option<OnOff>,
    pub chorus_type: Option<ChorusType>,
    pub chorus_rate: Option<u8>,
    pub chorus_depth: Option<u8>,
    pub chorus_level: Option<u8>,
    pub delay_switch: Option<OnOff>,
    pub delay_type: Option<DelayType>,
    pub delay_time: Option<u8>,
    pub delay_time_b: Option<u8>,
    pub delay_time_c: Option<u8>,
    pub delay_feedback: Option<u8>,
    pub delay_level: Option<u8>,
    pub reverb_switch: Option<OnOff>,
    pub reverb_type: Option<ReverbType>,
    pub reverb_time: Option<u8>,
    pub reverb_high_cut: Option<ReverbHighCut>,
    pub reverb_level: Option<u8>,
    pub patch_eq_switch: Option<OnOff>,
    pub patch_eq_lo_cut: Option<PatchEqLoCut>,
    pub patch_eq_low_gain: Option<u8>,
    pub patch_eq_lo_mid_freq: Option<PatchEqMidFreq>,
    pub patch_eq_lo_mid_q: Option<PatchEqMidQ>,
    pub patch_eq_low_mid_gain: Option<u8>,
    pub patch_eq_hi_mid_freq: Option<PatchEqMidFreq>,
    pub patch_eq_hi_mid_q: Option<PatchEqMidQ>,
    pub patch_eq_hi_mid_gain: Option<u8>,
    pub patch_eq_high_cut: Option<PatchEqHighCut>,
    pub patch_eq_high_gain: Option<u8>,
    pub patch_eq_level: Option<u8>,
    pub patch_eq_character: Option<PatchEqCharacter>,
    pub preamp_switch: Option<OnOff>,
    pub preamp_type: Option<PreampType>,
    pub preamp_gain: Option<u8>,
    pub preamp_level: Option<u8>,
    pub preamp_gain_sw: Option<PreampGainSw>,
    pub preamp_solo_sw: Option<OnOff>,
    pub preamp_solo_level: Option<u8>,
    pub preamp_bass: Option<u8>,
    pub preamp_middle: Option<u8>,
    pub preamp_treble: Option<u8>,
    pub preamp_presence: Option<u8>,
    pub preamp_bright_sw: Option<OnOff>,
    pub speaker_type: Option<SpeakerType>,
    pub mic_type: Option<MicType>,
    pub mic_distance: Option<MicDistance>,
    pub mic_position: Option<u8>,
    pub mic_level: Option<u8>,
    pub modulation: Option<Mod>,
    pub ns_switch: Option<OnOff>,
    pub ns_threshold: Option<u8>,
    pub ns_release: Option<u8>,
    pub modeling: Option<Modeling>,
    pub pcm: [Option<Pcm>; 2],
    /// Every byte not held by a typed field, keyed by its page, hi and lo
    /// bytes read big-endian (see [`crate::system::key_of`]).
    pub unknown_bytes: ByteMap,
}

impl PatchArea {
    /// Typed wire bytes of page `0x00` offsets `0x00..=0x1F`.
    pub open spec fn p0a_at(self, l: u8) -> Option<u8> {
        if 1 <= l <= 16 {
            if self.name.0@[l - 1] == 0x20 {
                None
            } else {
                Some(self.name.0@[l - 1])
            }
        } else if l == 0x00 {
            opt_byte_patch_mode(self.mode)
        } else if l == 0x11 {
            opt_byte_on_off(self.ctl_status)
        } else if l == 0x12 {
            opt_byte_ctl_function(self.ctl_function)
        } else if l == 0x13 {
            opt_byte_hold_type(self.ctl_hold_type)
        } else if l == 0x14 {
            opt_byte_switch_mode(self.ctl_switch_mode)
        } else if l == 0x15 {
            opt_byte_on_off(self.ctl_hold_pcm_1)
        } else if l == 0x16 {
            opt_byte_on_off(self.ctl_hold_pcm_2)
        } else if l == 0x17 {
            opt_byte_on_off(self.ctl_tone_sw_off_pcm_1)
        } else if l == 0x18 {
            opt_byte_on_off(self.ctl_tone_sw_off_pcm_2)
        } else if l == 0x19 {
            opt_byte_on_off(self.ctl_tone_sw_off_modeling)
        } else if l == 0x1A {
            opt_byte_on_off(self.ctl_tone_sw_off_normal_pu)
        } else if l == 0x1B {
            opt_byte_on_off(self.ctl_tone_sw_on_pcm_1)
        } else if l == 0x1C {
            opt_byte_on_off(self.ctl_tone_sw_on_pcm_2)
        } else if l == 0x1D {
            opt_byte_on_off(self.ctl_tone_sw_on_modeling)
        } else if l == 0x1E {
            opt_byte_on_off(self.ctl_tone_sw_on_normal_pu)
        } else if l == 0x1F {
            opt_byte_exp_function(self.exp_function)
        } else {
            None
        }
    }

    /// How page `0x00` offsets `0x00..=0x1F` take a byte: 1 = the
    /// decoded value replaces the field, 2 = kept only if in range, 3 = a
    /// name byte, 0 = not a typed field.
    pub open spec fn p0a_class(l: u8) -> u8 {
        if 1 <= l <= 16 {
            3
        } else if l == 0x00
            || l == 0x11
            || l == 0x12
            || l == 0x13
            || l == 0x14
            || l == 0x15
            || l == 0x16
            || l == 0x17
            || l == 0x18
            || l == 0x19
            || l == 0x1A
            || l == 0x1B
            || l == 0x1C
            || l == 0x1D
            || l == 0x1E
            || l == 0x1F {
            1
        } else {
            0
        }
    }

    /// Typed bytes of page `0x00` offsets `0x00..=0x1F` pass their own
    /// range check and are never a pad space in the name.
    pub proof fn lemma_p0a_valid(self, l: u8)
        requires
            self.depths_valid(),
        ensures
            self.p0a_at(l) matches Some(x) ==> (Self::p0a_class(l) == 1 ==> Self::p0a_accepts(l, x)) && (Self::p0a_class(l) == 3 ==> x != 0x20),
    {
        if l == 0x00 {
            lemma_opt_byte_patch_mode_valid(self.mode);
        }
        if l == 0x11 {
            lemma_opt_byte_on_off_valid(self.ctl_status);
        }
        if l == 0x12 {
            lemma_opt_byte_ctl_function_valid(self.ctl_function);
        }
        if l == 0x13 {
            lemma_opt_byte_hold_type_valid(self.ctl_hold_type);
        }
        if l == 0x14 {
            lemma_opt_byte_switch_mode_valid(self.ctl_switch_mode);
        }
        if l == 0x15 {
            lemma_opt_byte_on_off_valid(self.ctl_hold_pcm_1);
        }
        if l == 0x16 {
            lemma_opt_byte_on_off_valid(self.ctl_hold_pcm_2);
        }
        if l == 0x17 {
            lemma_opt_byte_on_off_valid(self.ctl_tone_sw_off_pcm_1);
        }
        if l == 0x18 {
            lemma_opt_byte_on_off_valid(self.ctl_tone_sw_off_pcm_2);
        }
        if l == 0x19 {
            lemma_opt_byte_on_off_valid(self.ctl_tone_sw_off_modeling);
        }
        if l == 0x1A {
            lemma_opt_byte_on_off_valid(self.ctl_tone_sw_off_normal_pu);
        }
        if l == 0x1B {
            lemma_opt_byte_on_off_valid(self.ctl_tone_sw_on_pcm_1);
        }
        if l == 0x1C {
            lemma_opt_byte_on_off_valid(self.ctl_tone_sw_on_pcm_2);
        }
        if l == 0x1D {
            lemma_opt_byte_on_off_valid(self.ctl_tone_sw_on_modeling);
        }
        if l == 0x1E {
            lemma_opt_byte_on_off_valid(self.ctl_tone_sw_on_normal_pu);
        }
        if l == 0x1F {
            lemma_opt_byte_exp_function_valid(self.exp_function);
        }
    }

    /// The range check of page `0x00` offsets `0x00..=0x1F`.
    pub open spec fn p0a_accepts(l: u8, b: u8) -> bool {
        if 1 <= l <= 16 {
            true
        } else if l == 0x00 {
            b < 2
        } else if l == 0x11 {
            b < 2
        } else if l == 0x12 {
            b < 17
        } else if l == 0x13 {
            b < 4
        } else if l == 0x14 {
            b < 2
        } else if l == 0x15 {
            b < 2
        } else if l == 0x16 {
            b < 2
        } else if l == 0x17 {
            b < 2
        } else if l == 0x18 {
            b < 2
        } else if l == 0x19 {
            b < 2
        } else if l == 0x1A {
            b < 2
        } else if l == 0x1B {
            b < 2
        } else if l == 0x1C {
            b < 2
        } else if l == 0x1D {
            b < 2
        } else if l == 0x1E {
            b < 2
        } else if l == 0x1F {
            b < 10
        } else {
            false
        }
    }

    /// Typed wire bytes of page `0x00` offsets `0x20..=0x3F`.
    pub open spec fn p0b_at(self, l: u8) -> Option<u8> {
        if l == 0x20 {
            opt_byte_on_off(self.exp_tone_vol_pcm_1)
        } else if l == 0x21 {
            opt_byte_on_off(self.exp_tone_vol_pcm_2)
        } else if l == 0x22 {
            opt_byte_on_off(self.exp_tone_vol_modeling)
        } else if l == 0x23 {
            opt_byte_on_off(self.exp_tone_vol_normal_pu)
        } else if l == 0x24 {
            opt_byte_pitch_bend_depth(self.exp_pitch_bend_depth)
        } else if l == 0x25 {
            opt_byte_on_off(self.exp_pitch_bend_pcm_1)
        } else if l == 0x26 {
            opt_byte_on_off(self.exp_pitch_bend_pcm_2)
        } else if l == 0x27 {
            opt_byte_on_off(self.exp_pitch_bend_modeling)
        } else if l == 0x28 {
            self.exp_mod_min
        } else if l == 0x29 {
            self.exp_mod_max
        } else if l == 0x2A {
            opt_byte_on_off(self.exp_mod_pcm_1)
        } else if l == 0x2B {
            opt_byte_on_off(self.exp_mod_pcm_2)
        } else if l == 0x2C {
            opt_byte_cross_fader_mode(self.exp_cross_fader_pcm_1)
        } else if l == 0x2D {
            opt_byte_cross_fader_mode(self.exp_cross_fader_pcm_2)
        } else if l == 0x2E {
            opt_byte_cross_fader_mode(self.exp_cross_fader_modeling)
        } else if l == 0x2F {
            opt_byte_cross_fader_mode(self.exp_cross_fader_normal_pu)
        } else if l == 0x30 {
            self.exp_delay_min
        } else if l == 0x31 {
            self.exp_delay_max
        } else if l == 0x32 {
            self.exp_reverb_min
        } else if l == 0x33 {
            self.exp_reverb_max
        } else if l == 0x34 {
            self.exp_chorus_min
        } else if l == 0x35 {
            self.exp_chorus_max
        } else if l == 0x36 {
            opt_byte_exp_function(self.exp_on_function)
        } else if l == 0x37 {
            opt_byte_on_off(self.exp_on_tone_vol_pcm_1)
        } else if l == 0x38 {
            opt_byte_on_off(self.exp_on_tone_vol_pcm_2)
        } else if l == 0x39 {
            opt_byte_on_off(self.exp_on_tone_vol_modeling)
        } else if l == 0x3A {
            opt_byte_on_off(self.exp_on_tone_vol_normal_pu)
        } else if l == 0x3B {
            opt_byte_pitch_bend_depth(self.exp_on_pitch_bend_depth)
        } else if l == 0x3C {
            opt_byte_on_off(self.exp_on_pitch_bend_pcm_1)
        } else if l == 0x3D {
            opt_byte_on_off(self.exp_on_pitch_bend_pcm_2)
        } else if l == 0x3E {
            opt_byte_on_off(self.exp_on_pitch_bend_modeling)
        } else if l == 0x3F {
            self.exp_on_mod_min
        } else {
            None
        }
    }

    /// How page `0x00` offsets `0x20..=0x3F` take a byte: 1 = the
    /// decoded value replaces the field, 2 = kept only if in range, 3 = a
    /// name byte, 0 = not a typed field.
    pub open spec fn p0b_class(l: u8) -> u8 {
        if l == 0x20
            || l == 0x21
            || l == 0x22
            || l == 0x23
            || l == 0x24
            || l == 0x25
            || l == 0x26
            || l == 0x27
            || l == 0x2A
            || l == 0x2B
            || l == 0x2C
            || l == 0x2D
            || l == 0x2E
            || l == 0x2F
            || l == 0x36
            || l == 0x37
            || l == 0x38
            || l == 0x39
            || l == 0x3A
            || l == 0x3B
            || l == 0x3C
            || l == 0x3D
            || l == 0x3E {
            1
        } else if l == 0x28
            || l == 0x29
            || l == 0x30
            || l == 0x31
            || l == 0x32
            || l == 0x33
            || l == 0x34
            || l == 0x35
            || l == 0x3F {
            2
        } else {
            0
        }
    }

    /// Typed bytes of page `0x00` offsets `0x20..=0x3F` pass their own
    /// range check and are never a pad space in the name.
    pub proof fn lemma_p0b_valid(self, l: u8)
        requires
            self.depths_valid(),
        ensures
            self.p0b_at(l) matches Some(x) ==> (Self::p0b_class(l) == 1 ==> Self::p0b_accepts(l, x)) && (Self::p0b_class(l) == 3 ==> x != 0x20),
    {
        if l == 0x20 {
            lemma_opt_byte_on_off_valid(self.exp_tone_vol_pcm_1);
        }
        if l == 0x21 {
            lemma_opt_byte_on_off_valid(self.exp_tone_vol_pcm_2);
        }
        if l == 0x22 {
            lemma_opt_byte_on_off_valid(self.exp_tone_vol_modeling);
        }
        if l == 0x23 {
            lemma_opt_byte_on_off_valid(self.exp_tone_vol_normal_pu);
        }
        if l == 0x24 {
            lemma_opt_byte_pitch_bend_depth_valid(self.exp_pitch_bend_depth);
        }
        if l == 0x25 {
            lemma_opt_byte_on_off_valid(self.exp_pitch_bend_pcm_1);
        }
        if l == 0x26 {
            lemma_opt_byte_on_off_valid(self.exp_pitch_bend_pcm_2);
        }
        if l == 0x27 {
            lemma_opt_byte_on_off_valid(self.exp_pitch_bend_modeling);
        }
        if l == 0x2A {
            lemma_opt_byte_on_off_valid(self.exp_mod_pcm_1);
        }
        if l == 0x2B {
            lemma_opt_byte_on_off_valid(self.exp_mod_pcm_2);
        }
        if l == 0x2C {
            lemma_opt_byte_cross_fader_mode_valid(self.exp_cross_fader_pcm_1);
        }
        if l == 0x2D {
            lemma_opt_byte_cross_fader_mode_valid(self.exp_cross_fader_pcm_2);
        }
        if l == 0x2E {
            lemma_opt_byte_cross_fader_mode_valid(self.exp_cross_fader_modeling);
        }
        if l == 0x2F {
            lemma_opt_byte_cross_fader_mode_valid(self.exp_cross_fader_normal_pu);
        }
        if l == 0x36 {
            lemma_opt_byte_exp_function_valid(self.exp_on_function);
        }
        if l == 0x37 {
            lemma_opt_byte_on_off_valid(self.exp_on_tone_vol_pcm_1);
        }
        if l == 0x38 {
            lemma_opt_byte_on_off_valid(self.exp_on_tone_vol_pcm_2);
        }
        if l == 0x39 {
            lemma_opt_byte_on_off_valid(self.exp_on_tone_vol_modeling);
        }
        if l == 0x3A {
            lemma_opt_byte_on_off_valid(self.exp_on_tone_vol_normal_pu);
        }
        if l == 0x3B {
            lemma_opt_byte_pitch_bend_depth_valid(self.exp_on_pitch_bend_depth);
        }
        if l == 0x3C {
            lemma_opt_byte_on_off_valid(self.exp_on_pitch_bend_pcm_1);
        }
        if l == 0x3D {
            lemma_opt_byte_on_off_valid(self.exp_on_pitch_bend_pcm_2);
        }
        if l == 0x3E {
            lemma_opt_byte_on_off_valid(self.exp_on_pitch_bend_modeling);
        }
    }

    /// The range check of page `0x00` offsets `0x20..=0x3F`.
    pub open spec fn p0b_accepts(l: u8, b: u8) -> bool {
        if l == 0x20 {
            b < 2
        } else if l == 0x21 {
            b < 2
        } else if l == 0x22 {
            b < 2
        } else if l == 0x23 {
            b < 2
        } else if l == 0x24 {
            b < 25
        } else if l == 0x25 {
            b < 2
        } else if l == 0x26 {
            b < 2
        } else if l == 0x27 {
            b < 2
        } else if l == 0x28 {
            b <= 127
        } else if l == 0x29 {
            b <= 127
        } else if l == 0x2A {
            b < 2
        } else if l == 0x2B {
            b < 2
        } else if l == 0x2C {
            b < 3
        } else if l == 0x2D {
            b < 3
        } else if l == 0x2E {
            b < 3
        } else if l == 0x2F {
            b < 3
        } else if l == 0x30 {
            b <= 120
        } else if l == 0x31 {
            b <= 120
        } else if l == 0x32 {
            b <= 100
        } else if l == 0x33 {
            b <= 100
        } else if l == 0x34 {
            b <= 100
        } else if l == 0x35 {
            b <= 100
        } else if l == 0x36 {
            b < 10
        } else if l == 0x37 {
            b < 2
        } else if l == 0x38 {
            b < 2
        } else if l == 0x39 {
            b < 2
        } else if l == 0x3A {
            b < 2
        } else if l == 0x3B {
            b < 25
        } else if l == 0x3C {
            b < 2
        } else if l == 0x3D {
            b < 2
        } else if l == 0x3E {
            b < 2
        } else if l == 0x3F {
            b <= 127
        } else {
            false
        }
    }

    /// Typed wire bytes of page `0x00` offsets `0x40..=0x5F`.
    pub open spec fn p0c_at(self, l: u8) -> Option<u8> {
        if l == 0x40 {
            self.exp_on_mod_max
        } else if l == 0x41 {
            opt_byte_on_off(self.exp_on_mod_pcm_1)
        } else if l == 0x42 {
            opt_byte_on_off(self.exp_on_mod_pcm_2)
        } else if l == 0x43 {
            opt_byte_cross_fader_mode(self.exp_on_cross_fader_pcm_1)
        } else if l == 0x44 {
            opt_byte_cross_fader_mode(self.exp_on_cross_fader_pcm_2)
        } else if l == 0x45 {
            opt_byte_cross_fader_mode(self.exp_on_cross_fader_modeling)
        } else if l == 0x46 {
            opt_byte_cross_fader_mode(self.exp_on_cross_fader_normal_pu)
        } else if l == 0x47 {
            self.exp_on_delay_min
        } else if l == 0x48 {
            self.exp_on_delay_max
        } else if l == 0x49 {
            self.exp_on_reverb_min
        } else if l == 0x4A {
            self.exp_on_reverb_max
        } else if l == 0x4B {
            self.exp_on_chorus_min
        } else if l == 0x4C {
            self.exp_on_chorus_max
        } else if l == 0x4D {
            opt_byte_on_off(self.exp_sw_status)
        } else if l == 0x4E {
            opt_byte_exp_sw_function(self.exp_sw_function)
        } else if l == 0x53 {
            opt_byte_on_off(self.exp_sw_tone_sw_off_pcm_1)
        } else if l == 0x54 {
            opt_byte_on_off(self.exp_sw_tone_sw_off_pcm_2)
        } else if l == 0x55 {
            opt_byte_on_off(self.exp_sw_tone_sw_off_modeling)
        } else if l == 0x56 {
            opt_byte_on_off(self.exp_sw_tone_sw_off_normal_pu)
        } else if l == 0x57 {
            opt_byte_on_off(self.exp_sw_tone_sw_on_pcm_1)
        } else if l == 0x58 {
            opt_byte_on_off(self.exp_sw_tone_sw_on_pcm_2)
        } else if l == 0x59 {
            opt_byte_on_off(self.exp_sw_tone_sw_on_modeling)
        } else if l == 0x5A {
            opt_byte_on_off(self.exp_sw_tone_sw_on_normal_pu)
        } else if l == 0x5B {
            opt_byte_exp_function(self.gk_vol_function)
        } else if l == 0x5C {
            opt_byte_on_off(self.gk_vol_tone_vol_pcm_1)
        } else if l == 0x5D {
            opt_byte_on_off(self.gk_vol_tone_vol_pcm_2)
        } else if l == 0x5E {
            opt_byte_on_off(self.gk_vol_tone_vol_modeling)
        } else if l == 0x5F {
            opt_byte_on_off(self.gk_vol_tone_vol_normal_pu)
        } else {
            None
        }
    }

    /// How page `0x00` offsets `0x40..=0x5F` take a byte: 1 = the
    /// decoded value replaces the field, 2 = kept only if in range, 3 = a
    /// name byte, 0 = not a typed field.
    pub open spec fn p0c_class(l: u8) -> u8 {
        if l == 0x41
            || l == 0x42
            || l == 0x43
            || l == 0x44
            || l == 0x45
            || l == 0x46
            || l == 0x4D
            || l == 0x4E
            || l == 0x53
            || l == 0x54
            || l == 0x55
            || l == 0x56
            || l == 0x57
            || l == 0x58
            || l == 0x59
            || l == 0x5A
            || l == 0x5B
            || l == 0x5C
            || l == 0x5D
            || l == 0x5E
            || l == 0x5F {
            1
        } else if l == 0x40
            || l == 0x47
            || l == 0x48
            || l == 0x49
            || l == 0x4A
            || l == 0x4B
            || l == 0x4C {
            2
        } else {
            0
        }
    }

    /// Typed bytes of page `0x00` offsets `0x40..=0x5F` pass their own
    /// range check and are never a pad space in the name.
    pub proof fn lemma_p0c_valid(self, l: u8)
        requires
            self.depths_valid(),
        ensures
            self.p0c_at(l) matches Some(x) ==> (Self::p0c_class(l) == 1 ==> Self::p0c_accepts(l, x)) && (Self::p0c_class(l) == 3 ==> x != 0x20),
    {
        if l == 0x41 {
            lemma_opt_byte_on_off_valid(self.exp_on_mod_pcm_1);
        }
        if l == 0x42 {
            lemma_opt_byte_on_off_valid(self.exp_on_mod_pcm_2);
        }
        if l == 0x43 {
            lemma_opt_byte_cross_fader_mode_valid(self.exp_on_cross_fader_pcm_1);
        }
        if l == 0x44 {
            lemma_opt_byte_cross_fader_mode_valid(self.exp_on_cross_fader_pcm_2);
        }
        if l == 0x45 {
            lemma_opt_byte_cross_fader_mode_valid(self.exp_on_cross_fader_modeling);
        }
        if l == 0x46 {
            lemma_opt_byte_cross_fader_mode_valid(self.exp_on_cross_fader_normal_pu);
        }
        if l == 0x4D {
            lemma_opt_byte_on_off_valid(self.exp_sw_status);
        }
        if l == 0x4E {
            lemma_opt_byte_exp_sw_function_valid(self.exp_sw_function);
        }
        if l == 0x53 {
            lemma_opt_byte_on_off_valid(self.exp_sw_tone_sw_off_pcm_1);
        }
        if l == 0x54 {
            lemma_opt_byte_on_off_valid(self.exp_sw_tone_sw_off_pcm_2);
        }
        if l == 0x55 {
            lemma_opt_byte_on_off_valid(self.exp_sw_tone_sw_off_modeling);
        }
        if l == 0x56 {
            lemma_opt_byte_on_off_valid(self.exp_sw_tone_sw_off_normal_pu);
        }
        if l == 0x57 {
            lemma_opt_byte_on_off_valid(self.exp_sw_tone_sw_on_pcm_1);
        }
        if l == 0x58 {
            lemma_opt_byte_on_off_valid(self.exp_sw_tone_sw_on_pcm_2);
        }
        if l == 0x59 {
            lemma_opt_byte_on_off_valid(self.exp_sw_tone_sw_on_modeling);
        }
        if l == 0x5A {
            lemma_opt_byte_on_off_valid(self.exp_sw_tone_sw_on_normal_pu);
        }
        if l == 0x5B {
            lemma_opt_byte_exp_function_valid(self.gk_vol_function);
        }
        if l == 0x5C {
            lemma_opt_byte_on_off_valid(self.gk_vol_tone_vol_pcm_1);
        }
        if l == 0x5D {
            lemma_opt_byte_on_off_valid(self.gk_vol_tone_vol_pcm_2);
        }
        if l == 0x5E {
            lemma_opt_byte_on_off_valid(self.gk_vol_tone_vol_modeling);
        }
        if l == 0x5F {
            lemma_opt_byte_on_off_valid(self.gk_vol_tone_vol_normal_pu);
        }
    }

    /// The range check of page `0x00` offsets `0x40..=0x5F`.
    pub open spec fn p0c_accepts(l: u8, b: u8) -> bool {
        if l == 0x40 {
            b <= 127
        } else if l == 0x41 {
            b < 2
        } else if l == 0x42 {
            b < 2
        } else if l == 0x43 {
            b < 3
        } else if l == 0x44 {
            b < 3
        } else if l == 0x45 {
            b < 3
        } else if l == 0x46 {
            b < 3
        } else if l == 0x47 {
            b <= 120
        } else if l == 0x48 {
            b <= 120
        } else if l == 0x49 {
            b <= 100
        } else if l == 0x4A {
            b <= 100
        } else if l == 0x4B {
            b <= 100
        } else if l == 0x4C {
            b <= 100
        } else if l == 0x4D {
            b < 2
        } else if l == 0x4E {
            b < 14
        } else if l == 0x53 {
            b < 2
        } else if l == 0x54 {
            b < 2
        } else if l == 0x55 {
            b < 2
        } else if l == 0x56 {
            b < 2
        } else if l == 0x57 {
            b < 2
        } else if l == 0x58 {
            b < 2
        } else if l == 0x59 {
            b < 2
        } else if l == 0x5A {
            b < 2
        } else if l == 0x5B {
            b < 10
        } else if l == 0x5C {
            b < 2
        } else if l == 0x5D {
            b < 2
        } else if l == 0x5E {
            b < 2
        } else if l == 0x5F {
            b < 2
        } else {
            false
        }
    }

    /// Typed wire bytes of page `0x00` offsets `0x60..=0xFF`.
    pub open spec fn p0d_at(self, l: u8) -> Option<u8> {
        if l == 0x60 {
            opt_byte_pitch_bend_depth(self.gk_vol_pitch_bend_depth)
        } else if l == 0x61 {
            opt_byte_on_off(self.gk_vol_pitch_bend_pcm_1)
        } else if l == 0x62 {
            opt_byte_on_off(self.gk_vol_pitch_bend_pcm_2)
        } else if l == 0x63 {
            opt_byte_on_off(self.gk_vol_pitch_bend_modeling)
        } else if l == 0x64 {
            self.gk_vol_mod_min
        } else if l == 0x65 {
            self.gk_vol_mod_max
        } else if l == 0x66 {
            opt_byte_on_off(self.gk_vol_mod_pcm_1)
        } else if l == 0x67 {
            opt_byte_on_off(self.gk_vol_mod_pcm_2)
        } else if l == 0x68 {
            opt_byte_cross_fader_mode(self.gk_vol_cross_fader_pcm_1)
        } else if l == 0x69 {
            opt_byte_cross_fader_mode(self.gk_vol_cross_fader_pcm_2)
        } else if l == 0x6A {
            opt_byte_cross_fader_mode(self.gk_vol_cross_fader_modeling)
        } else if l == 0x6B {
            opt_byte_cross_fader_mode(self.gk_vol_cross_fader_normal_pu)
        } else if l == 0x6C {
            self.gk_vol_delay_min
        } else if l == 0x6D {
            self.gk_vol_delay_max
        } else if l == 0x6E {
            self.gk_vol_reverb_min
        } else if l == 0x6F {
            self.gk_vol_reverb_max
        } else if l == 0x70 {
            self.gk_vol_chorus_min
        } else if l == 0x71 {
            self.gk_vol_chorus_max
        } else if l == 0x72 {
            opt_byte_exp_sw_function(self.gk_s1_function)
        } else if l == 0x77 {
            opt_byte_on_off(self.gk_s1_tone_sw_off_pcm_1)
        } else if l == 0x78 {
            opt_byte_on_off(self.gk_s1_tone_sw_off_pcm_2)
        } else if l == 0x79 {
            opt_byte_on_off(self.gk_s1_tone_sw_off_modeling)
        } else if l == 0x7A {
            opt_byte_on_off(self.gk_s1_tone_sw_off_normal_pu)
        } else if l == 0x7B {
            opt_byte_on_off(self.gk_s1_tone_sw_on_pcm_1)
        } else if l == 0x7C {
            opt_byte_on_off(self.gk_s1_tone_sw_on_pcm_2)
        } else if l == 0x7D {
            opt_byte_on_off(self.gk_s1_tone_sw_on_modeling)
        } else if l == 0x7E {
            opt_byte_on_off(self.gk_s1_tone_sw_on_normal_pu)
        } else if l == 0x7F {
            opt_byte_exp_sw_function(self.gk_s2_function)
        } else {
            None
        }
    }

    /// How page `0x00` offsets `0x60..=0xFF` take a byte: 1 = the
    /// decoded value replaces the field, 2 = kept only if in range, 3 = a
    /// name byte, 0 = not a typed field.
    pub open spec fn p0d_class(l: u8) -> u8 {
        if l == 0x60
            || l == 0x61
            || l == 0x62
            || l == 0x63
            || l == 0x66
            || l == 0x67
            || l == 0x68
            || l == 0x69
            || l == 0x6A
            || l == 0x6B
            || l == 0x72
            || l == 0x77
            || l == 0x78
            || l == 0x79
            || l == 0x7A
            || l == 0x7B
            || l == 0x7C
            || l == 0x7D
            || l == 0x7E
            || l == 0x7F {
            1
        } else if l == 0x64
            || l == 0x65
            || l == 0x6C
            || l == 0x6D
            || l == 0x6E
            || l == 0x6F
            || l == 0x70
            || l == 0x71 {
            2
        } else {
            0
        }
    }

    /// Typed bytes of page `0x00` offsets `0x60..=0xFF` pass their own
    /// range check and are never a pad space in the name.
    pub proof fn lemma_p0d_valid(self, l: u8)
        requires
            self.depths_valid(),
        ensures
            self.p0d_at(l) matches Some(x) ==> (Self::p0d_class(l) == 1 ==> Self::p0d_accepts(l, x)) && (Self::p0d_class(l) == 3 ==> x != 0x20),
    {
        if l == 0x60 {
            lemma_opt_byte_pitch_bend_depth_valid(self.gk_vol_pitch_bend_depth);
        }
        if l == 0x61 {
            lemma_opt_byte_on_off_valid(self.gk_vol_pitch_bend_pcm_1);
        }
        if l == 0x62 {
            lemma_opt_byte_on_off_valid(self.gk_vol_pitch_bend_pcm_2);
        }
        if l == 0x63 {
            lemma_opt_byte_on_off_valid(self.gk_vol_pitch_bend_modeling);
        }
        if l == 0x66 {
            lemma_opt_byte_on_off_valid(self.gk_vol_mod_pcm_1);
        }
        if l == 0x67 {
            lemma_opt_byte_on_off_valid(self.gk_vol_mod_pcm_2);
        }
        if l == 0x68 {
            lemma_opt_byte_cross_fader_mode_valid(self.gk_vol_cross_fader_pcm_1);
        }
        if l == 0x69 {
            lemma_opt_byte_cross_fader_mode_valid(self.gk_vol_cross_fader_pcm_2);
        }
        if l == 0x6A {
            lemma_opt_byte_cross_fader_mode_valid(self.gk_vol_cross_fader_modeling);
        }
        if l == 0x6B {
            lemma_opt_byte_cross_fader_mode_valid(self.gk_vol_cross_fader_normal_pu);
        }
        if l == 0x72 {
            lemma_opt_byte_exp_sw_function_valid(self.gk_s1_function);
        }
        if l == 0x77 {
            lemma_opt_byte_on_off_valid(self.gk_s1_tone_sw_off_pcm_1);
        }
        if l == 0x78 {
            lemma_opt_byte_on_off_valid(self.gk_s1_tone_sw_off_pcm_2);
        }
        if l == 0x79 {
            lemma_opt_byte_on_off_valid(self.gk_s1_tone_sw_off_modeling);
        }
        if l == 0x7A {
            lemma_opt_byte_on_off_valid(self.gk_s1_tone_sw_off_normal_pu);
        }
        if l == 0x7B {
            lemma_opt_byte_on_off_valid(self.gk_s1_tone_sw_on_pcm_1);
        }
        if l == 0x7C {
            lemma_opt_byte_on_off_valid(self.gk_s1_tone_sw_on_pcm_2);
        }
        if l == 0x7D {
            lemma_opt_byte_on_off_valid(self.gk_s1_tone_sw_on_modeling);
        }
        if l == 0x7E {
            lemma_opt_byte_on_off_valid(self.gk_s1_tone_sw_on_normal_pu);
        }
        if l == 0x7F {
            lemma_opt_byte_exp_sw_function_valid(self.gk_s2_function);
        }
    }

    /// The range check of page `0x00` offsets `0x60..=0xFF`.
    pub open spec fn p0d_accepts(l: u8, b: u8) -> bool {
        if l == 0x60 {
            b < 25
        } else if l == 0x61 {
            b < 2
        } else if l == 0x62 {
            b < 2
        } else if l == 0x63 {
            b < 2
        } else if l == 0x64 {
            b <= 127
        } else if l == 0x65 {
            b <= 127
        } else if l == 0x66 {
            b < 2
        } else if l == 0x67 {
            b < 2
        } else if l == 0x68 {
            b < 3
        } else if l == 0x69 {
            b < 3
        } else if l == 0x6A {
            b < 3
        } else if l == 0x6B {
            b < 3
        } else if l == 0x6C {
            b <= 120
        } else if l == 0x6D {
            b <= 120
        } else if l == 0x6E {
            b <= 100
        } else if l == 0x6F {
            b <= 100
        } else if l == 0x70 {
            b <= 100
        } else if l == 0x71 {
            b <= 100
        } else if l == 0x72 {
            b < 14
        } else if l == 0x77 {
            b < 2
        } else if l == 0x78 {
            b < 2
        } else if l == 0x79 {
            b < 2
        } else if l == 0x7A {
            b < 2
        } else if l == 0x7B {
            b < 2
        } else if l == 0x7C {
            b < 2
        } else if l == 0x7D {
            b < 2
        } else if l == 0x7E {
            b < 2
        } else if l == 0x7F {
            b < 14
        } else {
            false
        }
    }

    /// Typed wire bytes of page `0x01` offsets `0x00..=0x0B`.
    pub open spec fn p1_at(self, l: u8) -> Option<u8> {
        if l == 0x04 {
            opt_byte_on_off(self.gk_s2_tone_sw_off_pcm_1)
        } else if l == 0x05 {
            opt_byte_on_off(self.gk_s2_tone_sw_off_pcm_2)
        } else if l == 0x06 {
            opt_byte_on_off(self.gk_s2_tone_sw_off_modeling)
        } else if l == 0x07 {
            opt_byte_on_off(self.gk_s2_tone_sw_off_normal_pu)
        } else if l == 0x08 {
            opt_byte_on_off(self.gk_s2_tone_sw_on_pcm_1)
        } else if l == 0x09 {
            opt_byte_on_off(self.gk_s2_tone_sw_on_pcm_2)
        } else if l == 0x0A {
            opt_byte_on_off(self.gk_s2_tone_sw_on_modeling)
        } else if l == 0x0B {
            opt_byte_on_off(self.gk_s2_tone_sw_on_normal_pu)
        } else {
            None
        }
    }

    /// How page `0x01` offsets `0x00..=0x0B` take a byte: 1 = the
    /// decoded value replaces the field, 2 = kept only if in range, 3 = a
    /// name byte, 0 = not a typed field.
    pub open spec fn p1_class(l: u8) -> u8 {
        if l == 0x04
            || l == 0x05
            || l == 0x06
            || l == 0x07
            || l == 0x08
            || l == 0x09
            || l == 0x0A
            || l == 0x0B {
            1
        } else {
            0
        }
    }

    /// Typed bytes of page `0x01` offsets `0x00..=0x0B` pass their own
    /// range check and are never a pad space in the name.
    pub proof fn lemma_p1_valid(self, l: u8)
        requires
            self.depths_valid(),
        ensures
            self.p1_at(l) matches Some(x) ==> (Self::p1_class(l) == 1 ==> Self::p1_accepts(l, x)) && (Self::p1_class(l) == 3 ==> x != 0x20),
    {
        if l == 0x04 {
            lemma_opt_byte_on_off_valid(self.gk_s2_tone_sw_off_pcm_1);
        }
        if l == 0x05 {
            lemma_opt_byte_on_off_valid(self.gk_s2_tone_sw_off_pcm_2);
        }
        if l == 0x06 {
            lemma_opt_byte_on_off_valid(self.gk_s2_tone_sw_off_modeling);
        }
        if l == 0x07 {
            lemma_opt_byte_on_off_valid(self.gk_s2_tone_sw_off_normal_pu);
        }
        if l == 0x08 {
            lemma_opt_byte_on_off_valid(self.gk_s2_tone_sw_on_pcm_1);
        }
        if l == 0x09 {
            lemma_opt_byte_on_off_valid(self.gk_s2_tone_sw_on_pcm_2);
        }
        if l == 0x0A {
            lemma_opt_byte_on_off_valid(self.gk_s2_tone_sw_on_modeling);
        }
        if l == 0x0B {
            lemma_opt_byte_on_off_valid(self.gk_s2_tone_sw_on_normal_pu);
        }
    }

    /// The range check of page `0x01` offsets `0x00..=0x0B`.
    pub open spec fn p1_accepts(l: u8, b: u8) -> bool {
        if l == 0x04 {
            b < 2
        } else if l == 0x05 {
            b < 2
        } else if l == 0x06 {
            b < 2
        } else if l == 0x07 {
            b < 2
        } else if l == 0x08 {
            b < 2
        } else if l == 0x09 {
            b < 2
        } else if l == 0x0A {
            b < 2
        } else if l == 0x0B {
            b < 2
        } else {
            false
        }
    }

    /// Typed wire bytes of page `0x02` offsets `0x24..=0xFF`.
    pub open spec fn p2_at(self, l: u8) -> Option<u8> {
        if l == 0x30 {
            match self.patch_level {
                Some(v) => Some(nibble_pair_bytes(v.value()).0),
                None => None,
            }
        } else if l == 0x31 {
            match self.patch_level {
                Some(v) => Some(nibble_pair_bytes(v.value()).1),
                None => None,
            }
        } else if l == 0x3C {
            match self.patch_tempo {
                Some(v) => Some(nibble_pair_bytes(v.0).0),
                None => None,
            }
        } else if l == 0x3D {
            match self.patch_tempo {
                Some(v) => Some(nibble_pair_bytes(v.0).1),
                None => None,
            }
        } else if 0x36 <= l <= 0x3B {
            self.alt_tuning_user_shift@[l - 0x36]
        } else if l == 0x24 {
            opt_byte_patch_gk_set(self.gk_set)
        } else if l == 0x25 {
            opt_byte_guitar_out(self.guitar_out)
        } else if l == 0x26 {
            self.v_link_pallet
        } else if l == 0x27 {
            self.v_link_clip
        } else if l == 0x28 {
            self.v_link_note_clip_change
        } else if l == 0x29 {
            opt_byte_v_link_control(self.v_link_exp)
        } else if l == 0x2A {
            opt_byte_v_link_control(self.v_link_exp_on)
        } else if l == 0x2B {
            opt_byte_v_link_control(self.v_link_gk_vol)
        } else if l == 0x2C {
            opt_byte_patch_structure(self.structure)
        } else if l == 0x2D {
            opt_byte_line_route(self.modeling_line_route)
        } else if l == 0x2E {
            opt_byte_line_route(self.analog_pu_line_route)
        } else if l == 0x32 {
            opt_byte_analog_pu_tone_sw(self.analog_pu_tone_sw)
        } else if l == 0x33 {
            self.analog_pu_tone_level
        } else if l == 0x34 {
            opt_byte_on_off(self.alt_tuning_sw)
        } else if l == 0x35 {
            opt_byte_alt_tuning_type(self.alt_tuning_type)
        } else if l == 0x3E {
            self.bypass_chorus
        } else if l == 0x3F {
            self.bypass_delay
        } else if l == 0x40 {
            self.bypass_reverb
        } else if l == 0x42 {
            self.exp_mod_min_envelope
        } else if l == 0x43 {
            self.exp_mod_max_envelope
        } else if l == 0x44 {
            self.exp_on_mod_min_envelope
        } else if l == 0x45 {
            self.exp_on_mod_max_envelope
        } else if l == 0x46 {
            self.gk_vol_mod_min_envelope
        } else if l == 0x47 {
            self.gk_vol_mod_max_envelope
        } else {
            None
        }
    }

    /// How page `0x02` offsets `0x24..=0xFF` take a byte: 1 = the
    /// decoded value replaces the field, 2 = kept only if in range, 3 = a
    /// name byte, 0 = not a typed field.
    pub open spec fn p2_class(l: u8) -> u8 {
        if 0x36 <= l <= 0x3B {
            2
        } else if l == 0x24
            || l == 0x25
            || l == 0x29
            || l == 0x2A
            || l == 0x2B
            || l == 0x2C
            || l == 0x2D
            || l == 0x2E
            || l == 0x32
            || l == 0x34
            || l == 0x35 {
            1
        } else if l == 0x26
            || l == 0x27
            || l == 0x28
            || l == 0x33
            || l == 0x3E
            || l == 0x3F
            || l == 0x40
            || l == 0x42
            || l == 0x43
            || l == 0x44
            || l == 0x45
            || l == 0x46
            || l == 0x47 {
            2
        } else {
            0
        }
    }

    /// Typed bytes of page `0x02` offsets `0x24..=0xFF` pass their own
    /// range check and are never a pad space in the name.
    pub proof fn lemma_p2_valid(self, l: u8)
        requires
            self.depths_valid(),
        ensures
            self.p2_at(l) matches Some(x) ==> (Self::p2_class(l) == 1 ==> Self::p2_accepts(l, x)) && (Self::p2_class(l) == 3 ==> x != 0x20),
    {
        if l == 0x24 {
            lemma_opt_byte_patch_gk_set_valid(self.gk_set);
        }
        if l == 0x25 {
            lemma_opt_byte_guitar_out_valid(self.guitar_out);
        }
        if l == 0x29 {
            lemma_opt_byte_v_link_control_valid(self.v_link_exp);
        }
        if l == 0x2A {
            lemma_opt_byte_v_link_control_valid(self.v_link_exp_on);
        }
        if l == 0x2B {
            lemma_opt_byte_v_link_control_valid(self.v_link_gk_vol);
        }
        if l == 0x2C {
            lemma_opt_byte_patch_structure_valid(self.structure);
        }
        if l == 0x2D {
            lemma_opt_byte_line_route_valid(self.modeling_line_route);
        }
        if l == 0x2E {
            lemma_opt_byte_line_route_valid(self.analog_pu_line_route);
        }
        if l == 0x32 {
            lemma_opt_byte_analog_pu_tone_sw_valid(self.analog_pu_tone_sw);
        }
        if l == 0x34 {
            lemma_opt_byte_on_off_valid(self.alt_tuning_sw);
        }
        if l == 0x35 {
            lemma_opt_byte_alt_tuning_type_valid(self.alt_tuning_type);
        }
    }

    /// The range check of page `0x02` offsets `0x24..=0xFF`.
    pub open spec fn p2_accepts(l: u8, b: u8) -> bool {
        if 0x36 <= l <= 0x3B {
            0x28 <= b <= 0x58
        } else if l == 0x24 {
            b < 11
        } else if l == 0x25 {
            b < 4
        } else if l == 0x26 {
            b <= 32
        } else if l == 0x27 {
            b <= 32
        } else if l == 0x28 {
            b <= 4
        } else if l == 0x29 {
            b < 5
        } else if l == 0x2A {
            b < 5
        } else if l == 0x2B {
            b < 5
        } else if l == 0x2C {
            b < 2
        } else if l == 0x2D {
            b < 3
        } else if l == 0x2E {
            b < 3
        } else if l == 0x32 {
            b < 2
        } else if l == 0x33 {
            b <= 100
        } else if l == 0x34 {
            b < 2
        } else if l == 0x35 {
            b < 13
        } else if l == 0x3E {
            b <= 100
        } else if l == 0x3F {
            b <= 100
        } else if l == 0x40 {
            b <= 100
        } else if l == 0x42 {
            b <= 127
        } else if l == 0x43 {
            b <= 127
        } else if l == 0x44 {
            b <= 127
        } else if l == 0x45 {
            b <= 127
        } else if l == 0x46 {
            b <= 127
        } else if l == 0x47 {
            b <= 127
        } else {
            false
        }
    }

    /// Typed wire bytes of page `0x06` offsets `0x00..=0xFF`.
    pub open spec fn p6_at(self, l: u8) -> Option<u8> {
        if l == 0x00 {
            opt_byte_on_off(self.chorus_switch)
        } else if l == 0x01 {
            opt_byte_chorus_type(self.chorus_type)
        } else if l == 0x02 {
            self.chorus_rate
        } else if l == 0x03 {
            self.chorus_depth
        } else if l == 0x04 {
            self.chorus_level
        } else if l == 0x05 {
            opt_byte_on_off(self.delay_switch)
        } else if l == 0x06 {
            opt_byte_delay_type(self.delay_type)
        } else if l == 0x07 {
            self.delay_time
        } else if l == 0x08 {
            self.delay_time_b
        } else if l == 0x09 {
            self.delay_time_c
        } else if l == 0x0A {
            self.delay_feedback
        } else if l == 0x0B {
            self.delay_level
        } else if l == 0x0C {
            opt_byte_on_off(self.reverb_switch)
        } else if l == 0x0D {
            opt_byte_reverb_type(self.reverb_type)
        } else if l == 0x0E {
            self.reverb_time
        } else if l == 0x0F {
            opt_byte_reverb_high_cut(self.reverb_high_cut)
        } else if l == 0x10 {
            self.reverb_level
        } else if l == 0x11 {
            opt_byte_on_off(self.patch_eq_switch)
        } else if l == 0x12 {
            opt_byte_patch_eq_lo_cut(self.patch_eq_lo_cut)
        } else if l == 0x13 {
            self.patch_eq_low_gain
        } else if l == 0x14 {
            opt_byte_patch_eq_mid_freq(self.patch_eq_lo_mid_freq)
        } else if l == 0x15 {
            opt_byte_patch_eq_mid_q(self.patch_eq_lo_mid_q)
        } else if l == 0x16 {
            self.patch_eq_low_mid_gain
        } else if l == 0x17 {
            opt_byte_patch_eq_mid_freq(self.patch_eq_hi_mid_freq)
        } else if l == 0x18 {
            opt_byte_patch_eq_mid_q(self.patch_eq_hi_mid_q)
        } else if l == 0x19 {
            self.patch_eq_hi_mid_gain
        } else if l == 0x1A {
            opt_byte_patch_eq_high_cut(self.patch_eq_high_cut)
        } else if l == 0x1B {
            self.patch_eq_high_gain
        } else if l == 0x1C {
            self.patch_eq_level
        } else if l == 0x1D {
            opt_byte_patch_eq_character(self.patch_eq_character)
        } else {
            None
        }
    }

    /// How page `0x06` offsets `0x00..=0xFF` take a byte: 1 = the
    /// decoded value replaces the field, 2 = kept only if in range, 3 = a
    /// name byte, 0 = not a typed field.
    pub open spec fn p6_class(l: u8) -> u8 {
        if l == 0x00
            || l == 0x01
            || l == 0x05
            || l == 0x06
            || l == 0x0C
            || l == 0x0D
            || l == 0x0F
            || l == 0x11
            || l == 0x12
            || l == 0x14
            || l == 0x15
            || l == 0x17
            || l == 0x18
            || l == 0x1A
            || l == 0x1D {
            1
        } else if l == 0x02
            || l == 0x03
            || l == 0x04
            || l == 0x07
            || l == 0x08
            || l == 0x09
            || l == 0x0A
            || l == 0x0B
            || l == 0x0E
            || l == 0x10
            || l == 0x13
            || l == 0x16
            || l == 0x19
            || l == 0x1B
            || l == 0x1C {
            2
        } else {
            0
        }
    }

    /// Typed bytes of page `0x06` offsets `0x00..=0xFF` pass their own
    /// range check and are never a pad space in the name.
    pub proof fn lemma_p6_valid(self, l: u8)
        requires
            self.depths_valid(),
        ensures
            self.p6_at(l) matches Some(x) ==> (Self::p6_class(l) == 1 ==> Self::p6_accepts(l, x)) && (Self::p6_class(l) == 3 ==> x != 0x20),
    {
        if l == 0x00 {
            lemma_opt_byte_on_off_valid(self.chorus_switch);
        }
        if l == 0x01 {
            lemma_opt_byte_chorus_type_valid(self.chorus_type);
        }
        if l == 0x05 {
            lemma_opt_byte_on_off_valid(self.delay_switch);
        }
        if l == 0x06 {
            lemma_opt_byte_delay_type_valid(self.delay_type);
        }
        if l == 0x0C {
            lemma_opt_byte_on_off_valid(self.reverb_switch);
        }
        if l == 0x0D {
            lemma_opt_byte_reverb_type_valid(self.reverb_type);
        }
        if l == 0x0F {
            lemma_opt_byte_reverb_high_cut_valid(self.reverb_high_cut);
        }
        if l == 0x11 {
            lemma_opt_byte_on_off_valid(self.patch_eq_switch);
        }
        if l == 0x12 {
            lemma_opt_byte_patch_eq_lo_cut_valid(self.patch_eq_lo_cut);
        }
        if l == 0x14 {
            lemma_opt_byte_patch_eq_mid_freq_valid(self.patch_eq_lo_mid_freq);
        }
        if l == 0x15 {
            lemma_opt_byte_patch_eq_mid_q_valid(self.patch_eq_lo_mid_q);
        }
        if l == 0x17 {
            lemma_opt_byte_patch_eq_mid_freq_valid(self.patch_eq_hi_mid_freq);
        }
        if l == 0x18 {
            lemma_opt_byte_patch_eq_mid_q_valid(self.patch_eq_hi_mid_q);
        }
        if l == 0x1A {
            lemma_opt_byte_patch_eq_high_cut_valid(self.patch_eq_high_cut);
        }
        if l == 0x1D {
            lemma_opt_byte_patch_eq_character_valid(self.patch_eq_character);
        }
    }

    /// The range check of page `0x06` offsets `0x00..=0xFF`.
    pub open spec fn p6_accepts(l: u8, b: u8) -> bool {
        if l == 0x00 {
            b < 2
        } else if l == 0x01 {
            b < 4
        } else if l == 0x02 {
            b <= 113
        } else if l == 0x03 {
            b <= 100
        } else if l == 0x04 {
            b <= 100
        } else if l == 0x05 {
            b < 2
        } else if l == 0x06 {
            b < 7
        } else if l == 0x07 {
            b <= 15
        } else if l == 0x08 {
            b <= 15
        } else if l == 0x09 {
            b <= 15
        } else if l == 0x0A {
            b <= 100
        } else if l == 0x0B {
            b <= 120
        } else if l == 0x0C {
            b < 2
        } else if l == 0x0D {
            b < 5
        } else if l == 0x0E {
            b <= 99
        } else if l == 0x0F {
            b < 10
        } else if l == 0x10 {
            b <= 100
        } else if l == 0x11 {
            b < 2
        } else if l == 0x12 {
            b < 11
        } else if l == 0x13 {
            b <= 40
        } else if l == 0x14 {
            b < 28
        } else if l == 0x15 {
            b < 6
        } else if l == 0x16 {
            b <= 40
        } else if l == 0x17 {
            b < 28
        } else if l == 0x18 {
            b < 6
        } else if l == 0x19 {
            b <= 40
        } else if l == 0x1A {
            b < 10
        } else if l == 0x1B {
            b <= 40
        } else if l == 0x1C {
            b <= 40
        } else if l == 0x1D {
            b < 7
        } else {
            false
        }
    }

    /// Typed wire bytes of page `0x07` offsets `0x00..=0x10`.
    pub open spec fn p7a_at(self, l: u8) -> Option<u8> {
        if l == 0x00 {
            opt_byte_on_off(self.preamp_switch)
        } else if l == 0x01 {
            opt_byte_preamp_type(self.preamp_type)
        } else if l == 0x02 {
            self.preamp_gain
        } else if l == 0x03 {
            self.preamp_level
        } else if l == 0x04 {
            opt_byte_preamp_gain_sw(self.preamp_gain_sw)
        } else if l == 0x05 {
            opt_byte_on_off(self.preamp_solo_sw)
        } else if l == 0x06 {
            self.preamp_solo_level
        } else if l == 0x07 {
            self.preamp_bass
        } else if l == 0x08 {
            self.preamp_middle
        } else if l == 0x09 {
            self.preamp_treble
        } else if l == 0x0A {
            self.preamp_presence
        } else if l == 0x0B {
            opt_byte_on_off(self.preamp_bright_sw)
        } else if l == 0x0C {
            opt_byte_speaker_type(self.speaker_type)
        } else if l == 0x0D {
            opt_byte_mic_type(self.mic_type)
        } else if l == 0x0E {
            opt_byte_mic_distance(self.mic_distance)
        } else if l == 0x0F {
            self.mic_position
        } else if l == 0x10 {
            self.mic_level
        } else {
            None
        }
    }

    /// How page `0x07` offsets `0x00..=0x10` take a byte: 1 = the
    /// decoded value replaces the field, 2 = kept only if in range, 3 = a
    /// name byte, 0 = not a typed field.
    pub open spec fn p7a_class(l: u8) -> u8 {
        if l == 0x00
            || l == 0x01
            || l == 0x04
            || l == 0x05
            || l == 0x0B
            || l == 0x0C
            || l == 0x0D
            || l == 0x0E {
            1
        } else if l == 0x02
            || l == 0x03
            || l == 0x06
            || l == 0x07
            || l == 0x08
            || l == 0x09
            || l == 0x0A
            || l == 0x0F
            || l == 0x10 {
            2
        } else {
            0
        }
    }

    /// Typed bytes of page `0x07` offsets `0x00..=0x10` pass their own
    /// range check and are never a pad space in the name.
    pub proof fn lemma_p7a_valid(self, l: u8)
        requires
            self.depths_valid(),
        ensures
            self.p7a_at(l) matches Some(x) ==> (Self::p7a_class(l) == 1 ==> Self::p7a_accepts(l, x)) && (Self::p7a_class(l) == 3 ==> x != 0x20),
    {
        if l == 0x00 {
            lemma_opt_byte_on_off_valid(self.preamp_switch);
        }
        if l == 0x01 {
            lemma_opt_byte_preamp_type_valid(self.preamp_type);
        }
        if l == 0x04 {
            lemma_opt_byte_preamp_gain_sw_valid(self.preamp_gain_sw);
        }
        if l == 0x05 {
            lemma_opt_byte_on_off_valid(self.preamp_solo_sw);
        }
        if l == 0x0B {
            lemma_opt_byte_on_off_valid(self.preamp_bright_sw);
        }
        if l == 0x0C {
            lemma_opt_byte_speaker_type_valid(self.speaker_type);
        }
        if l == 0x0D {
            lemma_opt_byte_mic_type_valid(self.mic_type);
        }
        if l == 0x0E {
            lemma_opt_byte_mic_distance_valid(self.mic_distance);
        }
    }

    /// The range check of page `0x07` offsets `0x00..=0x10`.
    pub open spec fn p7a_accepts(l: u8, b: u8) -> bool {
        if l == 0x00 {
            b < 2
        } else if l == 0x01 {
            b < 42
        } else if l == 0x02 {
            b <= 120
        } else if l == 0x03 {
            b <= 100
        } else if l == 0x04 {
            b < 3
        } else if l == 0x05 {
            b < 2
        } else if l == 0x06 {
            b <= 100
        } else if l == 0x07 {
            b <= 100
        } else if l == 0x08 {
            b <= 100
        } else if l == 0x09 {
            b <= 100
        } else if l == 0x0A {
            b <= 100
        } else if l == 0x0B {
            b < 2
        } else if l == 0x0C {
            b < 9
        } else if l == 0x0D {
            b < 5
        } else if l == 0x0E {
            b < 2
        } else if l == 0x0F {
            b <= 10
        } else if l == 0x10 {
            b <= 100
        } else {
            false
        }
    }

    /// Typed wire bytes of page `0x07` offsets `0x5A..=0xFF`.
    pub open spec fn p7b_at(self, l: u8) -> Option<u8> {
        if l == 0x5A {
            opt_byte_on_off(self.ns_switch)
        } else if l == 0x5B {
            self.ns_threshold
        } else if l == 0x5C {
            self.ns_release
        } else {
            None
        }
    }

    /// How page `0x07` offsets `0x5A..=0xFF` take a byte: 1 = the
    /// decoded value replaces the field, 2 = kept only if in range, 3 = a
    /// name byte, 0 = not a typed field.
    pub open spec fn p7b_class(l: u8) -> u8 {
        if l == 0x5A {
            1
        } else if l == 0x5B
            || l == 0x5C {
            2
        } else {
            0
        }
    }

    /// Typed bytes of page `0x07` offsets `0x5A..=0xFF` pass their own
    /// range check and are never a pad space in the name.
    pub proof fn lemma_p7b_valid(self, l: u8)
        requires
            self.depths_valid(),
        ensures
            self.p7b_at(l) matches Some(x) ==> (Self::p7b_class(l) == 1 ==> Self::p7b_accepts(l, x)) && (Self::p7b_class(l) == 3 ==> x != 0x20),
    {
        if l == 0x5A {
            lemma_opt_byte_on_off_valid(self.ns_switch);
        }
    }

    /// The range check of page `0x07` offsets `0x5A..=0xFF`.
    pub open spec fn p7b_accepts(l: u8, b: u8) -> bool {
        if l == 0x5A {
            b < 2
        } else if l == 0x5B {
            b <= 100
        } else if l == 0x5C {
            b <= 100
        } else {
            false
        }
    }

    // -----------------------------------------------------------------
    // The wire view
    // -----------------------------------------------------------------
    /// Typed wire bytes of page `0x00`.
    pub open spec fn p0_at(self, l: u8) -> Option<u8> {
        if l < 0x20 {
            self.p0a_at(l)
        } else if l < 0x40 {
            self.p0b_at(l)
        } else if l < 0x60 {
            self.p0c_at(l)
        } else {
            self.p0d_at(l)
        }
    }

    /// Assign index and byte-in-assign of a Master Assign address:
    /// page `0x01` offsets `0x0C..=0x7F` and page `0x02` offsets
    /// `0x00..=0x23` hold the eight 19-byte assigns back to back.
    pub open spec fn assign_slot(p: u8, l: u8) -> Option<(int, u32)> {
        if p == 1 && 0x0C <= l <= 0x7F {
            Some(((l - 0x0C) / 19, ((l - 0x0C) % 19) as u32))
        } else if p == 2 && l <= 0x23 {
            Some(((l + 0x80 - 0x0C) / 19, ((l + 0x80 - 0x0C) % 19) as u32))
        } else {
            None
        }
    }

    /// Typed wire byte of a Master Assign address.
    #[verifier::opaque]
    pub open spec fn assign_at(assigns: [Option<Assign>; 8], p: u8, l: u8) -> Option<u8> {
        match Self::assign_slot(p, l) {
            Some((idx, bia)) => match assigns@[idx] {
                Some(x) => x.at(bia),
                None => None,
            },
            None => None,
        }
    }

    #[verifier::opaque]
    pub open spec fn mfx_at(mfx: Option<Mfx>, lin: u32) -> Option<u8> {
        match mfx {
            Some(m) => m.at(lin),
            None => None,
        }
    }

    #[verifier::opaque]
    pub open spec fn mod_at(modulation: Option<Mod>, off: u32) -> Option<u8> {
        match modulation {
            Some(m) => m.at(off),
            None => None,
        }
    }

    #[verifier::opaque]
    pub open spec fn modeling_at(modeling: Option<Modeling>, lin: u32) -> Option<u8> {
        match modeling {
            Some(m) => m.at(lin),
            None => None,
        }
    }

    #[verifier::opaque]
    pub open spec fn pcm_header_at(slot: Option<Pcm>, off: u32) -> Option<u8> {
        match slot {
            Some(x) => x.at_header(off),
            None => None,
        }
    }

    #[verifier::opaque]
    pub open spec fn pcm_tail_at(slot: Option<Pcm>, off: u32) -> Option<u8> {
        match slot {
            Some(x) => x.at_tail(off),
            None => None,
        }
    }

    /// The byte the typed fields put on the wire at page `p`, hi `h`, lo
    /// `l`, if any.
    pub open spec fn typed_at(self, p: u8, h: u8, l: u8) -> Option<u8> {
        if h != 0 {
            None
        } else if p == 0 {
            self.p0_at(l)
        } else if p == 1 {
            if 0x0C <= l <= 0x7F {
                Self::assign_at(self.master_assigns, p, l)
            } else {
                self.p1_at(l)
            }
        } else if p == 2 {
            if l <= 0x23 {
                Self::assign_at(self.master_assigns, p, l)
            } else {
                self.p2_at(l)
            }
        } else if p == 3 {
            if l < 0x80 {
                Self::mfx_at(self.mfx, l as u32)
            } else {
                None
            }
        } else if p == 4 {
            if l < 0x80 {
                Self::mfx_at(self.mfx, (0x80 + l) as u32)
            } else {
                None
            }
        } else if p == 6 {
            self.p6_at(l)
        } else if p == 7 {
            if l <= 0x10 {
                self.p7a_at(l)
            } else if l <= 0x59 {
                Self::mod_at(self.modulation, l as u32)
            } else {
                self.p7b_at(l)
            }
        } else if p == 0x10 {
            if l < 0x80 {
                Self::modeling_at(self.modeling, l as u32)
            } else {
                None
            }
        } else if p == 0x11 {
            if l < 0x80 {
                Self::modeling_at(self.modeling, (0x80 + l) as u32)
            } else {
                None
            }
        } else if p == 0x20 {
            Self::pcm_header_at(self.pcm@[0], l as u32)
        } else if p == 0x21 {
            Self::pcm_header_at(self.pcm@[1], l as u32)
        } else if p == 0x30 {
            Self::pcm_tail_at(self.pcm@[0], l as u32)
        } else if p == 0x31 {
            Self::pcm_tail_at(self.pcm@[1], l as u32)
        } else {
            None
        }
    }

    /// The byte the area puts on the wire at (p, h, l): an unknown byte
    /// there overrides the typed fields.
    pub open spec fn byte_at(self, p: u8, h: u8, l: u8) -> Option<u8> {
        if self.unknown_bytes@.contains_key(key_of(0, p, h, l)) {
            Some(self.unknown_bytes@[key_of(0, p, h, l)])
        } else {
            self.typed_at(p, h, l)
        }
    }

    // -----------------------------------------------------------------
    // How a byte is taken
    // -----------------------------------------------------------------
    /// Where a byte written at (p, h, l) shows on the wire: MFX and
    /// Modeling offsets past `0x7F` on their first page continue on the
    /// second page.
    pub open spec fn wire_key(p: u8, h: u8, l: u8) -> (u8, u8, u8) {
        if h == 0 && (p == 3 || p == 0x10) && l >= 0x80 {
            ((p + 1) as u8, 0u8, (l - 0x80) as u8)
        } else {
            (p, h, l)
        }
    }

    /// How the address takes a byte: 1 = the field is replaced by the
    /// decoded value (`None` when out of range, the byte then parked in
    /// `unknown_bytes`), 2 = kept only if in
    /// range, else parked in `unknown_bytes`, 3 = a name byte, 4 = a PCM
    /// tone-selector byte, 0 = parked in `unknown_bytes`.
    pub open spec fn key_class(p: u8, h: u8, l: u8) -> u8 {
        if h != 0 {
            0
        } else if p == 0 {
            if l < 0x20 {
                Self::p0a_class(l)
            } else if l < 0x40 {
                Self::p0b_class(l)
            } else if l < 0x60 {
                Self::p0c_class(l)
            } else {
                Self::p0d_class(l)
            }
        } else if p == 1 {
            if 0x0C <= l <= 0x7F {
                2
            } else {
                Self::p1_class(l)
            }
        } else if p == 2 {
            if l <= 0x23 {
                2
            } else {
                Self::p2_class(l)
            }
        } else if p == 3 || p == 4 || p == 0x10 || p == 0x11 || p == 0x30 || p == 0x31 {
            2
        } else if p == 6 {
            Self::p6_class(l)
        } else if p == 7 {
            if l <= 0x10 {
                Self::p7a_class(l)
            } else if l <= 0x59 {
                2
            } else {
                Self::p7b_class(l)
            }
        } else if p == 0x20 || p == 0x21 {
            if l == 1 || l == 2 {
                4
            } else {
                2
            }
        } else {
            0
        }
    }

    /// The range check of the address for byte `b`.
    pub open spec fn key_accepts(p: u8, h: u8, l: u8, b: u8) -> bool {
        if h != 0 {
            false
        } else if p == 0 {
            if l < 0x20 {
                Self::p0a_accepts(l, b)
            } else if l < 0x40 {
                Self::p0b_accepts(l, b)
            } else if l < 0x60 {
                Self::p0c_accepts(l, b)
            } else {
                Self::p0d_accepts(l, b)
            }
        } else if p == 1 || p == 2 {
            match Self::assign_slot(p, l) {
                Some((idx, bia)) => Assign::accepts(bia, b),
                None => if p == 1 {
                    Self::p1_accepts(l, b)
                } else {
                    Self::p2_accepts(l, b)
                },
            }
        } else if p == 3 {
            Mfx::accepts(l as u32, b)
        } else if p == 4 {
            Mfx::accepts((0x80 + l) as u32, b)
        } else if p == 6 {
            Self::p6_accepts(l, b)
        } else if p == 7 {
            if l <= 0x10 {
                Self::p7a_accepts(l, b)
            } else if l <= 0x59 {
                Mod::accepts(l as u32, b)
            } else {
                Self::p7b_accepts(l, b)
            }
        } else if p == 0x10 {
            Modeling::accepts(l as u32, b)
        } else if p == 0x11 {
            Modeling::accepts((0x80 + l) as u32, b)
        } else if p == 0x20 || p == 0x21 {
            Pcm::accepts_header(l as u32, b)
        } else if p == 0x30 || p == 0x31 {
            l <= 0x7F
        } else {
            false
        }
    }

    /// The PCM slot of a tone page already holds a lifted tone selector.
    pub open spec fn pcm_tone_set(self, p: u8) -> bool {
        let i: int = if p == 0x20 { 0 } else { 1 };
        self.pcm@[i] matches Some(x) && x.synth_tone is Some
    }

    /// The typed byte at the wire key of (p, h, l) after byte `b` is
    /// stored there.
    pub open spec fn stored_typed(self, p: u8, h: u8, l: u8, b: u8) -> Option<u8> {
        let c = Self::key_class(p, h, l);
        let w = Self::wire_key(p, h, l);
        if c == 1 {
            if Self::key_accepts(p, h, l, b) {
                Some(b)
            } else {
                None
            }
        } else if c == 3 {
            if b == 0x20 {
                None
            } else {
                Some(b)
            }
        } else if c == 4 {
            if self.pcm_tone_set(p) {
                self.typed_at(w.0, w.1, w.2)
            } else {
                Some(b)
            }
        } else if c == 2 && Self::key_accepts(p, h, l, b) {
            Some(b)
        } else {
            self.typed_at(w.0, w.1, w.2)
        }
    }

    /// A byte written at (p, h, l) lands in `unknown_bytes`: where no
    /// field takes it, or where the field's range refuses it.
    pub open spec fn goes_unknown(p: u8, h: u8, l: u8, b: u8) -> bool {
        Self::key_class(p, h, l) == 0 || ((Self::key_class(p, h, l) == 1 || Self::key_class(p, h, l) == 2)
            && !Self::key_accepts(p, h, l, b))
    }

    /// What one field group's store step leaves in `unknown_bytes`: as
    /// [`PatchArea::goes_unknown`], except for a replaced field's
    /// out-of-range byte, which the caller parks.
    pub open spec fn chunk_unknown(p: u8, h: u8, l: u8, b: u8) -> bool {
        Self::key_class(p, h, l) == 0 || (Self::key_class(p, h, l) == 2 && !Self::key_accepts(p, h, l, b))
    }

    /// No PCM slot holds a lifted tone selector yet.
    pub open spec fn tones_unset(self) -> bool {
        forall|i: int| 0 <= i < 2 ==> (#[trigger] self.pcm@[i] matches Some(x) ==> x.synth_tone is None)
    }

    /// Every raw tail of every slot stays inside its range.
    pub open spec fn raws_ok(self) -> bool {
        &&& (self.mfx matches Some(m) ==> m.raw_ok())
        &&& (self.modulation matches Some(m) ==> m.raw_ok())
        &&& (self.modeling matches Some(m) ==> m.raw_ok())
        &&& forall|i: int| 0 <= i < 2 ==> (#[trigger] self.pcm@[i] matches Some(x) ==> x.raw_ok())
    }

    /// The raw tail of an optional MFX slot (empty when there is none).
    pub open spec fn mfx_raw(o: Option<Mfx>) -> Map<u32, u8> {
        match o {
            Some(x) => x.raw_tail@,
            None => Map::empty(),
        }
    }

    /// The raw tail of an optional MOD slot (empty when there is none).
    pub open spec fn mod_raw(o: Option<Mod>) -> Map<u32, u8> {
        match o {
            Some(x) => x.raw_tail@,
            None => Map::empty(),
        }
    }

    /// The raw tail of an optional Modeling slot (empty when there is none).
    pub open spec fn modeling_raw(o: Option<Modeling>) -> Map<u32, u8> {
        match o {
            Some(x) => x.raw_tail@,
            None => Map::empty(),
        }
    }

    /// The raw tail of an optional PCM slot (empty when there is none).
    pub open spec fn pcm_raw(o: Option<Pcm>) -> Map<u32, u8> {
        match o {
            Some(x) => x.raw_tail@,
            None => Map::empty(),
        }
    }

    /// How a store step changes the slots' raw tails: a byte written on a
    /// slot's tail range is added to that tail at its linear offset (the
    /// offset within the slot's two pages); no other entry of any tail
    /// changes.
    pub open spec fn raws_post(new: PatchArea, old: PatchArea, page: u8, hi: u8, lo: u8, b: u8) -> bool {
        let lin: int = if page == 3 || page == 0x10 { lo as int } else { 0x80 + lo };
        &&& Self::mfx_raw(new.mfx) == (if hi == 0 && (page == 3 || page == 4) && 0x12 <= lin <= 0xFF {
            Self::mfx_raw(old.mfx).insert(lin as u32, b)
        } else {
            Self::mfx_raw(old.mfx)
        })
        &&& Self::mod_raw(new.modulation) == (if hi == 0 && page == 7 && 0x18 <= lo <= 0x59 {
            Self::mod_raw(old.modulation).insert(lo as u32, b)
        } else {
            Self::mod_raw(old.modulation)
        })
        &&& Self::modeling_raw(new.modeling) == (if hi == 0 && (page == 0x10 || page == 0x11) && 0x1E <= lin <= 0xFF {
            Self::modeling_raw(old.modeling).insert(lin as u32, b)
        } else {
            Self::modeling_raw(old.modeling)
        })
        &&& forall|i: int| 0 <= i < 2 ==> #[trigger] Self::pcm_raw(new.pcm@[i]) == (
            if hi == 0 && page == 0x30 + i && lo <= 0x7F {
                Self::pcm_raw(old.pcm@[i]).insert(lo as u32, b)
            } else {
                Self::pcm_raw(old.pcm@[i])
            })
    }

    /// The parked (bank, position) tone-selector bytes of a PCM slot.
    pub open spec fn pending_of(o: Option<Pcm>) -> (Option<u8>, Option<u8>) {
        match o {
            Some(x) => (x.pending_bank, x.pending_pos),
            None => (None, None),
        }
    }

    /// How a store step changes the parked tone-selector bytes: a bank or
    /// position byte written on a PCM header page is parked in its slot,
    /// whether or not the slot already holds a tone; nothing else moves
    /// them.
    pub open spec fn pending_post(new: PatchArea, old: PatchArea, page: u8, hi: u8, lo: u8, b: u8) -> bool {
        forall|i: int| 0 <= i < 2 ==> #[trigger] Self::pending_of(new.pcm@[i]) == (
            if hi == 0 && page == 0x20 + i && lo == 1 {
                (Some(b), Self::pending_of(old.pcm@[i]).1)
            } else if hi == 0 && page == 0x20 + i && lo == 2 {
                (Self::pending_of(old.pcm@[i]).0, Some(b))
            } else {
                Self::pending_of(old.pcm@[i])
            })
    }

    /// What storing byte `b` at (page, hi, lo) does: the typed view
    /// changes only at the wire key, where it becomes
    /// [`PatchArea::stored_typed`], and `unknown_bytes` gains the byte
    /// exactly when [`PatchArea::goes_unknown`]; parked PCM tone-selector
    /// bytes move as [`PatchArea::pending_post`] says, and raw tails as
    /// [`PatchArea::raws_post`] says.
    pub open spec fn store_post(new: PatchArea, old: PatchArea, page: u8, hi: u8, lo: u8, b: u8) -> bool {
        let w = Self::wire_key(page, hi, lo);
        &&& forall|p: u8, h: u8, l: u8|
            !(p == w.0 && h == w.1 && l == w.2) ==> #[trigger] new.typed_at(p, h, l) == old.typed_at(p, h, l)
        &&& new.typed_at(w.0, w.1, w.2) == old.stored_typed(page, hi, lo, b)
        &&& new.unknown_bytes@ == (if Self::goes_unknown(page, hi, lo, b) {
            old.unknown_bytes@.insert(key_of(0, page, hi, lo), b)
        } else {
            old.unknown_bytes@
        })
        &&& (old.tones_unset() ==> new.tones_unset())
        &&& (old.raws_ok() ==> new.raws_ok())
        &&& new.patch_level == old.patch_level
        &&& new.patch_tempo == old.patch_tempo
        &&& Self::pending_post(new, old, page, hi, lo, b)
        &&& Self::raws_post(new, old, page, hi, lo, b)
    }

    /// The effect of one field group's store step (see
    /// [`PatchArea::chunk_unknown`]).
    pub open spec fn chunk_post(new: PatchArea, old: PatchArea, page: u8, hi: u8, lo: u8, b: u8) -> bool {
        let w = Self::wire_key(page, hi, lo);
        &&& forall|p: u8, h: u8, l: u8|
            !(p == w.0 && h == w.1 && l == w.2) ==> #[trigger] new.typed_at(p, h, l) == old.typed_at(p, h, l)
        &&& new.typed_at(w.0, w.1, w.2) == old.stored_typed(page, hi, lo, b)
        &&& new.unknown_bytes@ == (if Self::chunk_unknown(page, hi, lo, b) {
            old.unknown_bytes@.insert(key_of(0, page, hi, lo), b)
        } else {
            old.unknown_bytes@
        })
        &&& (old.tones_unset() ==> new.tones_unset())
        &&& (old.raws_ok() ==> new.raws_ok())
        &&& new.patch_level == old.patch_level
        &&& new.patch_tempo == old.patch_tempo
        &&& Self::pending_post(new, old, page, hi, lo, b)
        &&& Self::raws_post(new, old, page, hi, lo, b)
    }

    /// The pitch-bend depths hold values in their range.
    pub open spec fn depths_valid(self) -> bool {
        &&& (self.exp_pitch_bend_depth matches Some(v) ==> -12 <= v.value() <= 12)
        &&& (self.exp_on_pitch_bend_depth matches Some(v) ==> -12 <= v.value() <= 12)
        &&& (self.gk_vol_pitch_bend_depth matches Some(v) ==> -12 <= v.value() <= 12)
    }

    /// Every typed wire byte decodes back to itself at its own address:
    /// replaced fields take it, name bytes are not pad spaces, and the
    /// address is its own wire key.
    pub proof fn lemma_typed_valid(self, p: u8, h: u8, l: u8)
        requires
            self.depths_valid(),
        ensures
            self.typed_at(p, h, l) matches Some(x) ==> {
                &&& (Self::key_class(p, h, l) == 1 ==> Self::key_accepts(p, h, l, x))
                &&& (Self::key_class(p, h, l) == 3 ==> x != 0x20)
                &&& Self::wire_key(p, h, l) == (p, h, l)
            },
    {
        if h == 0 {
            if p == 0 {
                if l < 0x20 {
                    self.lemma_p0a_valid(l);
                } else if l < 0x40 {
                    self.lemma_p0b_valid(l);
                } else if l < 0x60 {
                    self.lemma_p0c_valid(l);
                } else {
                    self.lemma_p0d_valid(l);
                }
            } else if p == 1 {
                self.lemma_p1_valid(l);
            } else if p == 2 {
                self.lemma_p2_valid(l);
            } else if p == 6 {
                self.lemma_p6_valid(l);
            } else if p == 7 {
                if l <= 0x10 {
                    self.lemma_p7a_valid(l);
                } else if l > 0x59 {
                    self.lemma_p7b_valid(l);
                }
            }
        }
    }

    /// Store a byte at page `0x00` offset `lo` of this range.
    #[verifier::rlimit(60)]
    fn store_p0a(&mut self, lo: u8, b: u8)
        requires
            0x00 <= lo <= 0x1F,
        ensures
            Self::chunk_post(*final(self), *old(self), 0x00, 0, lo, b),
    {
        let key = address_key([0, 0x00, 0, lo]);
        match lo {
            0x01..=0x10 => {
                let ghost old_name = self.name.0@;
                self.name.0[(lo - 1) as usize] = b;
                assert(self.name.0@ == old_name.update(lo - 1, b));
                assert(forall|j: int| 0 <= j < 16 && j != lo - 1 ==> self.name.0@[j] == old_name[j]);
            },
            0x00 => {
                proof {
                    lemma_opt_byte_patch_mode(b);
                }
                self.mode = PatchMode::from_byte(b);
            },
            0x11 => {
                proof {
                    lemma_opt_byte_on_off(b);
                }
                self.ctl_status = OnOff::from_byte(b);
            },
            0x12 => {
                proof {
                    lemma_opt_byte_ctl_function(b);
                }
                self.ctl_function = CtlFunction::from_byte(b);
            },
            0x13 => {
                proof {
                    lemma_opt_byte_hold_type(b);
                }
                self.ctl_hold_type = HoldType::from_byte(b);
            },
            0x14 => {
                proof {
                    lemma_opt_byte_switch_mode(b);
                }
                self.ctl_switch_mode = SwitchMode::from_byte(b);
            },
            0x15 => {
                proof {
                    lemma_opt_byte_on_off(b);
                }
                self.ctl_hold_pcm_1 = OnOff::from_byte(b);
            },
            0x16 => {
                proof {
                    lemma_opt_byte_on_off(b);
                }
                self.ctl_hold_pcm_2 = OnOff::from_byte(b);
            },
            0x17 => {
                proof {
                    lemma_opt_byte_on_off(b);
                }
                self.ctl_tone_sw_off_pcm_1 = OnOff::from_byte(b);
            },
            0x18 => {
                proof {
                    lemma_opt_byte_on_off(b);
                }
                self.ctl_tone_sw_off_pcm_2 = OnOff::from_byte(b);
            },
            0x19 => {
                proof {
                    lemma_opt_byte_on_off(b);
                }
                self.ctl_tone_sw_off_modeling = OnOff::from_byte(b);
            },
            0x1A => {
                proof {
                    lemma_opt_byte_on_off(b);
                }
                self.ctl_tone_sw_off_normal_pu = OnOff::from_byte(b);
            },
            0x1B => {
                proof {
                    lemma_opt_byte_on_off(b);
                }
                self.ctl_tone_sw_on_pcm_1 = OnOff::from_byte(b);
            },
            0x1C => {
                proof {
                    lemma_opt_byte_on_off(b);
                }
                self.ctl_tone_sw_on_pcm_2 = OnOff::from_byte(b);
            },
            0x1D => {
                proof {
                    lemma_opt_byte_on_off(b);
                }
                self.ctl_tone_sw_on_modeling = OnOff::from_byte(b);
            },
            0x1E => {
                proof {
                    lemma_opt_byte_on_off(b);
                }
                self.ctl_tone_sw_on_normal_pu = OnOff::from_byte(b);
            },
            0x1F => {
                proof {
                    lemma_opt_byte_exp_function(b);
                }
                self.exp_function = ExpFunction::from_byte(b);
            },
            _ => {
                self.unknown_bytes.insert(key, b);
            },
        }
    }

    /// Typed wire byte at page `0x00` offset `l` of this range.
    fn p0a_byte(&self, l: u8) -> (r: Option<u8>)
        ensures
            r == self.p0a_at(l),
    {
        match l {
            0x01..=0x10 => {
                let c = self.name.0[(l - 1) as usize];
                assert(c == self.name.0@[l - 1]);
                if c == 0x20 {
                    None
                } else {
                    Some(c)
                }
            },
            0x00 => {
                proof {
                    reveal(opt_byte_patch_mode);
                }
                match self.mode {
                    Some(v) => Some(v.to_byte()),
                    None => None,
                }
            },
            0x11 => {
                proof {
                    reveal(opt_byte_on_off);
                }
                match self.ctl_status {
                    Some(v) => Some(v.to_byte()),
                    None => None,
                }
            },
            0x12 => {
                proof {
                    reveal(opt_byte_ctl_function);
                }
                match self.ctl_function {
                    Some(v) => Some(v.to_byte()),
                    None => None,
                }
            },
            0x13 => {
                proof {
                    reveal(opt_byte_hold_type);
                }
                match self.ctl_hold_type {
                    Some(v) => Some(v.to_byte()),
                    None => None,
                }
            },
            0x14 => {
                proof {
                    reveal(opt_byte_switch_mode);
                }
                match self.ctl_switch_mode {
                    Some(v) => Some(v.to_byte()),
                    None => None,
                }
            },
            0x15 => {
                proof {
                    reveal(opt_byte_on_off);
                }
                match self.ctl_hold_pcm_1 {
                    Some(v) => Some(v.to_byte()),
                    None => None,
                }
            },
            0x16 => {
                proof {
                    reveal(opt_byte_on_off);
                }
                match self.ctl_hold_pcm_2 {
                    Some(v) => Some(v.to_byte()),
                    None => None,
                }
            },
            0x17 => {
                proof {
                    reveal(opt_byte_on_off);
                }
                match self.ctl_tone_sw_off_pcm_1 {
                    Some(v) => Some(v.to_byte()),
                    None => None,
                }
            },
            0x18 => {
                proof {
                    reveal(opt_byte_on_off);
                }
                match self.ctl_tone_sw_off_pcm_2 {
                    Some(v) => Some(v.to_byte()),
                    None => None,
                }
            },
            0x19 => {
                proof {
                    reveal(opt_byte_on_off);
                }
                match self.ctl_tone_sw_off_modeling {
                    Some(v) => Some(v.to_byte()),
                    None => None,
                }
            },
            0x1A => {
                proof {
                    reveal(opt_byte_on_off);
                }
                match self.ctl_tone_sw_off_normal_pu {
                    Some(v) => Some(v.to_byte()),
                    None => None,
                }
            },
            0x1B => {
                proof {
                    reveal(opt_byte_on_off);
                }
                match self.ctl_tone_sw_on_pcm_1 {
                    Some(v) => Some(v.to_byte()),
                    None => None,
                }
            },
            0x1C => {
                proof {
                    reveal(opt_byte_on_off);
                }
                match self.ctl_tone_sw_on_pcm_2 {
                    Some(v) => Some(v.to_byte()),
                    None => None,
                }
            },
            0x1D => {
                proof {
                    reveal(opt_byte_on_off);
                }
                match self.ctl_tone_sw_on_modeling {
                    Some(v) => Some(v.to_byte()),
                    None => None,
                }
            },
            0x1E => {
                proof {
                    reveal(opt_byte_on_off);
                }
                match self.ctl_tone_sw_on_normal_pu {
                    Some(v) => Some(v.to_byte()),
                    None => None,
                }
            },
            0x1F => {
                proof {
                    reveal(opt_byte_exp_function);
                }
                match self.exp_function {
                    Some(v) => Some(v.to_byte()),
                    None => None,
                }
            },
            _ => None,
        }
    }

    /// Store a byte at page `0x00` offset `lo` of this range.
    #[verifier::rlimit(60)]
    fn store_p0b(&mut self, lo: u8, b: u8)
        requires
            0x20 <= lo <= 0x3F,
        ensures
            Self::chunk_post(*final(self), *old(self), 0x00, 0, lo, b),
    {
        let key = address_key([0, 0x00, 0, lo]);
        match lo {
            0x20 => {
                proof {
                    lemma_opt_byte_on_off(b);
                }
                self.exp_tone_vol_pcm_1 = OnOff::from_byte(b);
            },
            0x21 => {
                proof {
                    lemma_opt_byte_on_off(b);
                }
                self.exp_tone_vol_pcm_2 = OnOff::from_byte(b);
            },
            0x22 => {
                proof {
                    lemma_opt_byte_on_off(b);
                }
                self.exp_tone_vol_modeling = OnOff::from_byte(b);
            },
            0x23 => {
                proof {
                    lemma_opt_byte_on_off(b);
                }
                self.exp_tone_vol_normal_pu = OnOff::from_byte(b);
            },
            0x24 => {
                proof {
                    lemma_opt_byte_pitch_bend_depth(b);
                }
                self.exp_pitch_bend_depth = PitchBendDepth::from_byte(b);
            },
            0x25 => {
                proof {
                    lemma_opt_byte_on_off(b);
                }
                self.exp_pitch_bend_pcm_1 = OnOff::from_byte(b);
            },
            0x26 => {
                proof {
                    lemma_opt_byte_on_off(b);
                }
                self.exp_pitch_bend_pcm_2 = OnOff::from_byte(b);
            },
            0x27 => {
                proof {
                    lemma_opt_byte_on_off(b);
                }
                self.exp_pitch_bend_modeling = OnOff::from_byte(b);
            },
            0x28 => {
                if b <= 127 {
                    self.exp_mod_min = Some(b);
                } else {
                    self.unknown_bytes.insert(key, b);
                }
            },
            0x29 => {
                if b <= 127 {
                    self.exp_mod_max = Some(b);
                } else {
                    self.unknown_bytes.insert(key, b);
                }
            },
            0x2A => {
                proof {
                    lemma_opt_byte_on_off(b);
                }
                self.exp_mod_pcm_1 = OnOff::from_byte(b);
            },
            0x2B => {
                proof {
                    lemma_opt_byte_on_off(b);
                }
                self.exp_mod_pcm_2 = OnOff::from_byte(b);
            },
            0x2C => {
                proof {
                    lemma_opt_byte_cross_fader_mode(b);
                }
                self.exp_cross_fader_pcm_1 = CrossFaderMode::from_byte(b);
            },
            0x2D => {
                proof {
                    lemma_opt_byte_cross_fader_mode(b);
                }
                self.exp_cross_fader_pcm_2 = CrossFaderMode::from_byte(b);
            },
            0x2E => {
                proof {
                    lemma_opt_byte_cross_fader_mode(b);
                }
                self.exp_cross_fader_modeling = CrossFaderMode::from_byte(b);
            },
            0x2F => {
                proof {
                    lemma_opt_byte_cross_fader_mode(b);
                }
                self.exp_cross_fader_normal_pu = CrossFaderMode::from_byte(b);
            },
            0x30 => {
                if b <= 120 {
                    self.exp_delay_min = Some(b);
                } else {
                    self.unknown_bytes.insert(key, b);
                }
            },
            0x31 => {
                if b <= 120 {
                    self.exp_delay_max = Some(b);
                } else {
                    self.unknown_bytes.insert(key, b);
                }
            },
            0x32 => {
                if b <= 100 {
                    self.exp_reverb_min = Some(b);
                } else {
                    self.unknown_bytes.insert(key, b);
                }
            },
            0x33 => {
                if b <= 100 {
                    self.exp_reverb_max = Some(b);
                } else {
                    self.unknown_bytes.insert(key, b);
                }
            },
            0x34 => {
                if b <= 100 {
                    self.exp_chorus_min = Some(b);
                } else {
                    self.unknown_bytes.insert(key, b);
                }
            },
            0x35 => {
                if b <= 100 {
                    self.exp_chorus_max = Some(b);
                } else {
                    self.unknown_bytes.insert(key, b);
                }
            },
            0x36 => {
                proof {
                    lemma_opt_byte_exp_function(b);
                }
                self.exp_on_function = ExpFunction::from_byte(b);
            },
            0x37 => {
                proof {
                    lemma_opt_byte_on_off(b);
                }
                self.exp_on_tone_vol_pcm_1 = OnOff::from_byte(b);
            },
            0x38 => {
                proof {
                    lemma_opt_byte_on_off(b);
                }
                self.exp_on_tone_vol_pcm_2 = OnOff::from_byte(b);
            },
            0x39 => {
                proof {
                    lemma_opt_byte_on_off(b);
                }
                self.exp_on_tone_vol_modeling = OnOff::from_byte(b);
            },
            0x3A => {
                proof {
                    lemma_opt_byte_on_off(b);
                }
                self.exp_on_tone_vol_normal_pu = OnOff::from_byte(b);
            },
            0x3B => {
                proof {
                    lemma_opt_byte_pitch_bend_depth(b);
                }
                self.exp_on_pitch_bend_depth = PitchBendDepth::from_byte(b);
            },
            0x3C => {
                proof {
                    lemma_opt_byte_on_off(b);
                }
                self.exp_on_pitch_bend_pcm_1 = OnOff::from_byte(b);
            },
            0x3D => {
                proof {
                    lemma_opt_byte_on_off(b);
                }
                self.exp_on_pitch_bend_pcm_2 = OnOff::from_byte(b);
            },
            0x3E => {
                proof {
                    lemma_opt_byte_on_off(b);
                }
                self.exp_on_pitch_bend_modeling = OnOff::from_byte(b);
            },
            0x3F => {
                if b <= 127 {
                    self.exp_on_mod_min = Some(b);
                } else {
                    self.unknown_bytes.insert(key, b);
                }
            },
            _ => {
                self.unknown_bytes.insert(key, b);
            },
        }
    }

    /// Typed wire byte at page `0x00` offset `l` of this range.
    fn p0b_byte(&self, l: u8) -> (r: Option<u8>)
        ensures
            r == self.p0b_at(l),
    {
        match l {
            0x20 => {
                proof {
                    reveal(opt_byte_on_off);
                }
                match self.exp_tone_vol_pcm_1 {
                    Some(v) => Some(v.to_byte()),
                    None => None,
                }
            },
            0x21 => {
                proof {
                    reveal(opt_byte_on_off);
                }
                match self.exp_tone_vol_pcm_2 {
                    Some(v) => Some(v.to_byte()),
                    None => None,
                }
            },
            0x22 => {
                proof {
                    reveal(opt_byte_on_off);
                }
                match self.exp_tone_vol_modeling {
                    Some(v) => Some(v.to_byte()),
                    None => None,
                }
            },
            0x23 => {
                proof {
                    reveal(opt_byte_on_off);
                }
                match self.exp_tone_vol_normal_pu {
                    Some(v) => Some(v.to_byte()),
                    None => None,
                }
            },
            0x24 => {
                proof {
                    reveal(opt_byte_pitch_bend_depth);
                }
                match self.exp_pitch_bend_depth {
                    Some(v) => Some(v.to_byte()),
                    None => None,
                }
            },
            0x25 => {
                proof {
                    reveal(opt_byte_on_off);
                }
                match self.exp_pitch_bend_pcm_1 {
                    Some(v) => Some(v.to_byte()),
                    None => None,
                }
            },
            0x26 => {
                proof {
                    reveal(opt_byte_on_off);
                }
                match self.exp_pitch_bend_pcm_2 {
                    Some(v) => Some(v.to_byte()),
                    None => None,
                }
            },
            0x27 => {
                proof {
                    reveal(opt_byte_on_off);
                }
                match self.exp_pitch_bend_modeling {
                    Some(v) => Some(v.to_byte()),
                    None => None,
                }
            },
            0x28 => self.exp_mod_min,
            0x29 => self.exp_mod_max,
            0x2A => {
                proof {
                    reveal(opt_byte_on_off);
                }
                match self.exp_mod_pcm_1 {
                    Some(v) => Some(v.to_byte()),
                    None => None,
                }
            },
            0x2B => {
                proof {
                    reveal(opt_byte_on_off);
                }
                match self.exp_mod_pcm_2 {
                    Some(v) => Some(v.to_byte()),
                    None => None,
                }
            },
            0x2C => {
                proof {
                    reveal(opt_byte_cross_fader_mode);
                }
                match self.exp_cross_fader_pcm_1 {
                    Some(v) => Some(v.to_byte()),
                    None => None,
                }
            },
            0x2D => {
                proof {
                    reveal(opt_byte_cross_fader_mode);
                }
                match self.exp_cross_fader_pcm_2 {
                    Some(v) => Some(v.to_byte()),
                    None => None,
                }
            },
            0x2E => {
                proof {
                    reveal(opt_byte_cross_fader_mode);
                }
                match self.exp_cross_fader_modeling {
                    Some(v) => Some(v.to_byte()),
                    None => None,
                }
            },
            0x2F => {
                proof {
                    reveal(opt_byte_cross_fader_mode);
                }
                match self.exp_cross_fader_normal_pu {
                    Some(v) => Some(v.to_byte()),
                    None => None,
                }
            },
            0x30 => self.exp_delay_min,
            0x31 => self.exp_delay_max,
            0x32 => self.exp_reverb_min,
            0x33 => self.exp_reverb_max,
            0x34 => self.exp_chorus_min,
            0x35 => self.exp_chorus_max,
            0x36 => {
                proof {
                    reveal(opt_byte_exp_function);
                }
                match self.exp_on_function {
                    Some(v) => Some(v.to_byte()),
                    None => None,
                }
            },
            0x37 => {
                proof {
                    reveal(opt_byte_on_off);
                }
                match self.exp_on_tone_vol_pcm_1 {
                    Some(v) => Some(v.to_byte()),
                    None => None,
                }
            },
            0x38 => {
                proof {
                    reveal(opt_byte_on_off);
                }
                match self.exp_on_tone_vol_pcm_2 {
                    Some(v) => Some(v.to_byte()),
                    None => None,
                }
            },
            0x39 => {
                proof {
                    reveal(opt_byte_on_off);
                }
                match self.exp_on_tone_vol_modeling {
                    Some(v) => Some(v.to_byte()),
                    None => None,
                }
            },
            0x3A => {
                proof {
                    reveal(opt_byte_on_off);
                }
                match self.exp_on_tone_vol_normal_pu {
                    Some(v) => Some(v.to_byte()),
                    None => None,
                }
            },
            0x3B => {
                proof {
                    reveal(opt_byte_pitch_bend_depth);
                }
                match self.exp_on_pitch_bend_depth {
                    Some(v) => Some(v.to_byte()),
                    None => None,
                }
            },
            0x3C => {
                proof {
                    reveal(opt_byte_on_off);
                }
                match self.exp_on_pitch_bend_pcm_1 {
                    Some(v) => Some(v.to_byte()),
                    None => None,
                }
            },
            0x3D => {
                proof {
                    reveal(opt_byte_on_off);
                }
                match self.exp_on_pitch_bend_pcm_2 {
                    Some(v) => Some(v.to_byte()),
                    None => None,
                }
            },
            0x3E => {
                proof {
                    reveal(opt_byte_on_off);
                }
                match self.exp_on_pitch_bend_modeling {
                    Some(v) => Some(v.to_byte()),
                    None => None,
                }
            },
            0x3F => self.exp_on_mod_min,
            _ => None,
        }
    }

    /// Store a byte at page `0x00` offset `lo` of this range.
    #[verifier::rlimit(60)]
    fn store_p0c(&mut self, lo: u8, b: u8)
        requires
            0x40 <= lo <= 0x5F,
        ensures
            Self::chunk_post(*final(self), *old(self), 0x00, 0, lo, b),
    {
        let key = address_key([0, 0x00, 0, lo]);
        match lo {
            0x40 => {
                if b <= 127 {
                    self.exp_on_mod_max = Some(b);
                } else {
                    self.unknown_bytes.insert(key, b);
                }
            },
            0x41 => {
                proof {
                    lemma_opt_byte_on_off(b);
                }
                self.exp_on_mod_pcm_1 = OnOff::from_byte(b);
            },
            0x42 => {
                proof {
                    lemma_opt_byte_on_off(b);
                }
                self.exp_on_mod_pcm_2 = OnOff::from_byte(b);
            },
            0x43 => {
                proof {
                    lemma_opt_byte_cross_fader_mode(b);
                }
                self.exp_on_cross_fader_pcm_1 = CrossFaderMode::from_byte(b);
            },
            0x44 => {
                proof {
                    lemma_opt_byte_cross_fader_mode(b);
                }
                self.exp_on_cross_fader_pcm_2 = CrossFaderMode::from_byte(b);
            },
            0x45 => {
                proof {
                    lemma_opt_byte_cross_fader_mode(b);
                }
                self.exp_on_cross_fader_modeling = CrossFaderMode::from_byte(b);
            },
            0x46 => {
                proof {
                    lemma_opt_byte_cross_fader_mode(b);
                }
                self.exp_on_cross_fader_normal_pu = CrossFaderMode::from_byte(b);
            },
            0x47 => {
                if b <= 120 {
                    self.exp_on_delay_min = Some(b);
                } else {
                    self.unknown_bytes.insert(key, b);
                }
            },
            0x48 => {
                if b <= 120 {
                    self.exp_on_delay_max = Some(b);
                } else {
                    self.unknown_bytes.insert(key, b);
                }
            },
            0x49 => {
                if b <= 100 {
                    self.exp_on_reverb_min = Some(b);
                } else {
                    self.unknown_bytes.insert(key, b);
                }
            },
            0x4A => {
                if b <= 100 {
                    self.exp_on_reverb_max = Some(b);
                } else {
                    self.unknown_bytes.insert(key, b);
                }
            },
            0x4B => {
                if b <= 100 {
                    self.exp_on_chorus_min = Some(b);
                } else {
                    self.unknown_bytes.insert(key, b);
                }
            },
            0x4C => {
                if b <= 100 {
                    self.exp_on_chorus_max = Some(b);
                } else {
                    self.unknown_bytes.insert(key, b);
                }
            },
            0x4D => {
                proof {
                    lemma_opt_byte_on_off(b);
                }
                self.exp_sw_status = OnOff::from_byte(b);
            },
            0x4E => {
                proof {
                    lemma_opt_byte_exp_sw_function(b);
                }
                self.exp_sw_function = ExpSwFunction::from_byte(b);
            },
            0x53 => {
                proof {
                    lemma_opt_byte_on_off(b);
                }
                self.exp_sw_tone_sw_off_pcm_1 = OnOff::from_byte(b);
            },
            0x54 => {
                proof {
                    lemma_opt_byte_on_off(b);
                }
                self.exp_sw_tone_sw_off_pcm_2 = OnOff::from_byte(b);
            },
            0x55 => {
                proof {
                    lemma_opt_byte_on_off(b);
                }
                self.exp_sw_tone_sw_off_modeling = OnOff::from_byte(b);
            },
            0x56 => {
                proof {
                    lemma_opt_byte_on_off(b);
                }
                self.exp_sw_tone_sw_off_normal_pu = OnOff::from_byte(b);
            },
            0x57 => {
                proof {
                    lemma_opt_byte_on_off(b);
                }
                self.exp_sw_tone_sw_on_pcm_1 = OnOff::from_byte(b);
            },
            0x58 => {
                proof {
                    lemma_opt_byte_on_off(b);
                }
                self.exp_sw_tone_sw_on_pcm_2 = OnOff::from_byte(b);
            },
            0x59 => {
                proof {
                    lemma_opt_byte_on_off(b);
                }
                self.exp_sw_tone_sw_on_modeling = OnOff::from_byte(b);
            },
            0x5A => {
                proof {
                    lemma_opt_byte_on_off(b);
                }
                self.exp_sw_tone_sw_on_normal_pu = OnOff::from_byte(b);
            },
            0x5B => {
                proof {
                    lemma_opt_byte_exp_function(b);
                }
                self.gk_vol_function = ExpFunction::from_byte(b);
            },
            0x5C => {
                proof {
                    lemma_opt_byte_on_off(b);
                }
                self.gk_vol_tone_vol_pcm_1 = OnOff::from_byte(b);
            },
            0x5D => {
                proof {
                    lemma_opt_byte_on_off(b);
                }
                self.gk_vol_tone_vol_pcm_2 = OnOff::from_byte(b);
            },
            0x5E => {
                proof {
                    lemma_opt_byte_on_off(b);
                }
                self.gk_vol_tone_vol_modeling = OnOff::from_byte(b);
            },
            0x5F => {
                proof {
                    lemma_opt_byte_on_off(b);
                }
                self.gk_vol_tone_vol_normal_pu = OnOff::from_byte(b);
            },
            _ => {
                self.unknown_bytes.insert(key, b);
            },
        }
    }

    /// Typed wire byte at page `0x00` offset `l` of this range.
    fn p0c_byte(&self, l: u8) -> (r: Option<u8>)
        ensures
            r == self.p0c_at(l),
    {
        match l {
            0x40 => self.exp_on_mod_max,
            0x41 => {
                proof {
                    reveal(opt_byte_on_off);
                }
                match self.exp_on_mod_pcm_1 {
                    Some(v) => Some(v.to_byte()),
                    None => None,
                }
            },
            0x42 => {
                proof {
                    reveal(opt_byte_on_off);
                }
                match self.exp_on_mod_pcm_2 {
                    Some(v) => Some(v.to_byte()),
                    None => None,
                }
            },
            0x43 => {
                proof {
                    reveal(opt_byte_cross_fader_mode);
                }
                match self.exp_on_cross_fader_pcm_1 {
                    Some(v) => Some(v.to_byte()),
                    None => None,
                }
            },
            0x44 => {
                proof {
                    reveal(opt_byte_cross_fader_mode);
                }
                match self.exp_on_cross_fader_pcm_2 {
                    Some(v) => Some(v.to_byte()),
                    None => None,
                }
            },
            0x45 => {
                proof {
                    reveal(opt_byte_cross_fader_mode);
                }
                match self.exp_on_cross_fader_modeling {
                    Some(v) => Some(v.to_byte()),
                    None => None,
                }
            },
            0x46 => {
                proof {
                    reveal(opt_byte_cross_fader_mode);
                }
                match self.exp_on_cross_fader_normal_pu {
                    Some(v) => Some(v.to_byte()),
                    None => None,
                }
            },
            0x47 => self.exp_on_delay_min,
            0x48 => self.exp_on_delay_max,
            0x49 => self.exp_on_reverb_min,
            0x4A => self.exp_on_reverb_max,
            0x4B => self.exp_on_chorus_min,
            0x4C => self.exp_on_chorus_max,
            0x4D => {
                proof {
                    reveal(opt_byte_on_off);
                }
                match self.exp_sw_status {
                    Some(v) => Some(v.to_byte()),
                    None => None,
                }
            },
            0x4E => {
                proof {
                    reveal(opt_byte_exp_sw_function);
                }
                match self.exp_sw_function {
                    Some(v) => Some(v.to_byte()),
                    None => None,
                }
            },
            0x53 => {
                proof {
                    reveal(opt_byte_on_off);
                }
                match self.exp_sw_tone_sw_off_pcm_1 {
                    Some(v) => Some(v.to_byte()),
                    None => None,
                }
            },
            0x54 => {
                proof {
                    reveal(opt_byte_on_off);
                }
                match self.exp_sw_tone_sw_off_pcm_2 {
                    Some(v) => Some(v.to_byte()),
                    None => None,
                }
            },
            0x55 => {
                proof {
                    reveal(opt_byte_on_off);
                }
                match self.exp_sw_tone_sw_off_modeling {
                    Some(v) => Some(v.to_byte()),
                    None => None,
                }
            },
            0x56 => {
                proof {
                    reveal(opt_byte_on_off);
                }
                match self.exp_sw_tone_sw_off_normal_pu {
                    Some(v) => Some(v.to_byte()),
                    None => None,
                }
            },
            0x57 => {
                proof {
                    reveal(opt_byte_on_off);
                }
                match self.exp_sw_tone_sw_on_pcm_1 {
                    Some(v) => Some(v.to_byte()),
                    None => None,
                }
            },
            0x58 => {
                proof {
                    reveal(opt_byte_on_off);
                }
                match self.exp_sw_tone_sw_on_pcm_2 {
                    Some(v) => Some(v.to_byte()),
                    None => None,
                }
            },
            0x59 => {
                proof {
                    reveal(opt_byte_on_off);
                }
                match self.exp_sw_tone_sw_on_modeling {
                    Some(v) => Some(v.to_byte()),
                    None => None,
                }
            },
            0x5A => {
                proof {
                    reveal(opt_byte_on_off);
                }
                match self.exp_sw_tone_sw_on_normal_pu {
                    Some(v) => Some(v.to_byte()),
                    None => None,
                }
            },
            0x5B => {
                proof {
                    reveal(opt_byte_exp_function);
                }
                match self.gk_vol_function {
                    Some(v) => Some(v.to_byte()),
                    None => None,
                }
            },
            0x5C => {
                proof {
                    reveal(opt_byte_on_off);
                }
                match self.gk_vol_tone_vol_pcm_1 {
                    Some(v) => Some(v.to_byte()),
                    None => None,
                }
            },
            0x5D => {
                proof {
                    reveal(opt_byte_on_off);
                }
                match self.gk_vol_tone_vol_pcm_2 {
                    Some(v) => Some(v.to_byte()),
                    None => None,
                }
            },
            0x5E => {
                proof {
                    reveal(opt_byte_on_off);
                }
                match self.gk_vol_tone_vol_modeling {
                    Some(v) => Some(v.to_byte()),
                    None => None,
                }
            },
            0x5F => {
                proof {
                    reveal(opt_byte_on_off);
                }
                match self.gk_vol_tone_vol_normal_pu {
                    Some(v) => Some(v.to_byte()),
                    None => None,
                }
            },
            _ => None,
        }
    }

    /// Store a byte at page `0x00` offset `lo` of this range.
    #[verifier::rlimit(60)]
    fn store_p0d(&mut self, lo: u8, b: u8)
        requires
            0x60 <= lo,
        ensures
            Self::chunk_post(*final(self), *old(self), 0x00, 0, lo, b),
    {
        let key = address_key([0, 0x00, 0, lo]);
        match lo {
            0x60 => {
                proof {
                    lemma_opt_byte_pitch_bend_depth(b);
                }
                self.gk_vol_pitch_bend_depth = PitchBendDepth::from_byte(b);
            },
            0x61 => {
                proof {
                    lemma_opt_byte_on_off(b);
                }
                self.gk_vol_pitch_bend_pcm_1 = OnOff::from_byte(b);
            },
            0x62 => {
                proof {
                    lemma_opt_byte_on_off(b);
                }
                self.gk_vol_pitch_bend_pcm_2 = OnOff::from_byte(b);
            },
            0x63 => {
                proof {
                    lemma_opt_byte_on_off(b);
                }
                self.gk_vol_pitch_bend_modeling = OnOff::from_byte(b);
            },
            0x64 => {
                if b <= 127 {
                    self.gk_vol_mod_min = Some(b);
                } else {
                    self.unknown_bytes.insert(key, b);
                }
            },
            0x65 => {
                if b <= 127 {
                    self.gk_vol_mod_max = Some(b);
                } else {
                    self.unknown_bytes.insert(key, b);
                }
            },
            0x66 => {
                proof {
                    lemma_opt_byte_on_off(b);
                }
                self.gk_vol_mod_pcm_1 = OnOff::from_byte(b);
            },
            0x67 => {
                proof {
                    lemma_opt_byte_on_off(b);
                }
                self.gk_vol_mod_pcm_2 = OnOff::from_byte(b);
            },
            0x68 => {
                proof {
                    lemma_opt_byte_cross_fader_mode(b);
                }
                self.gk_vol_cross_fader_pcm_1 = CrossFaderMode::from_byte(b);
            },
            0x69 => {
                proof {
                    lemma_opt_byte_cross_fader_mode(b);
                }
                self.gk_vol_cross_fader_pcm_2 = CrossFaderMode::from_byte(b);
            },
            0x6A => {
                proof {
                    lemma_opt_byte_cross_fader_mode(b);
                }
                self.gk_vol_cross_fader_modeling = CrossFaderMode::from_byte(b);
            },
            0x6B => {
                proof {
                    lemma_opt_byte_cross_fader_mode(b);
                }
                self.gk_vol_cross_fader_normal_pu = CrossFaderMode::from_byte(b);
            },
            0x6C => {
                if b <= 120 {
                    self.gk_vol_delay_min = Some(b);
                } else {
                    self.unknown_bytes.insert(key, b);
                }
            },
            0x6D => {
                if b <= 120 {
                    self.gk_vol_delay_max = Some(b);
                } else {
                    self.unknown_bytes.insert(key, b);
                }
            },
            0x6E => {
                if b <= 100 {
                    self.gk_vol_reverb_min = Some(b);
                } else {
                    self.unknown_bytes.insert(key, b);
                }
            },
            0x6F => {
                if b <= 100 {
                    self.gk_vol_reverb_max = Some(b);
                } else {
                    self.unknown_bytes.insert(key, b);
                }
            },
            0x70 => {
                if b <= 100 {
                    self.gk_vol_chorus_min = Some(b);
                } else {
                    self.unknown_bytes.insert(key, b);
                }
            },
            0x71 => {
                if b <= 100 {
                    self.gk_vol_chorus_max = Some(b);
                } else {
                    self.unknown_bytes.insert(key, b);
                }
            },
            0x72 => {
                proof {
                    lemma_opt_byte_exp_sw_function(b);
                }
                self.gk_s1_function = ExpSwFunction::from_byte(b);
            },
            0x77 => {
                proof {
                    lemma_opt_byte_on_off(b);
                }
                self.gk_s1_tone_sw_off_pcm_1 = OnOff::from_byte(b);
            },
            0x78 => {
                proof {
                    lemma_opt_byte_on_off(b);
                }
                self.gk_s1_tone_sw_off_pcm_2 = OnOff::from_byte(b);
            },
            0x79 => {
                proof {
                    lemma_opt_byte_on_off(b);
                }
                self.gk_s1_tone_sw_off_modeling = OnOff::from_byte(b);
            },
            0x7A => {
                proof {
                    lemma_opt_byte_on_off(b);
                }
                self.gk_s1_tone_sw_off_normal_pu = OnOff::from_byte(b);
            },
            0x7B => {
                proof {
                    lemma_opt_byte_on_off(b);
                }
                self.gk_s1_tone_sw_on_pcm_1 = OnOff::from_byte(b);
            },
            0x7C => {
                proof {
                    lemma_opt_byte_on_off(b);
                }
                self.gk_s1_tone_sw_on_pcm_2 = OnOff::from_byte(b);
            },
            0x7D => {
                proof {
                    lemma_opt_byte_on_off(b);
                }
                self.gk_s1_tone_sw_on_modeling = OnOff::from_byte(b);
            },
            0x7E => {
                proof {
                    lemma_opt_byte_on_off(b);
                }
                self.gk_s1_tone_sw_on_normal_pu = OnOff::from_byte(b);
            },
            0x7F => {
                proof {
                    lemma_opt_byte_exp_sw_function(b);
                }
                self.gk_s2_function = ExpSwFunction::from_byte(b);
            },
            _ => {
                self.unknown_bytes.insert(key, b);
            },
        }
    }

    /// Typed wire byte at page `0x00` offset `l` of this range.
    fn p0d_byte(&self, l: u8) -> (r: Option<u8>)
        ensures
            r == self.p0d_at(l),
    {
        match l {
            0x60 => {
                proof {
                    reveal(opt_byte_pitch_bend_depth);
                }
                match self.gk_vol_pitch_bend_depth {
                    Some(v) => Some(v.to_byte()),
                    None => None,
                }
            },
            0x61 => {
                proof {
                    reveal(opt_byte_on_off);
                }
                match self.gk_vol_pitch_bend_pcm_1 {
                    Some(v) => Some(v.to_byte()),
                    None => None,
                }
            },
            0x62 => {
                proof {
                    reveal(opt_byte_on_off);
                }
                match self.gk_vol_pitch_bend_pcm_2 {
                    Some(v) => Some(v.to_byte()),
                    None => None,
                }
            },
            0x63 => {
                proof {
                    reveal(opt_byte_on_off);
                }
                match self.gk_vol_pitch_bend_modeling {
                    Some(v) => Some(v.to_byte()),
                    None => None,
                }
            },
            0x64 => self.gk_vol_mod_min,
            0x65 => self.gk_vol_mod_max,
            0x66 => {
                proof {
                    reveal(opt_byte_on_off);
                }
                match self.gk_vol_mod_pcm_1 {
                    Some(v) => Some(v.to_byte()),
                    None => None,
                }
            },
            0x67 => {
                proof {
                    reveal(opt_byte_on_off);
                }
                match self.gk_vol_mod_pcm_2 {
                    Some(v) => Some(v.to_byte()),
                    None => None,
                }
            },
            0x68 => {
                proof {
                    reveal(opt_byte_cross_fader_mode);
                }
                match self.gk_vol_cross_fader_pcm_1 {
                    Some(v) => Some(v.to_byte()),
                    None => None,
                }
            },
            0x69 => {
                proof {
                    reveal(opt_byte_cross_fader_mode);
                }
                match self.gk_vol_cross_fader_pcm_2 {
                    Some(v) => Some(v.to_byte()),
                    None => None,
                }
            },
            0x6A => {
                proof {
                    reveal(opt_byte_cross_fader_mode);
                }
                match self.gk_vol_cross_fader_modeling {
                    Some(v) => Some(v.to_byte()),
                    None => None,
                }
            },
            0x6B => {
                proof {
                    reveal(opt_byte_cross_fader_mode);
                }
                match self.gk_vol_cross_fader_normal_pu {
                    Some(v) => Some(v.to_byte()),
                    None => None,
                }
            },
            0x6C => self.gk_vol_delay_min,
            0x6D => self.gk_vol_delay_max,
            0x6E => self.gk_vol_reverb_min,
            0x6F => self.gk_vol_reverb_max,
            0x70 => self.gk_vol_chorus_min,
            0x71 => self.gk_vol_chorus_max,
            0x72 => {
                proof {
                    reveal(opt_byte_exp_sw_function);
                }
                match self.gk_s1_function {
                    Some(v) => Some(v.to_byte()),
                    None => None,
                }
            },
            0x77 => {
                proof {
                    reveal(opt_byte_on_off);
                }
                match self.gk_s1_tone_sw_off_pcm_1 {
                    Some(v) => Some(v.to_byte()),
                    None => None,
                }
            },
            0x78 => {
                proof {
                    reveal(opt_byte_on_off);
                }
                match self.gk_s1_tone_sw_off_pcm_2 {
                    Some(v) => Some(v.to_byte()),
                    None => None,
                }
            },
            0x79 => {
                proof {
                    reveal(opt_byte_on_off);
                }
                match self.gk_s1_tone_sw_off_modeling {
                    Some(v) => Some(v.to_byte()),
                    None => None,
                }
            },
            0x7A => {
                proof {
                    reveal(opt_byte_on_off);
                }
                match self.gk_s1_tone_sw_off_normal_pu {
                    Some(v) => Some(v.to_byte()),
                    None => None,
                }
            },
            0x7B => {
                proof {
                    reveal(opt_byte_on_off);
                }
                match self.gk_s1_tone_sw_on_pcm_1 {
                    Some(v) => Some(v.to_byte()),
                    None => None,
                }
            },
            0x7C => {
                proof {
                    reveal(opt_byte_on_off);
                }
                match self.gk_s1_tone_sw_on_pcm_2 {
                    Some(v) => Some(v.to_byte()),
                    None => None,
                }
            },
            0x7D => {
                proof {
                    reveal(opt_byte_on_off);
                }
                match self.gk_s1_tone_sw_on_modeling {
                    Some(v) => Some(v.to_byte()),
                    None => None,
                }
            },
            0x7E => {
                proof {
                    reveal(opt_byte_on_off);
                }
                match self.gk_s1_tone_sw_on_normal_pu {
                    Some(v) => Some(v.to_byte()),
                    None => None,
                }
            },
            0x7F => {
                proof {
                    reveal(opt_byte_exp_sw_function);
                }
                match self.gk_s2_function {
                    Some(v) => Some(v.to_byte()),
                    None => None,
                }
            },
            _ => None,
        }
    }

    /// Store a byte at page `0x01` offset `lo` of this range.
    #[verifier::rlimit(60)]
    fn store_p1(&mut self, lo: u8, b: u8)
        requires
            0x00 <= lo <= 0x0B,
        ensures
            Self::chunk_post(*final(self), *old(self), 0x01, 0, lo, b),
    {
        let key = address_key([0, 0x01, 0, lo]);
        match lo {
            0x04 => {
                proof {
                    lemma_opt_byte_on_off(b);
                }
                self.gk_s2_tone_sw_off_pcm_1 = OnOff::from_byte(b);
            },
            0x05 => {
                proof {
                    lemma_opt_byte_on_off(b);
                }
                self.gk_s2_tone_sw_off_pcm_2 = OnOff::from_byte(b);
            },
            0x06 => {
                proof {
                    lemma_opt_byte_on_off(b);
                }
                self.gk_s2_tone_sw_off_modeling = OnOff::from_byte(b);
            },
            0x07 => {
                proof {
                    lemma_opt_byte_on_off(b);
                }
                self.gk_s2_tone_sw_off_normal_pu = OnOff::from_byte(b);
            },
            0x08 => {
                proof {
                    lemma_opt_byte_on_off(b);
                }
                self.gk_s2_tone_sw_on_pcm_1 = OnOff::from_byte(b);
            },
            0x09 => {
                proof {
                    lemma_opt_byte_on_off(b);
                }
                self.gk_s2_tone_sw_on_pcm_2 = OnOff::from_byte(b);
            },
            0x0A => {
                proof {
                    lemma_opt_byte_on_off(b);
                }
                self.gk_s2_tone_sw_on_modeling = OnOff::from_byte(b);
            },
            0x0B => {
                proof {
                    lemma_opt_byte_on_off(b);
                }
                self.gk_s2_tone_sw_on_normal_pu = OnOff::from_byte(b);
            },
            _ => {
                self.unknown_bytes.insert(key, b);
            },
        }
    }

    /// Typed wire byte at page `0x01` offset `l` of this range.
    fn p1_byte(&self, l: u8) -> (r: Option<u8>)
        ensures
            r == self.p1_at(l),
    {
        match l {
            0x04 => {
                proof {
                    reveal(opt_byte_on_off);
                }
                match self.gk_s2_tone_sw_off_pcm_1 {
                    Some(v) => Some(v.to_byte()),
                    None => None,
                }
            },
            0x05 => {
                proof {
                    reveal(opt_byte_on_off);
                }
                match self.gk_s2_tone_sw_off_pcm_2 {
                    Some(v) => Some(v.to_byte()),
                    None => None,
                }
            },
            0x06 => {
                proof {
                    reveal(opt_byte_on_off);
                }
                match self.gk_s2_tone_sw_off_modeling {
                    Some(v) => Some(v.to_byte()),
                    None => None,
                }
            },
            0x07 => {
                proof {
                    reveal(opt_byte_on_off);
                }
                match self.gk_s2_tone_sw_off_normal_pu {
                    Some(v) => Some(v.to_byte()),
                    None => None,
                }
            },
            0x08 => {
                proof {
                    reveal(opt_byte_on_off);
                }
                match self.gk_s2_tone_sw_on_pcm_1 {
                    Some(v) => Some(v.to_byte()),
                    None => None,
                }
            },
            0x09 => {
                proof {
                    reveal(opt_byte_on_off);
                }
                match self.gk_s2_tone_sw_on_pcm_2 {
                    Some(v) => Some(v.to_byte()),
                    None => None,
                }
            },
            0x0A => {
                proof {
                    reveal(opt_byte_on_off);
                }
                match self.gk_s2_tone_sw_on_modeling {
                    Some(v) => Some(v.to_byte()),
                    None => None,
                }
            },
            0x0B => {
                proof {
                    reveal(opt_byte_on_off);
                }
                match self.gk_s2_tone_sw_on_normal_pu {
                    Some(v) => Some(v.to_byte()),
                    None => None,
                }
            },
            _ => None,
        }
    }

    /// Store a byte at page `0x02` offset `lo` of this range.
    #[verifier::rlimit(60)]
    fn store_p2(&mut self, lo: u8, b: u8)
        requires
            0x24 <= lo,
        ensures
            Self::chunk_post(*final(self), *old(self), 0x02, 0, lo, b),
    {
        let key = address_key([0, 0x02, 0, lo]);
        match lo {
            0x36..=0x3B => {
                if 0x28 <= b && b <= 0x58 {
                    self.alt_tuning_user_shift[(lo - 0x36) as usize] = Some(b);
                } else {
                    self.unknown_bytes.insert(key, b);
                }
            },
            0x24 => {
                proof {
                    lemma_opt_byte_patch_gk_set(b);
                }
                self.gk_set = PatchGkSet::from_byte(b);
            },
            0x25 => {
                proof {
                    lemma_opt_byte_guitar_out(b);
                }
                self.guitar_out = GuitarOut::from_byte(b);
            },
            0x26 => {
                if b <= 32 {
                    self.v_link_pallet = Some(b);
                } else {
                    self.unknown_bytes.insert(key, b);
                }
            },
            0x27 => {
                if b <= 32 {
                    self.v_link_clip = Some(b);
                } else {
                    self.unknown_bytes.insert(key, b);
                }
            },
            0x28 => {
                if b <= 4 {
                    self.v_link_note_clip_change = Some(b);
                } else {
                    self.unknown_bytes.insert(key, b);
                }
            },
            0x29 => {
                proof {
                    lemma_opt_byte_v_link_control(b);
                }
                self.v_link_exp = VLinkControl::from_byte(b);
            },
            0x2A => {
                proof {
                    lemma_opt_byte_v_link_control(b);
                }
                self.v_link_exp_on = VLinkControl::from_byte(b);
            },
            0x2B => {
                proof {
                    lemma_opt_byte_v_link_control(b);
                }
                self.v_link_gk_vol = VLinkControl::from_byte(b);
            },
            0x2C => {
                proof {
                    lemma_opt_byte_patch_structure(b);
                }
                self.structure = PatchStructure::from_byte(b);
            },
            0x2D => {
                proof {
                    lemma_opt_byte_line_route(b);
                }
                self.modeling_line_route = LineRoute::from_byte(b);
            },
            0x2E => {
                proof {
                    lemma_opt_byte_line_route(b);
                }
                self.analog_pu_line_route = LineRoute::from_byte(b);
            },
            0x32 => {
                proof {
                    lemma_opt_byte_analog_pu_tone_sw(b);
                }
                self.analog_pu_tone_sw = AnalogPuToneSw::from_byte(b);
            },
            0x33 => {
                if b <= 100 {
                    self.analog_pu_tone_level = Some(b);
                } else {
                    self.unknown_bytes.insert(key, b);
                }
            },
            0x34 => {
                proof {
                    lemma_opt_byte_on_off(b);
                }
                self.alt_tuning_sw = OnOff::from_byte(b);
            },
            0x35 => {
                proof {
                    lemma_opt_byte_alt_tuning_type(b);
                }
                self.alt_tuning_type = AltTuningType::from_byte(b);
            },
            0x3E => {
                if b <= 100 {
                    self.bypass_chorus = Some(b);
                } else {
                    self.unknown_bytes.insert(key, b);
                }
            },
            0x3F => {
                if b <= 100 {
                    self.bypass_delay = Some(b);
                } else {
                    self.unknown_bytes.insert(key, b);
                }
            },
            0x40 => {
                if b <= 100 {
                    self.bypass_reverb = Some(b);
                } else {
                    self.unknown_bytes.insert(key, b);
                }
            },
            0x42 => {
                if b <= 127 {
                    self.exp_mod_min_envelope = Some(b);
                } else {
                    self.unknown_bytes.insert(key, b);
                }
            },
            0x43 => {
                if b <= 127 {
                    self.exp_mod_max_envelope = Some(b);
                } else {
                    self.unknown_bytes.insert(key, b);
                }
            },
            0x44 => {
                if b <= 127 {
                    self.exp_on_mod_min_envelope = Some(b);
                } else {
                    self.unknown_bytes.insert(key, b);
                }
            },
            0x45 => {
                if b <= 127 {
                    self.exp_on_mod_max_envelope = Some(b);
                } else {
                    self.unknown_bytes.insert(key, b);
                }
            },
            0x46 => {
                if b <= 127 {
                    self.gk_vol_mod_min_envelope = Some(b);
                } else {
                    self.unknown_bytes.insert(key, b);
                }
            },
            0x47 => {
                if b <= 127 {
                    self.gk_vol_mod_max_envelope = Some(b);
                } else {
                    self.unknown_bytes.insert(key, b);
                }
            },
            _ => {
                self.unknown_bytes.insert(key, b);
            },
        }
    }

    /// Typed wire byte at page `0x02` offset `l` of this range.
    fn p2_byte(&self, l: u8) -> (r: Option<u8>)
        ensures
            r == self.p2_at(l),
    {
        match l {
            0x30 => match self.patch_level {
                Some(v) => Some(v.to_two_bytes()[0]),
                None => None,
            },
            0x31 => match self.patch_level {
                Some(v) => Some(v.to_two_bytes()[1]),
                None => None,
            },
            0x3C => match self.patch_tempo {
                Some(v) => Some(v.to_two_bytes()[0]),
                None => None,
            },
            0x3D => match self.patch_tempo {
                Some(v) => Some(v.to_two_bytes()[1]),
                None => None,
            },
            0x36..=0x3B => self.alt_tuning_user_shift[(l - 0x36) as usize],
            0x24 => {
                proof {
                    reveal(opt_byte_patch_gk_set);
                }
                match self.gk_set {
                    Some(v) => Some(v.to_byte()),
                    None => None,
                }
            },
            0x25 => {
                proof {
                    reveal(opt_byte_guitar_out);
                }
                match self.guitar_out {
                    Some(v) => Some(v.to_byte()),
                    None => None,
                }
            },
            0x26 => self.v_link_pallet,
            0x27 => self.v_link_clip,
            0x28 => self.v_link_note_clip_change,
            0x29 => {
                proof {
                    reveal(opt_byte_v_link_control);
                }
                match self.v_link_exp {
                    Some(v) => Some(v.to_byte()),
                    None => None,
                }
            },
            0x2A => {
                proof {
                    reveal(opt_byte_v_link_control);
                }
                match self.v_link_exp_on {
                    Some(v) => Some(v.to_byte()),
                    None => None,
                }
            },
            0x2B => {
                proof {
                    reveal(opt_byte_v_link_control);
                }
                match self.v_link_gk_vol {
                    Some(v) => Some(v.to_byte()),
                    None => None,
                }
            },
            0x2C => {
                proof {
                    reveal(opt_byte_patch_structure);
                }
                match self.structure {
                    Some(v) => Some(v.to_byte()),
                    None => None,
                }
            },
            0x2D => {
                proof {
                    reveal(opt_byte_line_route);
                }
                match self.modeling_line_route {
                    Some(v) => Some(v.to_byte()),
                    None => None,
                }
            },
            0x2E => {
                proof {
                    reveal(opt_byte_line_route);
                }
                match self.analog_pu_line_route {
                    Some(v) => Some(v.to_byte()),
                    None => None,
                }
            },
            0x32 => {
                proof {
                    reveal(opt_byte_analog_pu_tone_sw);
                }
                match self.analog_pu_tone_sw {
                    Some(v) => Some(v.to_byte()),
                    None => None,
                }
            },
            0x33 => self.analog_pu_tone_level,
            0x34 => {
                proof {
                    reveal(opt_byte_on_off);
                }
                match self.alt_tuning_sw {
                    Some(v) => Some(v.to_byte()),
                    None => None,
                }
            },
            0x35 => {
                proof {
                    reveal(opt_byte_alt_tuning_type);
                }
                match self.alt_tuning_type {
                    Some(v) => Some(v.to_byte()),
                    None => None,
                }
            },
            0x3E => self.bypass_chorus,
            0x3F => self.bypass_delay,
            0x40 => self.bypass_reverb,
            0x42 => self.exp_mod_min_envelope,
            0x43 => self.exp_mod_max_envelope,
            0x44 => self.exp_on_mod_min_envelope,
            0x45 => self.exp_on_mod_max_envelope,
            0x46 => self.gk_vol_mod_min_envelope,
            0x47 => self.gk_vol_mod_max_envelope,
            _ => None,
        }
    }

    /// Store a byte at page `0x06` offset `lo` of this range.
    #[verifier::rlimit(60)]
    fn store_p6(&mut self, lo: u8, b: u8)
        ensures
            Self::chunk_post(*final(self), *old(self), 0x06, 0, lo, b),
    {
        let key = address_key([0, 0x06, 0, lo]);
        match lo {
            0x00 => {
                proof {
                    lemma_opt_byte_on_off(b);
                }
                self.chorus_switch = OnOff::from_byte(b);
            },
            0x01 => {
                proof {
                    lemma_opt_byte_chorus_type(b);
                }
                self.chorus_type = ChorusType::from_byte(b);
            },
            0x02 => {
                if b <= 113 {
                    self.chorus_rate = Some(b);
                } else {
                    self.unknown_bytes.insert(key, b);
                }
            },
            0x03 => {
                if b <= 100 {
                    self.chorus_depth = Some(b);
                } else {
                    self.unknown_bytes.insert(key, b);
                }
            },
            0x04 => {
                if b <= 100 {
                    self.chorus_level = Some(b);
                } else {
                    self.unknown_bytes.insert(key, b);
                }
            },
            0x05 => {
                proof {
                    lemma_opt_byte_on_off(b);
                }
                self.delay_switch = OnOff::from_byte(b);
            },
            0x06 => {
                proof {
                    lemma_opt_byte_delay_type(b);
                }
                self.delay_type = DelayType::from_byte(b);
            },
            0x07 => {
                if b <= 15 {
                    self.delay_time = Some(b);
                } else {
                    self.unknown_bytes.insert(key, b);
                }
            },
            0x08 => {
                if b <= 15 {
                    self.delay_time_b = Some(b);
                } else {
                    self.unknown_bytes.insert(key, b);
                }
            },
            0x09 => {
                if b <= 15 {
                    self.delay_time_c = Some(b);
                } else {
                    self.unknown_bytes.insert(key, b);
                }
            },
            0x0A => {
                if b <= 100 {
                    self.delay_feedback = Some(b);
                } else {
                    self.unknown_bytes.insert(key, b);
                }
            },
            0x0B => {
                if b <= 120 {
                    self.delay_level = Some(b);
                } else {
                    self.unknown_bytes.insert(key, b);
                }
            },
            0x0C => {
                proof {
                    lemma_opt_byte_on_off(b);
                }
                self.reverb_switch = OnOff::from_byte(b);
            },
            0x0D => {
                proof {
                    lemma_opt_byte_reverb_type(b);
                }
                self.reverb_type = ReverbType::from_byte(b);
            },
            0x0E => {
                if b <= 99 {
                    self.reverb_time = Some(b);
                } else {
                    self.unknown_bytes.insert(key, b);
                }
            },
            0x0F => {
                proof {
                    lemma_opt_byte_reverb_high_cut(b);
                }
                self.reverb_high_cut = ReverbHighCut::from_byte(b);
            },
            0x10 => {
                if b <= 100 {
                    self.reverb_level = Some(b);
                } else {
                    self.unknown_bytes.insert(key, b);
                }
            },
            0x11 => {
                proof {
                    lemma_opt_byte_on_off(b);
                }
                self.patch_eq_switch = OnOff::from_byte(b);
            },
            0x12 => {
                proof {
                    lemma_opt_byte_patch_eq_lo_cut(b);
                }
                self.patch_eq_lo_cut = PatchEqLoCut::from_byte(b);
            },
            0x13 => {
                if b <= 40 {
                    self.patch_eq_low_gain = Some(b);
                } else {
                    self.unknown_bytes.insert(key, b);
                }
            },
            0x14 => {
                proof {
                    lemma_opt_byte_patch_eq_mid_freq(b);
                }
                self.patch_eq_lo_mid_freq = PatchEqMidFreq::from_byte(b);
            },
            0x15 => {
                proof {
                    lemma_opt_byte_patch_eq_mid_q(b);
                }
                self.patch_eq_lo_mid_q = PatchEqMidQ::from_byte(b);
            },
            0x16 => {
                if b <= 40 {
                    self.patch_eq_low_mid_gain = Some(b);
                } else {
                    self.unknown_bytes.insert(key, b);
                }
            },
            0x17 => {
                proof {
                    lemma_opt_byte_patch_eq_mid_freq(b);
                }
                self.patch_eq_hi_mid_freq = PatchEqMidFreq::from_byte(b);
            },
            0x18 => {
                proof {
                    lemma_opt_byte_patch_eq_mid_q(b);
                }
                self.patch_eq_hi_mid_q = PatchEqMidQ::from_byte(b);
            },
            0x19 => {
                if b <= 40 {
                    self.patch_eq_hi_mid_gain = Some(b);
                } else {
                    self.unknown_bytes.insert(key, b);
                }
            },
            0x1A => {
                proof {
                    lemma_opt_byte_patch_eq_high_cut(b);
                }
                self.patch_eq_high_cut = PatchEqHighCut::from_byte(b);
            },
            0x1B => {
                if b <= 40 {
                    self.patch_eq_high_gain = Some(b);
                } else {
                    self.unknown_bytes.insert(key, b);
                }
            },
            0x1C => {
                if b <= 40 {
                    self.patch_eq_level = Some(b);
                } else {
                    self.unknown_bytes.insert(key, b);
                }
            },
            0x1D => {
                proof {
                    lemma_opt_byte_patch_eq_character(b);
                }
                self.patch_eq_character = PatchEqCharacter::from_byte(b);
            },
            _ => {
                self.unknown_bytes.insert(key, b);
            },
        }
    }

    /// Typed wire byte at page `0x06` offset `l` of this range.
    fn p6_byte(&self, l: u8) -> (r: Option<u8>)
        ensures
            r == self.p6_at(l),
    {
        match l {
            0x00 => {
                proof {
                    reveal(opt_byte_on_off);
                }
                match self.chorus_switch {
                    Some(v) => Some(v.to_byte()),
                    None => None,
                }
            },
            0x01 => {
                proof {
                    reveal(opt_byte_chorus_type);
                }
                match self.chorus_type {
                    Some(v) => Some(v.to_byte()),
                    None => None,
                }
            },
            0x02 => self.chorus_rate,
            0x03 => self.chorus_depth,
            0x04 => self.chorus_level,
            0x05 => {
                proof {
                    reveal(opt_byte_on_off);
                }
                match self.delay_switch {
                    Some(v) => Some(v.to_byte()),
                    None => None,
                }
            },
            0x06 => {
                proof {
                    reveal(opt_byte_delay_type);
                }
                match self.delay_type {
                    Some(v) => Some(v.to_byte()),
                    None => None,
                }
            },
            0x07 => self.delay_time,
            0x08 => self.delay_time_b,
            0x09 => self.delay_time_c,
            0x0A => self.delay_feedback,
            0x0B => self.delay_level,
            0x0C => {
                proof {
                    reveal(opt_byte_on_off);
                }
                match self.reverb_switch {
                    Some(v) => Some(v.to_byte()),
                    None => None,
                }
            },
            0x0D => {
                proof {
                    reveal(opt_byte_reverb_type);
                }
                match self.reverb_type {
                    Some(v) => Some(v.to_byte()),
                    None => None,
                }
            },
            0x0E => self.reverb_time,
            0x0F => {
                proof {
                    reveal(opt_byte_reverb_high_cut);
                }
                match self.reverb_high_cut {
                    Some(v) => Some(v.to_byte()),
                    None => None,
                }
            },
            0x10 => self.reverb_level,
            0x11 => {
                proof {
                    reveal(opt_byte_on_off);
                }
                match self.patch_eq_switch {
                    Some(v) => Some(v.to_byte()),
                    None => None,
                }
            },
            0x12 => {
                proof {
                    reveal(opt_byte_patch_eq_lo_cut);
                }
                match self.patch_eq_lo_cut {
                    Some(v) => Some(v.to_byte()),
                    None => None,
                }
            },
            0x13 => self.patch_eq_low_gain,
            0x14 => {
                proof {
                    reveal(opt_byte_patch_eq_mid_freq);
                }
                match self.patch_eq_lo_mid_freq {
                    Some(v) => Some(v.to_byte()),
                    None => None,
                }
            },
            0x15 => {
                proof {
                    reveal(opt_byte_patch_eq_mid_q);
                }
                match self.patch_eq_lo_mid_q {
                    Some(v) => Some(v.to_byte()),
                    None => None,
                }
            },
            0x16 => self.patch_eq_low_mid_gain,
            0x17 => {
                proof {
                    reveal(opt_byte_patch_eq_mid_freq);
                }
                match self.patch_eq_hi_mid_freq {
                    Some(v) => Some(v.to_byte()),
                    None => None,
                }
            },
            0x18 => {
                proof {
                    reveal(opt_byte_patch_eq_mid_q);
                }
                match self.patch_eq_hi_mid_q {
                    Some(v) => Some(v.to_byte()),
                    None => None,
                }
            },
            0x19 => self.patch_eq_hi_mid_gain,
            0x1A => {
                proof {
                    reveal(opt_byte_patch_eq_high_cut);
                }
                match self.patch_eq_high_cut {
                    Some(v) => Some(v.to_byte()),
                    None => None,
                }
            },
            0x1B => self.patch_eq_high_gain,
            0x1C => self.patch_eq_level,
            0x1D => {
                proof {
                    reveal(opt_byte_patch_eq_character);
                }
                match self.patch_eq_character {
                    Some(v) => Some(v.to_byte()),
                    None => None,
                }
            },
            _ => None,
        }
    }

    /// Store a byte at page `0x07` offset `lo` of this range.
    #[verifier::rlimit(60)]
    fn store_p7a(&mut self, lo: u8, b: u8)
        requires
            0x00 <= lo <= 0x10,
        ensures
            Self::chunk_post(*final(self), *old(self), 0x07, 0, lo, b),
    {
        let key = address_key([0, 0x07, 0, lo]);
        match lo {
            0x00 => {
                proof {
                    lemma_opt_byte_on_off(b);
                }
                self.preamp_switch = OnOff::from_byte(b);
            },
            0x01 => {
                proof {
                    lemma_opt_byte_preamp_type(b);
                }
                self.preamp_type = PreampType::from_byte(b);
            },
            0x02 => {
                if b <= 120 {
                    self.preamp_gain = Some(b);
                } else {
                    self.unknown_bytes.insert(key, b);
                }
            },
            0x03 => {
                if b <= 100 {
                    self.preamp_level = Some(b);
                } else {
                    self.unknown_bytes.insert(key, b);
                }
            },
            0x04 => {
                proof {
                    lemma_opt_byte_preamp_gain_sw(b);
                }
                self.preamp_gain_sw = PreampGainSw::from_byte(b);
            },
            0x05 => {
                proof {
                    lemma_opt_byte_on_off(b);
                }
                self.preamp_solo_sw = OnOff::from_byte(b);
            },
            0x06 => {
                if b <= 100 {
                    self.preamp_solo_level = Some(b);
                } else {
                    self.unknown_bytes.insert(key, b);
                }
            },
            0x07 => {
                if b <= 100 {
                    self.preamp_bass = Some(b);
                } else {
                    self.unknown_bytes.insert(key, b);
                }
            },
            0x08 => {
                if b <= 100 {
                    self.preamp_middle = Some(b);
                } else {
                    self.unknown_bytes.insert(key, b);
                }
            },
            0x09 => {
                if b <= 100 {
                    self.preamp_treble = Some(b);
                } else {
                    self.unknown_bytes.insert(key, b);
                }
            },
            0x0A => {
                if b <= 100 {
                    self.preamp_presence = Some(b);
                } else {
                    self.unknown_bytes.insert(key, b);
                }
            },
            0x0B => {
                proof {
                    lemma_opt_byte_on_off(b);
                }
                self.preamp_bright_sw = OnOff::from_byte(b);
            },
            0x0C => {
                proof {
                    lemma_opt_byte_speaker_type(b);
                }
                self.speaker_type = SpeakerType::from_byte(b);
            },
            0x0D => {
                proof {
                    lemma_opt_byte_mic_type(b);
                }
                self.mic_type = MicType::from_byte(b);
            },
            0x0E => {
                proof {
                    lemma_opt_byte_mic_distance(b);
                }
                self.mic_distance = MicDistance::from_byte(b);
            },
            0x0F => {
                if b <= 10 {
                    self.mic_position = Some(b);
                } else {
                    self.unknown_bytes.insert(key, b);
                }
            },
            0x10 => {
                if b <= 100 {
                    self.mic_level = Some(b);
                } else {
                    self.unknown_bytes.insert(key, b);
                }
            },
            _ => {
                self.unknown_bytes.insert(key, b);
            },
        }
    }

    /// Typed wire byte at page `0x07` offset `l` of this range.
    fn p7a_byte(&self, l: u8) -> (r: Option<u8>)
        ensures
            r == self.p7a_at(l),
    {
        match l {
            0x00 => {
                proof {
                    reveal(opt_byte_on_off);
                }
                match self.preamp_switch {
                    Some(v) => Some(v.to_byte()),
                    None => None,
                }
            },
            0x01 => {
                proof {
                    reveal(opt_byte_preamp_type);
                }
                match self.preamp_type {
                    Some(v) => Some(v.to_byte()),
                    None => None,
                }
            },
            0x02 => self.preamp_gain,
            0x03 => self.preamp_level,
            0x04 => {
                proof {
                    reveal(opt_byte_preamp_gain_sw);
                }
                match self.preamp_gain_sw {
                    Some(v) => Some(v.to_byte()),
                    None => None,
                }
            },
            0x05 => {
                proof {
                    reveal(opt_byte_on_off);
                }
                match self.preamp_solo_sw {
                    Some(v) => Some(v.to_byte()),
                    None => None,
                }
            },
            0x06 => self.preamp_solo_level,
            0x07 => self.preamp_bass,
            0x08 => self.preamp_middle,
            0x09 => self.preamp_treble,
            0x0A => self.preamp_presence,
            0x0B => {
                proof {
                    reveal(opt_byte_on_off);
                }
                match self.preamp_bright_sw {
                    Some(v) => Some(v.to_byte()),
                    None => None,
                }
            },
            0x0C => {
                proof {
                    reveal(opt_byte_speaker_type);
                }
                match self.speaker_type {
                    Some(v) => Some(v.to_byte()),
                    None => None,
                }
            },
            0x0D => {
                proof {
                    reveal(opt_byte_mic_type);
                }
                match self.mic_type {
                    Some(v) => Some(v.to_byte()),
                    None => None,
                }
            },
            0x0E => {
                proof {
                    reveal(opt_byte_mic_distance);
                }
                match self.mic_distance {
                    Some(v) => Some(v.to_byte()),
                    None => None,
                }
            },
            0x0F => self.mic_position,
            0x10 => self.mic_level,
            _ => None,
        }
    }

    /// Store a byte at page `0x07` offset `lo` of this range.
    #[verifier::rlimit(60)]
    fn store_p7b(&mut self, lo: u8, b: u8)
        requires
            0x5A <= lo,
        ensures
            Self::chunk_post(*final(self), *old(self), 0x07, 0, lo, b),
    {
        let key = address_key([0, 0x07, 0, lo]);
        match lo {
            0x5A => {
                proof {
                    lemma_opt_byte_on_off(b);
                }
                self.ns_switch = OnOff::from_byte(b);
            },
            0x5B => {
                if b <= 100 {
                    self.ns_threshold = Some(b);
                } else {
                    self.unknown_bytes.insert(key, b);
                }
            },
            0x5C => {
                if b <= 100 {
                    self.ns_release = Some(b);
                } else {
                    self.unknown_bytes.insert(key, b);
                }
            },
            _ => {
                self.unknown_bytes.insert(key, b);
            },
        }
    }

    /// Typed wire byte at page `0x07` offset `l` of this range.
    fn p7b_byte(&self, l: u8) -> (r: Option<u8>)
        ensures
            r == self.p7b_at(l),
    {
        match l {
            0x5A => {
                proof {
                    reveal(opt_byte_on_off);
                }
                match self.ns_switch {
                    Some(v) => Some(v.to_byte()),
                    None => None,
                }
            },
            0x5B => self.ns_threshold,
            0x5C => self.ns_release,
            _ => None,
        }
    }


    // -----------------------------------------------------------------
    // Sub-structure stores and the byte-by-byte decoder step
    // -----------------------------------------------------------------
    /// Law: distinct Master Assign addresses name distinct (assign, byte)
    /// slots.
    pub proof fn lemma_assign_slot_injective(p1: u8, l1: u8, p2: u8, l2: u8)
        requires
            Self::assign_slot(p1, l1) is Some,
            Self::assign_slot(p1, l1) == Self::assign_slot(p2, l2),
        ensures
            p1 == p2 && l1 == l2,
    {
        let f1: int = if p1 == 1 { l1 - 0x0C } else { l1 + 0x80 - 0x0C };
        let f2: int = if p2 == 1 { l2 - 0x0C } else { l2 + 0x80 - 0x0C };
        assert(f1 == 19 * (f1 / 19) + f1 % 19);
        assert(f2 == 19 * (f2 / 19) + f2 % 19);
    }

    fn store_assign(&mut self, page: u8, lo: u8, b: u8)
        requires
            Self::assign_slot(page, lo) is Some,
        ensures
            Self::chunk_post(*final(self), *old(self), page, 0, lo, b),
    {
        let flat: u32 = if page == 1 {
            lo as u32 - 0x0C
        } else {
            lo as u32 + 0x80 - 0x0C
        };
        let idx: usize = (flat / 19) as usize;
        let bia: u32 = flat % 19;
        let mut x = match self.master_assigns[idx] {
            Some(a) => a,
            None => Assign::empty(),
        };
        let ghost x0 = x;
        let ok = x.store_byte(bia, b);
        self.master_assigns[idx] = Some(x);
        if !ok {
            self.unknown_bytes.insert(address_key([0, page, 0, lo]), b);
        }
        proof {
            reveal(PatchArea::assign_at);
            assert(Self::assign_slot(page, lo) == Some((idx as int, bia)));
            assert forall|p: u8, h: u8, l: u8|
                !(p == page && h == 0 && l == lo) implies #[trigger] self.typed_at(p, h, l) == old(self).typed_at(p, h, l) by {
                if h == 0 && (p == 1 || p == 2) && Self::assign_slot(p, l) is Some {
                    let (i2, b2) = Self::assign_slot(p, l)->0;
                    if i2 == idx as int && b2 == bia {
                        Self::lemma_assign_slot_injective(p, l, page, lo);
                    }
                }
            }
        }
    }

    fn store_mfx(&mut self, page: u8, lo: u8, b: u8)
        requires
            page == 3 || page == 4,
        ensures
            Self::chunk_post(*final(self), *old(self), page, 0, lo, b),
    {
        let lin: u32 = if page == 3 {
            lo as u32
        } else {
            0x80 + lo as u32
        };
        let mut m = match self.mfx.take() {
            Some(m) => m,
            None => Mfx::empty(),
        };
        let ok = m.store_byte(lin, b);
        self.mfx = Some(m);
        if !ok {
            self.unknown_bytes.insert(address_key([0, page, 0, lo]), b);
        }
        proof {
            reveal(PatchArea::mfx_at);
        }
    }

    fn store_mod(&mut self, lo: u8, b: u8)
        requires
            0x11 <= lo <= 0x59,
        ensures
            Self::chunk_post(*final(self), *old(self), 7, 0, lo, b),
    {
        let mut m = match self.modulation.take() {
            Some(m) => m,
            None => Mod::empty(),
        };
        let ok = m.store_byte(lo as u32, b);
        self.modulation = Some(m);
        if !ok {
            self.unknown_bytes.insert(address_key([0, 7, 0, lo]), b);
        }
        proof {
            reveal(PatchArea::mod_at);
        }
    }

    fn store_modeling(&mut self, page: u8, lo: u8, b: u8)
        requires
            page == 0x10 || page == 0x11,
        ensures
            Self::chunk_post(*final(self), *old(self), page, 0, lo, b),
    {
        let lin: u32 = if page == 0x10 {
            lo as u32
        } else {
            0x80 + lo as u32
        };
        let mut m = match self.modeling.take() {
            Some(m) => m,
            None => Modeling::empty(),
        };
        let ok = m.store_byte(lin, b);
        self.modeling = Some(m);
        if !ok {
            self.unknown_bytes.insert(address_key([0, page, 0, lo]), b);
        }
        proof {
            reveal(PatchArea::modeling_at);
        }
    }

    fn store_pcm(&mut self, page: u8, lo: u8, b: u8)
        requires
            page == 0x20 || page == 0x21 || page == 0x30 || page == 0x31,
        ensures
            Self::chunk_post(*final(self), *old(self), page, 0, lo, b),
    {
        let i: usize = if page == 0x20 || page == 0x30 {
            0
        } else {
            1
        };
        let mut x = match self.pcm[i].take() {
            Some(x) => x,
            None => Pcm::empty(),
        };
        let ok = if page < 0x30 {
            x.store_header_byte(lo as u32, b)
        } else {
            x.store_tail_byte(lo as u32, b)
        };
        self.pcm[i] = Some(x);
        if !ok {
            self.unknown_bytes.insert(address_key([0, page, 0, lo]), b);
        }
        proof {
            reveal(PatchArea::pcm_header_at);
            reveal(PatchArea::pcm_tail_at);
        }
    }

    /// Take one byte written at (page, hi, lo): into its typed field when
    /// the address has one and the byte is in range, else into
    /// `unknown_bytes`. See [`PatchArea::store_post`] for the exact effect.
    pub fn store(&mut self, page: u8, hi: u8, lo: u8, b: u8)
        ensures
            Self::store_post(*final(self), *old(self), page, hi, lo, b),
    {
        let ghost s0 = *self;
        if hi != 0 {
            self.unknown_bytes.insert(address_key([0, page, hi, lo]), b);
        } else if page == 0 {
            if lo < 0x20 {
                self.store_p0a(lo, b);
            } else if lo < 0x40 {
                self.store_p0b(lo, b);
            } else if lo < 0x60 {
                self.store_p0c(lo, b);
            } else {
                self.store_p0d(lo, b);
            }
            if lo == 0 || lo > 0x10 {
                let ghost mid = *self;
                self.park_if_refused(page, lo, b);
                proof {
                    Self::lemma_park_completes(s0, mid, *self, page, lo, b);
                }
            } else {
                proof {
                    Self::lemma_chunk_is_store(s0, *self, page, lo, b);
                }
            }
        } else if page == 1 {
            if 0x0C <= lo && lo <= 0x7F {
                self.store_assign(page, lo, b);
                proof {
                    Self::lemma_chunk_is_store(s0, *self, page, lo, b);
                }
            } else if lo <= 0x0B {
                self.store_p1(lo, b);
                let ghost mid = *self;
                self.park_if_refused(page, lo, b);
                proof {
                    Self::lemma_park_completes(s0, mid, *self, page, lo, b);
                }
            } else {
                self.unknown_bytes.insert(address_key([0, page, hi, lo]), b);
            }
        } else if page == 2 {
            if lo <= 0x23 {
                self.store_assign(page, lo, b);
                proof {
                    Self::lemma_chunk_is_store(s0, *self, page, lo, b);
                }
            } else {
                self.store_p2(lo, b);
                let ghost mid = *self;
                self.park_if_refused(page, lo, b);
                proof {
                    Self::lemma_park_completes(s0, mid, *self, page, lo, b);
                }
            }
        } else if page == 3 || page == 4 {
            self.store_mfx(page, lo, b);
            proof {
                Self::lemma_chunk_is_store(s0, *self, page, lo, b);
            }
        } else if page == 6 {
            self.store_p6(lo, b);
            let ghost mid = *self;
            self.park_if_refused(page, lo, b);
            proof {
                Self::lemma_park_completes(s0, mid, *self, page, lo, b);
            }
        } else if page == 7 {
            if lo <= 0x10 {
                self.store_p7a(lo, b);
                let ghost mid = *self;
                self.park_if_refused(page, lo, b);
                proof {
                    Self::lemma_park_completes(s0, mid, *self, page, lo, b);
                }
            } else if lo <= 0x59 {
                self.store_mod(lo, b);
                proof {
                    Self::lemma_chunk_is_store(s0, *self, page, lo, b);
                }
            } else {
                self.store_p7b(lo, b);
                let ghost mid = *self;
                self.park_if_refused(page, lo, b);
                proof {
                    Self::lemma_park_completes(s0, mid, *self, page, lo, b);
                }
            }
        } else if page == 0x10 || page == 0x11 {
            self.store_modeling(page, lo, b);
            proof {
                Self::lemma_chunk_is_store(s0, *self, page, lo, b);
            }
        } else if page == 0x20 || page == 0x21 || page == 0x30 || page == 0x31 {
            self.store_pcm(page, lo, b);
            proof {
                Self::lemma_chunk_is_store(s0, *self, page, lo, b);
            }
        } else {
            self.unknown_bytes.insert(address_key([0, page, hi, lo]), b);
        }
    }

    /// Storing into a field group whose addresses have no replaced field
    /// is the whole store step.
    proof fn lemma_chunk_is_store(old: PatchArea, new: PatchArea, page: u8, lo: u8, b: u8)
        requires
            Self::chunk_post(new, old, page, 0, lo, b),
            Self::key_class(page, 0, lo) != 1,
        ensures
            Self::store_post(new, old, page, 0, lo, b),
    {
    }

    /// Which fields hold what does not depend on `unknown_bytes`.
    proof fn lemma_typed_ignores_unknown(a: PatchArea, n: PatchArea)
        requires
            n == (PatchArea { unknown_bytes: n.unknown_bytes, ..a }),
        ensures
            forall|p: u8, h: u8, l: u8| #[trigger] n.typed_at(p, h, l) == a.typed_at(p, h, l),
            n.tones_unset() == a.tones_unset(),
            n.raws_ok() == a.raws_ok(),
    {
        assert forall|p: u8, h: u8, l: u8| #[trigger] n.typed_at(p, h, l) == a.typed_at(p, h, l) by {
            reveal(PatchArea::assign_at);
            reveal(PatchArea::mfx_at);
            reveal(PatchArea::mod_at);
            reveal(PatchArea::modeling_at);
            reveal(PatchArea::pcm_header_at);
            reveal(PatchArea::pcm_tail_at);
        }
    }

    /// A field group's store step, then parking a byte its field refused,
    /// is the whole store step.
    proof fn lemma_park_completes(old: PatchArea, mid: PatchArea, new: PatchArea, page: u8, lo: u8, b: u8)
        requires
            Self::chunk_post(mid, old, page, 0, lo, b),
            Self::key_class(page, 0, lo) != 3,
            Self::key_class(page, 0, lo) != 4,
            Self::wire_key(page, 0, lo) == (page, 0u8, lo),
            new == (PatchArea { unknown_bytes: new.unknown_bytes, ..mid }),
            new.unknown_bytes@ == (if mid.typed_at(page, 0, lo) is None {
                mid.unknown_bytes@.insert(key_of(0, page, 0, lo), b)
            } else {
                mid.unknown_bytes@
            }),
        ensures
            Self::store_post(new, old, page, 0, lo, b),
    {
        Self::lemma_typed_ignores_unknown(mid, new);
        let k = key_of(0, page, 0, lo);
        if mid.typed_at(page, 0, lo) is None && !Self::goes_unknown(page, 0, lo, b) {
            assert(Self::key_class(page, 0, lo) == 2);
        }
        if Self::chunk_unknown(page, 0, lo, b) {
            assert(mid.unknown_bytes@.insert(k, b) =~= mid.unknown_bytes@);
        }
    }

    /// After a field group took byte `b` at (page, 0, lo): when the address
    /// now shows no typed byte, keep `b` in `unknown_bytes`.
    fn park_if_refused(&mut self, page: u8, lo: u8, b: u8)
        ensures
            *final(self) == (PatchArea { unknown_bytes: final(self).unknown_bytes, ..*old(self) }),
            final(self).unknown_bytes@ == (if old(self).typed_at(page, 0, lo) is None {
                old(self).unknown_bytes@.insert(key_of(0, page, 0, lo), b)
            } else {
                old(self).unknown_bytes@
            }),
    {
        if self.typed_byte(page, 0, lo).is_none() {
            self.unknown_bytes.insert(address_key([0, page, 0, lo]), b);
        }
    }

    /// A patch with no field set and no unknown byte.
    pub fn new() -> (r: PatchArea)
        ensures
            forall|p: u8, h: u8, l: u8| #[trigger] r.typed_at(p, h, l) is None,
            r.unknown_bytes@ == Map::<u32, u8>::empty(),
            r.tones_unset(),
            r.raws_ok(),
            r.patch_level is None,
            r.patch_tempo is None,
    {
        let r = PatchArea {
            mode: None,
            name: PatchName([0x20u8; 16]),
            ctl_status: None,
            ctl_function: None,
            ctl_hold_type: None,
            ctl_switch_mode: None,
            ctl_hold_pcm_1: None,
            ctl_hold_pcm_2: None,
            ctl_tone_sw_off_pcm_1: None,
            ctl_tone_sw_off_pcm_2: None,
            ctl_tone_sw_off_modeling: None,
            ctl_tone_sw_off_normal_pu: None,
            ctl_tone_sw_on_pcm_1: None,
            ctl_tone_sw_on_pcm_2: None,
            ctl_tone_sw_on_modeling: None,
            ctl_tone_sw_on_normal_pu: None,
            exp_function: None,
            exp_tone_vol_pcm_1: None,
            exp_tone_vol_pcm_2: None,
            exp_tone_vol_modeling: None,
            exp_tone_vol_normal_pu: None,
            exp_pitch_bend_depth: None,
            exp_pitch_bend_pcm_1: None,
            exp_pitch_bend_pcm_2: None,
            exp_pitch_bend_modeling: None,
            exp_mod_min: None,
            exp_mod_max: None,
            exp_mod_pcm_1: None,
            exp_mod_pcm_2: None,
            exp_cross_fader_pcm_1: None,
            exp_cross_fader_pcm_2: None,
            exp_cross_fader_modeling: None,
            exp_cross_fader_normal_pu: None,
            exp_delay_min: None,
            exp_delay_max: None,
            exp_reverb_min: None,
            exp_reverb_max: None,
            exp_chorus_min: None,
            exp_chorus_max: None,
            exp_on_function: None,
            exp_on_tone_vol_pcm_1: None,
            exp_on_tone_vol_pcm_2: None,
            exp_on_tone_vol_modeling: None,
            exp_on_tone_vol_normal_pu: None,
            exp_on_pitch_bend_depth: None,
            exp_on_pitch_bend_pcm_1: None,
            exp_on_pitch_bend_pcm_2: None,
            exp_on_pitch_bend_modeling: None,
            exp_on_mod_min: None,
            exp_on_mod_max: None,
            exp_on_mod_pcm_1: None,
            exp_on_mod_pcm_2: None,
            exp_on_cross_fader_pcm_1: None,
            exp_on_cross_fader_pcm_2: None,
            exp_on_cross_fader_modeling: None,
            exp_on_cross_fader_normal_pu: None,
            exp_on_delay_min: None,
            exp_on_delay_max: None,
            exp_on_reverb_min: None,
            exp_on_reverb_max: None,
            exp_on_chorus_min: None,
            exp_on_chorus_max: None,
            exp_sw_status: None,
            exp_sw_function: None,
            exp_sw_tone_sw_off_pcm_1: None,
            exp_sw_tone_sw_off_pcm_2: None,
            exp_sw_tone_sw_off_modeling: None,
            exp_sw_tone_sw_off_normal_pu: None,
            exp_sw_tone_sw_on_pcm_1: None,
            exp_sw_tone_sw_on_pcm_2: None,
            exp_sw_tone_sw_on_modeling: None,
            exp_sw_tone_sw_on_normal_pu: None,
            gk_vol_function: None,
            gk_vol_tone_vol_pcm_1: None,
            gk_vol_tone_vol_pcm_2: None,
            gk_vol_tone_vol_modeling: None,
            gk_vol_tone_vol_normal_pu: None,
            gk_vol_pitch_bend_depth: None,
            gk_vol_pitch_bend_pcm_1: None,
            gk_vol_pitch_bend_pcm_2: None,
            gk_vol_pitch_bend_modeling: None,
            gk_vol_mod_min: None,
            gk_vol_mod_max: None,
            gk_vol_mod_pcm_1: None,
            gk_vol_mod_pcm_2: None,
            gk_vol_cross_fader_pcm_1: None,
            gk_vol_cross_fader_pcm_2: None,
            gk_vol_cross_fader_modeling: None,
            gk_vol_cross_fader_normal_pu: None,
            gk_vol_delay_min: None,
            gk_vol_delay_max: None,
            gk_vol_reverb_min: None,
            gk_vol_reverb_max: None,
            gk_vol_chorus_min: None,
            gk_vol_chorus_max: None,
            gk_s1_function: None,
            gk_s1_tone_sw_off_pcm_1: None,
            gk_s1_tone_sw_off_pcm_2: None,
            gk_s1_tone_sw_off_modeling: None,
            gk_s1_tone_sw_off_normal_pu: None,
            gk_s1_tone_sw_on_pcm_1: None,
            gk_s1_tone_sw_on_pcm_2: None,
            gk_s1_tone_sw_on_modeling: None,
            gk_s1_tone_sw_on_normal_pu: None,
            gk_s2_function: None,
            gk_s2_tone_sw_off_pcm_1: None,
            gk_s2_tone_sw_off_pcm_2: None,
            gk_s2_tone_sw_off_modeling: None,
            gk_s2_tone_sw_off_normal_pu: None,
            gk_s2_tone_sw_on_pcm_1: None,
            gk_s2_tone_sw_on_pcm_2: None,
            gk_s2_tone_sw_on_modeling: None,
            gk_s2_tone_sw_on_normal_pu: None,
            master_assigns: [None, None, None, None, None, None, None, None],
            gk_set: None,
            guitar_out: None,
            v_link_pallet: None,
            v_link_clip: None,
            v_link_note_clip_change: None,
            v_link_exp: None,
            v_link_exp_on: None,
            v_link_gk_vol: None,
            structure: None,
            modeling_line_route: None,
            analog_pu_line_route: None,
            patch_level: None,
            analog_pu_tone_sw: None,
            analog_pu_tone_level: None,
            alt_tuning_sw: None,
            alt_tuning_type: None,
            alt_tuning_user_shift: [None, None, None, None, None, None],
            patch_tempo: None,
            bypass_chorus: None,
            bypass_delay: None,
            bypass_reverb: None,
            exp_mod_min_envelope: None,
            exp_mod_max_envelope: None,
            exp_on_mod_min_envelope: None,
            exp_on_mod_max_envelope: None,
            gk_vol_mod_min_envelope: None,
            gk_vol_mod_max_envelope: None,
            mfx: None,
            chorus_switch: None,
            chorus_type: None,
            chorus_rate: None,
            chorus_depth: None,
            chorus_level: None,
            delay_switch: None,
            delay_type: None,
            delay_time: None,
            delay_time_b: None,
            delay_time_c: None,
            delay_feedback: None,
            delay_level: None,
            reverb_switch: None,
            reverb_type: None,
            reverb_time: None,
            reverb_high_cut: None,
            reverb_level: None,
            patch_eq_switch: None,
            patch_eq_lo_cut: None,
            patch_eq_low_gain: None,
            patch_eq_lo_mid_freq: None,
            patch_eq_lo_mid_q: None,
            patch_eq_low_mid_gain: None,
            patch_eq_hi_mid_freq: None,
            patch_eq_hi_mid_q: None,
            patch_eq_hi_mid_gain: None,
            patch_eq_high_cut: None,
            patch_eq_high_gain: None,
            patch_eq_level: None,
            patch_eq_character: None,
            preamp_switch: None,
            preamp_type: None,
            preamp_gain: None,
            preamp_level: None,
            preamp_gain_sw: None,
            preamp_solo_sw: None,
            preamp_solo_level: None,
            preamp_bass: None,
            preamp_middle: None,
            preamp_treble: None,
            preamp_presence: None,
            preamp_bright_sw: None,
            speaker_type: None,
            mic_type: None,
            mic_distance: None,
            mic_position: None,
            mic_level: None,
            modulation: None,
            ns_switch: None,
            ns_threshold: None,
            ns_release: None,
            modeling: None,
            pcm: [None, None],
            unknown_bytes: ByteMap::new(),
        };
        proof {
            reveal(opt_byte_alt_tuning_type);
            reveal(opt_byte_analog_pu_tone_sw);
            reveal(opt_byte_chorus_type);
            reveal(opt_byte_cross_fader_mode);
            reveal(opt_byte_ctl_function);
            reveal(opt_byte_delay_type);
            reveal(opt_byte_exp_function);
            reveal(opt_byte_exp_sw_function);
            reveal(opt_byte_guitar_out);
            reveal(opt_byte_hold_type);
            reveal(opt_byte_line_route);
            reveal(opt_byte_mic_distance);
            reveal(opt_byte_mic_type);
            reveal(opt_byte_on_off);
            reveal(opt_byte_patch_eq_character);
            reveal(opt_byte_patch_eq_high_cut);
            reveal(opt_byte_patch_eq_lo_cut);
            reveal(opt_byte_patch_eq_mid_freq);
            reveal(opt_byte_patch_eq_mid_q);
            reveal(opt_byte_patch_gk_set);
            reveal(opt_byte_patch_mode);
            reveal(opt_byte_patch_structure);
            reveal(opt_byte_pitch_bend_depth);
            reveal(opt_byte_preamp_gain_sw);
            reveal(opt_byte_preamp_type);
            reveal(opt_byte_reverb_high_cut);
            reveal(opt_byte_reverb_type);
            reveal(opt_byte_speaker_type);
            reveal(opt_byte_switch_mode);
            reveal(opt_byte_v_link_control);
            reveal(PatchArea::assign_at);
            reveal(PatchArea::mfx_at);
            reveal(PatchArea::mod_at);
            reveal(PatchArea::modeling_at);
            reveal(PatchArea::pcm_header_at);
            reveal(PatchArea::pcm_tail_at);
        }
        r
    }

    // -----------------------------------------------------------------
    // Encoding
    // -----------------------------------------------------------------
    /// The byte the typed fields put on the wire at (p, h, l).
    pub fn typed_byte(&self, p: u8, h: u8, l: u8) -> (r: Option<u8>)
        ensures
            r == self.typed_at(p, h, l),
    {
        proof {
            reveal(PatchArea::assign_at);
            reveal(PatchArea::mfx_at);
            reveal(PatchArea::mod_at);
            reveal(PatchArea::modeling_at);
            reveal(PatchArea::pcm_header_at);
            reveal(PatchArea::pcm_tail_at);
        }
        if h != 0 {
            None
        } else if p == 0 {
            if l < 0x20 {
                self.p0a_byte(l)
            } else if l < 0x40 {
                self.p0b_byte(l)
            } else if l < 0x60 {
                self.p0c_byte(l)
            } else {
                self.p0d_byte(l)
            }
        } else if p == 1 || p == 2 {
            if (p == 1 && 0x0C <= l && l <= 0x7F) || (p == 2 && l <= 0x23) {
                let flat: u32 = if p == 1 {
                    l as u32 - 0x0C
                } else {
                    l as u32 + 0x80 - 0x0C
                };
                let idx: usize = (flat / 19) as usize;
                match self.master_assigns[idx] {
                    Some(a) => a.byte_at(flat % 19),
                    None => None,
                }
            } else if p == 1 {
                self.p1_byte(l)
            } else {
                self.p2_byte(l)
            }
        } else if p == 3 || p == 4 {
            if l < 0x80 {
                let lin: u32 = if p == 3 {
                    l as u32
                } else {
                    0x80 + l as u32
                };
                match &self.mfx {
                    Some(m) => m.byte_at(lin),
                    None => None,
                }
            } else {
                None
            }
        } else if p == 6 {
            self.p6_byte(l)
        } else if p == 7 {
            if l <= 0x10 {
                self.p7a_byte(l)
            } else if l <= 0x59 {
                match &self.modulation {
                    Some(m) => m.byte_at(l as u32),
                    None => None,
                }
            } else {
                self.p7b_byte(l)
            }
        } else if p == 0x10 || p == 0x11 {
            if l < 0x80 {
                let lin: u32 = if p == 0x10 {
                    l as u32
                } else {
                    0x80 + l as u32
                };
                match &self.modeling {
                    Some(m) => m.byte_at(lin),
                    None => None,
                }
            } else {
                None
            }
        } else if p == 0x20 || p == 0x21 {
            let i: usize = if p == 0x20 {
                0
            } else {
                1
            };
            match &self.pcm[i] {
                Some(x) => x.byte_at_header(l as u32),
                None => None,
            }
        } else if p == 0x30 || p == 0x31 {
            let i: usize = if p == 0x30 {
                0
            } else {
                1
            };
            match &self.pcm[i] {
                Some(x) => x.byte_at_tail(l as u32),
                None => None,
            }
        } else {
            None
        }
    }

    /// The typed bytes at packed keys below `bound`, as a map.
    pub open spec fn typed_upto(self, bound: int) -> Map<u32, u8> {
        Map::new(
            |k: u32| k < bound && k < 0x1000000 && self.typed_at(key_bytes(k)[1], key_bytes(k)[2], key_bytes(k)[3]) is Some,
            |k: u32| self.typed_at(key_bytes(k)[1], key_bytes(k)[2], key_bytes(k)[3])->0,
        )
    }

    /// Every byte the area puts on the wire, keyed by the packed
    /// (page, hi, lo) address, in the order the encoder writes them: the
    /// typed fields; then each slot's raw tail at its wire keys (MFX, MOD,
    /// the page-`0x07` noise-suppressor bytes once more, Modeling, PCM Tone
    /// 1, PCM Tone 2); the unknown bytes last. A later write overrides an
    /// earlier one at the same key.
    pub open spec fn wire(self) -> Map<u32, u8> {
        let t = self.typed_upto(0x1000000);
        let a = overlay(t, Self::mfx_raw(self.mfx), 3, 4, true, 0x10000);
        let b = overlay(a, Self::mod_raw(self.modulation), 7, 7, false, 0x100);
        let c = opt_insert(
            opt_insert(
                opt_insert(b, key_of(0, 7, 0, 0x5A), self.typed_at(7, 0, 0x5A)),
                key_of(0, 7, 0, 0x5B),
                self.typed_at(7, 0, 0x5B),
            ),
            key_of(0, 7, 0, 0x5C),
            self.typed_at(7, 0, 0x5C),
        );
        let d = overlay(c, Self::modeling_raw(self.modeling), 0x10, 0x11, true, 0x10000);
        let e = overlay(d, Self::pcm_raw(self.pcm@[0]), 0x30, 0x30, false, 0x100);
        let f = overlay(e, Self::pcm_raw(self.pcm@[1]), 0x31, 0x31, false, 0x100);
        f.union_prefer_right(self.unknown_bytes@)
    }

    /// The area can be encoded: every unknown key is a 3-byte address, and
    /// every raw-tail key fits its slot's key width (16 bits for MFX and
    /// Modeling, 8 bits for MOD and PCM).
    pub open spec fn encodable(self) -> bool {
        &&& keys_below(self.unknown_bytes@, 0x1000000)
        &&& keys_below(Self::mfx_raw(self.mfx), 0x10000)
        &&& keys_below(Self::mod_raw(self.modulation), 0x100)
        &&& keys_below(Self::modeling_raw(self.modeling), 0x10000)
        &&& keys_below(Self::pcm_raw(self.pcm@[0]), 0x100)
        &&& keys_below(Self::pcm_raw(self.pcm@[1]), 0x100)
    }

    /// With every raw tail inside its range, the raw tails only repeat
    /// what the typed view already shows, so the wire map is the typed
    /// bytes under the unknown ones.
    pub proof fn lemma_wire_plain(self)
        requires
            self.raws_ok(),
        ensures
            self.wire() == self.typed_upto(0x1000000).union_prefer_right(self.unknown_bytes@),
    {
        reveal(PatchArea::mfx_at);
        reveal(PatchArea::mod_at);
        reveal(PatchArea::modeling_at);
        reveal(PatchArea::pcm_tail_at);
        let t = self.typed_upto(0x1000000);
        assert forall|k: u32| k < 0x10000 && #[trigger] Self::mfx_raw(self.mfx).contains_key(k) implies t.get(
            raw_wire_key(3, 4, true, k),
        ) == Some(Self::mfx_raw(self.mfx)[k]) by {
            if k < 128 {
                lemma_key_bytes(0, 0, 3, 0, k as u8);
            } else {
                lemma_key_bytes(0, 0, 4, 0, (k - 128) as u8);
            }
        }
        lemma_overlay_same(t, Self::mfx_raw(self.mfx), 3, 4, true, 0x10000);
        assert forall|k: u32| k < 0x100 && #[trigger] Self::mod_raw(self.modulation).contains_key(k) implies t.get(
            raw_wire_key(7, 7, false, k),
        ) == Some(Self::mod_raw(self.modulation)[k]) by {
            lemma_key_bytes(0, 0, 7, 0, k as u8);
        }
        lemma_overlay_same(t, Self::mod_raw(self.modulation), 7, 7, false, 0x100);
        lemma_key_bytes(0, 0, 7, 0, 0x5A);
        lemma_key_bytes(0, 0, 7, 0, 0x5B);
        lemma_key_bytes(0, 0, 7, 0, 0x5C);
        assert(opt_insert(t, key_of(0, 7, 0, 0x5A), self.typed_at(7, 0, 0x5A)) =~= t);
        assert(opt_insert(t, key_of(0, 7, 0, 0x5B), self.typed_at(7, 0, 0x5B)) =~= t);
        assert(opt_insert(t, key_of(0, 7, 0, 0x5C), self.typed_at(7, 0, 0x5C)) =~= t);
        assert forall|k: u32| k < 0x10000 && #[trigger] Self::modeling_raw(self.modeling).contains_key(k) implies t.get(
            raw_wire_key(0x10, 0x11, true, k),
        ) == Some(Self::modeling_raw(self.modeling)[k]) by {
            if k < 128 {
                lemma_key_bytes(0, 0, 0x10, 0, k as u8);
            } else {
                lemma_key_bytes(0, 0, 0x11, 0, (k - 128) as u8);
            }
        }
        lemma_overlay_same(t, Self::modeling_raw(self.modeling), 0x10, 0x11, true, 0x10000);
        assert forall|k: u32| k < 0x100 && #[trigger] Self::pcm_raw(self.pcm@[0]).contains_key(k) implies t.get(
            raw_wire_key(0x30, 0x30, false, k),
        ) == Some(Self::pcm_raw(self.pcm@[0])[k]) by {
            lemma_key_bytes(0, 0, 0x30, 0, k as u8);
        }
        lemma_overlay_same(t, Self::pcm_raw(self.pcm@[0]), 0x30, 0x30, false, 0x100);
        assert forall|k: u32| k < 0x100 && #[trigger] Self::pcm_raw(self.pcm@[1]).contains_key(k) implies t.get(
            raw_wire_key(0x31, 0x31, false, k),
        ) == Some(Self::pcm_raw(self.pcm@[1])[k]) by {
            lemma_key_bytes(0, 0, 0x31, 0, k as u8);
        }
        lemma_overlay_same(t, Self::pcm_raw(self.pcm@[1]), 0x31, 0x31, false, 0x100);
    }

    /// Law: with every raw tail inside its range, the wire map holds
    /// exactly what [`PatchArea::byte_at`] says.
    pub proof fn lemma_wire_at(self, p: u8, h: u8, l: u8)
        requires
            self.encodable(),
            self.raws_ok(),
        ensures
            self.wire().get(key_of(0, p, h, l)) == self.byte_at(p, h, l),
    {
        self.lemma_wire_plain();
        lemma_key_bytes(0, 0, p, h, l);
    }
}

/// Every key of `m` is below `n`.
pub open spec fn keys_below(m: Map<u32, u8>, n: int) -> bool {
    forall|k: u32| #[trigger] m.contains_key(k) ==> k < n
}

/// The wire key of raw-tail key `k` of a slot on pages `p0` (and `p1`):
/// with `split`, keys from 128 on go to page `p1` at `k - 128`, keeping its
/// low byte; otherwise a key goes to page `p0` at its low byte.
pub open spec fn raw_wire_key(p0: u8, p1: u8, split: bool, k: u32) -> u32 {
    if split && k >= 128 {
        key_of(0, p1, 0, (k - 128) as u8)
    } else {
        key_of(0, p0, 0, k as u8)
    }
}

/// Law: a raw-tail key below 128 goes to offset `k` of page `p0`; from 128
/// on, a split slot continues on page `p1` at offset `k - 128` (its low
/// byte), while an unsplit slot keeps page `p0` at offset `k`.
pub proof fn lemma_raw_wire_key_layout(p0: u8, p1: u8, split: bool, k: u32)
    ensures
        k < 128 ==> raw_wire_key(p0, p1, split, k) == p0 as int * 0x10000 + k,
        split && 128 <= k <= 0xFFFF ==> raw_wire_key(p0, p1, split, k) == p1 as int * 0x10000 + (k - 128) % 256,
        !split && k <= 0xFF ==> raw_wire_key(p0, p1, split, k) == p0 as int * 0x10000 + k,
{
    lemma_key_bytes(0, 0, p0, 0, k as u8);
    lemma_key_bytes(0, 0, p1, 0, (k - 128) as u8);
    if k <= 0xFF {
        assert(k as u8 == k);
    }
    if 128 <= k <= 0xFFFF {
        let d = (k - 128) as u32;
        assert(d as u8 == d % 256) by (bit_vector);
    }
}

/// `m` with the raw-tail bytes of `raw` at keys below `n` written over it
/// in increasing key order, each at its [`raw_wire_key`]: where two keys
/// share a wire key, the larger key's byte stands.
pub open spec fn overlay(m: Map<u32, u8>, raw: Map<u32, u8>, p0: u8, p1: u8, split: bool, n: nat) -> Map<u32, u8>
    decreases n,
{
    if n == 0 {
        m
    } else {
        let prev = overlay(m, raw, p0, p1, split, (n - 1) as nat);
        let k = (n - 1) as u32;
        if raw.contains_key(k) {
            prev.insert(raw_wire_key(p0, p1, split, k), raw[k])
        } else {
            prev
        }
    }
}

/// Raw keys absent from `a..b` add nothing between the two bounds.
pub proof fn lemma_overlay_gap(m: Map<u32, u8>, raw: Map<u32, u8>, p0: u8, p1: u8, split: bool, a: nat, b: nat)
    requires
        a <= b <= 0x1_0000_0000,
        forall|k: u32| a <= k < b ==> !#[trigger] raw.contains_key(k),
    ensures
        overlay(m, raw, p0, p1, split, a) == overlay(m, raw, p0, p1, split, b),
    decreases b - a,
{
    if a < b {
        lemma_overlay_gap(m, raw, p0, p1, split, a, (b - 1) as nat);
        assert(!raw.contains_key((b - 1) as u32));
    }
}

/// Raw bytes that `m` already shows at their wire keys leave it unchanged.
pub proof fn lemma_overlay_same(m: Map<u32, u8>, raw: Map<u32, u8>, p0: u8, p1: u8, split: bool, n: nat)
    requires
        n <= 0x1_0000_0000,
        forall|k: u32|
            k < n && #[trigger] raw.contains_key(k) ==> m.get(raw_wire_key(p0, p1, split, k)) == Some(raw[k]),
    ensures
        overlay(m, raw, p0, p1, split, n) == m,
    decreases n,
{
    if n > 0 {
        lemma_overlay_same(m, raw, p0, p1, split, (n - 1) as nat);
        let k = (n - 1) as u32;
        if raw.contains_key(k) {
            assert(m.insert(raw_wire_key(p0, p1, split, k), raw[k]) =~= m);
        }
    }
}

/// Law: where each field of page `0x00` sits on the wire: the byte at
/// each offset listed is that field's value (an enumerated field's wire
/// byte).
pub proof fn lemma_page_00_fields(a: PatchArea)
    ensures
        a.typed_at(0x00, 0, 0x00) == (match a.mode {
            Some(v) => Some(v.byte_spec()),
            None => None,
        }),
        a.typed_at(0x00, 0, 0x11) == (match a.ctl_status {
            Some(v) => Some(v.byte_spec()),
            None => None,
        }),
        a.typed_at(0x00, 0, 0x12) == (match a.ctl_function {
            Some(v) => Some(v.byte_spec()),
            None => None,
        }),
        a.typed_at(0x00, 0, 0x13) == (match a.ctl_hold_type {
            Some(v) => Some(v.byte_spec()),
            None => None,
        }),
        a.typed_at(0x00, 0, 0x14) == (match a.ctl_switch_mode {
            Some(v) => Some(v.byte_spec()),
            None => None,
        }),
        a.typed_at(0x00, 0, 0x15) == (match a.ctl_hold_pcm_1 {
            Some(v) => Some(v.byte_spec()),
            None => None,
        }),
        a.typed_at(0x00, 0, 0x16) == (match a.ctl_hold_pcm_2 {
            Some(v) => Some(v.byte_spec()),
            None => None,
        }),
        a.typed_at(0x00, 0, 0x17) == (match a.ctl_tone_sw_off_pcm_1 {
            Some(v) => Some(v.byte_spec()),
            None => None,
        }),
        a.typed_at(0x00, 0, 0x18) == (match a.ctl_tone_sw_off_pcm_2 {
            Some(v) => Some(v.byte_spec()),
            None => None,
        }),
        a.typed_at(0x00, 0, 0x19) == (match a.ctl_tone_sw_off_modeling {
            Some(v) => Some(v.byte_spec()),
            None => None,
        }),
        a.typed_at(0x00, 0, 0x1A) == (match a.ctl_tone_sw_off_normal_pu {
            Some(v) => Some(v.byte_spec()),
            None => None,
        }),
        a.typed_at(0x00, 0, 0x1B) == (match a.ctl_tone_sw_on_pcm_1 {
            Some(v) => Some(v.byte_spec()),
            None => None,
        }),
        a.typed_at(0x00, 0, 0x1C) == (match a.ctl_tone_sw_on_pcm_2 {
            Some(v) => Some(v.byte_spec()),
            None => None,
        }),
        a.typed_at(0x00, 0, 0x1D) == (match a.ctl_tone_sw_on_modeling {
            Some(v) => Some(v.byte_spec()),
            None => None,
        }),
        a.typed_at(0x00, 0, 0x1E) == (match a.ctl_tone_sw_on_normal_pu {
            Some(v) => Some(v.byte_spec()),
            None => None,
        }),
        a.typed_at(0x00, 0, 0x1F) == (match a.exp_function {
            Some(v) => Some(v.byte_spec()),
            None => None,
        }),
        a.typed_at(0x00, 0, 0x20) == (match a.exp_tone_vol_pcm_1 {
            Some(v) => Some(v.byte_spec()),
            None => None,
        }),
        a.typed_at(0x00, 0, 0x21) == (match a.exp_tone_vol_pcm_2 {
            Some(v) => Some(v.byte_spec()),
            None => None,
        }),
        a.typed_at(0x00, 0, 0x22) == (match a.exp_tone_vol_modeling {
            Some(v) => Some(v.byte_spec()),
            None => None,
        }),
        a.typed_at(0x00, 0, 0x23) == (match a.exp_tone_vol_normal_pu {
            Some(v) => Some(v.byte_spec()),
            None => None,
        }),
        a.typed_at(0x00, 0, 0x24) == (match a.exp_pitch_bend_depth {
            Some(v) => Some(v.byte_spec()),
            None => None,
        }),
        a.typed_at(0x00, 0, 0x25) == (match a.exp_pitch_bend_pcm_1 {
            Some(v) => Some(v.byte_spec()),
            None => None,
        }),
        a.typed_at(0x00, 0, 0x26) == (match a.exp_pitch_bend_pcm_2 {
            Some(v) => Some(v.byte_spec()),
            None => None,
        }),
        a.typed_at(0x00, 0, 0x27) == (match a.exp_pitch_bend_modeling {
            Some(v) => Some(v.byte_spec()),
            None => None,
        }),
        a.typed_at(0x00, 0, 0x28) == a.exp_mod_min,
        a.typed_at(0x00, 0, 0x29) == a.exp_mod_max,
        a.typed_at(0x00, 0, 0x2A) == (match a.exp_mod_pcm_1 {
            Some(v) => Some(v.byte_spec()),
            None => None,
        }),
        a.typed_at(0x00, 0, 0x2B) == (match a.exp_mod_pcm_2 {
            Some(v) => Some(v.byte_spec()),
            None => None,
        }),
        a.typed_at(0x00, 0, 0x2C) == (match a.exp_cross_fader_pcm_1 {
            Some(v) => Some(v.byte_spec()),
            None => None,
        }),
        a.typed_at(0x00, 0, 0x2D) == (match a.exp_cross_fader_pcm_2 {
            Some(v) => Some(v.byte_spec()),
            None => None,
        }),
        a.typed_at(0x00, 0, 0x2E) == (match a.exp_cross_fader_modeling {
            Some(v) => Some(v.byte_spec()),
            None => None,
        }),
        a.typed_at(0x00, 0, 0x2F) == (match a.exp_cross_fader_normal_pu {
            Some(v) => Some(v.byte_spec()),
            None => None,
        }),
        a.typed_at(0x00, 0, 0x30) == a.exp_delay_min,
        a.typed_at(0x00, 0, 0x31) == a.exp_delay_max,
        a.typed_at(0x00, 0, 0x32) == a.exp_reverb_min,
        a.typed_at(0x00, 0, 0x33) == a.exp_reverb_max,
        a.typed_at(0x00, 0, 0x34) == a.exp_chorus_min,
        a.typed_at(0x00, 0, 0x35) == a.exp_chorus_max,
        a.typed_at(0x00, 0, 0x36) == (match a.exp_on_function {
            Some(v) => Some(v.byte_spec()),
            None => None,
        }),
        a.typed_at(0x00, 0, 0x37) == (match a.exp_on_tone_vol_pcm_1 {
            Some(v) => Some(v.byte_spec()),
            None => None,
        }),
        a.typed_at(0x00, 0, 0x38) == (match a.exp_on_tone_vol_pcm_2 {
            Some(v) => Some(v.byte_spec()),
            None => None,
        }),
        a.typed_at(0x00, 0, 0x39) == (match a.exp_on_tone_vol_modeling {
            Some(v) => Some(v.byte_spec()),
            None => None,
        }),
        a.typed_at(0x00, 0, 0x3A) == (match a.exp_on_tone_vol_normal_pu {
            Some(v) => Some(v.byte_spec()),
            None => None,
        }),
        a.typed_at(0x00, 0, 0x3B) == (match a.exp_on_pitch_bend_depth {
            Some(v) => Some(v.byte_spec()),
            None => None,
        }),
        a.typed_at(0x00, 0, 0x3C) == (match a.exp_on_pitch_bend_pcm_1 {
            Some(v) => Some(v.byte_spec()),
            None => None,
        }),
        a.typed_at(0x00, 0, 0x3D) == (match a.exp_on_pitch_bend_pcm_2 {
            Some(v) => Some(v.byte_spec()),
            None => None,
        }),
        a.typed_at(0x00, 0, 0x3E) == (match a.exp_on_pitch_bend_modeling {
            Some(v) => Some(v.byte_spec()),
            None => None,
        }),
        a.typed_at(0x00, 0, 0x3F) == a.exp_on_mod_min,
        a.typed_at(0x00, 0, 0x40) == a.exp_on_mod_max,
        a.typed_at(0x00, 0, 0x41) == (match a.exp_on_mod_pcm_1 {
            Some(v) => Some(v.byte_spec()),
            None => None,
        }),
        a.typed_at(0x00, 0, 0x42) == (match a.exp_on_mod_pcm_2 {
            Some(v) => Some(v.byte_spec()),
            None => None,
        }),
        a.typed_at(0x00, 0, 0x43) == (match a.exp_on_cross_fader_pcm_1 {
            Some(v) => Some(v.byte_spec()),
            None => None,
        }),
        a.typed_at(0x00, 0, 0x44) == (match a.exp_on_cross_fader_pcm_2 {
            Some(v) => Some(v.byte_spec()),
            None => None,
        }),
        a.typed_at(0x00, 0, 0x45) == (match a.exp_on_cross_fader_modeling {
            Some(v) => Some(v.byte_spec()),
            None => None,
        }),
        a.typed_at(0x00, 0, 0x46) == (match a.exp_on_cross_fader_normal_pu {
            Some(v) => Some(v.byte_spec()),
            None => None,
        }),
        a.typed_at(0x00, 0, 0x47) == a.exp_on_delay_min,
        a.typed_at(0x00, 0, 0x48) == a.exp_on_delay_max,
        a.typed_at(0x00, 0, 0x49) == a.exp_on_reverb_min,
        a.typed_at(0x00, 0, 0x4A) == a.exp_on_reverb_max,
        a.typed_at(0x00, 0, 0x4B) == a.exp_on_chorus_min,
        a.typed_at(0x00, 0, 0x4C) == a.exp_on_chorus_max,
        a.typed_at(0x00, 0, 0x4D) == (match a.exp_sw_status {
            Some(v) => Some(v.byte_spec()),
            None => None,
        }),
        a.typed_at(0x00, 0, 0x4E) == (match a.exp_sw_function {
            Some(v) => Some(v.byte_spec()),
            None => None,
        }),
        a.typed_at(0x00, 0, 0x53) == (match a.exp_sw_tone_sw_off_pcm_1 {
            Some(v) => Some(v.byte_spec()),
            None => None,
        }),
        a.typed_at(0x00, 0, 0x54) == (match a.exp_sw_tone_sw_off_pcm_2 {
            Some(v) => Some(v.byte_spec()),
            None => None,
        }),
        a.typed_at(0x00, 0, 0x55) == (match a.exp_sw_tone_sw_off_modeling {
            Some(v) => Some(v.byte_spec()),
            None => None,
        }),
        a.typed_at(0x00, 0, 0x56) == (match a.exp_sw_tone_sw_off_normal_pu {
            Some(v) => Some(v.byte_spec()),
            None => None,
        }),
        a.typed_at(0x00, 0, 0x57) == (match a.exp_sw_tone_sw_on_pcm_1 {
            Some(v) => Some(v.byte_spec()),
            None => None,
        }),
        a.typed_at(0x00, 0, 0x58) == (match a.exp_sw_tone_sw_on_pcm_2 {
            Some(v) => Some(v.byte_spec()),
            None => None,
        }),
        a.typed_at(0x00, 0, 0x59) == (match a.exp_sw_tone_sw_on_modeling {
            Some(v) => Some(v.byte_spec()),
            None => None,
        }),
        a.typed_at(0x00, 0, 0x5A) == (match a.exp_sw_tone_sw_on_normal_pu {
            Some(v) => Some(v.byte_spec()),
            None => None,
        }),
        a.typed_at(0x00, 0, 0x5B) == (match a.gk_vol_function {
            Some(v) => Some(v.byte_spec()),
            None => None,
        }),
        a.typed_at(0x00, 0, 0x5C) == (match a.gk_vol_tone_vol_pcm_1 {
            Some(v) => Some(v.byte_spec()),
            None => None,
        }),
        a.typed_at(0x00, 0, 0x5D) == (match a.gk_vol_tone_vol_pcm_2 {
            Some(v) => Some(v.byte_spec()),
            None => None,
        }),
        a.typed_at(0x00, 0, 0x5E) == (match a.gk_vol_tone_vol_modeling {
            Some(v) => Some(v.byte_spec()),
            None => None,
        }),
        a.typed_at(0x00, 0, 0x5F) == (match a.gk_vol_tone_vol_normal_pu {
            Some(v) => Some(v.byte_spec()),
            None => None,
        }),
        a.typed_at(0x00, 0, 0x60) == (match a.gk_vol_pitch_bend_depth {
            Some(v) => Some(v.byte_spec()),
            None => None,
        }),
        a.typed_at(0x00, 0, 0x61) == (match a.gk_vol_pitch_bend_pcm_1 {
            Some(v) => Some(v.byte_spec()),
            None => None,
        }),
        a.typed_at(0x00, 0, 0x62) == (match a.gk_vol_pitch_bend_pcm_2 {
            Some(v) => Some(v.byte_spec()),
            None => None,
        }),
        a.typed_at(0x00, 0, 0x63) == (match a.gk_vol_pitch_bend_modeling {
            Some(v) => Some(v.byte_spec()),
            None => None,
        }),
        a.typed_at(0x00, 0, 0x64) == a.gk_vol_mod_min,
        a.typed_at(0x00, 0, 0x65) == a.gk_vol_mod_max,
        a.typed_at(0x00, 0, 0x66) == (match a.gk_vol_mod_pcm_1 {
            Some(v) => Some(v.byte_spec()),
            None => None,
        }),
        a.typed_at(0x00, 0, 0x67) == (match a.gk_vol_mod_pcm_2 {
            Some(v) => Some(v.byte_spec()),
            None => None,
        }),
        a.typed_at(0x00, 0, 0x68) == (match a.gk_vol_cross_fader_pcm_1 {
            Some(v) => Some(v.byte_spec()),
            None => None,
        }),
        a.typed_at(0x00, 0, 0x69) == (match a.gk_vol_cross_fader_pcm_2 {
            Some(v) => Some(v.byte_spec()),
            None => None,
        }),
        a.typed_at(0x00, 0, 0x6A) == (match a.gk_vol_cross_fader_modeling {
            Some(v) => Some(v.byte_spec()),
            None => None,
        }),
        a.typed_at(0x00, 0, 0x6B) == (match a.gk_vol_cross_fader_normal_pu {
            Some(v) => Some(v.byte_spec()),
            None => None,
        }),
        a.typed_at(0x00, 0, 0x6C) == a.gk_vol_delay_min,
        a.typed_at(0x00, 0, 0x6D) == a.gk_vol_delay_max,
        a.typed_at(0x00, 0, 0x6E) == a.gk_vol_reverb_min,
        a.typed_at(0x00, 0, 0x6F) == a.gk_vol_reverb_max,
        a.typed_at(0x00, 0, 0x70) == a.gk_vol_chorus_min,
        a.typed_at(0x00, 0, 0x71) == a.gk_vol_chorus_max,
        a.typed_at(0x00, 0, 0x72) == (match a.gk_s1_function {
            Some(v) => Some(v.byte_spec()),
            None => None,
        }),
        a.typed_at(0x00, 0, 0x77) == (match a.gk_s1_tone_sw_off_pcm_1 {
            Some(v) => Some(v.byte_spec()),
            None => None,
        }),
        a.typed_at(0x00, 0, 0x78) == (match a.gk_s1_tone_sw_off_pcm_2 {
            Some(v) => Some(v.byte_spec()),
            None => None,
        }),
        a.typed_at(0x00, 0, 0x79) == (match a.gk_s1_tone_sw_off_modeling {
            Some(v) => Some(v.byte_spec()),
            None => None,
        }),
        a.typed_at(0x00, 0, 0x7A) == (match a.gk_s1_tone_sw_off_normal_pu {
            Some(v) => Some(v.byte_spec()),
            None => None,
        }),
        a.typed_at(0x00, 0, 0x7B) == (match a.gk_s1_tone_sw_on_pcm_1 {
            Some(v) => Some(v.byte_spec()),
            None => None,
        }),
        a.typed_at(0x00, 0, 0x7C) == (match a.gk_s1_tone_sw_on_pcm_2 {
            Some(v) => Some(v.byte_spec()),
            None => None,
        }),
        a.typed_at(0x00, 0, 0x7D) == (match a.gk_s1_tone_sw_on_modeling {
            Some(v) => Some(v.byte_spec()),
            None => None,
        }),
        a.typed_at(0x00, 0, 0x7E) == (match a.gk_s1_tone_sw_on_normal_pu {
            Some(v) => Some(v.byte_spec()),
            None => None,
        }),
        a.typed_at(0x00, 0, 0x7F) == (match a.gk_s2_function {
            Some(v) => Some(v.byte_spec()),
            None => None,
        }),
{
    reveal(opt_byte_cross_fader_mode);
    reveal(opt_byte_ctl_function);
    reveal(opt_byte_exp_function);
    reveal(opt_byte_exp_sw_function);
    reveal(opt_byte_hold_type);
    reveal(opt_byte_on_off);
    reveal(opt_byte_patch_mode);
    reveal(opt_byte_pitch_bend_depth);
    reveal(opt_byte_switch_mode);
}

/// Law: where each field of page `0x01` sits on the wire: the byte at
/// each offset listed is that field's value (an enumerated field's wire
/// byte).
pub proof fn lemma_page_01_fields(a: PatchArea)
    ensures
        a.typed_at(0x01, 0, 0x04) == (match a.gk_s2_tone_sw_off_pcm_1 {
            Some(v) => Some(v.byte_spec()),
            None => None,
        }),
        a.typed_at(0x01, 0, 0x05) == (match a.gk_s2_tone_sw_off_pcm_2 {
            Some(v) => Some(v.byte_spec()),
            None => None,
        }),
        a.typed_at(0x01, 0, 0x06) == (match a.gk_s2_tone_sw_off_modeling {
            Some(v) => Some(v.byte_spec()),
            None => None,
        }),
        a.typed_at(0x01, 0, 0x07) == (match a.gk_s2_tone_sw_off_normal_pu {
            Some(v) => Some(v.byte_spec()),
            None => None,
        }),
        a.typed_at(0x01, 0, 0x08) == (match a.gk_s2_tone_sw_on_pcm_1 {
            Some(v) => Some(v.byte_spec()),
            None => None,
        }),
        a.typed_at(0x01, 0, 0x09) == (match a.gk_s2_tone_sw_on_pcm_2 {
            Some(v) => Some(v.byte_spec()),
            None => None,
        }),
        a.typed_at(0x01, 0, 0x0A) == (match a.gk_s2_tone_sw_on_modeling {
            Some(v) => Some(v.byte_spec()),
            None => None,
        }),
        a.typed_at(0x01, 0, 0x0B) == (match a.gk_s2_tone_sw_on_normal_pu {
            Some(v) => Some(v.byte_spec()),
            None => None,
        }),
{
    reveal(opt_byte_on_off);
}

/// Law: where each field of page `0x02` sits on the wire: the byte at
/// each offset listed is that field's value (an enumerated field's wire
/// byte).
pub proof fn lemma_page_02_fields(a: PatchArea)
    ensures
        a.typed_at(0x02, 0, 0x24) == (match a.gk_set {
            Some(v) => Some(v.byte_spec()),
            None => None,
        }),
        a.typed_at(0x02, 0, 0x25) == (match a.guitar_out {
            Some(v) => Some(v.byte_spec()),
            None => None,
        }),
        a.typed_at(0x02, 0, 0x26) == a.v_link_pallet,
        a.typed_at(0x02, 0, 0x27) == a.v_link_clip,
        a.typed_at(0x02, 0, 0x28) == a.v_link_note_clip_change,
        a.typed_at(0x02, 0, 0x29) == (match a.v_link_exp {
            Some(v) => Some(v.byte_spec()),
            None => None,
        }),
        a.typed_at(0x02, 0, 0x2A) == (match a.v_link_exp_on {
            Some(v) => Some(v.byte_spec()),
            None => None,
        }),
        a.typed_at(0x02, 0, 0x2B) == (match a.v_link_gk_vol {
            Some(v) => Some(v.byte_spec()),
            None => None,
        }),
        a.typed_at(0x02, 0, 0x2C) == (match a.structure {
            Some(v) => Some(v.byte_spec()),
            None => None,
        }),
        a.typed_at(0x02, 0, 0x2D) == (match a.modeling_line_route {
            Some(v) => Some(v.byte_spec()),
            None => None,
        }),
        a.typed_at(0x02, 0, 0x2E) == (match a.analog_pu_line_route {
            Some(v) => Some(v.byte_spec()),
            None => None,
        }),
        a.typed_at(0x02, 0, 0x32) == (match a.analog_pu_tone_sw {
            Some(v) => Some(v.byte_spec()),
            None => None,
        }),
        a.typed_at(0x02, 0, 0x33) == a.analog_pu_tone_level,
        a.typed_at(0x02, 0, 0x34) == (match a.alt_tuning_sw {
            Some(v) => Some(v.byte_spec()),
            None => None,
        }),
        a.typed_at(0x02, 0, 0x35) == (match a.alt_tuning_type {
            Some(v) => Some(v.byte_spec()),
            None => None,
        }),
        a.typed_at(0x02, 0, 0x3E) == a.bypass_chorus,
        a.typed_at(0x02, 0, 0x3F) == a.bypass_delay,
        a.typed_at(0x02, 0, 0x40) == a.bypass_reverb,
        a.typed_at(0x02, 0, 0x42) == a.exp_mod_min_envelope,
        a.typed_at(0x02, 0, 0x43) == a.exp_mod_max_envelope,
        a.typed_at(0x02, 0, 0x44) == a.exp_on_mod_min_envelope,
        a.typed_at(0x02, 0, 0x45) == a.exp_on_mod_max_envelope,
        a.typed_at(0x02, 0, 0x46) == a.gk_vol_mod_min_envelope,
        a.typed_at(0x02, 0, 0x47) == a.gk_vol_mod_max_envelope,
{
    reveal(opt_byte_alt_tuning_type);
    reveal(opt_byte_analog_pu_tone_sw);
    reveal(opt_byte_guitar_out);
    reveal(opt_byte_line_route);
    reveal(opt_byte_on_off);
    reveal(opt_byte_patch_gk_set);
    reveal(opt_byte_patch_structure);
    reveal(opt_byte_v_link_control);
}

/// Law: where each field of page `0x06` sits on the wire: the byte at
/// each offset listed is that field's value (an enumerated field's wire
/// byte).
pub proof fn lemma_page_06_fields(a: PatchArea)
    ensures
        a.typed_at(0x06, 0, 0x00) == (match a.chorus_switch {
            Some(v) => Some(v.byte_spec()),
            None => None,
        }),
        a.typed_at(0x06, 0, 0x01) == (match a.chorus_type {
            Some(v) => Some(v.byte_spec()),
            None => None,
        }),
        a.typed_at(0x06, 0, 0x02) == a.chorus_rate,
        a.typed_at(0x06, 0, 0x03) == a.chorus_depth,
        a.typed_at(0x06, 0, 0x04) == a.chorus_level,
        a.typed_at(0x06, 0, 0x05) == (match a.delay_switch {
            Some(v) => Some(v.byte_spec()),
            None => None,
        }),
        a.typed_at(0x06, 0, 0x06) == (match a.delay_type {
            Some(v) => Some(v.byte_spec()),
            None => None,
        }),
        a.typed_at(0x06, 0, 0x07) == a.delay_time,
        a.typed_at(0x06, 0, 0x08) == a.delay_time_b,
        a.typed_at(0x06, 0, 0x09) == a.delay_time_c,
        a.typed_at(0x06, 0, 0x0A) == a.delay_feedback,
        a.typed_at(0x06, 0, 0x0B) == a.delay_level,
        a.typed_at(0x06, 0, 0x0C) == (match a.reverb_switch {
            Some(v) => Some(v.byte_spec()),
            None => None,
        }),
        a.typed_at(0x06, 0, 0x0D) == (match a.reverb_type {
            Some(v) => Some(v.byte_spec()),
            None => None,
        }),
        a.typed_at(0x06, 0, 0x0E) == a.reverb_time,
        a.typed_at(0x06, 0, 0x0F) == (match a.reverb_high_cut {
            Some(v) => Some(v.byte_spec()),
            None => None,
        }),
        a.typed_at(0x06, 0, 0x10) == a.reverb_level,
        a.typed_at(0x06, 0, 0x11) == (match a.patch_eq_switch {
            Some(v) => Some(v.byte_spec()),
            None => None,
        }),
        a.typed_at(0x06, 0, 0x12) == (match a.patch_eq_lo_cut {
            Some(v) => Some(v.byte_spec()),
            None => None,
        }),
        a.typed_at(0x06, 0, 0x13) == a.patch_eq_low_gain,
        a.typed_at(0x06, 0, 0x14) == (match a.patch_eq_lo_mid_freq {
            Some(v) => Some(v.byte_spec()),
            None => None,
        }),
        a.typed_at(0x06, 0, 0x15) == (match a.patch_eq_lo_mid_q {
            Some(v) => Some(v.byte_spec()),
            None => None,
        }),
        a.typed_at(0x06, 0, 0x16) == a.patch_eq_low_mid_gain,
        a.typed_at(0x06, 0, 0x17) == (match a.patch_eq_hi_mid_freq {
            Some(v) => Some(v.byte_spec()),
            None => None,
        }),
        a.typed_at(0x06, 0, 0x18) == (match a.patch_eq_hi_mid_q {
            Some(v) => Some(v.byte_spec()),
            None => None,
        }),
        a.typed_at(0x06, 0, 0x19) == a.patch_eq_hi_mid_gain,
        a.typed_at(0x06, 0, 0x1A) == (match a.patch_eq_high_cut {
            Some(v) => Some(v.byte_spec()),
            None => None,
        }),
        a.typed_at(0x06, 0, 0x1B) == a.patch_eq_high_gain,
        a.typed_at(0x06, 0, 0x1C) == a.patch_eq_level,
        a.typed_at(0x06, 0, 0x1D) == (match a.patch_eq_character {
            Some(v) => Some(v.byte_spec()),
            None => None,
        }),
{
    reveal(opt_byte_chorus_type);
    reveal(opt_byte_delay_type);
    reveal(opt_byte_on_off);
    reveal(opt_byte_patch_eq_character);
    reveal(opt_byte_patch_eq_high_cut);
    reveal(opt_byte_patch_eq_lo_cut);
    reveal(opt_byte_patch_eq_mid_freq);
    reveal(opt_byte_patch_eq_mid_q);
    reveal(opt_byte_reverb_high_cut);
    reveal(opt_byte_reverb_type);
}

/// Law: where each field of page `0x07` sits on the wire: the byte at
/// each offset listed is that field's value (an enumerated field's wire
/// byte).
pub proof fn lemma_page_07_fields(a: PatchArea)
    ensures
        a.typed_at(0x07, 0, 0x00) == (match a.preamp_switch {
            Some(v) => Some(v.byte_spec()),
            None => None,
        }),
        a.typed_at(0x07, 0, 0x01) == (match a.preamp_type {
            Some(v) => Some(v.byte_spec()),
            None => None,
        }),
        a.typed_at(0x07, 0, 0x02) == a.preamp_gain,
        a.typed_at(0x07, 0, 0x03) == a.preamp_level,
        a.typed_at(0x07, 0, 0x04) == (match a.preamp_gain_sw {
            Some(v) => Some(v.byte_spec()),
            None => None,
        }),
        a.typed_at(0x07, 0, 0x05) == (match a.preamp_solo_sw {
            Some(v) => Some(v.byte_spec()),
            None => None,
        }),
        a.typed_at(0x07, 0, 0x06) == a.preamp_solo_level,
        a.typed_at(0x07, 0, 0x07) == a.preamp_bass,
        a.typed_at(0x07, 0, 0x08) == a.preamp_middle,
        a.typed_at(0x07, 0, 0x09) == a.preamp_treble,
        a.typed_at(0x07, 0, 0x0A) == a.preamp_presence,
        a.typed_at(0x07, 0, 0x0B) == (match a.preamp_bright_sw {
            Some(v) => Some(v.byte_spec()),
            None => None,
        }),
        a.typed_at(0x07, 0, 0x0C) == (match a.speaker_type {
            Some(v) => Some(v.byte_spec()),
            None => None,
        }),
        a.typed_at(0x07, 0, 0x0D) == (match a.mic_type {
            Some(v) => Some(v.byte_spec()),
            None => None,
        }),
        a.typed_at(0x07, 0, 0x0E) == (match a.mic_distance {
            Some(v) => Some(v.byte_spec()),
            None => None,
        }),
        a.typed_at(0x07, 0, 0x0F) == a.mic_position,
        a.typed_at(0x07, 0, 0x10) == a.mic_level,
        a.typed_at(0x07, 0, 0x5A) == (match a.ns_switch {
            Some(v) => Some(v.byte_spec()),
            None => None,
        }),
        a.typed_at(0x07, 0, 0x5B) == a.ns_threshold,
        a.typed_at(0x07, 0, 0x5C) == a.ns_release,
{
    reveal(opt_byte_mic_distance);
    reveal(opt_byte_mic_type);
    reveal(opt_byte_on_off);
    reveal(opt_byte_preamp_gain_sw);
    reveal(opt_byte_preamp_type);
    reveal(opt_byte_speaker_type);
}

/// Law: the two-byte and array fields of page `0x02` and the name on page
/// `0x00`: the patch level is written as its high and low nibble at
/// `0x30`/`0x31`, the tempo likewise at `0x3C`/`0x3D`, the six user
/// string shifts at `0x36..=0x3B`, and name character `i` at `0x01 + i`
/// (a pad space shows as no byte).
pub proof fn lemma_page_02_pairs(a: PatchArea)
    ensures
        a.typed_at(0x02, 0, 0x30) == (match a.patch_level {
            Some(v) => Some((v.value() / 16) as u8),
            None => None,
        }),
        a.typed_at(0x02, 0, 0x31) == (match a.patch_level {
            Some(v) => Some((v.value() % 16) as u8),
            None => None,
        }),
        a.typed_at(0x02, 0, 0x3C) == (match a.patch_tempo {
            Some(v) => Some((v.0 / 16) as u8),
            None => None,
        }),
        a.typed_at(0x02, 0, 0x3D) == (match a.patch_tempo {
            Some(v) => Some((v.0 % 16) as u8),
            None => None,
        }),
        forall|i: int| 0 <= i < 6 ==> a.typed_at(0x02, 0, (0x36 + i) as u8) == #[trigger] a.alt_tuning_user_shift@[i],
        forall|i: int|
            0 <= i < 16 ==> a.typed_at(0x00, 0, (0x01 + i) as u8) == (if #[trigger] a.name.0@[i] == 0x20 {
                None
            } else {
                Some(a.name.0@[i])
            }),
{
}

/// Law: which bytes each field of page `0x00` takes: an enumerated
/// field the bytes of its wire table, a numeric field the bytes up to its
/// maximum.
pub proof fn lemma_page_00_ranges()
    ensures
        forall|b: u8| #[trigger] PatchArea::key_accepts(0x00, 0, 0x00, b) == (PatchMode::from_byte_spec(b) is Some),
        forall|b: u8| #[trigger] PatchArea::key_accepts(0x00, 0, 0x11, b) == (OnOff::from_byte_spec(b) is Some),
        forall|b: u8| #[trigger] PatchArea::key_accepts(0x00, 0, 0x12, b) == (CtlFunction::from_byte_spec(b) is Some),
        forall|b: u8| #[trigger] PatchArea::key_accepts(0x00, 0, 0x13, b) == (HoldType::from_byte_spec(b) is Some),
        forall|b: u8| #[trigger] PatchArea::key_accepts(0x00, 0, 0x14, b) == (SwitchMode::from_byte_spec(b) is Some),
        forall|b: u8| #[trigger] PatchArea::key_accepts(0x00, 0, 0x15, b) == (OnOff::from_byte_spec(b) is Some),
        forall|b: u8| #[trigger] PatchArea::key_accepts(0x00, 0, 0x16, b) == (OnOff::from_byte_spec(b) is Some),
        forall|b: u8| #[trigger] PatchArea::key_accepts(0x00, 0, 0x17, b) == (OnOff::from_byte_spec(b) is Some),
        forall|b: u8| #[trigger] PatchArea::key_accepts(0x00, 0, 0x18, b) == (OnOff::from_byte_spec(b) is Some),
        forall|b: u8| #[trigger] PatchArea::key_accepts(0x00, 0, 0x19, b) == (OnOff::from_byte_spec(b) is Some),
        forall|b: u8| #[trigger] PatchArea::key_accepts(0x00, 0, 0x1A, b) == (OnOff::from_byte_spec(b) is Some),
        forall|b: u8| #[trigger] PatchArea::key_accepts(0x00, 0, 0x1B, b) == (OnOff::from_byte_spec(b) is Some),
        forall|b: u8| #[trigger] PatchArea::key_accepts(0x00, 0, 0x1C, b) == (OnOff::from_byte_spec(b) is Some),
        forall|b: u8| #[trigger] PatchArea::key_accepts(0x00, 0, 0x1D, b) == (OnOff::from_byte_spec(b) is Some),
        forall|b: u8| #[trigger] PatchArea::key_accepts(0x00, 0, 0x1E, b) == (OnOff::from_byte_spec(b) is Some),
        forall|b: u8| #[trigger] PatchArea::key_accepts(0x00, 0, 0x1F, b) == (ExpFunction::from_byte_spec(b) is Some),
        forall|b: u8| #[trigger] PatchArea::key_accepts(0x00, 0, 0x20, b) == (OnOff::from_byte_spec(b) is Some),
        forall|b: u8| #[trigger] PatchArea::key_accepts(0x00, 0, 0x21, b) == (OnOff::from_byte_spec(b) is Some),
        forall|b: u8| #[trigger] PatchArea::key_accepts(0x00, 0, 0x22, b) == (OnOff::from_byte_spec(b) is Some),
        forall|b: u8| #[trigger] PatchArea::key_accepts(0x00, 0, 0x23, b) == (OnOff::from_byte_spec(b) is Some),
        forall|b: u8| #[trigger] PatchArea::key_accepts(0x00, 0, 0x24, b) == (PitchBendDepth::from_byte_spec(b) is Some),
        forall|b: u8| #[trigger] PatchArea::key_accepts(0x00, 0, 0x25, b) == (OnOff::from_byte_spec(b) is Some),
        forall|b: u8| #[trigger] PatchArea::key_accepts(0x00, 0, 0x26, b) == (OnOff::from_byte_spec(b) is Some),
        forall|b: u8| #[trigger] PatchArea::key_accepts(0x00, 0, 0x27, b) == (OnOff::from_byte_spec(b) is Some),
        forall|b: u8| #[trigger] PatchArea::key_accepts(0x00, 0, 0x28, b) == (b <= 127),
        forall|b: u8| #[trigger] PatchArea::key_accepts(0x00, 0, 0x29, b) == (b <= 127),
        forall|b: u8| #[trigger] PatchArea::key_accepts(0x00, 0, 0x2A, b) == (OnOff::from_byte_spec(b) is Some),
        forall|b: u8| #[trigger] PatchArea::key_accepts(0x00, 0, 0x2B, b) == (OnOff::from_byte_spec(b) is Some),
        forall|b: u8| #[trigger] PatchArea::key_accepts(0x00, 0, 0x2C, b) == (CrossFaderMode::from_byte_spec(b) is Some),
        forall|b: u8| #[trigger] PatchArea::key_accepts(0x00, 0, 0x2D, b) == (CrossFaderMode::from_byte_spec(b) is Some),
        forall|b: u8| #[trigger] PatchArea::key_accepts(0x00, 0, 0x2E, b) == (CrossFaderMode::from_byte_spec(b) is Some),
        forall|b: u8| #[trigger] PatchArea::key_accepts(0x00, 0, 0x2F, b) == (CrossFaderMode::from_byte_spec(b) is Some),
        forall|b: u8| #[trigger] PatchArea::key_accepts(0x00, 0, 0x30, b) == (b <= 120),
        forall|b: u8| #[trigger] PatchArea::key_accepts(0x00, 0, 0x31, b) == (b <= 120),
        forall|b: u8| #[trigger] PatchArea::key_accepts(0x00, 0, 0x32, b) == (b <= 100),
        forall|b: u8| #[trigger] PatchArea::key_accepts(0x00, 0, 0x33, b) == (b <= 100),
        forall|b: u8| #[trigger] PatchArea::key_accepts(0x00, 0, 0x34, b) == (b <= 100),
        forall|b: u8| #[trigger] PatchArea::key_accepts(0x00, 0, 0x35, b) == (b <= 100),
        forall|b: u8| #[trigger] PatchArea::key_accepts(0x00, 0, 0x36, b) == (ExpFunction::from_byte_spec(b) is Some),
        forall|b: u8| #[trigger] PatchArea::key_accepts(0x00, 0, 0x37, b) == (OnOff::from_byte_spec(b) is Some),
        forall|b: u8| #[trigger] PatchArea::key_accepts(0x00, 0, 0x38, b) == (OnOff::from_byte_spec(b) is Some),
        forall|b: u8| #[trigger] PatchArea::key_accepts(0x00, 0, 0x39, b) == (OnOff::from_byte_spec(b) is Some),
        forall|b: u8| #[trigger] PatchArea::key_accepts(0x00, 0, 0x3A, b) == (OnOff::from_byte_spec(b) is Some),
        forall|b: u8| #[trigger] PatchArea::key_accepts(0x00, 0, 0x3B, b) == (PitchBendDepth::from_byte_spec(b) is Some),
        forall|b: u8| #[trigger] PatchArea::key_accepts(0x00, 0, 0x3C, b) == (OnOff::from_byte_spec(b) is Some),
        forall|b: u8| #[trigger] PatchArea::key_accepts(0x00, 0, 0x3D, b) == (OnOff::from_byte_spec(b) is Some),
        forall|b: u8| #[trigger] PatchArea::key_accepts(0x00, 0, 0x3E, b) == (OnOff::from_byte_spec(b) is Some),
        forall|b: u8| #[trigger] PatchArea::key_accepts(0x00, 0, 0x3F, b) == (b <= 127),
        forall|b: u8| #[trigger] PatchArea::key_accepts(0x00, 0, 0x40, b) == (b <= 127),
        forall|b: u8| #[trigger] PatchArea::key_accepts(0x00, 0, 0x41, b) == (OnOff::from_byte_spec(b) is Some),
        forall|b: u8| #[trigger] PatchArea::key_accepts(0x00, 0, 0x42, b) == (OnOff::from_byte_spec(b) is Some),
        forall|b: u8| #[trigger] PatchArea::key_accepts(0x00, 0, 0x43, b) == (CrossFaderMode::from_byte_spec(b) is Some),
        forall|b: u8| #[trigger] PatchArea::key_accepts(0x00, 0, 0x44, b) == (CrossFaderMode::from_byte_spec(b) is Some),
        forall|b: u8| #[trigger] PatchArea::key_accepts(0x00, 0, 0x45, b) == (CrossFaderMode::from_byte_spec(b) is Some),
        forall|b: u8| #[trigger] PatchArea::key_accepts(0x00, 0, 0x46, b) == (CrossFaderMode::from_byte_spec(b) is Some),
        forall|b: u8| #[trigger] PatchArea::key_accepts(0x00, 0, 0x47, b) == (b <= 120),
        forall|b: u8| #[trigger] PatchArea::key_accepts(0x00, 0, 0x48, b) == (b <= 120),
        forall|b: u8| #[trigger] PatchArea::key_accepts(0x00, 0, 0x49, b) == (b <= 100),
        forall|b: u8| #[trigger] PatchArea::key_accepts(0x00, 0, 0x4A, b) == (b <= 100),
        forall|b: u8| #[trigger] PatchArea::key_accepts(0x00, 0, 0x4B, b) == (b <= 100),
        forall|b: u8| #[trigger] PatchArea::key_accepts(0x00, 0, 0x4C, b) == (b <= 100),
        forall|b: u8| #[trigger] PatchArea::key_accepts(0x00, 0, 0x4D, b) == (OnOff::from_byte_spec(b) is Some),
        forall|b: u8| #[trigger] PatchArea::key_accepts(0x00, 0, 0x4E, b) == (ExpSwFunction::from_byte_spec(b) is Some),
        forall|b: u8| #[trigger] PatchArea::key_accepts(0x00, 0, 0x53, b) == (OnOff::from_byte_spec(b) is Some),
        forall|b: u8| #[trigger] PatchArea::key_accepts(0x00, 0, 0x54, b) == (OnOff::from_byte_spec(b) is Some),
        forall|b: u8| #[trigger] PatchArea::key_accepts(0x00, 0, 0x55, b) == (OnOff::from_byte_spec(b) is Some),
        forall|b: u8| #[trigger] PatchArea::key_accepts(0x00, 0, 0x56, b) == (OnOff::from_byte_spec(b) is Some),
        forall|b: u8| #[trigger] PatchArea::key_accepts(0x00, 0, 0x57, b) == (OnOff::from_byte_spec(b) is Some),
        forall|b: u8| #[trigger] PatchArea::key_accepts(0x00, 0, 0x58, b) == (OnOff::from_byte_spec(b) is Some),
        forall|b: u8| #[trigger] PatchArea::key_accepts(0x00, 0, 0x59, b) == (OnOff::from_byte_spec(b) is Some),
        forall|b: u8| #[trigger] PatchArea::key_accepts(0x00, 0, 0x5A, b) == (OnOff::from_byte_spec(b) is Some),
        forall|b: u8| #[trigger] PatchArea::key_accepts(0x00, 0, 0x5B, b) == (ExpFunction::from_byte_spec(b) is Some),
        forall|b: u8| #[trigger] PatchArea::key_accepts(0x00, 0, 0x5C, b) == (OnOff::from_byte_spec(b) is Some),
        forall|b: u8| #[trigger] PatchArea::key_accepts(0x00, 0, 0x5D, b) == (OnOff::from_byte_spec(b) is Some),
        forall|b: u8| #[trigger] PatchArea::key_accepts(0x00, 0, 0x5E, b) == (OnOff::from_byte_spec(b) is Some),
        forall|b: u8| #[trigger] PatchArea::key_accepts(0x00, 0, 0x5F, b) == (OnOff::from_byte_spec(b) is Some),
        forall|b: u8| #[trigger] PatchArea::key_accepts(0x00, 0, 0x60, b) == (PitchBendDepth::from_byte_spec(b) is Some),
        forall|b: u8| #[trigger] PatchArea::key_accepts(0x00, 0, 0x61, b) == (OnOff::from_byte_spec(b) is Some),
        forall|b: u8| #[trigger] PatchArea::key_accepts(0x00, 0, 0x62, b) == (OnOff::from_byte_spec(b) is Some),
        forall|b: u8| #[trigger] PatchArea::key_accepts(0x00, 0, 0x63, b) == (OnOff::from_byte_spec(b) is Some),
        forall|b: u8| #[trigger] PatchArea::key_accepts(0x00, 0, 0x64, b) == (b <= 127),
        forall|b: u8| #[trigger] PatchArea::key_accepts(0x00, 0, 0x65, b) == (b <= 127),
        forall|b: u8| #[trigger] PatchArea::key_accepts(0x00, 0, 0x66, b) == (OnOff::from_byte_spec(b) is Some),
        forall|b: u8| #[trigger] PatchArea::key_accepts(0x00, 0, 0x67, b) == (OnOff::from_byte_spec(b) is Some),
        forall|b: u8| #[trigger] PatchArea::key_accepts(0x00, 0, 0x68, b) == (CrossFaderMode::from_byte_spec(b) is Some),
        forall|b: u8| #[trigger] PatchArea::key_accepts(0x00, 0, 0x69, b) == (CrossFaderMode::from_byte_spec(b) is Some),
        forall|b: u8| #[trigger] PatchArea::key_accepts(0x00, 0, 0x6A, b) == (CrossFaderMode::from_byte_spec(b) is Some),
        forall|b: u8| #[trigger] PatchArea::key_accepts(0x00, 0, 0x6B, b) == (CrossFaderMode::from_byte_spec(b) is Some),
        forall|b: u8| #[trigger] PatchArea::key_accepts(0x00, 0, 0x6C, b) == (b <= 120),
        forall|b: u8| #[trigger] PatchArea::key_accepts(0x00, 0, 0x6D, b) == (b <= 120),
        forall|b: u8| #[trigger] PatchArea::key_accepts(0x00, 0, 0x6E, b) == (b <= 100),
        forall|b: u8| #[trigger] PatchArea::key_accepts(0x00, 0, 0x6F, b) == (b <= 100),
        forall|b: u8| #[trigger] PatchArea::key_accepts(0x00, 0, 0x70, b) == (b <= 100),
        forall|b: u8| #[trigger] PatchArea::key_accepts(0x00, 0, 0x71, b) == (b <= 100),
        forall|b: u8| #[trigger] PatchArea::key_accepts(0x00, 0, 0x72, b) == (ExpSwFunction::from_byte_spec(b) is Some),
        forall|b: u8| #[trigger] PatchArea::key_accepts(0x00, 0, 0x77, b) == (OnOff::from_byte_spec(b) is Some),
        forall|b: u8| #[trigger] PatchArea::key_accepts(0x00, 0, 0x78, b) == (OnOff::from_byte_spec(b) is Some),
        forall|b: u8| #[trigger] PatchArea::key_accepts(0x00, 0, 0x79, b) == (OnOff::from_byte_spec(b) is Some),
        forall|b: u8| #[trigger] PatchArea::key_accepts(0x00, 0, 0x7A, b) == (OnOff::from_byte_spec(b) is Some),
        forall|b: u8| #[trigger] PatchArea::key_accepts(0x00, 0, 0x7B, b) == (OnOff::from_byte_spec(b) is Some),
        forall|b: u8| #[trigger] PatchArea::key_accepts(0x00, 0, 0x7C, b) == (OnOff::from_byte_spec(b) is Some),
        forall|b: u8| #[trigger] PatchArea::key_accepts(0x00, 0, 0x7D, b) == (OnOff::from_byte_spec(b) is Some),
        forall|b: u8| #[trigger] PatchArea::key_accepts(0x00, 0, 0x7E, b) == (OnOff::from_byte_spec(b) is Some),
        forall|b: u8| #[trigger] PatchArea::key_accepts(0x00, 0, 0x7F, b) == (ExpSwFunction::from_byte_spec(b) is Some),
{
}

/// Law: which bytes each field of page `0x01` takes: an enumerated
/// field the bytes of its wire table, a numeric field the bytes up to its
/// maximum.
pub proof fn lemma_page_01_ranges()
    ensures
        forall|b: u8| #[trigger] PatchArea::key_accepts(0x01, 0, 0x04, b) == (OnOff::from_byte_spec(b) is Some),
        forall|b: u8| #[trigger] PatchArea::key_accepts(0x01, 0, 0x05, b) == (OnOff::from_byte_spec(b) is Some),
        forall|b: u8| #[trigger] PatchArea::key_accepts(0x01, 0, 0x06, b) == (OnOff::from_byte_spec(b) is Some),
        forall|b: u8| #[trigger] PatchArea::key_accepts(0x01, 0, 0x07, b) == (OnOff::from_byte_spec(b) is Some),
        forall|b: u8| #[trigger] PatchArea::key_accepts(0x01, 0, 0x08, b) == (OnOff::from_byte_spec(b) is Some),
        forall|b: u8| #[trigger] PatchArea::key_accepts(0x01, 0, 0x09, b) == (OnOff::from_byte_spec(b) is Some),
        forall|b: u8| #[trigger] PatchArea::key_accepts(0x01, 0, 0x0A, b) == (OnOff::from_byte_spec(b) is Some),
        forall|b: u8| #[trigger] PatchArea::key_accepts(0x01, 0, 0x0B, b) == (OnOff::from_byte_spec(b) is Some),
{
}

/// Law: which bytes each field of page `0x02` takes: an enumerated
/// field the bytes of its wire table, a numeric field the bytes up to its
/// maximum.
pub proof fn lemma_page_02_ranges()
    ensures
        forall|b: u8| #[trigger] PatchArea::key_accepts(0x02, 0, 0x24, b) == (PatchGkSet::from_byte_spec(b) is Some),
        forall|b: u8| #[trigger] PatchArea::key_accepts(0x02, 0, 0x25, b) == (GuitarOut::from_byte_spec(b) is Some),
        forall|b: u8| #[trigger] PatchArea::key_accepts(0x02, 0, 0x26, b) == (b <= 32),
        forall|b: u8| #[trigger] PatchArea::key_accepts(0x02, 0, 0x27, b) == (b <= 32),
        forall|b: u8| #[trigger] PatchArea::key_accepts(0x02, 0, 0x28, b) == (b <= 4),
        forall|b: u8| #[trigger] PatchArea::key_accepts(0x02, 0, 0x29, b) == (VLinkControl::from_byte_spec(b) is Some),
        forall|b: u8| #[trigger] PatchArea::key_accepts(0x02, 0, 0x2A, b) == (VLinkControl::from_byte_spec(b) is Some),
        forall|b: u8| #[trigger] PatchArea::key_accepts(0x02, 0, 0x2B, b) == (VLinkControl::from_byte_spec(b) is Some),
        forall|b: u8| #[trigger] PatchArea::key_accepts(0x02, 0, 0x2C, b) == (PatchStructure::from_byte_spec(b) is Some),
        forall|b: u8| #[trigger] PatchArea::key_accepts(0x02, 0, 0x2D, b) == (LineRoute::from_byte_spec(b) is Some),
        forall|b: u8| #[trigger] PatchArea::key_accepts(0x02, 0, 0x2E, b) == (LineRoute::from_byte_spec(b) is Some),
        forall|b: u8| #[trigger] PatchArea::key_accepts(0x02, 0, 0x32, b) == (AnalogPuToneSw::from_byte_spec(b) is Some),
        forall|b: u8| #[trigger] PatchArea::key_accepts(0x02, 0, 0x33, b) == (b <= 100),
        forall|b: u8| #[trigger] PatchArea::key_accepts(0x02, 0, 0x34, b) == (OnOff::from_byte_spec(b) is Some),
        forall|b: u8| #[trigger] PatchArea::key_accepts(0x02, 0, 0x35, b) == (AltTuningType::from_byte_spec(b) is Some),
        forall|b: u8| #[trigger] PatchArea::key_accepts(0x02, 0, 0x3E, b) == (b <= 100),
        forall|b: u8| #[trigger] PatchArea::key_accepts(0x02, 0, 0x3F, b) == (b <= 100),
        forall|b: u8| #[trigger] PatchArea::key_accepts(0x02, 0, 0x40, b) == (b <= 100),
        forall|b: u8| #[trigger] PatchArea::key_accepts(0x02, 0, 0x42, b) == (b <= 127),
        forall|b: u8| #[trigger] PatchArea::key_accepts(0x02, 0, 0x43, b) == (b <= 127),
        forall|b: u8| #[trigger] PatchArea::key_accepts(0x02, 0, 0x44, b) == (b <= 127),
        forall|b: u8| #[trigger] PatchArea::key_accepts(0x02, 0, 0x45, b) == (b <= 127),
        forall|b: u8| #[trigger] PatchArea::key_accepts(0x02, 0, 0x46, b) == (b <= 127),
        forall|b: u8| #[trigger] PatchArea::key_accepts(0x02, 0, 0x47, b) == (b <= 127),
{
}

/// Law: which bytes each field of page `0x06` takes: an enumerated
/// field the bytes of its wire table, a numeric field the bytes up to its
/// maximum.
pub proof fn lemma_page_06_ranges()
    ensures
        forall|b: u8| #[trigger] PatchArea::key_accepts(0x06, 0, 0x00, b) == (OnOff::from_byte_spec(b) is Some),
        forall|b: u8| #[trigger] PatchArea::key_accepts(0x06, 0, 0x01, b) == (ChorusType::from_byte_spec(b) is Some),
        forall|b: u8| #[trigger] PatchArea::key_accepts(0x06, 0, 0x02, b) == (b <= 0x71),
        forall|b: u8| #[trigger] PatchArea::key_accepts(0x06, 0, 0x03, b) == (b <= 100),
        forall|b: u8| #[trigger] PatchArea::key_accepts(0x06, 0, 0x04, b) == (b <= 100),
        forall|b: u8| #[trigger] PatchArea::key_accepts(0x06, 0, 0x05, b) == (OnOff::from_byte_spec(b) is Some),
        forall|b: u8| #[trigger] PatchArea::key_accepts(0x06, 0, 0x06, b) == (DelayType::from_byte_spec(b) is Some),
        forall|b: u8| #[trigger] PatchArea::key_accepts(0x06, 0, 0x07, b) == (b <= 0x0F),
        forall|b: u8| #[trigger] PatchArea::key_accepts(0x06, 0, 0x08, b) == (b <= 0x0F),
        forall|b: u8| #[trigger] PatchArea::key_accepts(0x06, 0, 0x09, b) == (b <= 0x0F),
        forall|b: u8| #[trigger] PatchArea::key_accepts(0x06, 0, 0x0A, b) == (b <= 100),
        forall|b: u8| #[trigger] PatchArea::key_accepts(0x06, 0, 0x0B, b) == (b <= 120),
        forall|b: u8| #[trigger] PatchArea::key_accepts(0x06, 0, 0x0C, b) == (OnOff::from_byte_spec(b) is Some),
        forall|b: u8| #[trigger] PatchArea::key_accepts(0x06, 0, 0x0D, b) == (ReverbType::from_byte_spec(b) is Some),
        forall|b: u8| #[trigger] PatchArea::key_accepts(0x06, 0, 0x0E, b) == (b <= 99),
        forall|b: u8| #[trigger] PatchArea::key_accepts(0x06, 0, 0x0F, b) == (ReverbHighCut::from_byte_spec(b) is Some),
        forall|b: u8| #[trigger] PatchArea::key_accepts(0x06, 0, 0x10, b) == (b <= 100),
        forall|b: u8| #[trigger] PatchArea::key_accepts(0x06, 0, 0x11, b) == (OnOff::from_byte_spec(b) is Some),
        forall|b: u8| #[trigger] PatchArea::key_accepts(0x06, 0, 0x12, b) == (PatchEqLoCut::from_byte_spec(b) is Some),
        forall|b: u8| #[trigger] PatchArea::key_accepts(0x06, 0, 0x13, b) == (b <= 0x28),
        forall|b: u8| #[trigger] PatchArea::key_accepts(0x06, 0, 0x14, b) == (PatchEqMidFreq::from_byte_spec(b) is Some),
        forall|b: u8| #[trigger] PatchArea::key_accepts(0x06, 0, 0x15, b) == (PatchEqMidQ::from_byte_spec(b) is Some),
        forall|b: u8| #[trigger] PatchArea::key_accepts(0x06, 0, 0x16, b) == (b <= 0x28),
        forall|b: u8| #[trigger] PatchArea::key_accepts(0x06, 0, 0x17, b) == (PatchEqMidFreq::from_byte_spec(b) is Some),
        forall|b: u8| #[trigger] PatchArea::key_accepts(0x06, 0, 0x18, b) == (PatchEqMidQ::from_byte_spec(b) is Some),
        forall|b: u8| #[trigger] PatchArea::key_accepts(0x06, 0, 0x19, b) == (b <= 0x28),
        forall|b: u8| #[trigger] PatchArea::key_accepts(0x06, 0, 0x1A, b) == (PatchEqHighCut::from_byte_spec(b) is Some),
        forall|b: u8| #[trigger] PatchArea::key_accepts(0x06, 0, 0x1B, b) == (b <= 0x28),
        forall|b: u8| #[trigger] PatchArea::key_accepts(0x06, 0, 0x1C, b) == (b <= 0x28),
        forall|b: u8| #[trigger] PatchArea::key_accepts(0x06, 0, 0x1D, b) == (PatchEqCharacter::from_byte_spec(b) is Some),
{
}

/// Law: which bytes each field of page `0x07` takes: an enumerated
/// field the bytes of its wire table, a numeric field the bytes up to its
/// maximum.
pub proof fn lemma_page_07_ranges()
    ensures
        forall|b: u8| #[trigger] PatchArea::key_accepts(0x07, 0, 0x00, b) == (OnOff::from_byte_spec(b) is Some),
        forall|b: u8| #[trigger] PatchArea::key_accepts(0x07, 0, 0x01, b) == (PreampType::from_byte_spec(b) is Some),
        forall|b: u8| #[trigger] PatchArea::key_accepts(0x07, 0, 0x02, b) == (b <= 120),
        forall|b: u8| #[trigger] PatchArea::key_accepts(0x07, 0, 0x03, b) == (b <= 100),
        forall|b: u8| #[trigger] PatchArea::key_accepts(0x07, 0, 0x04, b) == (PreampGainSw::from_byte_spec(b) is Some),
        forall|b: u8| #[trigger] PatchArea::key_accepts(0x07, 0, 0x05, b) == (OnOff::from_byte_spec(b) is Some),
        forall|b: u8| #[trigger] PatchArea::key_accepts(0x07, 0, 0x06, b) == (b <= 100),
        forall|b: u8| #[trigger] PatchArea::key_accepts(0x07, 0, 0x07, b) == (b <= 100),
        forall|b: u8| #[trigger] PatchArea::key_accepts(0x07, 0, 0x08, b) == (b <= 100),
        forall|b: u8| #[trigger] PatchArea::key_accepts(0x07, 0, 0x09, b) == (b <= 100),
        forall|b: u8| #[trigger] PatchArea::key_accepts(0x07, 0, 0x0A, b) == (b <= 100),
        forall|b: u8| #[trigger] PatchArea::key_accepts(0x07, 0, 0x0B, b) == (OnOff::from_byte_spec(b) is Some),
        forall|b: u8| #[trigger] PatchArea::key_accepts(0x07, 0, 0x0C, b) == (SpeakerType::from_byte_spec(b) is Some),
        forall|b: u8| #[trigger] PatchArea::key_accepts(0x07, 0, 0x0D, b) == (MicType::from_byte_spec(b) is Some),
        forall|b: u8| #[trigger] PatchArea::key_accepts(0x07, 0, 0x0E, b) == (MicDistance::from_byte_spec(b) is Some),
        forall|b: u8| #[trigger] PatchArea::key_accepts(0x07, 0, 0x0F, b) == (b <= 10),
        forall|b: u8| #[trigger] PatchArea::key_accepts(0x07, 0, 0x10, b) == (b <= 100),
        forall|b: u8| #[trigger] PatchArea::key_accepts(0x07, 0, 0x5A, b) == (OnOff::from_byte_spec(b) is Some),
        forall|b: u8| #[trigger] PatchArea::key_accepts(0x07, 0, 0x5B, b) == (b <= 100),
        forall|b: u8| #[trigger] PatchArea::key_accepts(0x07, 0, 0x5C, b) == (b <= 100),
{
}

impl Default for PatchArea {
    /// An empty area, as [`PatchArea::new`] gives.
    fn default() -> (r: PatchArea)
        ensures
            forall|p: u8, h: u8, l: u8| #[trigger] r.typed_at(p, h, l) is None,
            r.unknown_bytes@ == Map::<u32, u8>::empty(),
            r.tones_unset(),
            r.raws_ok(),
            r.patch_level is None,
            r.patch_tempo is None,
    {
        PatchArea::new()
    }
}

} // verus!
