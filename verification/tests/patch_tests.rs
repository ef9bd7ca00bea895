use std::str::FromStr;

use gr55_core::patch::{AltTuningType, AnalogPuToneSw, AssignIntPdlCurve, AssignInternalTrigger, AssignSource, AssignSourceMode, AssignWaveForm, BassModeCategory, BmEBassType, BmEGuitarType, ChorusType, CrossFaderMode, CtlFunction, DelayType, EqHighFreq, EqLowFreq, EqMidFreq, EqMidQ, ExpFunction, ExpSwFunction, GmAcousticType, GmEBassType, GmEGuitarType, GuitarModeCategory, GuitarOut, LineRoute, MfxType, MicDistance, MicType, ModType, ModelingSynthType, PatchArea, PatchEqCharacter, PatchEqHighCut, PatchEqLoCut, PatchEqMidFreq, PatchEqMidQ, PatchGkSet, PatchMode, PatchName, PatchNameError, PatchStructure, PatchTempo, PcmToneIndex, PortamentoSwitch, PreampGainSw, PreampType, ReverbHighCut, ReverbType, SpeakerType, TvaReleaseMode, VLinkControl, Pcm};
use gr55_core::patch_codec::{assign_address, assign_locate, pcm_pages_for_slot, pcm_route_for_page, PcmPageRole};
use gr55_core::pcm_tail_params::PcmTailGroup;
use gr55_core::sysex::Frame;
use gr55_core::system::{PatchLevel, PitchBendDepth};
use gr55_core::system_enums::{HoldType, OnOff, SwitchMode};

const TEMP_MSB: u8 = 0x60;

#[test]
fn decodes_mode_and_name_from_temp_buffer() {
    // One DT1 spanning offsets 0x00..=0x10 of page 0x00 at MSB 0x60.
    let mut data = vec![PatchMode::Bass.to_byte()];
    data.extend(b"My Patch        "); // 16 chars
    let frames = vec![Frame::Dt1 {
        device_id: 0x10,
        address: [TEMP_MSB, 0x00, 0x00, 0x00],
        data: data,
    }];
    let area = PatchArea::from_frames_at(&frames, TEMP_MSB);
    assert_eq!(area.mode, Some(PatchMode::Bass));
    assert_eq!(area.name.as_string().trim_end(), "My Patch");
    assert!(area.unknown_bytes.is_empty());
}

#[test]
fn unrecognised_offsets_round_trip_via_unknown_bytes() {
    let frames = vec![Frame::Dt1 {
        device_id: 0x10,
        address: [TEMP_MSB, 0x03, 0x00, 0x05], // MFX page, some offset
        data: vec![0xAB, 0xCD],
    }];
    let area = PatchArea::from_frames_at(&frames, TEMP_MSB);
    assert_eq!(area.unknown_bytes.get(0x030005), Some(0xAB));
    assert_eq!(area.unknown_bytes.get(0x030006), Some(0xCD));

    let back = area.to_frames(0x10, TEMP_MSB).unwrap();
    let round = PatchArea::from_frames_at(&back, TEMP_MSB);
    assert_eq!(round, area);
}

#[test]
fn ignores_frames_addressed_to_other_msbs() {
    let frames = vec![
        Frame::Dt1 {
            device_id: 0x10,
            address: [0x18, 0x00, 0x00, 0x00], // file-format MSB, not ours
            data: vec![PatchMode::Bass.to_byte()],
        },
        Frame::Dt1 {
            device_id: 0x10,
            address: [TEMP_MSB, 0x00, 0x00, 0x00],
            data: vec![PatchMode::Guitar.to_byte()],
        },
    ];
    let area = PatchArea::from_frames_at(&frames, TEMP_MSB);
    assert_eq!(area.mode, Some(PatchMode::Guitar));
}

#[test]
fn ctl_block_decodes_and_round_trips() {
    // Build a payload covering 0x00..=0x1E in one DT1 frame.
    let mut data = vec![PatchMode::Guitar.to_byte()];
    data.extend(b"Crunch          "); // 16-char name at 0x01..=0x10
    data.push(OnOff::On.to_byte()); // 0x11 ctl_status
    data.push(CtlFunction::TapTempo.to_byte()); // 0x12
    data.push(HoldType::Type2.to_byte()); // 0x13
    data.push(SwitchMode::Moment.to_byte()); // 0x14
    data.push(OnOff::On.to_byte()); // 0x15 hold_pcm_1
    data.push(OnOff::Off.to_byte()); // 0x16 hold_pcm_2
    data.push(OnOff::On.to_byte()); // 0x17 off_pcm_1
    data.push(OnOff::Off.to_byte()); // 0x18 off_pcm_2
    data.push(OnOff::On.to_byte()); // 0x19 off_modeling
    data.push(OnOff::Off.to_byte()); // 0x1A off_normal_pu
    data.push(OnOff::Off.to_byte()); // 0x1B on_pcm_1
    data.push(OnOff::On.to_byte()); // 0x1C on_pcm_2
    data.push(OnOff::Off.to_byte()); // 0x1D on_modeling
    data.push(OnOff::On.to_byte()); // 0x1E on_normal_pu
    let frames = vec![Frame::Dt1 {
        device_id: 0x10,
        address: [TEMP_MSB, 0x00, 0x00, 0x00],
        data: data,
    }];
    let area = PatchArea::from_frames_at(&frames, TEMP_MSB);

    assert_eq!(area.mode, Some(PatchMode::Guitar));
    assert_eq!(area.name.as_string().trim_end(), "Crunch");
    assert_eq!(area.ctl_status, Some(OnOff::On));
    assert_eq!(area.ctl_function, Some(CtlFunction::TapTempo));
    assert_eq!(area.ctl_hold_type, Some(HoldType::Type2));
    assert_eq!(area.ctl_switch_mode, Some(SwitchMode::Moment));
    assert_eq!(area.ctl_hold_pcm_1, Some(OnOff::On));
    assert_eq!(area.ctl_hold_pcm_2, Some(OnOff::Off));
    assert_eq!(area.ctl_tone_sw_off_pcm_1, Some(OnOff::On));
    assert_eq!(area.ctl_tone_sw_off_pcm_2, Some(OnOff::Off));
    assert_eq!(area.ctl_tone_sw_off_modeling, Some(OnOff::On));
    assert_eq!(area.ctl_tone_sw_off_normal_pu, Some(OnOff::Off));
    assert_eq!(area.ctl_tone_sw_on_pcm_1, Some(OnOff::Off));
    assert_eq!(area.ctl_tone_sw_on_pcm_2, Some(OnOff::On));
    assert_eq!(area.ctl_tone_sw_on_modeling, Some(OnOff::Off));
    assert_eq!(area.ctl_tone_sw_on_normal_pu, Some(OnOff::On));
    assert!(area.unknown_bytes.is_empty());

    // Round-trip
    let back_frames = area.to_frames(0x10, TEMP_MSB).unwrap();
    let round = PatchArea::from_frames_at(&back_frames, TEMP_MSB);
    assert_eq!(round, area);
}

#[test]
fn exp_block_decodes_and_round_trips() {
    // 0x1F..=0x35 = 23 bytes.
    let payload: Vec<u8> = vec![
        ExpFunction::PitchBend.to_byte(), // 0x1F
        OnOff::On.to_byte(),              // 0x20 tone_vol_pcm_1
        OnOff::Off.to_byte(),             // 0x21 tone_vol_pcm_2
        OnOff::On.to_byte(),              // 0x22 tone_vol_modeling
        OnOff::Off.to_byte(),             // 0x23 tone_vol_normal_pu
        PitchBendDepth::new(-5).unwrap().to_byte(), // 0x24
        OnOff::On.to_byte(),              // 0x25 pitch_bend_pcm_1
        OnOff::Off.to_byte(),             // 0x26 pitch_bend_pcm_2
        OnOff::On.to_byte(),              // 0x27 pitch_bend_modeling
        0x40,                             // 0x28 mod_min
        0x60,                             // 0x29 mod_max
        OnOff::On.to_byte(),              // 0x2A mod_pcm_1
        OnOff::Off.to_byte(),             // 0x2B mod_pcm_2
        CrossFaderMode::Toe.to_byte(),    // 0x2C cf_pcm_1
        CrossFaderMode::Heel.to_byte(),   // 0x2D cf_pcm_2
        CrossFaderMode::Off.to_byte(),    // 0x2E cf_modeling
        CrossFaderMode::Heel.to_byte(),   // 0x2F cf_normal_pu
        0x10,                             // 0x30 delay_min
        0x70,                             // 0x31 delay_max
        0x20,                             // 0x32 reverb_min
        0x50,                             // 0x33 reverb_max
        0x15,                             // 0x34 chorus_min
        0x45,                             // 0x35 chorus_max
    ];
    let frames = vec![Frame::Dt1 {
        device_id: 0x10,
        address: [TEMP_MSB, 0x00, 0x00, 0x1F],
        data: payload,
    }];
    let area = PatchArea::from_frames_at(&frames, TEMP_MSB);

    assert_eq!(area.exp_function, Some(ExpFunction::PitchBend));
    assert_eq!(area.exp_tone_vol_pcm_1, Some(OnOff::On));
    assert_eq!(area.exp_tone_vol_normal_pu, Some(OnOff::Off));
    assert_eq!(area.exp_pitch_bend_depth.unwrap().get(), -5);
    assert_eq!(area.exp_pitch_bend_modeling, Some(OnOff::On));
    assert_eq!(area.exp_mod_min, Some(0x40));
    assert_eq!(area.exp_mod_max, Some(0x60));
    assert_eq!(area.exp_mod_pcm_2, Some(OnOff::Off));
    assert_eq!(area.exp_cross_fader_pcm_1, Some(CrossFaderMode::Toe));
    assert_eq!(area.exp_cross_fader_pcm_2, Some(CrossFaderMode::Heel));
    assert_eq!(area.exp_cross_fader_modeling, Some(CrossFaderMode::Off));
    assert_eq!(area.exp_cross_fader_normal_pu, Some(CrossFaderMode::Heel));
    assert_eq!(area.exp_delay_min, Some(0x10));
    assert_eq!(area.exp_delay_max, Some(0x70));
    assert_eq!(area.exp_reverb_max, Some(0x50));
    assert_eq!(area.exp_chorus_min, Some(0x15));
    assert_eq!(area.exp_chorus_max, Some(0x45));
    assert!(area.unknown_bytes.is_empty());

    let back = PatchArea::from_frames_at(&area.to_frames(0x10, TEMP_MSB).unwrap(), TEMP_MSB);
    assert_eq!(back, area);
}

#[test]
fn exp_on_block_decodes_and_round_trips() {
    // Distinct values from the EXP test so a swap between the two
    // blocks would show up as a mismatch.
    let payload: Vec<u8> = vec![
        ExpFunction::ModControl.to_byte(), // 0x36
        OnOff::Off.to_byte(),              // 0x37
        OnOff::On.to_byte(),               // 0x38
        OnOff::Off.to_byte(),              // 0x39
        OnOff::On.to_byte(),               // 0x3A
        PitchBendDepth::new(7).unwrap().to_byte(), // 0x3B
        OnOff::Off.to_byte(),              // 0x3C
        OnOff::On.to_byte(),               // 0x3D
        OnOff::Off.to_byte(),              // 0x3E
        0x05,                              // 0x3F mod_min
        0x65,                              // 0x40 mod_max
        OnOff::Off.to_byte(),              // 0x41
        OnOff::On.to_byte(),               // 0x42
        CrossFaderMode::Heel.to_byte(),    // 0x43
        CrossFaderMode::Toe.to_byte(),     // 0x44
        CrossFaderMode::Heel.to_byte(),    // 0x45
        CrossFaderMode::Off.to_byte(),     // 0x46
        0x05,                              // 0x47 delay_min
        0x55,                              // 0x48 delay_max
        0x15,                              // 0x49 reverb_min
        0x64,                              // 0x4A reverb_max (max raw = 100)
        0x05,                              // 0x4B chorus_min
        0x45,                              // 0x4C chorus_max
    ];
    let frames = vec![Frame::Dt1 {
        device_id: 0x10,
        address: [TEMP_MSB, 0x00, 0x00, 0x36],
        data: payload,
    }];
    let area = PatchArea::from_frames_at(&frames, TEMP_MSB);
    assert_eq!(area.exp_on_function, Some(ExpFunction::ModControl));
    assert_eq!(area.exp_on_pitch_bend_depth.unwrap().get(), 7);
    assert_eq!(area.exp_on_mod_min, Some(0x05));
    assert_eq!(area.exp_on_mod_max, Some(0x65));
    assert_eq!(area.exp_on_cross_fader_pcm_1, Some(CrossFaderMode::Heel));
    assert_eq!(area.exp_on_cross_fader_normal_pu, Some(CrossFaderMode::Off));
    assert_eq!(area.exp_on_reverb_max, Some(0x64));
    assert_eq!(area.exp_on_chorus_max, Some(0x45));
    assert!(area.unknown_bytes.is_empty());

    // None of the EXP-OFF fields should have been touched.
    assert!(area.exp_function.is_none());
    assert!(area.exp_pitch_bend_depth.is_none());
    assert!(area.exp_chorus_max.is_none());

    let back = PatchArea::from_frames_at(&area.to_frames(0x10, TEMP_MSB).unwrap(), TEMP_MSB);
    assert_eq!(back, area);
}

#[test]
fn exp_sw_block_decodes_and_round_trips() {
    // Cover 0x4D..=0x5A. Offsets 0x4F..=0x52 are FloorBoard placeholders
    // — supply a byte at one of them and assert it falls through to
    // unknown_bytes rather than getting absorbed.
    let payload: Vec<u8> = vec![
        OnOff::On.to_byte(),                 // 0x4D status
        ExpSwFunction::DelaySw.to_byte(),    // 0x4E function
        0xAA,                                // 0x4F placeholder
        0xBB,                                // 0x50 placeholder
        0xCC,                                // 0x51 placeholder
        0xDD,                                // 0x52 placeholder
        OnOff::Off.to_byte(),                // 0x53 off_pcm_1
        OnOff::On.to_byte(),                 // 0x54 off_pcm_2
        OnOff::Off.to_byte(),                // 0x55 off_modeling
        OnOff::On.to_byte(),                 // 0x56 off_normal_pu
        OnOff::On.to_byte(),                 // 0x57 on_pcm_1
        OnOff::Off.to_byte(),                // 0x58 on_pcm_2
        OnOff::On.to_byte(),                 // 0x59 on_modeling
        OnOff::Off.to_byte(),                // 0x5A on_normal_pu
    ];
    let frames = vec![Frame::Dt1 {
        device_id: 0x10,
        address: [TEMP_MSB, 0x00, 0x00, 0x4D],
        data: payload,
    }];
    let area = PatchArea::from_frames_at(&frames, TEMP_MSB);
    assert_eq!(area.exp_sw_status, Some(OnOff::On));
    assert_eq!(area.exp_sw_function, Some(ExpSwFunction::DelaySw));
    assert_eq!(area.exp_sw_tone_sw_off_pcm_2, Some(OnOff::On));
    assert_eq!(area.exp_sw_tone_sw_off_normal_pu, Some(OnOff::On));
    assert_eq!(area.exp_sw_tone_sw_on_pcm_1, Some(OnOff::On));
    assert_eq!(area.exp_sw_tone_sw_on_normal_pu, Some(OnOff::Off));
    // The 4 placeholder bytes survived round-trip via unknown_bytes.
    assert_eq!(area.unknown_bytes.get(0x00004F), Some(0xAA));
    assert_eq!(area.unknown_bytes.get(0x000050), Some(0xBB));
    assert_eq!(area.unknown_bytes.get(0x000051), Some(0xCC));
    assert_eq!(area.unknown_bytes.get(0x000052), Some(0xDD));

    let back = PatchArea::from_frames_at(&area.to_frames(0x10, TEMP_MSB).unwrap(), TEMP_MSB);
    assert_eq!(back, area);
}

#[test]
fn gk_volume_block_decodes_and_round_trips() {
    let payload: Vec<u8> = vec![
        ExpFunction::ToneVolume.to_byte(),         // 0x5B
        OnOff::On.to_byte(),                       // 0x5C
        OnOff::Off.to_byte(),                      // 0x5D
        OnOff::On.to_byte(),                       // 0x5E
        OnOff::Off.to_byte(),                      // 0x5F
        PitchBendDepth::new(-1).unwrap().to_byte(), // 0x60
        OnOff::On.to_byte(),                       // 0x61
        OnOff::Off.to_byte(),                      // 0x62
        OnOff::On.to_byte(),                       // 0x63
        0x30,                                      // 0x64 mod_min
        0x60,                                      // 0x65 mod_max
        OnOff::Off.to_byte(),                      // 0x66
        OnOff::On.to_byte(),                       // 0x67
        CrossFaderMode::Toe.to_byte(),             // 0x68
        CrossFaderMode::Heel.to_byte(),            // 0x69
        CrossFaderMode::Off.to_byte(),             // 0x6A
        CrossFaderMode::Toe.to_byte(),             // 0x6B
        0x08,                                      // 0x6C delay_min
        0x60,                                      // 0x6D delay_max
        0x18,                                      // 0x6E reverb_min
        0x58,                                      // 0x6F reverb_max
        0x08,                                      // 0x70 chorus_min
        0x48,                                      // 0x71 chorus_max
    ];
    let frames = vec![Frame::Dt1 {
        device_id: 0x10,
        address: [TEMP_MSB, 0x00, 0x00, 0x5B],
        data: payload,
    }];
    let area = PatchArea::from_frames_at(&frames, TEMP_MSB);
    assert_eq!(area.gk_vol_function, Some(ExpFunction::ToneVolume));
    assert_eq!(area.gk_vol_pitch_bend_depth.unwrap().get(), -1);
    assert_eq!(area.gk_vol_mod_min, Some(0x30));
    assert_eq!(area.gk_vol_mod_max, Some(0x60));
    assert_eq!(area.gk_vol_cross_fader_pcm_1, Some(CrossFaderMode::Toe));
    assert_eq!(area.gk_vol_cross_fader_modeling, Some(CrossFaderMode::Off));
    assert_eq!(area.gk_vol_delay_max, Some(0x60));
    assert_eq!(area.gk_vol_chorus_max, Some(0x48));
    assert!(area.unknown_bytes.is_empty());

    // Distinct from EXP-OFF / EXP-ON / EXP-SW blocks.
    assert!(area.exp_function.is_none());
    assert!(area.exp_on_function.is_none());
    assert!(area.exp_sw_function.is_none());

    let back = PatchArea::from_frames_at(&area.to_frames(0x10, TEMP_MSB).unwrap(), TEMP_MSB);
    assert_eq!(back, area);
}

#[test]
fn gk_s1_block_decodes_and_round_trips() {
    let payload: Vec<u8> = vec![
        ExpSwFunction::ToneSw.to_byte(), // 0x72
        0x11,                            // 0x73 placeholder
        0x22,                            // 0x74 placeholder
        0x33,                            // 0x75 placeholder
        0x44,                            // 0x76 placeholder
        OnOff::On.to_byte(),             // 0x77 off_pcm_1
        OnOff::Off.to_byte(),            // 0x78
        OnOff::On.to_byte(),             // 0x79
        OnOff::Off.to_byte(),            // 0x7A
        OnOff::Off.to_byte(),            // 0x7B on_pcm_1
        OnOff::On.to_byte(),             // 0x7C
        OnOff::Off.to_byte(),            // 0x7D
        OnOff::On.to_byte(),             // 0x7E
    ];
    let frames = vec![Frame::Dt1 {
        device_id: 0x10,
        address: [TEMP_MSB, 0x00, 0x00, 0x72],
        data: payload,
    }];
    let area = PatchArea::from_frames_at(&frames, TEMP_MSB);
    assert_eq!(area.gk_s1_function, Some(ExpSwFunction::ToneSw));
    assert_eq!(area.gk_s1_tone_sw_off_pcm_1, Some(OnOff::On));
    assert_eq!(area.gk_s1_tone_sw_off_normal_pu, Some(OnOff::Off));
    assert_eq!(area.gk_s1_tone_sw_on_pcm_1, Some(OnOff::Off));
    assert_eq!(area.gk_s1_tone_sw_on_normal_pu, Some(OnOff::On));
    // Placeholders preserved.
    assert_eq!(area.unknown_bytes.get(0x000073), Some(0x11));
    assert_eq!(area.unknown_bytes.get(0x000076), Some(0x44));

    let back = PatchArea::from_frames_at(&area.to_frames(0x10, TEMP_MSB).unwrap(), TEMP_MSB);
    assert_eq!(back, area);
}

#[test]
fn gk_s2_block_spans_page_boundary() {
    // GK S2 lives at page 0x00 offset 0x7F and continues into page 0x01.
    // Send it as TWO separate DT1 frames matching the natural Roland
    // wire convention, then verify decode + page-respecting round-trip.
    let frames = vec![
        // Function byte alone at the very end of page 0x00.
        Frame::Dt1 {
            device_id: 0x10,
            address: [TEMP_MSB, 0x00, 0x00, 0x7F],
            data: vec![ExpSwFunction::AmpSw.to_byte()],
        },
        // 4 placeholder bytes + 8 tone-sw bytes at page 0x01.
        Frame::Dt1 {
            device_id: 0x10,
            address: [TEMP_MSB, 0x01, 0x00, 0x00],
            data: vec![
                0xAA,
                0xBB,
                0xCC,
                0xDD,
                OnOff::On.to_byte(),
                OnOff::Off.to_byte(),
                OnOff::On.to_byte(),
                OnOff::Off.to_byte(),
                OnOff::Off.to_byte(),
                OnOff::On.to_byte(),
                OnOff::Off.to_byte(),
                OnOff::On.to_byte(),
            ],
        },
    ];
    let area = PatchArea::from_frames_at(&frames, TEMP_MSB);
    assert_eq!(area.gk_s2_function, Some(ExpSwFunction::AmpSw));
    assert_eq!(area.gk_s2_tone_sw_off_pcm_1, Some(OnOff::On));
    assert_eq!(area.gk_s2_tone_sw_off_normal_pu, Some(OnOff::Off));
    assert_eq!(area.gk_s2_tone_sw_on_pcm_1, Some(OnOff::Off));
    assert_eq!(area.gk_s2_tone_sw_on_normal_pu, Some(OnOff::On));
    // Placeholder bytes at page 0x01 offsets 0x00..=0x03 land in unknown_bytes.
    assert_eq!(area.unknown_bytes.get(0x010000), Some(0xAA));
    assert_eq!(area.unknown_bytes.get(0x010003), Some(0xDD));

    let back = PatchArea::from_frames_at(&area.to_frames(0x10, TEMP_MSB).unwrap(), TEMP_MSB);
    assert_eq!(back, area);
}

#[test]
fn payload_carries_lo_at_7f_to_next_hi() {
    // A 3-byte payload starting at lo=0x7E should land at lo=0x7E,
    // lo=0x7F, then (hi=0x01, lo=0x00) — NOT (hi=0x00, lo=0x80).
    // Use page 0x40 — well above any typed page — so the bytes fall
    // through to unknown_bytes where we can inspect them.
    let frames = vec![Frame::Dt1 {
        device_id: 0x10,
        address: [TEMP_MSB, 0x40, 0x00, 0x7E],
        data: vec![0xA1, 0xA2, 0xA3],
    }];
    let area = PatchArea::from_frames_at(&frames, TEMP_MSB);
    assert_eq!(area.unknown_bytes.get(0x40007E), Some(0xA1));
    assert_eq!(area.unknown_bytes.get(0x40007F), Some(0xA2));
    assert_eq!(area.unknown_bytes.get(0x400100), Some(0xA3));
    // The wrong (overflow-to-0x80) behaviour would surface here:
    assert!(!area.unknown_bytes.contains_key(0x400080));
}

#[test]
fn master_assign_1_decodes_typed_fields() {
    let payload: Vec<u8> = vec![
        OnOff::On.to_byte(),                            // +0x00 on_off
        0x05,                                           // +0x01 target
        0x00,                                           // +0x02 target_b
        0x00,                                           // +0x03 target_c
        0x00,                                           // +0x04 min
        0x00,                                           // +0x05 min_b
        0x00,                                           // +0x06 min_c
        0x0F,                                           // +0x07 max
        0x00,                                           // +0x08 max_b
        0x00,                                           // +0x09 max_c
        AssignSource::ExpPdl.to_byte(),                 // +0x0A source
        AssignSourceMode::Toggle.to_byte(),             // +0x0B source_mode
        0x00,                                           // +0x0C range_low
        0x7F,                                           // +0x0D range_high
        AssignInternalTrigger::PatchChange.to_byte(),   // +0x0E internal_trigger
        0x50,                                           // +0x0F int_pdl_time
        AssignIntPdlCurve::SlowRise.to_byte(),          // +0x10 int_pdl_curve
        0x6B,                                           // +0x11 wave_rate (= quarter note)
        AssignWaveForm::Triangle.to_byte(),             // +0x12 wave_form
    ];
    let frames = vec![Frame::Dt1 {
        device_id: 0x10,
        address: [TEMP_MSB, 0x01, 0x00, 0x0C], // Assign1 base
        data: payload,
    }];
    let area = PatchArea::from_frames_at(&frames, TEMP_MSB);

    let a1 = area.master_assigns[0]
        .as_ref()
        .expect("Assign1 should decode");
    assert_eq!(a1.on_off, Some(OnOff::On));
    assert_eq!(a1.target, Some(0x05));
    assert_eq!(a1.max, Some(0x0F));
    assert_eq!(a1.source, Some(AssignSource::ExpPdl));
    assert_eq!(a1.source_mode, Some(AssignSourceMode::Toggle));
    assert_eq!(a1.range_low, Some(0x00));
    assert_eq!(a1.range_high, Some(0x7F));
    assert_eq!(a1.internal_trigger, Some(AssignInternalTrigger::PatchChange));
    assert_eq!(a1.int_pdl_time, Some(0x50));
    assert_eq!(a1.int_pdl_curve, Some(AssignIntPdlCurve::SlowRise));
    assert_eq!(a1.wave_rate, Some(0x6B));
    assert_eq!(a1.wave_form, Some(AssignWaveForm::Triangle));
    assert!(area.master_assigns[1].is_none());
    assert!(area.unknown_bytes.is_empty());

    // Round-trip preserves every typed byte.
    let back = PatchArea::from_frames_at(&area.to_frames(0x10, TEMP_MSB).unwrap(), TEMP_MSB);
    assert_eq!(back, area);
}

#[test]
fn master_assign_7_spans_page_boundary() {
    // Assign7 starts at flat offset 0x0C + 6*19 = 0x7E (page 0x01).
    // First 2 bytes land on page 0x01, remaining 17 wrap to page 0x02
    // at offsets 0x00..=0x10. Send as two DT1 frames matching the
    // natural wire convention.
    let frames = vec![
        Frame::Dt1 {
            device_id: 0x10,
            address: [TEMP_MSB, 0x01, 0x00, 0x7E],
            data: vec![OnOff::On.to_byte(), 0x07], // on_off, target
        },
        Frame::Dt1 {
            device_id: 0x10,
            address: [TEMP_MSB, 0x02, 0x00, 0x00],
            data: vec![
                0x00, 0x00, // target_b, target_c
                0x02, 0x00, 0x00, // min, min_b, min_c
                0x0E, 0x00, 0x00, // max, max_b, max_c
                AssignSource::midi_cc(7).unwrap().to_byte(),  // source = CC#07
                AssignSourceMode::Moment.to_byte(),
                0x10, // range_low
                0x70, // range_high
                AssignInternalTrigger::CtrlPdl.to_byte(),
                0x20, // int_pdl_time
                AssignIntPdlCurve::FastRise.to_byte(),
                0x68, // wave_rate (half note)
                AssignWaveForm::Sine.to_byte(),
            ],
        },
    ];
    let area = PatchArea::from_frames_at(&frames, TEMP_MSB);
    let a7 = area.master_assigns[6]
        .as_ref()
        .expect("Assign7 should decode");
    assert_eq!(a7.on_off, Some(OnOff::On));
    assert_eq!(a7.target, Some(0x07));
    assert_eq!(a7.min, Some(0x02));
    assert_eq!(a7.max, Some(0x0E));
    assert_eq!(a7.source, AssignSource::midi_cc(7));
    assert_eq!(a7.source_mode, Some(AssignSourceMode::Moment));
    assert_eq!(a7.range_low, Some(0x10));
    assert_eq!(a7.range_high, Some(0x70));
    assert_eq!(a7.internal_trigger, Some(AssignInternalTrigger::CtrlPdl));
    assert_eq!(a7.int_pdl_time, Some(0x20));
    assert_eq!(a7.int_pdl_curve, Some(AssignIntPdlCurve::FastRise));
    assert_eq!(a7.wave_rate, Some(0x68));
    assert_eq!(a7.wave_form, Some(AssignWaveForm::Sine));
    // No other slots populated.
    for i in [0, 1, 2, 3, 4, 5, 7] {
        assert!(area.master_assigns[i].is_none(), "slot {i} should be None");
    }
    assert!(area.unknown_bytes.is_empty());

    // Round-trip preserves the page split.
    let back_frames = area.to_frames(0x10, TEMP_MSB).unwrap();
    // Verify the encoded addresses really do span both pages.
    let mut saw_page1 = false;
    let mut saw_page2 = false;
    for f in &back_frames {
        if let Frame::Dt1 { address, .. } = f {
            if address[1] == 0x01 && address[3] >= 0x7E {
                saw_page1 = true;
            }
            if address[1] == 0x02 && address[3] <= 0x10 {
                saw_page2 = true;
            }
        }
    }
    assert!(saw_page1, "expected encoded bytes on page 0x01 0x7E/0x7F");
    assert!(saw_page2, "expected encoded bytes on page 0x02 0x00..=0x10");

    let round = PatchArea::from_frames_at(&back_frames, TEMP_MSB);
    assert_eq!(round, area);
}

#[test]
fn page_02_tail_round_trips_metadata_block() {
    // Cover 0x24..=0x47 (with two intentional gaps that fall through
    // to unknown_bytes: 0x2F which has no FloorBoard customdesc, and
    // 0x41 which has no PARAM at all).
    let mut payload: Vec<u8> = vec![
        PatchGkSet::User3.to_byte(),       // 0x24
        GuitarOut::Modeling.to_byte(),     // 0x25
        12,                                // 0x26 v_link_pallet
        7,                                 // 0x27 v_link_clip
        3,                                 // 0x28 v_link_note_clip_change
        VLinkControl::ColorCb.to_byte(),   // 0x29
        VLinkControl::Bright.to_byte(),    // 0x2A
        VLinkControl::PlaySpeed.to_byte(), // 0x2B
        PatchStructure::Structure2.to_byte(), // 0x2C
        LineRoute::AmpMod.to_byte(),       // 0x2D
        LineRoute::Mfx.to_byte(),          // 0x2E
        0xAA,                              // 0x2F undocumented placeholder
    ];
    // Patch Level = 75 (0x4B) — nibbles 4 and B → bytes 0x04 0x0B.
    let [pl_hi, pl_lo] = PatchLevel::new(75).unwrap().to_two_bytes();
    payload.push(pl_hi); // 0x30
    payload.push(pl_lo); // 0x31
    payload.push(AnalogPuToneSw::Off.to_byte()); // 0x32 (= 0x01 — wire-reversed!)
    payload.push(80); // 0x33 analog_pu_tone_level
    payload.push(OnOff::On.to_byte()); // 0x34 alt_tuning_sw
    payload.push(AltTuningType::Baritone.to_byte()); // 0x35
    for v in [0x30, 0x32, 0x34, 0x40, 0x4E, 0x50] {
        payload.push(v); // 0x36..=0x3B
    }
    // Patch Tempo = 0x96 (150) → nibbles 9, 6 → bytes 0x09 0x06.
    let [pt_hi, pt_lo] = PatchTempo::new(0x96).to_two_bytes();
    payload.push(pt_hi); // 0x3C
    payload.push(pt_lo); // 0x3D
    payload.push(50); // 0x3E bypass_chorus
    payload.push(60); // 0x3F bypass_delay
    payload.push(70); // 0x40 bypass_reverb
    payload.push(0xBB); // 0x41 untyped placeholder
    payload.push(0x10); // 0x42 exp_mod_min_envelope
    payload.push(0x70); // 0x43 exp_mod_max_envelope
    payload.push(0x05); // 0x44 exp_on_mod_min_envelope
    payload.push(0x65); // 0x45 exp_on_mod_max_envelope
    payload.push(0x20); // 0x46 gk_vol_mod_min_envelope
    payload.push(0x60); // 0x47 gk_vol_mod_max_envelope

    let frames = vec![Frame::Dt1 {
        device_id: 0x10,
        address: [TEMP_MSB, 0x02, 0x00, 0x24],
        data: payload,
    }];
    let area = PatchArea::from_frames_at(&frames, TEMP_MSB);

    assert_eq!(area.gk_set, Some(PatchGkSet::User3));
    assert_eq!(area.guitar_out, Some(GuitarOut::Modeling));
    assert_eq!(area.v_link_pallet, Some(12));
    assert_eq!(area.v_link_clip, Some(7));
    assert_eq!(area.v_link_note_clip_change, Some(3));
    assert_eq!(area.v_link_exp, Some(VLinkControl::ColorCb));
    assert_eq!(area.v_link_exp_on, Some(VLinkControl::Bright));
    assert_eq!(area.v_link_gk_vol, Some(VLinkControl::PlaySpeed));
    assert_eq!(area.structure, Some(PatchStructure::Structure2));
    assert_eq!(area.modeling_line_route, Some(LineRoute::AmpMod));
    assert_eq!(area.analog_pu_line_route, Some(LineRoute::Mfx));
    assert_eq!(area.patch_level.unwrap().get(), 75);
    assert_eq!(area.analog_pu_tone_sw, Some(AnalogPuToneSw::Off));
    assert_eq!(area.analog_pu_tone_level, Some(80));
    assert_eq!(area.alt_tuning_sw, Some(OnOff::On));
    assert_eq!(area.alt_tuning_type, Some(AltTuningType::Baritone));
    assert_eq!(area.alt_tuning_user_shift[0], Some(0x30));
    assert_eq!(area.alt_tuning_user_shift[5], Some(0x50));
    assert_eq!(area.patch_tempo.unwrap().raw(), 0x96);
    assert_eq!(area.bypass_chorus, Some(50));
    assert_eq!(area.bypass_delay, Some(60));
    assert_eq!(area.bypass_reverb, Some(70));
    assert_eq!(area.exp_mod_min_envelope, Some(0x10));
    assert_eq!(area.exp_mod_max_envelope, Some(0x70));
    assert_eq!(area.exp_on_mod_min_envelope, Some(0x05));
    assert_eq!(area.exp_on_mod_max_envelope, Some(0x65));
    assert_eq!(area.gk_vol_mod_min_envelope, Some(0x20));
    assert_eq!(area.gk_vol_mod_max_envelope, Some(0x60));
    // The two undocumented bytes survived via unknown_bytes.
    assert_eq!(area.unknown_bytes.get(0x02002F), Some(0xAA));
    assert_eq!(area.unknown_bytes.get(0x020041), Some(0xBB));

    // Round-trip preserves everything.
    let back = PatchArea::from_frames_at(&area.to_frames(0x10, TEMP_MSB).unwrap(), TEMP_MSB);
    assert_eq!(back, area);
}

#[test]
fn mfx_block_decodes_header_eq_and_preserves_tail() {
    let mut payload = vec![
        70,                              // 0x00 chorus_send
        45,                              // 0x01 delay_send
        30,                              // 0x02 reverb_send
        0xAB,                            // 0x03 reserved (raw)
        OnOff::On.to_byte(),             // 0x04 switch
        MfxType::Phaser.to_byte(),       // 0x05 type
        50,                              // 0x06 pan (= center)
        EqLowFreq::Hz400.to_byte(),      // 0x07
        0x10,                            // 0x08 low_gain
        EqMidFreq::Khz1_0.to_byte(),     // 0x09
        0x12,                            // 0x0A mid1_gain
        EqMidQ::Q2.to_byte(),            // 0x0B
        EqMidFreq::Khz3_15.to_byte(),    // 0x0C
        0x0F,                            // 0x0D mid2_gain
        EqMidQ::Q4.to_byte(),            // 0x0E
        EqHighFreq::Khz4_0.to_byte(),    // 0x0F
        0x14,                            // 0x10 high_gain
        0x60,                            // 0x11 eq_level
    ];
    // Add 5 bytes into the type-specific tail so we can verify they
    // survive in raw_tail.
    payload.extend([0xC1, 0xC2, 0xC3, 0xC4, 0xC5]); // 0x12..=0x16
    let frames = vec![Frame::Dt1 {
        device_id: 0x10,
        address: [TEMP_MSB, 0x03, 0x00, 0x00], // MFX slot 0
        data: payload,
    }];
    let area = PatchArea::from_frames_at(&frames, TEMP_MSB);
    let m = area.mfx.as_ref().expect("mfx should decode");
    assert_eq!(m.chorus_send, Some(70));
    assert_eq!(m.delay_send, Some(45));
    assert_eq!(m.reverb_send, Some(30));
    assert_eq!(m.reserved, Some(0xAB));
    assert_eq!(m.switch, Some(OnOff::On));
    assert_eq!(m.mfx_type, Some(MfxType::Phaser));
    assert_eq!(m.pan, Some(50));
    assert_eq!(m.eq_low_freq, Some(EqLowFreq::Hz400));
    assert_eq!(m.eq_low_gain, Some(0x10));
    assert_eq!(m.eq_mid1_freq, Some(EqMidFreq::Khz1_0));
    assert_eq!(m.eq_mid1_q, Some(EqMidQ::Q2));
    assert_eq!(m.eq_mid2_freq, Some(EqMidFreq::Khz3_15));
    assert_eq!(m.eq_mid2_q, Some(EqMidQ::Q4));
    assert_eq!(m.eq_high_freq, Some(EqHighFreq::Khz4_0));
    assert_eq!(m.eq_high_gain, Some(0x14));
    assert_eq!(m.eq_level, Some(0x60));
    // Type-specific tail survived in raw_tail, keyed by linear offset.
    assert_eq!(m.raw_tail.get(0x12), Some(0xC1));
    assert_eq!(m.raw_tail.get(0x16), Some(0xC5));

    // Round-trip
    let back = PatchArea::from_frames_at(&area.to_frames(0x10, TEMP_MSB).unwrap(), TEMP_MSB);
    assert_eq!(back, area);
}

#[test]
fn page_06_effects_block_round_trips() {
    let payload: Vec<u8> = vec![
        OnOff::On.to_byte(),                  // 0x00 chorus_switch
        ChorusType::Stereo.to_byte(),         // 0x01 chorus_type
        0x40,                                 // 0x02 chorus_rate
        60,                                   // 0x03 chorus_depth
        70,                                   // 0x04 chorus_level
        OnOff::On.to_byte(),                  // 0x05 delay_switch
        DelayType::Tape.to_byte(),            // 0x06 delay_type
        0x0A,                                 // 0x07 delay_time
        0x05,                                 // 0x08 delay_time_b
        0x02,                                 // 0x09 delay_time_c
        55,                                   // 0x0A delay_feedback
        80,                                   // 0x0B delay_level
        OnOff::On.to_byte(),                  // 0x0C reverb_switch
        ReverbType::Hall1.to_byte(),          // 0x0D reverb_type
        50,                                   // 0x0E reverb_time (= 5.1s)
        ReverbHighCut::Khz4_0.to_byte(),      // 0x0F reverb_high_cut
        65,                                   // 0x10 reverb_level
        OnOff::On.to_byte(),                  // 0x11 patch_eq_switch
        PatchEqLoCut::Hz110.to_byte(),        // 0x12
        0x20,                                 // 0x13 patch_eq_low_gain
        PatchEqMidFreq::Hz400.to_byte(),      // 0x14
        PatchEqMidQ::Q2.to_byte(),            // 0x15
        0x10,                                 // 0x16 low_mid_gain
        PatchEqMidFreq::Khz3_15.to_byte(),    // 0x17
        PatchEqMidQ::Q4.to_byte(),            // 0x18
        0x18,                                 // 0x19 hi_mid_gain
        PatchEqHighCut::Khz4_00.to_byte(),    // 0x1A
        0x22,                                 // 0x1B patch_eq_high_gain
        0x20,                                 // 0x1C patch_eq_level
        PatchEqCharacter::Plus2.to_byte(),    // 0x1D
    ];
    let frames = vec![Frame::Dt1 {
        device_id: 0x10,
        address: [TEMP_MSB, 0x06, 0x00, 0x00],
        data: payload,
    }];
    let area = PatchArea::from_frames_at(&frames, TEMP_MSB);

    assert_eq!(area.chorus_switch, Some(OnOff::On));
    assert_eq!(area.chorus_type, Some(ChorusType::Stereo));
    assert_eq!(area.chorus_rate, Some(0x40));
    assert_eq!(area.chorus_depth, Some(60));
    assert_eq!(area.chorus_level, Some(70));
    assert_eq!(area.delay_switch, Some(OnOff::On));
    assert_eq!(area.delay_type, Some(DelayType::Tape));
    assert_eq!(area.delay_time, Some(0x0A));
    assert_eq!(area.delay_time_b, Some(0x05));
    assert_eq!(area.delay_time_c, Some(0x02));
    assert_eq!(area.delay_feedback, Some(55));
    assert_eq!(area.delay_level, Some(80));
    assert_eq!(area.reverb_switch, Some(OnOff::On));
    assert_eq!(area.reverb_type, Some(ReverbType::Hall1));
    assert_eq!(area.reverb_time, Some(50));
    assert_eq!(area.reverb_high_cut, Some(ReverbHighCut::Khz4_0));
    assert_eq!(area.reverb_level, Some(65));
    assert_eq!(area.patch_eq_switch, Some(OnOff::On));
    assert_eq!(area.patch_eq_lo_cut, Some(PatchEqLoCut::Hz110));
    assert_eq!(area.patch_eq_low_gain, Some(0x20));
    assert_eq!(area.patch_eq_lo_mid_freq, Some(PatchEqMidFreq::Hz400));
    assert_eq!(area.patch_eq_lo_mid_q, Some(PatchEqMidQ::Q2));
    assert_eq!(area.patch_eq_low_mid_gain, Some(0x10));
    assert_eq!(area.patch_eq_hi_mid_freq, Some(PatchEqMidFreq::Khz3_15));
    assert_eq!(area.patch_eq_hi_mid_q, Some(PatchEqMidQ::Q4));
    assert_eq!(area.patch_eq_hi_mid_gain, Some(0x18));
    assert_eq!(area.patch_eq_high_cut, Some(PatchEqHighCut::Khz4_00));
    assert_eq!(area.patch_eq_high_gain, Some(0x22));
    assert_eq!(area.patch_eq_level, Some(0x20));
    assert_eq!(area.patch_eq_character, Some(PatchEqCharacter::Plus2));
    assert!(area.unknown_bytes.is_empty());

    let back = PatchArea::from_frames_at(&area.to_frames(0x10, TEMP_MSB).unwrap(), TEMP_MSB);
    assert_eq!(back, area);
}

#[test]
fn page_07_preamp_and_mod_header_round_trip() {
    let mut payload: Vec<u8> = vec![
        OnOff::On.to_byte(),               // 0x00 preamp_switch
        PreampType::MsHiGain.to_byte(),    // 0x01 preamp_type
        90,                                // 0x02 preamp_gain
        80,                                // 0x03 preamp_level
        PreampGainSw::High.to_byte(),      // 0x04
        OnOff::Off.to_byte(),              // 0x05 solo_sw
        50,                                // 0x06 solo_level
        55,                                // 0x07 bass
        45,                                // 0x08 middle
        60,                                // 0x09 treble
        65,                                // 0x0A presence
        OnOff::On.to_byte(),               // 0x0B bright_sw
        SpeakerType::FourByTwelve.to_byte(), // 0x0C
        MicType::Dyn57.to_byte(),          // 0x0D
        MicDistance::OnMic.to_byte(),      // 0x0E
        3,                                 // 0x0F mic_position (3cm)
        85,                                // 0x10 mic_level
        40,                                // 0x11 mod_chorus_send
        35,                                // 0x12 mod_delay_send
        30,                                // 0x13 mod_reverb_send
        0xCC,                              // 0x14 mod_null_14
        OnOff::On.to_byte(),               // 0x15 mod_switch
        ModType::Phaser.to_byte(),         // 0x16 mod_type
        50,                                // 0x17 mod_pan (center)
    ];
    // Add 4 bytes into the MOD-type-dependent tail to verify they
    // survive in unknown_bytes (pending sum modelling).
    payload.extend([0xE1, 0xE2, 0xE3, 0xE4]); // 0x18..=0x1B
    let frames = vec![Frame::Dt1 {
        device_id: 0x10,
        address: [TEMP_MSB, 0x07, 0x00, 0x00],
        data: payload,
    }];
    let area = PatchArea::from_frames_at(&frames, TEMP_MSB);

    assert_eq!(area.preamp_switch, Some(OnOff::On));
    assert_eq!(area.preamp_type, Some(PreampType::MsHiGain));
    assert_eq!(area.preamp_gain, Some(90));
    assert_eq!(area.preamp_level, Some(80));
    assert_eq!(area.preamp_gain_sw, Some(PreampGainSw::High));
    assert_eq!(area.preamp_solo_sw, Some(OnOff::Off));
    assert_eq!(area.preamp_solo_level, Some(50));
    assert_eq!(area.preamp_bass, Some(55));
    assert_eq!(area.preamp_middle, Some(45));
    assert_eq!(area.preamp_treble, Some(60));
    assert_eq!(area.preamp_presence, Some(65));
    assert_eq!(area.preamp_bright_sw, Some(OnOff::On));
    assert_eq!(area.speaker_type, Some(SpeakerType::FourByTwelve));
    assert_eq!(area.mic_type, Some(MicType::Dyn57));
    assert_eq!(area.mic_distance, Some(MicDistance::OnMic));
    assert_eq!(area.mic_position, Some(3));
    assert_eq!(area.mic_level, Some(85));
    let modu = area
        .modulation
        .as_ref()
        .expect("modulation slot should populate");
    assert_eq!(modu.chorus_send, Some(40));
    assert_eq!(modu.delay_send, Some(35));
    assert_eq!(modu.reverb_send, Some(30));
    assert_eq!(modu.null_14, Some(0xCC));
    assert_eq!(modu.switch, Some(OnOff::On));
    assert_eq!(modu.mod_type, Some(ModType::Phaser));
    assert_eq!(modu.pan, Some(50));
    // MOD-type tail preserved in modulation.raw_tail keyed by offset.
    assert_eq!(modu.raw_tail.get(0x18), Some(0xE1));
    assert_eq!(modu.raw_tail.get(0x1B), Some(0xE4));

    let back = PatchArea::from_frames_at(&area.to_frames(0x10, TEMP_MSB).unwrap(), TEMP_MSB);
    assert_eq!(back, area);
}

#[test]
fn ns_block_round_trips() {
    let frames = vec![Frame::Dt1 {
        device_id: 0x10,
        address: [TEMP_MSB, 0x07, 0x00, 0x5A],
        data: vec![
            OnOff::On.to_byte(), // 0x5A ns_switch
            40,                  // 0x5B ns_threshold
            60,                  // 0x5C ns_release
        ],
    }];
    let area = PatchArea::from_frames_at(&frames, TEMP_MSB);
    assert_eq!(area.ns_switch, Some(OnOff::On));
    assert_eq!(area.ns_threshold, Some(40));
    assert_eq!(area.ns_release, Some(60));
    // NS bytes were previously falling through to unknown_bytes; with
    // typing they shouldn't anymore.
    assert!(area.unknown_bytes.is_empty());

    let back = PatchArea::from_frames_at(&area.to_frames(0x10, TEMP_MSB).unwrap(), TEMP_MSB);
    assert_eq!(back, area);
}

#[test]
fn page_10_modeling_header_round_trips() {
    let mut payload: Vec<u8> = vec![
        GuitarModeCategory::ElectricGuitar.to_byte(), // 0x00
        GmEGuitarType::Telecaster.to_byte(),          // 0x01
        GmAcousticType::Nylon.to_byte(),              // 0x02
        GmEBassType::JazzBass.to_byte(),              // 0x03
        ModelingSynthType::Wave.to_byte(),            // 0x04
        BassModeCategory::Synth.to_byte(),            // 0x05
        BmEBassType::PBass.to_byte(),                 // 0x06
        BmEGuitarType::LesPaul.to_byte(),             // 0x07
        ModelingSynthType::Brass.to_byte(),           // 0x08
        85,                                           // 0x09 tone_level
        AnalogPuToneSw::On.to_byte(),                 // 0x0A (= 0x00)
    ];
    // 0x0B..=0x10 string_level[6]
    payload.extend([50, 55, 60, 65, 70, 75]);
    // Strings 1..=6: step at 0x11/13/15/17/19/1B, fine at 0x12/14/16/18/1A/1C
    for s in 0..6 {
        payload.push(0x18 + s); // step (-12..-7 semitones)
        payload.push(0x32 + s); // fine (0..+5 cents-ish)
    }
    payload.push(OnOff::On.to_byte()); // 0x1D 12_string
    payload.push(0xF1); // 0x1E type-specific tail
    payload.push(0xF2); // 0x1F type-specific tail

    let frames = vec![Frame::Dt1 {
        device_id: 0x10,
        address: [TEMP_MSB, 0x10, 0x00, 0x00],
        data: payload,
    }];
    let area = PatchArea::from_frames_at(&frames, TEMP_MSB);

    let modeling = area
        .modeling
        .as_ref()
        .expect("modeling slot should populate");
    assert_eq!(
        modeling.gm_category,
        Some(GuitarModeCategory::ElectricGuitar)
    );
    assert_eq!(modeling.gm_egtr_type, Some(GmEGuitarType::Telecaster));
    assert_eq!(modeling.gm_acoustic_type, Some(GmAcousticType::Nylon));
    assert_eq!(modeling.gm_ebass_type, Some(GmEBassType::JazzBass));
    assert_eq!(modeling.gm_synth_type, Some(ModelingSynthType::Wave));
    assert_eq!(modeling.bm_category, Some(BassModeCategory::Synth));
    assert_eq!(modeling.bm_ebass_type, Some(BmEBassType::PBass));
    assert_eq!(modeling.bm_egtr_type, Some(BmEGuitarType::LesPaul));
    assert_eq!(modeling.bm_synth_type, Some(ModelingSynthType::Brass));
    assert_eq!(modeling.tone_level, Some(85));
    assert_eq!(modeling.tone_sw, Some(AnalogPuToneSw::On));
    assert_eq!(modeling.string_level[0], Some(50));
    assert_eq!(modeling.string_level[5], Some(75));
    assert_eq!(modeling.pitch_step[0], Some(0x18));
    assert_eq!(modeling.pitch_step[5], Some(0x1D));
    assert_eq!(modeling.pitch_fine[0], Some(0x32));
    assert_eq!(modeling.pitch_fine[5], Some(0x37));
    assert_eq!(modeling.twelve_string, Some(OnOff::On));
    // Tail bytes preserved in modeling.raw_tail keyed by linear offset.
    assert_eq!(modeling.raw_tail.get(0x1E), Some(0xF1));
    assert_eq!(modeling.raw_tail.get(0x1F), Some(0xF2));

    let back = PatchArea::from_frames_at(&area.to_frames(0x10, TEMP_MSB).unwrap(), TEMP_MSB);
    assert_eq!(back, area);
}

#[test]
fn pcm_tone_decodes_two_tones_each_spanning_two_pages() {
    // Per FloorBoard's soundSource_synth_a.cpp / _b.cpp, each PCM
    // tone has its header on page 0x20 (or 0x21) and its tone-
    // shaping tail (Filter/TVF/TVA/...) on page 0x30 (or 0x31).
    // Use different (bank, position) per tone + distinct
    // header/tail bytes so any cross-tone mixup would surface.
    let tone_per_slot = [
        (0_u8, 5_u8),  // slot 0 → tone 5
        (7_u8, 13_u8), // slot 1 → tone 909 (last populated)
    ];
    let mut frames = Vec::new();
    for (slot_idx, (header_page, tail_page)) in
        [(0_usize, (0x20_u8, 0x30_u8)), (1, (0x21, 0x31))]
    {
        let (bank, pos) = tone_per_slot[slot_idx];
        // Header bytes on header_page.
        let header_payload: Vec<u8> = vec![
            0x58 + slot_idx as u8,             // 0x00 synth_mode
            bank,                              // 0x01 tone bank
            pos,                               // 0x02 tone position
            AnalogPuToneSw::Off.to_byte(),     // 0x03 tone_sw
            100,                               // 0x04 tone_level
            0x41,                              // 0x05 octave
            OnOff::On.to_byte(),               // 0x06 chromatic
            OnOff::Off.to_byte(),              // 0x07 legato
            OnOff::On.to_byte(),               // 0x08 nuance_sw
            0x40,                              // 0x09 pan
            0x40,                              // 0x0A pitch_shift
            0x40,                              // 0x0B pitch_fine
            PortamentoSwitch::Tone.to_byte(),  // 0x0C
            5,                                 // 0x0D portamento_time
            8,                                 // 0x0E portamento_raw_0e
            TvaReleaseMode::Mode2.to_byte(),   // 0x0F
            90,                                // 0x10 string_level[0]
            85,                                // 0x11 string_level[1]
        ];
        frames.push(Frame::Dt1 {
            device_id: 0x10,
            address: [TEMP_MSB, header_page, 0x00, 0x00],
            data: header_payload,
        });
        // A few tail bytes on tail_page to verify routing.
        frames.push(Frame::Dt1 {
            device_id: 0x10,
            address: [TEMP_MSB, tail_page, 0x00, 0x00],
            data: vec![
                0xA0 + slot_idx as u8, // 0x00 Filter Type (raw)
                0xB0 + slot_idx as u8, // 0x01 Cutoff (raw)
            ],
        });
    }
    let area = PatchArea::from_frames_at(&frames, TEMP_MSB);

    let expected_linear = [5_u16, 909];
    for (slot_idx, &expected) in expected_linear.iter().enumerate() {
        let pcm = area.pcm[slot_idx].as_ref().expect("slot should populate");
        assert_eq!(pcm.synth_mode, Some(0x58 + slot_idx as u8));
        assert_eq!(pcm.synth_tone.map(|t| t.get()), Some(expected));
        assert_eq!(pcm.tone_sw, Some(AnalogPuToneSw::Off));
        assert_eq!(pcm.tone_level, Some(100));
        assert_eq!(pcm.octave, Some(0x41));
        assert_eq!(pcm.chromatic, Some(OnOff::On));
        assert_eq!(pcm.legato, Some(OnOff::Off));
        assert_eq!(pcm.nuance_sw, Some(OnOff::On));
        assert_eq!(pcm.pan, Some(0x40));
        assert_eq!(pcm.pitch_shift, Some(0x40));
        assert_eq!(pcm.pitch_fine, Some(0x40));
        assert_eq!(pcm.portamento_sw, Some(PortamentoSwitch::Tone));
        assert_eq!(pcm.portamento_time, Some(5));
        assert_eq!(pcm.portamento_raw_0e, Some(8));
        assert_eq!(pcm.tva_release_mode, Some(TvaReleaseMode::Mode2));
        assert_eq!(pcm.string_level[0], Some(90));
        assert_eq!(pcm.string_level[1], Some(85));
        // Tail bytes landed in raw_tail (keyed by tail-page offset).
        assert_eq!(pcm.raw_tail.get(0x00), Some((0xA0 + slot_idx as u8)));
        assert_eq!(pcm.raw_tail.get(0x01), Some((0xB0 + slot_idx as u8)));
    }

    let back = PatchArea::from_frames_at(&area.to_frames(0x10, TEMP_MSB).unwrap(), TEMP_MSB);
    assert_eq!(back, area);
}

#[test]
fn pcm_tone_index_validates_range_and_round_trips_bytes() {
    // The first tone in the catalog.
    let first = PcmToneIndex::new(0).unwrap();
    assert_eq!(first.to_two_bytes(), [0, 0]);
    assert_eq!(PcmToneIndex::from_two_bytes(0, 0), Some(first));

    // A tone in the middle.
    let mid = PcmToneIndex::new(300).unwrap();
    assert_eq!(mid.to_two_bytes(), [2, 44]);
    assert_eq!(PcmToneIndex::from_two_bytes(2, 44), Some(mid));

    // The very last populated tone.
    let last = PcmToneIndex::new(909).unwrap();
    assert_eq!(last.to_two_bytes(), [7, 13]);
    assert_eq!(PcmToneIndex::from_two_bytes(7, 13), Some(last));

    // Out-of-range linear value.
    assert!(PcmToneIndex::new(910).is_none());

    // Out-of-range byte components.
    assert!(PcmToneIndex::from_two_bytes(8, 0).is_none()); // bank > 7
    assert!(PcmToneIndex::from_two_bytes(0, 0x80).is_none()); // pos > 0x7F
    assert!(PcmToneIndex::from_two_bytes(7, 14).is_none()); // valid bytes, linear > 909
}

#[test]
fn pcm_string_level_and_line_route_round_trip() {
    // Header page bytes 0x10..=0x15 = string_level[6], byte 0x16 =
    // line_route. Bytes 0x17/0x18 of the header page are above
    // line_route — they're not part of the documented header so
    // they fall through to PatchArea::unknown_bytes.
    let payload: Vec<u8> = vec![
        80, 75, 70, 65, 60, 55,        // 0x10..=0x15 string_level
        LineRoute::Mfx.to_byte(),      // 0x16 line_route
        0xE1, 0xE2,                    // 0x17/0x18 — fall through
    ];
    let frames = vec![Frame::Dt1 {
        device_id: 0x10,
        address: [TEMP_MSB, 0x20, 0x00, 0x10], // PCM Tone 1 header page
        data: payload,
    }];
    let area = PatchArea::from_frames_at(&frames, TEMP_MSB);
    let pcm = area.pcm[0].as_ref().expect("Tone 1 should populate");
    assert_eq!(pcm.string_level[0], Some(80));
    assert_eq!(pcm.string_level[5], Some(55));
    assert_eq!(pcm.line_route, Some(LineRoute::Mfx));
    // raw_tail (the TAIL page) is empty — no bytes were sent there.
    assert!(pcm.raw_tail.is_empty());
    // The two unmapped header-page bytes ended up in
    // PatchArea::unknown_bytes since the header doesn't claim them.
    assert_eq!(area.unknown_bytes.get(0x200017), Some(0xE1));
    assert_eq!(area.unknown_bytes.get(0x200018), Some(0xE2));

    let back = PatchArea::from_frames_at(&area.to_frames(0x10, TEMP_MSB).unwrap(), TEMP_MSB);
    assert_eq!(back, area);
}

#[test]
fn pcm_tone_partial_decode_parks_byte_for_round_trip() {
    // Only the bank byte arrives (no position). It should park in
    // `pending_bank` and NOT promote to a typed synth_tone.
    let frames = vec![Frame::Dt1 {
        device_id: 0x10,
        address: [TEMP_MSB, 0x20, 0x00, 0x01],
        data: vec![3],
    }];
    let area = PatchArea::from_frames_at(&frames, TEMP_MSB);
    let pcm = area.pcm[0].as_ref().expect("Tone 1 should exist");
    assert!(pcm.synth_tone.is_none());
    assert_eq!(pcm.pending_bank, Some(3));
    assert!(pcm.pending_pos.is_none());

    // Round-trip: the partial byte must survive (emitted from
    // pending_bank since synth_tone is None).
    let back = PatchArea::from_frames_at(&area.to_frames(0x10, TEMP_MSB).unwrap(), TEMP_MSB);
    assert_eq!(back, area);
}

#[test]
fn pcm_slot_page_mapping_is_correct() {
    // Each tone owns TWO pages: a header page (0x20/0x21) and a
    // tail page (0x30/0x31).
    assert_eq!(pcm_route_for_page(0x20), Some(PcmPageRole::Header(0)));
    assert_eq!(pcm_route_for_page(0x21), Some(PcmPageRole::Header(1)));
    assert_eq!(pcm_route_for_page(0x30), Some(PcmPageRole::Tail(0)));
    assert_eq!(pcm_route_for_page(0x31), Some(PcmPageRole::Tail(1)));
    assert_eq!(pcm_route_for_page(0x22), None);
    assert_eq!(pcm_route_for_page(0x32), None);
    assert_eq!(pcm_pages_for_slot(0), (0x20, 0x30));
    assert_eq!(pcm_pages_for_slot(1), (0x21, 0x31));
}

#[test]
fn preamp_type_byte_symmetry() {
    for raw in 0x00_u8..=0x29 {
        let v = PreampType::from_byte(raw).expect("from_byte");
        assert_eq!(v.to_byte(), raw, "mismatch for 0x{raw:02X}");
    }
    assert!(PreampType::from_byte(0x2A).is_none());
}

#[test]
fn mfx_type_byte_symmetry() {
    for raw in 0x00_u8..=0x13 {
        let v = MfxType::from_byte(raw).expect("from_byte");
        assert_eq!(v.to_byte(), raw, "mismatch for 0x{raw:02X}");
    }
    assert!(MfxType::from_byte(0x14).is_none());
}

#[test]
fn analog_pu_tone_sw_wire_bytes_are_reversed_from_onoff() {
    // Sanity-check the wire reversal: byte 0x00 == AnalogPuToneSw::On,
    // byte 0x01 == AnalogPuToneSw::Off. This is the OPPOSITE of the
    // OnOff enum which uses 0x00=Off, 0x01=On.
    assert_eq!(AnalogPuToneSw::On.to_byte(), 0x00);
    assert_eq!(AnalogPuToneSw::Off.to_byte(), 0x01);
    assert_eq!(OnOff::Off.to_byte(), 0x00);
    assert_eq!(OnOff::On.to_byte(), 0x01);
}

#[test]
fn master_assign_8_lives_on_page_02() {
    // Assign8 starts at flat offset 0x0C + 7*19 = 0x91 = page 0x02 0x11.
    let frames = vec![Frame::Dt1 {
        device_id: 0x10,
        address: [TEMP_MSB, 0x02, 0x00, 0x11],
        data: vec![OnOff::On.to_byte()],
    }];
    let area = PatchArea::from_frames_at(&frames, TEMP_MSB);
    assert!(area.master_assigns[7].is_some());
    assert_eq!(
        area.master_assigns[7].as_ref().unwrap().on_off,
        Some(OnOff::On)
    );
    for i in 0..7 {
        assert!(area.master_assigns[i].is_none());
    }
}

#[test]
fn master_assign_6_lands_at_expected_offset() {
    // Assign6 starts at lo = 0x0C + 5*19 = 0x6B.
    let frames = vec![Frame::Dt1 {
        device_id: 0x10,
        address: [TEMP_MSB, 0x01, 0x00, 0x6B],
        data: vec![OnOff::On.to_byte()],
    }];
    let area = PatchArea::from_frames_at(&frames, TEMP_MSB);
    assert!(area.master_assigns[5].is_some());
    assert_eq!(area.master_assigns[5].as_ref().unwrap().on_off, Some(OnOff::On));
    for i in [0, 1, 2, 3, 4, 6, 7] {
        assert!(area.master_assigns[i].is_none(), "slot {i} should be None");
    }
}

#[test]
fn assign_source_midi_cc_round_trips() {
    for cc in [1, 15, 31, 64, 80, 95] {
        let src = AssignSource::midi_cc(cc).unwrap();
        assert_eq!(AssignSource::from_byte(src.to_byte()), Some(src));
    }
    assert!(AssignSource::midi_cc(0).is_none());
    assert!(AssignSource::midi_cc(32).is_none()); // gap between CC#31 and CC#64
    assert!(AssignSource::midi_cc(63).is_none());
    assert!(AssignSource::midi_cc(96).is_none());
}

#[test]
fn assign_internal_trigger_byte_symmetry() {
    for raw in 0x00_u8..=0x0A {
        let v = AssignInternalTrigger::from_byte(raw).expect("from_byte");
        assert_eq!(v.to_byte(), raw, "mismatch for 0x{raw:02X}");
    }
    assert!(AssignInternalTrigger::from_byte(0x0B).is_none());
}

#[test]
fn exp_sw_function_byte_symmetry() {
    for raw in 0x00_u8..=0x0D {
        let v = ExpSwFunction::from_byte(raw).expect("from_byte");
        assert_eq!(v.to_byte(), raw, "mismatch for 0x{raw:02X}");
    }
    assert!(ExpSwFunction::from_byte(0x0E).is_none());
}

#[test]
fn exp_function_byte_symmetry() {
    for raw in 0x00_u8..=0x09 {
        let v = ExpFunction::from_byte(raw).expect("from_byte");
        assert_eq!(v.to_byte(), raw, "mismatch for 0x{raw:02X}");
    }
    assert!(ExpFunction::from_byte(0x0A).is_none());
}

#[test]
fn ctl_function_byte_symmetry() {
    for raw in 0x00_u8..=0x10 {
        let v = CtlFunction::from_byte(raw).expect("from_byte");
        assert_eq!(v.to_byte(), raw, "to_byte mismatch for 0x{raw:02X}");
    }
    assert!(CtlFunction::from_byte(0x11).is_none());
}

#[test]
fn name_too_long_rejected() {
    let err = PatchName::from_str("0123456789ABCDEFG").unwrap_err();
    assert!(matches!(err, PatchNameError::TooLong(17)));
}

#[test]
fn pcm_iter_tail_params_pairs_bytes_with_table() {
    let mut pcm = Pcm::empty();
    pcm.raw_tail.insert(0x00, 2);
    pcm.raw_tail.insert(0x01, 64);
    pcm.raw_tail.insert(0x1B, 1);
    pcm.raw_tail.insert(0x22, 50);
    pcm.raw_tail.insert(0x30, 0x99);

    let collected = pcm.iter_tail_params();
    let by_off: std::collections::BTreeMap<u8, (u8, Option<&str>, Option<PcmTailGroup>)> = collected
        .iter()
        .map(|(off, b, entry)| (*off, (*b, entry.as_ref().map(|e| e.name), entry.as_ref().map(|e| e.group))))
        .collect();

    assert_eq!(by_off.get(&0x00), Some(&(2, Some("Filter Type"), Some(PcmTailGroup::Filter))));
    assert_eq!(by_off.get(&0x1B), Some(&(1, Some("Portamento Type"), Some(PcmTailGroup::Portamento))));
    assert_eq!(by_off.get(&0x22), Some(&(50, Some("LFO2 Rate"), Some(PcmTailGroup::Lfo))));
    assert_eq!(by_off.get(&0x30), Some(&(0x99, None, None)));
}

#[test]
fn mfx_page_04_lands_in_the_same_single_mfx_slot() {
    let frames = vec![Frame::Dt1 {
        device_id: 0x10,
        address: [TEMP_MSB, 0x04, 0x00, 0x05],
        data: vec![0x42],
    }];
    let area = PatchArea::from_frames_at(&frames, TEMP_MSB);
    let mfx = area.mfx.as_ref().expect("single mfx slot should populate");
    assert_eq!(mfx.raw_tail.get(0x85), Some(0x42));
}

#[test]
fn out_of_range_replaced_field_byte_is_kept() {
    let fs = vec![Frame::Dt1 { device_id: 0x10, address: [0x60, 0x00, 0x00, 0x00], data: vec![0x05] }];
    let a = PatchArea::from_frames_at(&fs, 0x60);
    assert_eq!(a.mode, None);
    assert_eq!(a.unknown_bytes.get(0x000000), Some(0x05));
    assert_eq!(a.to_frames(0x10, 0x60), Ok(fs));
}

#[test]
fn assign_addresses_and_locations_are_inverse() {
    assert_eq!(assign_address(0x60, 6, 0), [0x60, 0x01, 0x00, 0x7E]);
    assert_eq!(assign_address(0x60, 6, 2), [0x60, 0x02, 0x00, 0x00]);
    assert_eq!(assign_address(0x60, 7, 0), [0x60, 0x02, 0x00, 0x11]);
    for idx in 0..8usize {
        for k in 0..19u8 {
            let a = assign_address(0x18, idx, k);
            assert_eq!(assign_locate(a[1], a[2], a[3]), Some((idx, k)));
        }
    }
    assert_eq!(assign_locate(0x01, 0x00, 0x0B), None);
    assert_eq!(assign_locate(0x02, 0x00, 0x24), None);
    assert_eq!(assign_locate(0x01, 0x01, 0x0C), None);
}

#[test]
fn tone_selector_bytes_park_even_with_a_tone_set() {
    let frames = vec![Frame::Dt1 { device_id: 0x10, address: [TEMP_MSB, 0x20, 0x00, 0x01], data: vec![0, 5] }];
    let mut area = PatchArea::from_frames_at(&frames, TEMP_MSB);
    let pcm = area.pcm[0].as_ref().unwrap();
    assert_eq!(pcm.synth_tone.map(|t| t.get()), Some(5));
    area.store(0x20, 0x00, 0x01, 3);
    let pcm = area.pcm[0].as_ref().unwrap();
    assert_eq!(pcm.pending_bank, Some(3));
    assert_eq!(pcm.synth_tone.map(|t| t.get()), Some(5));
}

#[test]
fn defaults_are_empty() {
    let a = PatchArea::default();
    assert_eq!(a, PatchArea::new());
    assert!(a.unknown_bytes.is_empty());
    assert_eq!(Pcm::default(), Pcm::empty());
    assert_eq!(gr55_core::patch::Mfx::default(), gr55_core::patch::Mfx::empty());
    assert_eq!(gr55_core::SystemArea::default(), gr55_core::SystemArea::new());
}

fn wire_pairs(frames: &[Frame]) -> Vec<([u8; 4], u8)> {
    let mut out = Vec::new();
    for f in frames {
        if let Frame::Dt1 { address, data, .. } = f {
            for (i, b) in data.iter().enumerate() {
                let mut a = *address;
                a[3] = a[3].wrapping_add(i as u8);
                out.push((a, *b));
            }
        }
    }
    out
}

#[test]
fn mfx_raw_keys_outside_the_tail_encode_at_their_split_address() {
    let mut m = gr55_core::patch::Mfx::empty();
    m.chorus_send = Some(0x10);
    m.delay_send = Some(0x20);
    // Below the tail: lands on page 0x03 and overrides the typed byte.
    m.raw_tail.insert(0x01, 0xAB);
    // 0x85 and 0x185 share page 0x04 offset 0x05; the larger key wins.
    m.raw_tail.insert(0x85, 0x11);
    m.raw_tail.insert(0x185, 0xCD);
    let mut area = PatchArea::new();
    area.mfx = Some(m);
    let frames = area.to_frames(0x10, TEMP_MSB).unwrap();
    let pairs = wire_pairs(&frames);
    assert!(pairs.contains(&([TEMP_MSB, 0x03, 0x00, 0x00], 0x10)));
    assert!(pairs.contains(&([TEMP_MSB, 0x03, 0x00, 0x01], 0xAB)));
    assert!(!pairs.contains(&([TEMP_MSB, 0x03, 0x00, 0x01], 0x20)));
    assert!(pairs.contains(&([TEMP_MSB, 0x04, 0x00, 0x05], 0xCD)));
    assert!(!pairs.contains(&([TEMP_MSB, 0x04, 0x00, 0x05], 0x11)));
    assert_eq!(pairs.len(), 3);
}

#[test]
fn mod_raw_keys_outside_the_tail_encode_on_page_7() {
    let mut m = gr55_core::patch::Mod::empty();
    m.chorus_send = Some(0x05);
    m.raw_tail.insert(0x11, 0x33);
    m.raw_tail.insert(0x80, 0x22);
    m.raw_tail.insert(0x5A, 0x44);
    m.raw_tail.insert(0x5B, 0x55);
    let mut area = PatchArea::new();
    area.modulation = Some(m);
    // The noise-suppressor switch is written after the MOD slot and wins.
    area.ns_switch = Some(OnOff::On);
    let frames = area.to_frames(0x10, TEMP_MSB).unwrap();
    let pairs = wire_pairs(&frames);
    assert!(pairs.contains(&([TEMP_MSB, 0x07, 0x00, 0x11], 0x33)));
    assert!(pairs.contains(&([TEMP_MSB, 0x07, 0x00, 0x80], 0x22)));
    assert!(pairs.contains(&([TEMP_MSB, 0x07, 0x00, 0x5A], OnOff::On.to_byte())));
    assert!(pairs.contains(&([TEMP_MSB, 0x07, 0x00, 0x5B], 0x55)));
    assert_eq!(pairs.len(), 4);
}

#[test]
fn modeling_and_pcm_raw_keys_outside_the_tail_encode() {
    let mut md = gr55_core::patch::Modeling::empty();
    md.raw_tail.insert(0x02, 0x07);
    md.raw_tail.insert(0x1FF, 0x09);
    let mut p = Pcm::empty();
    p.raw_tail.insert(0x90, 0x0A);
    let mut area = PatchArea::new();
    area.modeling = Some(md);
    area.pcm[1] = Some(p);
    let frames = area.to_frames(0x10, TEMP_MSB).unwrap();
    let pairs = wire_pairs(&frames);
    assert!(pairs.contains(&([TEMP_MSB, 0x10, 0x00, 0x02], 0x07)));
    assert!(pairs.contains(&([TEMP_MSB, 0x11, 0x00, 0x7F], 0x09)));
    assert!(pairs.contains(&([TEMP_MSB, 0x31, 0x00, 0x90], 0x0A)));
    assert_eq!(pairs.len(), 3);
}

#[test]
fn raw_key_wider_than_its_slot_is_refused() {
    let mut m = gr55_core::patch::Mod::empty();
    m.raw_tail.insert(0x100, 0x01);
    let mut area = PatchArea::new();
    area.modulation = Some(m);
    assert_eq!(
        area.to_frames(0x10, TEMP_MSB),
        Err(gr55_core::codec::CodecError::BadStoredAddress(0x100))
    );
}

#[test]
fn distinct_writes_come_back_on_the_wire() {
    let frames = vec![
        Frame::Dt1 { device_id: 0x10, address: [TEMP_MSB, 0x00, 0x00, 0x00], data: vec![PatchMode::Bass.to_byte(), b'A', b' ', b'B'] },
        Frame::Dt1 { device_id: 0x10, address: [TEMP_MSB, 0x03, 0x00, 0x20], data: vec![0x01, 0x02] },
        Frame::Dt1 { device_id: 0x10, address: [TEMP_MSB, 0x05, 0x00, 0x00], data: vec![0x7E] },
    ];
    let area = PatchArea::from_frames_at(&frames, TEMP_MSB);
    let mut got = wire_pairs(&area.to_frames(0x10, TEMP_MSB).unwrap());
    got.sort();
    let mut want = vec![
        ([TEMP_MSB, 0x00, 0x00, 0x00], PatchMode::Bass.to_byte()),
        ([TEMP_MSB, 0x00, 0x00, 0x01], b'A'),
        ([TEMP_MSB, 0x00, 0x00, 0x03], b'B'),
        ([TEMP_MSB, 0x03, 0x00, 0x20], 0x01),
        ([TEMP_MSB, 0x03, 0x00, 0x21], 0x02),
        ([TEMP_MSB, 0x05, 0x00, 0x00], 0x7E),
    ];
    want.sort();
    assert_eq!(got, want);
    let again = PatchArea::from_frames_at(&area.to_frames(0x10, TEMP_MSB).unwrap(), TEMP_MSB);
    assert_eq!(again, area);
}
