use gr55_core::byte_map::ByteMap;
use gr55_core::sysex::Frame;
use gr55_core::system::{
    address_key, decode_nibble_pair, encode_nibble_pair, key_address, pack_dt1_frames, GkSet,
    MidiChannel, MidiOutMode, OnOff, OutputSelect, PatchLevel, PedalCc, PitchBendDepth,
    StringChannelBase, SystemArea,
};
use gr55_core::CodecError;

#[test]
fn empty_system_area_roundtrips() {
    let area = SystemArea::new();
    let frames = area.to_frames(0x10).unwrap();
    assert!(frames.is_empty());
    let back = SystemArea::from_frames(&frames);
    assert_eq!(back, area);
}

#[test]
fn typed_fields_roundtrip() {
    let area = SystemArea {
        current_patch_byte_0: Some(0x05),
        gk_set: Some(GkSet::User3),
        output_select: Some(OutputSelect::Jc120Amp),
        assign_hold: Some(OnOff::On),
        midi_channel: Some(MidiChannel::new(10).unwrap()),
        pc_rx: Some(OnOff::On),
        pc_tx: Some(OnOff::Off),
        v_link_tx_channel: Some(MidiChannel::new(16).unwrap()),
        guitar_midi_out: Some(OnOff::Off),
        midi_out_mode: Some(MidiOutMode::Poly),
        chromatic: Some(OnOff::Off),
        string_channel_base: Some(StringChannelBase::new(10).unwrap()),
        data_thin: Some(OnOff::On),
        ctl_pedal_cc: Some(PedalCc::Cc(7)),
        exp_pedal_cc: Some(PedalCc::Cc(64)),
        unknown_bytes: ByteMap::new(),
    };
    let frames = area.to_frames(0x10).unwrap();
    let back = SystemArea::from_frames(&frames);
    assert_eq!(back, area);
}

#[test]
fn unknown_bytes_roundtrip_via_map() {
    let mut unknown = ByteMap::new();
    unknown.insert(address_key([0x02, 0x00, 0x00, 0x1F]), 0x42_u8);
    unknown.insert(address_key([0x02, 0x00, 0x02, 0x00]), 0x11_u8);
    let mut area = SystemArea::new();
    area.current_patch_byte_0 = Some(0x00);
    area.unknown_bytes = unknown.clone();
    let frames = area.to_frames(0x10).unwrap();
    let back = SystemArea::from_frames(&frames);
    assert_eq!(back.unknown_bytes, unknown);
    assert_eq!(back.current_patch_byte_0, Some(0x00));
}

#[test]
fn dt1_frames_pack_contiguous_bytes() {
    let mut area = SystemArea::new();
    area.midi_channel = Some(MidiChannel::new(5).unwrap());
    area.pc_rx = Some(OnOff::On);
    area.pc_tx = Some(OnOff::Off);
    let frames = area.to_frames(0x10).unwrap();
    assert_eq!(frames.len(), 1, "three contiguous addresses should pack into one DT1");
    if let Frame::Dt1 { address, data, .. } = &frames[0] {
        assert_eq!(*address, [0x02, 0x00, 0x00, 0x03]);
        assert_eq!(data.as_slice(), &[4, 1, 0]);
    } else {
        panic!("expected DT1");
    }
}

#[test]
fn system_frames_decode_typed_and_unknown_bytes() {
    let frames = vec![Frame::Dt1 {
        device_id: 0x10,
        address: [0x01, 0x00, 0x00, 0x00],
        data: vec![0x00, 0x39],
    }];
    let area = SystemArea::from_frames(&frames);
    assert_eq!(area.current_patch_byte_0, Some(0x00));
    assert_eq!(area.unknown_bytes.get(address_key([0x01, 0x00, 0x00, 0x01])), Some(0x39));
    assert_eq!(area.unknown_bytes.len(), 1);
}

#[test]
fn out_of_range_typed_byte_is_dropped() {
    let frames = vec![Frame::Dt1 {
        device_id: 0x10,
        address: [0x02, 0x00, 0x00, 0x00],
        data: vec![0x7F],
    }];
    let area = SystemArea::from_frames(&frames);
    assert_eq!(area.gk_set, None);
    assert_eq!(area.unknown_bytes.get(0x0200_0000), None);
    assert!(area.unknown_bytes.is_empty());
}

#[test]
fn unencodable_pedal_cc_is_an_error() {
    let mut area = SystemArea::new();
    area.ctl_pedal_cc = Some(PedalCc::Cc(40));
    assert_eq!(area.to_frames(0x10), Err(CodecError::PedalCcOutOfRange(40)));
}

#[test]
fn gapped_bytes_split_into_separate_frames() {
    let mut bytes = ByteMap::new();
    bytes.insert(0x0200_0000, 1);
    bytes.insert(0x0200_0001, 2);
    bytes.insert(0x0200_0005, 3);
    let frames = pack_dt1_frames(0x10, &bytes);
    assert_eq!(
        frames,
        vec![
            Frame::Dt1 { device_id: 0x10, address: [2, 0, 0, 0], data: vec![1, 2] },
            Frame::Dt1 { device_id: 0x10, address: [2, 0, 0, 5], data: vec![3] },
        ]
    );
}

#[test]
fn address_keys_round_trip() {
    assert_eq!(address_key([0x02, 0x00, 0x00, 0x1F]), 0x0200_001F);
    assert_eq!(key_address(0x0102_0304), [0x01, 0x02, 0x03, 0x04]);
}

#[test]
fn value_types_reject_out_of_range() {
    assert!(MidiChannel::new(0).is_none());
    assert!(MidiChannel::new(17).is_none());
    assert_eq!(MidiChannel::new(16).unwrap().to_byte(), 15);
    assert_eq!(MidiChannel::from_byte(15).unwrap().get(), 16);
    assert!(StringChannelBase::new(12).is_none());
    assert_eq!(PedalCc::from_byte(0x20), Some(PedalCc::Cc(64)));
    assert_eq!(PedalCc::Cc(95).to_byte(), Some(0x3F));
    assert_eq!(PedalCc::from_byte(0x40), None);
    assert_eq!(PitchBendDepth::from_byte(0x00).unwrap().get(), -12);
    assert!(PitchBendDepth::from_byte(25).is_none());
    assert!(PatchLevel::new(201).is_none());
}

#[test]
fn nibble_pairs_round_trip() {
    assert_eq!(encode_nibble_pair(0xC8), [0x0C, 0x08]);
    assert_eq!(decode_nibble_pair(0x0C, 0x08), Some(0xC8));
    assert_eq!(decode_nibble_pair(0x10, 0x00), None);
    let level = PatchLevel::new(100).unwrap();
    assert_eq!(PatchLevel::from_two_bytes(level.to_two_bytes()[0], level.to_two_bytes()[1]), Some(level));
}
