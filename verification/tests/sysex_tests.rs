use gr55_core::sysex::{
    decode_rq1_size, encode_rq1_size, parse_frames, parse_frames_unchecked, roland_checksum,
    Frame, EOX, MANUFACTURER_ROLAND, SOX,
};
use gr55_core::CodecError;

#[test]
fn checksum_zero_sum_is_zero() {
    assert_eq!(roland_checksum(&[0x00]), 0x00);
    assert_eq!(roland_checksum(&[]), 0x00);
}

#[test]
fn checksum_matches_floorboard_system_first_frame() {
    let payload = [0x01, 0x00, 0x00, 0x00, 0x00, 0x39];
    assert_eq!(roland_checksum(&payload), 0x46);
}

#[test]
fn rq1_size_roundtrip() {
    for &size in &[0u32, 1, 0x7F, 0x80, 0x3FFF, 0x4000, 0x1FF_FFFF, 0x0FFF_FFFF] {
        assert_eq!(decode_rq1_size(encode_rq1_size(size)), size, "size {size:#x}");
    }
}

#[test]
fn dt1_roundtrip() {
    let original = Frame::Dt1 {
        device_id: 0x10,
        address: [0x18, 0x00, 0x00, 0x00],
        data: b"Init Patch      ".to_vec(),
    };
    let bytes = original.encode();
    let (parsed, consumed) = Frame::try_parse(&bytes).unwrap();
    assert_eq!(parsed, original);
    assert_eq!(consumed, bytes.len());
}

#[test]
fn rq1_roundtrip() {
    let original = Frame::Rq1 {
        device_id: 0x10,
        address: [0x60, 0x00, 0x00, 0x00],
        size: 0x4000,
    };
    let bytes = original.encode();
    let (parsed, consumed) = Frame::try_parse(&bytes).unwrap();
    assert_eq!(parsed, original);
    assert_eq!(consumed, bytes.len());
}

#[test]
fn try_parse_rejects_wrong_model_id() {
    let bytes = [
        SOX,
        MANUFACTURER_ROLAND,
        0x10,
        0x00,
        0x00,
        0x18,
        0x12,
        0x00,
        0x00,
        0x00,
        0x00,
        0x00,
        EOX,
    ];
    let err = Frame::try_parse(&bytes).unwrap_err();
    assert!(matches!(err, CodecError::WrongModelId(_)), "got {err:?}");
}

#[test]
fn try_parse_rejects_bad_checksum() {
    let mut bytes = Frame::Dt1 {
        device_id: 0x10,
        address: [0x01, 0x00, 0x00, 0x00],
        data: vec![0x00, 0x39],
    }
    .encode();
    let chk_idx = bytes.len() - 2;
    bytes[chk_idx] = bytes[chk_idx].wrapping_add(1) & 0x7F;
    let err = Frame::try_parse(&bytes).unwrap_err();
    assert!(matches!(err, CodecError::BadChecksum { .. }), "got {err:?}");
}

#[test]
fn dt1_encoding_has_exact_bytes() {
    let frame = Frame::Dt1 {
        device_id: 0x10,
        address: [0x01, 0x00, 0x00, 0x00],
        data: vec![0x00, 0x39],
    };
    assert_eq!(
        frame.encode(),
        vec![0xF0, 0x41, 0x10, 0x00, 0x00, 0x53, 0x12, 0x01, 0x00, 0x00, 0x00, 0x00, 0x39, 0x46, 0xF7]
    );
}

#[test]
fn rq1_size_encodes_seven_bit_groups() {
    assert_eq!(encode_rq1_size(0x4000), [0x00, 0x01, 0x00, 0x00]);
    assert_eq!(encode_rq1_size(0x80), [0x00, 0x00, 0x01, 0x00]);
    assert_eq!(decode_rq1_size([0x01, 0x02, 0x03, 0x04]), (1 << 21) | (2 << 14) | (3 << 7) | 4);
}

#[test]
fn try_parse_error_variants() {
    assert!(matches!(Frame::try_parse(&[0xF0; 5]), Err(CodecError::TooShort { got: 5, min: 13 })));
    let mut bytes = Frame::Rq1 { device_id: 0x10, address: [0; 4], size: 1 }.encode();
    bytes[0] = 0x90;
    assert!(matches!(Frame::try_parse(&bytes), Err(CodecError::NotSysEx(0x90))));
    let mut bytes = Frame::Rq1 { device_id: 0x10, address: [0; 4], size: 1 }.encode();
    bytes[1] = 0x43;
    assert!(matches!(Frame::try_parse(&bytes), Err(CodecError::NotRoland(0x43))));
    let mut bytes = Frame::Rq1 { device_id: 0x10, address: [0; 4], size: 1 }.encode();
    bytes[6] = 0x13;
    assert!(matches!(Frame::try_parse(&bytes), Err(CodecError::UnknownCommand(0x13))));
    let mut bytes = Frame::Rq1 { device_id: 0x10, address: [0; 4], size: 1 }.encode();
    let last = bytes.len() - 1;
    bytes[last] = 0x00;
    assert!(matches!(Frame::try_parse(&bytes), Err(CodecError::MissingEox)));
}

#[test]
fn frame_stream_parses_back_to_back_frames() {
    let a = Frame::Dt1 { device_id: 0x10, address: [0x18, 0, 0, 0], data: vec![1, 2, 3] };
    let b = Frame::Rq1 { device_id: 0x10, address: [0x01, 0, 0, 0], size: 0x10 };
    let mut bytes = a.encode();
    bytes.extend(b.encode());
    let frames = parse_frames(&bytes).collect_all();
    assert_eq!(frames.len(), 2);
    assert_eq!(frames[0], Ok(a.clone()));
    assert_eq!(frames[1], Ok(b));
    let unchecked = parse_frames_unchecked(&bytes).collect_all();
    assert_eq!(unchecked.len(), 2);
    let (frame, status) = unchecked[0].clone().unwrap();
    assert_eq!(frame, a);
    assert!(status.is_valid());
}
