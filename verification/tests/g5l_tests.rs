use gr55_core::g5l::{
    parse, trailing_bytes_after_last_slot, G5lError, G5L_HEADER_LEN, G5L_MAGIC, G5L_PATCH_SLOT_LEN,
};
use gr55_core::patch::{PatchArea, PatchMode};

#[test]
fn rejects_bad_magic() {
    let mut bytes = vec![0u8; G5L_HEADER_LEN + G5L_PATCH_SLOT_LEN];
    bytes[..16].copy_from_slice(b"NotG5LLibrarian!");
    assert!(matches!(parse(&bytes), Err(G5lError::BadMagic)));
}

#[test]
fn rejects_too_short() {
    let bytes = vec![0u8; 64];
    assert!(matches!(parse(&bytes), Err(G5lError::TooShort { .. })));
}

#[test]
fn tolerates_trailing_bytes_after_last_full_slot() {
    let mut bytes = vec![0u8; G5L_HEADER_LEN + G5L_PATCH_SLOT_LEN + 17];
    bytes[..16].copy_from_slice(&G5L_MAGIC);
    bytes[G5L_HEADER_LEN + 2] = 0x04;
    bytes[G5L_HEADER_LEN + 3] = 0xD3;
    let patches = parse(&bytes).expect("trailing bytes should be tolerated");
    assert_eq!(patches.len(), 1);
    assert_eq!(trailing_bytes_after_last_slot(&bytes), 17);
}

#[test]
fn tolerates_unusual_prefix_marker() {
    let mut bytes = vec![0u8; G5L_HEADER_LEN + G5L_PATCH_SLOT_LEN];
    bytes[..16].copy_from_slice(&G5L_MAGIC);
    bytes[G5L_HEADER_LEN + 2] = 0x05;
    bytes[G5L_HEADER_LEN + 3] = 0x2B;
    let patches = parse(&bytes).expect("variant marker should still parse");
    assert_eq!(patches.len(), 1);
}

#[test]
fn too_short_reports_sizes() {
    let bytes = vec![0u8; 100];
    assert!(matches!(
        parse(&bytes),
        Err(G5lError::TooShort { min, got: 100 }) if min == G5L_HEADER_LEN + G5L_PATCH_SLOT_LEN
    ));
}

#[test]
fn two_slots_parse_in_order_and_decode() {
    let mut bytes = vec![0u8; G5L_HEADER_LEN + 2 * G5L_PATCH_SLOT_LEN];
    bytes[..16].copy_from_slice(&G5L_MAGIC);
    let patches = parse(&bytes).unwrap();
    assert_eq!(patches.len(), 2);
    assert_eq!(patches[0].slot_index, 0);
    assert_eq!(patches[1].slot_index, 1);
    assert_eq!(trailing_bytes_after_last_slot(&bytes), 0);
    let area = patches[0].to_patch_area(0x18);
    assert_eq!(area.mode, Some(PatchMode::Guitar));
    let back = area.to_frames(0x10, 0x18).unwrap();
    assert_eq!(PatchArea::from_frames_at(&back, 0x18), area);
}

#[test]
fn name_str_reads_the_name_bytes() {
    let mut bytes = vec![0u8; G5L_HEADER_LEN + G5L_PATCH_SLOT_LEN];
    bytes[..16].copy_from_slice(&G5L_MAGIC);
    let patches = parse(&bytes).unwrap();
    let mut p = patches[0].clone();
    p.name = *b"Init Patch      ";
    assert_eq!(p.name_str(), "Init Patch");
    assert!(p.name_str().starts_with("Init Patch"));
}

#[test]
fn slot_name_and_mode_come_from_block_zero() {
    let mut bytes = vec![0u8; G5L_HEADER_LEN + G5L_PATCH_SLOT_LEN];
    bytes[..16].copy_from_slice(&G5L_MAGIC);
    bytes[G5L_HEADER_LEN + 12] = 0x01;
    bytes[G5L_HEADER_LEN + 13..G5L_HEADER_LEN + 29].copy_from_slice(b"Lead Tone       ");
    let patches = parse(&bytes).unwrap();
    let p = &patches[0];
    assert_eq!(p.name_str(), "Lead Tone");
    let area = p.to_patch_area(0x18);
    assert_eq!(area.mode, Some(PatchMode::Bass));
    assert_eq!(&area.name.0, b"Lead Tone       ");
}
