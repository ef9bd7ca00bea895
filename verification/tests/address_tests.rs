use gr55_core::address::{AddressSpace, PatchSlot};

#[test]
fn first_user_slot_addresses_zero() {
    let slot = PatchSlot::user(1, 1).unwrap();
    assert_eq!(slot.address(), [0x20, 0x00, 0x00, 0x00]);
    assert_eq!(slot.label(), "User 01:1");
}

#[test]
fn user_43_2_crosses_msb_boundary() {
    let slot = PatchSlot::user(43, 2).unwrap();
    assert_eq!(slot.address(), [0x20, 0x7F, 0x00, 0x00]);
    let slot = PatchSlot::user(43, 3).unwrap();
    assert_eq!(slot.address(), [0x21, 0x00, 0x00, 0x00]);
}

#[test]
fn last_user_slot_addresses_correctly() {
    let slot = PatchSlot::user(99, 3).unwrap();
    assert_eq!(slot.address(), [0x22, 0x28, 0x00, 0x00]);
}

#[test]
fn first_preset_slot_addresses_after_gap() {
    let slot = PatchSlot::preset(100, 1).unwrap();
    assert_eq!(slot.address(), [0x23, 0x00, 0x00, 0x00]);
}

#[test]
fn round_trip_via_address() {
    let cases = [
        PatchSlot::User { bank: 1, position: 1 },
        PatchSlot::User { bank: 43, position: 2 },
        PatchSlot::User { bank: 43, position: 3 },
        PatchSlot::User { bank: 99, position: 3 },
        PatchSlot::Preset { bank: 100, position: 1 },
        PatchSlot::Preset { bank: 150, position: 2 },
        PatchSlot::Preset { bank: 189, position: 3 },
    ];
    for slot in cases {
        let addr = slot.address();
        assert_eq!(
            PatchSlot::from_address(addr),
            Some(slot),
            "round-trip failed for {slot:?} -> {addr:02X?}"
        );
    }
}

#[test]
fn from_address_returns_none_for_non_patch_areas() {
    assert!(PatchSlot::from_address([0x01, 0x00, 0x00, 0x00]).is_none());
    assert!(PatchSlot::from_address([0x18, 0x00, 0x00, 0x00]).is_none());
    assert!(PatchSlot::from_address([0x60, 0x00, 0x00, 0x00]).is_none());
    assert!(PatchSlot::from_address([0x20, 0x00, 0x00, 0x01]).is_none());
}

#[test]
fn parse_roundtrip() {
    for slot in [
        PatchSlot::User { bank: 1, position: 1 },
        PatchSlot::User { bank: 99, position: 3 },
        PatchSlot::Preset { bank: 100, position: 1 },
    ] {
        let s = slot.label();
        let parsed: PatchSlot = s.parse().unwrap();
        assert_eq!(parsed, slot);
    }
}

#[test]
fn user_constructors_reject_bad_bank() {
    assert!(PatchSlot::user(0, 1).is_err());
    assert!(PatchSlot::user(100, 1).is_err());
    assert!(PatchSlot::user(1, 0).is_err());
    assert!(PatchSlot::user(1, 4).is_err());
}

#[test]
fn preset_constructors_reject_user_range() {
    assert!(PatchSlot::preset(99, 1).is_err());
    assert!(PatchSlot::preset(100, 1).is_ok());
    assert!(PatchSlot::preset(190, 1).is_err());
}

#[test]
fn classify_known_addresses() {
    assert_eq!(AddressSpace::classify([0x01, 0x00, 0x00, 0x00]), AddressSpace::System);
    assert_eq!(AddressSpace::classify([0x02, 0x00, 0x02, 0x00]), AddressSpace::System);
    assert_eq!(AddressSpace::classify([0x18, 0x00, 0x00, 0x00]), AddressSpace::TempWriteBuffer);
    assert_eq!(AddressSpace::classify([0x60, 0x00, 0x00, 0x00]), AddressSpace::TempReadBuffer);
    assert!(matches!(
        AddressSpace::classify([0x20, 0x00, 0x00, 0x00]),
        AddressSpace::UserPatch(PatchSlot::User { bank: 1, position: 1 })
    ));
    assert!(matches!(
        AddressSpace::classify([0x23, 0x00, 0x00, 0x00]),
        AddressSpace::PresetPatch(PatchSlot::Preset { bank: 100, position: 1 })
    ));
    assert_eq!(AddressSpace::classify([0x7F, 0x00, 0x00, 0x00]), AddressSpace::Unknown);
}

#[test]
fn linear_index_and_label_of_preset() {
    let slot = PatchSlot::preset(150, 2).unwrap();
    let idx = slot.linear_index();
    assert_eq!(PatchSlot::from_linear_index(idx), Some(slot));
    assert_eq!(slot.label(), "Preset 150:2");
    assert_eq!(slot.bank(), 150);
    assert_eq!(slot.position(), 2);
}
