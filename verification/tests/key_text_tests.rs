use gr55_core::key_text::{format_addr, format_key, parse_addr, parse_key};

#[test]
fn patch_keys_are_written_as_upper_hex_triples() {
    assert_eq!(format_key(0x03, 0x00, 0x05), "03:00:05");
    assert_eq!(format_key(0x40, 0x01, 0x7F), "40:01:7F");
}

#[test]
fn patch_keys_read_back() {
    for (p, h, l) in [(0u8, 0u8, 0u8), (0x03, 0x00, 0x05), (0x31, 0x00, 0x27), (0xFF, 0xAB, 0x10)] {
        assert_eq!(parse_key(&format_key(p, h, l)), Some((p, h, l)));
    }
}

#[test]
fn patch_key_parse_rejects_malformed_text() {
    assert_eq!(parse_key("03:00"), None);
    assert_eq!(parse_key("03:00:05:01"), None);
    assert_eq!(parse_key("03:zz:05"), None);
    assert_eq!(parse_key("03::05"), None);
    assert_eq!(parse_key("100:00:05"), None);
    assert_eq!(parse_key("3:0:5"), Some((3, 0, 5)));
    assert_eq!(parse_key("+a:0B:c"), Some((0x0A, 0x0B, 0x0C)));
}

#[test]
fn addresses_round_trip_as_text() {
    assert_eq!(format_addr(&[0x02, 0x00, 0x00, 0x1F]), "02:00:00:1F");
    assert_eq!(parse_addr("02:00:00:1F"), Some([0x02, 0x00, 0x00, 0x1F]));
    assert_eq!(parse_addr("02:00:00"), None);
    assert_eq!(parse_addr(""), None);
    let a = [0x7F, 0x01, 0x80, 0xFE];
    assert_eq!(parse_addr(&format_addr(&a)), Some(a));
}
