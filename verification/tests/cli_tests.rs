use gr55_core::cli::{contains, parse_hex_u8, pick_port, Cli, Command};
use gr55_core::inbound::{find_identity_reply, identity_fields};
use gr55_core::patch_codec::{pcm_pages_for_slot, pcm_route_for_page, PcmPageRole};
use gr55_core::sysex::{decoded_frames, Frame};
use gr55_core::system::{MidiChannel, SystemArea};
use gr55_core::system_enums::OnOff;
use gr55_core::text::RadixError;
use gr55_core::{PatchArea, PatchMode};

fn cli(input: Option<&str>, output: Option<&str>) -> Cli {
    Cli {
        port: "Focusrite".to_string(),
        input_port: input.map(|s| s.to_string()),
        output_port: output.map(|s| s.to_string()),
        device_id: 0x10,
        timeout_ms: 1500,
        command: Command::Ports,
    }
}

#[test]
fn port_overrides_take_precedence() {
    let c = cli(None, None);
    assert_eq!(c.input_needle(), "Focusrite");
    assert_eq!(c.output_needle(), "Focusrite");
    let c = cli(Some("GR-55 In"), None);
    assert_eq!(c.input_needle(), "GR-55 In");
    assert_eq!(c.output_needle(), "Focusrite");
    let c = cli(None, Some("UM-ONE"));
    assert_eq!(c.output_needle(), "UM-ONE");
}

#[test]
fn device_id_argument_reads_hex() {
    assert_eq!(parse_hex_u8("10"), Ok(0x10));
    assert_eq!(parse_hex_u8("0x7F"), Ok(0x7F));
    assert_eq!(parse_hex_u8("0x"), Err(RadixError::Empty));
    assert_eq!(parse_hex_u8(""), Err(RadixError::Empty));
    assert_eq!(parse_hex_u8("0xG1"), Err(RadixError::InvalidDigit));
    assert_eq!(parse_hex_u8("100"), Err(RadixError::PosOverflow));
}

#[test]
fn first_matching_port_is_picked() {
    let names = vec![
        Some("Midi Through".to_string()),
        None,
        Some("Focusrite USB MIDI".to_string()),
        Some("Focusrite 2".to_string()),
    ];
    assert_eq!(pick_port(&names, "Focusrite"), Some(2));
    assert_eq!(pick_port(&names, "Through"), Some(0));
    assert_eq!(pick_port(&names, "GR-55"), None);
    assert!(contains("abcabd", "abd"));
    assert!(!contains("ab", "abc"));
    assert!(contains("x", ""));
}

#[test]
fn identity_reply_fields_are_read() {
    let buf = [0x00, 0xF0, 0x7E, 0x10, 0x06, 0x02, 0x41, 0x53, 0x02, 0x00, 0x00, 0x00, 0x01, 0x00, 0x00, 0xF7];
    let reply = find_identity_reply(&buf).unwrap();
    assert_eq!(reply.len(), 15);
    let (dev, fields) = identity_fields(&reply);
    assert_eq!(dev, 0x10);
    let f = fields.unwrap();
    assert!(f.is_gr55());
    assert_eq!(f.family_code_value(), 0x0253);
    assert_eq!(f.software_rev, [0x00, 0x01, 0x00, 0x00]);
    let (dev, fields) = identity_fields(&[0xF0, 0x7E, 0x11, 0x06, 0x02, 0x41, 0xF7]);
    assert_eq!(dev, 0x11);
    assert!(fields.is_none());
}

#[test]
fn decoded_frames_skip_garbage_and_keep_bad_checksums() {
    let good = Frame::Dt1 { device_id: 0x10, address: [0x01, 0, 0, 0], data: vec![0x00, 0x39] };
    let mut bytes = vec![0x00, 0xF0, 0x12];
    bytes.extend(good.encode());
    let mut bad = good.encode();
    let k = bad.len() - 2;
    bad[k] = (bad[k] + 1) & 0x7F;
    bytes.extend(bad);
    let frames = decoded_frames(&bytes);
    assert_eq!(frames, vec![good.clone(), good]);
}

#[test]
fn typed_field_count_counts_set_fields() {
    let mut area = SystemArea::new();
    assert_eq!(area.typed_field_count(), 0);
    area.pc_rx = Some(OnOff::On);
    area.midi_channel = Some(MidiChannel::new(3).unwrap());
    assert_eq!(area.typed_field_count(), 2);
}

#[test]
fn pcm_page_routes() {
    assert_eq!(pcm_route_for_page(0x20), Some(PcmPageRole::Header(0)));
    assert_eq!(pcm_route_for_page(0x31), Some(PcmPageRole::Tail(1)));
    assert_eq!(pcm_route_for_page(0x10), None);
    assert_eq!(pcm_pages_for_slot(1), (0x21, 0x31));
}

#[test]
fn sysex_capture_decodes_to_a_patch() {
    let mut data = vec![PatchMode::Bass.to_byte()];
    data.extend(b"Capture         ");
    let frame = Frame::Dt1 { device_id: 0x10, address: [0x18, 0x00, 0x00, 0x00], data };
    let mut bytes = vec![0xF7, 0x00];
    bytes.extend(frame.encode());
    let area = PatchArea::from_sysex_at(&bytes, 0x18);
    assert_eq!(area.mode, Some(PatchMode::Bass));
    assert_eq!(area.name.as_string().trim_end(), "Capture");
    assert_eq!(area, PatchArea::from_frames_at(&[frame], 0x18));
}
