use gr55_core::inbound::{classify_inbound, find_identity_reply, InboundMessage};
use gr55_core::sysex::Frame;

#[test]
fn classifies_program_change() {
    let msg = classify_inbound(&[0xC5, 0x2A]);
    assert_eq!(msg, InboundMessage::ProgramChange { channel: 6, program: 42 });
}

#[test]
fn classifies_control_change() {
    let msg = classify_inbound(&[0xB0, 0x07, 0x64]);
    assert_eq!(msg, InboundMessage::ControlChange { channel: 1, cc: 7, value: 100 });
}

#[test]
fn classifies_gr55_identity_reply() {
    let reply = [
        0xF0, 0x7E, 0x10, 0x06, 0x02, 0x41, 0x53, 0x02, 0x00, 0x00, 0x01, 0x02, 0x03, 0x04, 0xF7,
    ];
    let msg = classify_inbound(&reply);
    assert_eq!(
        msg,
        InboundMessage::IdentityReply { device_id: 0x10, software_revision: [0x01, 0x02, 0x03, 0x04] }
    );
}

#[test]
fn non_gr55_identity_reply_falls_through() {
    let reply = [
        0xF0, 0x7E, 0x10, 0x06, 0x02, 0x41, 0x18, 0x04, 0x00, 0x00, 0x01, 0x02, 0x03, 0x04, 0xF7,
    ];
    let msg = classify_inbound(&reply);
    match msg {
        InboundMessage::Other { status } => assert_eq!(status, 0xF0),
        other => panic!("expected Other, got {other:?}"),
    }
}

#[test]
fn classifies_dt1_addressed_to_gr55() {
    let frame = Frame::Dt1 {
        device_id: 0x10,
        address: [0x18, 0x00, 0x00, 0x00],
        data: vec![0x49, 0x6e, 0x69, 0x74],
    };
    let bytes = frame.encode();
    let msg = classify_inbound(&bytes);
    assert_eq!(
        msg,
        InboundMessage::Dt1 {
            device_id: 0x10,
            address: [0x18, 0x00, 0x00, 0x00],
            data: vec![0x49, 0x6e, 0x69, 0x74],
        }
    );
}

#[test]
fn classifies_rq1_addressed_to_gr55() {
    let frame = Frame::Rq1 { device_id: 0x10, address: [0x60, 0x00, 0x00, 0x00], size: 256 };
    let bytes = frame.encode();
    let msg = classify_inbound(&bytes);
    assert_eq!(
        msg,
        InboundMessage::Rq1 { device_id: 0x10, address: [0x60, 0x00, 0x00, 0x00], size: 256 }
    );
}

#[test]
fn non_roland_sysex_falls_through() {
    let bytes = [0xF0, 0x00, 0x21, 0x24, 0x00, 0xF7];
    let msg = classify_inbound(&bytes);
    match msg {
        InboundMessage::Other { status } => assert_eq!(status, 0xF0),
        other => panic!("expected Other, got {other:?}"),
    }
}

#[test]
fn empty_input_is_other() {
    let msg = classify_inbound(&[]);
    assert_eq!(msg, InboundMessage::Other { status: 0 });
}

#[test]
fn identity_reply_found_after_other_sysex() {
    let buf = [
        0xF0, 0x00, 0x21, 0xF7, 0x90, 0xF0, 0x7E, 0x10, 0x06, 0x02, 0x41, 0x53, 0x02, 0x00, 0x00,
        0x01, 0x02, 0x03, 0x04, 0xF7,
    ];
    let reply = find_identity_reply(&buf).expect("reply present");
    assert_eq!(reply.len(), 15);
    assert_eq!(reply[0], 0xF0);
    assert_eq!(reply[2], 0x10);
    assert!(find_identity_reply(&[0xF0, 0x7E, 0x10]).is_none());
}

#[test]
fn corrupted_checksum_is_not_a_dt1() {
    let mut b = gr55_core::sysex::Frame::Dt1 {
        device_id: 0x10,
        address: [0x18, 0, 0, 0],
        data: vec![0x49, 0x6E, 0x69, 0x74],
    }
    .encode();
    let n = b.len();
    b[n - 2] = (b[n - 2] + 1) & 0x7F;
    assert_eq!(gr55_core::inbound::classify_inbound(&b), gr55_core::inbound::InboundMessage::Other { status: 0xF0 });
}
