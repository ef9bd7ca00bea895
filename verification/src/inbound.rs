//! Classify a single inbound MIDI message into the richest typed shape the
//! GR-55 protocol supports.
use vstd::prelude::*;

use crate::sysex::{
    copy_range, is_encodable, lemma_parse_encode_round_trip, parse_spec, strict_parse_spec, Frame, FrameView, EOX,
    MANUFACTURER_ROLAND, SOX,
};

verus! {

/// One decoded inbound message.
#[derive(Clone, Debug, PartialEq, Eq)]
pub enum InboundMessage {
    /// Universal Non-Realtime Identity Reply from a GR-55 (family code
    /// `53 02`, family number `00 00`).
    IdentityReply { device_id: u8, software_revision: [u8; 4] },
    /// Roland DT1 frame addressed to the GR-55.
    Dt1 { device_id: u8, address: [u8; 4], data: Vec<u8> },
    /// Roland RQ1 frame addressed to the GR-55.
    Rq1 { device_id: u8, address: [u8; 4], size: u32 },
    /// MIDI Program Change; `channel` is 1..=16.
    ProgramChange { channel: u8, program: u8 },
    /// MIDI Control Change; `channel` is 1..=16.
    ControlChange { channel: u8, cc: u8, value: u8 },
    /// Anything else; the first status byte is kept (0 for empty input).
    Other { status: u8 },
}

/// Model of an [`InboundMessage`].
pub enum InboundView {
    IdentityReply { device_id: u8, software_revision: Seq<u8> },
    Dt1 { device_id: u8, address: Seq<u8>, data: Seq<u8> },
    Rq1 { device_id: u8, address: Seq<u8>, size: u32 },
    ProgramChange { channel: u8, program: u8 },
    ControlChange { channel: u8, cc: u8, value: u8 },
    Other { status: u8 },
}

impl View for InboundMessage {
    type V = InboundView;

    open spec fn view(&self) -> InboundView {
        match self {
            InboundMessage::IdentityReply { device_id, software_revision } =>
                InboundView::IdentityReply {
                device_id: *device_id,
                software_revision: software_revision@,
            },
            InboundMessage::Dt1 { device_id, address, data } => InboundView::Dt1 {
                device_id: *device_id,
                address: address@,
                data: data@,
            },
            InboundMessage::Rq1 { device_id, address, size } => InboundView::Rq1 {
                device_id: *device_id,
                address: address@,
                size: *size,
            },
            InboundMessage::ProgramChange { channel, program } => InboundView::ProgramChange {
                channel: *channel,
                program: *program,
            },
            InboundMessage::ControlChange { channel, cc, value } => InboundView::ControlChange {
                channel: *channel,
                cc: *cc,
                value: *value,
            },
            InboundMessage::Other { status } => InboundView::Other { status: *status },
        }
    }
}

/// `b` is an identity reply from a GR-55:
/// `F0 7E [dev] 06 02 41 53 02 00 00 [sw_rev_4] ... F7`.
pub open spec fn is_gr55_identity_reply_spec(b: Seq<u8>) -> bool {
    &&& b.len() >= 15
    &&& b[0] == 0xF0
    &&& b[b.len() - 1] == 0xF7
    &&& b[1] == 0x7E
    &&& b[3] == 0x06
    &&& b[4] == 0x02
    &&& b[5] == 0x41
    &&& b[6] == 0x53
    &&& b[7] == 0x02
    &&& b[8] == 0x00
    &&& b[9] == 0x00
}

/// What [`classify_inbound`] makes of the bytes `b`. A GR-55 frame counts
/// as DT1 or RQ1 only when its framing and checksum are valid; any framing
/// or checksum error makes it `Other`.
pub open spec fn classify_spec(b: Seq<u8>) -> InboundView {
    if b.len() == 0 {
        InboundView::Other { status: 0 }
    } else {
        let status = b[0];
        if (status & 0xF0u8) == 0xC0u8 && b.len() >= 2 {
            InboundView::ProgramChange {
                channel: ((status & 0x0Fu8) + 1) as u8,
                program: b[1] & 0x7Fu8,
            }
        } else if (status & 0xF0u8) == 0xB0u8 && b.len() >= 3 {
            InboundView::ControlChange {
                channel: ((status & 0x0Fu8) + 1) as u8,
                cc: b[1] & 0x7Fu8,
                value: b[2] & 0x7Fu8,
            }
        } else if is_gr55_identity_reply_spec(b) {
            InboundView::IdentityReply { device_id: b[2], software_revision: b.subrange(10, 14) }
        } else if status == 0xF0 && b.len() >= 11 && b[1] == 0x41 && b[3] == 0x00 && b[4]
            == 0x00 && b[5] == 0x53 {
            match strict_parse_spec(b) {
                Ok((FrameView::Dt1 { device_id, address, data }, _)) => InboundView::Dt1 {
                    device_id,
                    address,
                    data,
                },
                Ok((FrameView::Rq1 { device_id, address, size }, _)) => InboundView::Rq1 {
                    device_id,
                    address,
                    size,
                },
                Err(_) => InboundView::Other { status },
            }
        } else {
            InboundView::Other { status }
        }
    }
}

/// Whether `bytes` is a GR-55 Universal Identity Reply.
pub fn is_gr55_identity_reply(bytes: &[u8]) -> (r: bool)
    ensures
        r == is_gr55_identity_reply_spec(bytes@),
{
    bytes.len() >= 15 && bytes[0] == 0xF0 && bytes[bytes.len() - 1] == 0xF7 && bytes[1] == 0x7E
        && bytes[3] == 0x06 && bytes[4] == 0x02 && bytes[5] == MANUFACTURER_ROLAND && bytes[6]
        == 0x53 && bytes[7] == 0x02 && bytes[8] == 0x00 && bytes[9] == 0x00
}

/// Inspect one inbound MIDI message and decode it.
pub fn classify_inbound(bytes: &[u8]) -> (r: InboundMessage)
    ensures
        r@ == classify_spec(bytes@),
{
    if bytes.len() == 0 {
        return InboundMessage::Other { status: 0 };
    }
    let status = bytes[0];
    if (status & 0xF0) == 0xC0 && bytes.len() >= 2 {
        assert((status & 0x0Fu8) < 16) by (bit_vector);
        return InboundMessage::ProgramChange {
            channel: (status & 0x0F) + 1,
            program: bytes[1] & 0x7F,
        };
    }
    if (status & 0xF0) == 0xB0 && bytes.len() >= 3 {
        assert((status & 0x0Fu8) < 16) by (bit_vector);
        return InboundMessage::ControlChange {
            channel: (status & 0x0F) + 1,
            cc: bytes[1] & 0x7F,
            value: bytes[2] & 0x7F,
        };
    }
    if is_gr55_identity_reply(bytes) {
        let rev = [bytes[10], bytes[11], bytes[12], bytes[13]];
        assert(rev@ =~= bytes@.subrange(10, 14));
        return InboundMessage::IdentityReply { device_id: bytes[2], software_revision: rev };
    }
    if status == SOX && bytes.len() >= 11 && bytes[1] == MANUFACTURER_ROLAND && bytes[3] == 0x00
        && bytes[4] == 0x00 && bytes[5] == 0x53 {
        if let Ok((frame, _)) = Frame::try_parse(bytes) {
            return match frame {
                Frame::Dt1 { device_id, address, data } => InboundMessage::Dt1 {
                    device_id,
                    address,
                    data,
                },
                Frame::Rq1 { device_id, address, size } => InboundMessage::Rq1 {
                    device_id,
                    address,
                    size,
                },
            };
        }
    }
    InboundMessage::Other { status }
}

/// Law: a Program Change (status `0xC0..=0xCF`, at least two bytes) is
/// read as channel `status - 0xBF` and the program in `b[1]` with its top
/// bit dropped; a Control Change (status `0xB0..=0xBF`, at least three
/// bytes) as channel `status - 0xAF`, the controller in `b[1]` and the
/// value in `b[2]`, each with its top bit dropped.
pub proof fn lemma_classify_channel_message(b: Seq<u8>)
    ensures
        b.len() >= 2 && 0xC0 <= b[0] <= 0xCF ==> classify_spec(b) == (InboundView::ProgramChange {
            channel: (b[0] - 0xBF) as u8,
            program: (b[1] % 128) as u8,
        }),
        b.len() >= 3 && 0xB0 <= b[0] <= 0xBF ==> classify_spec(b) == (InboundView::ControlChange {
            channel: (b[0] - 0xAF) as u8,
            cc: (b[1] % 128) as u8,
            value: (b[2] % 128) as u8,
        }),
{
    if b.len() >= 2 {
        let st = b[0];
        let x = b[1];
        assert(x & 0x7Fu8 == x % 128) by (bit_vector);
        assert(0xC0 <= st <= 0xCF <==> (st & 0xF0u8) == 0xC0u8) by (bit_vector);
        assert(0xB0 <= st <= 0xBF <==> (st & 0xF0u8) == 0xB0u8) by (bit_vector);
        assert(0xC0 <= st <= 0xCF ==> (st & 0x0Fu8) + 1 == st - 0xBF) by (bit_vector);
        assert(0xB0 <= st <= 0xBF ==> (st & 0x0Fu8) + 1 == st - 0xAF) by (bit_vector);
        if b.len() >= 3 {
            let y = b[2];
            assert(y & 0x7Fu8 == y % 128) by (bit_vector);
        }
    }
}

/// Law: an identity reply from a GR-55 (`F0 7E dev 06 02 41 53 02 00 00`,
/// four revision bytes, ..., `F7`) is read as that device ID and revision.
pub proof fn lemma_classify_identity_reply(b: Seq<u8>)
    ensures
        b.len() >= 15 && b[0] == 0xF0 && b[b.len() - 1] == 0xF7 && b[1] == 0x7E && b[3] == 0x06 && b[4]
            == 0x02 && b[5] == 0x41 && b[6] == 0x53 && b[7] == 0x02 && b[8] == 0x00 && b[9] == 0x00
            ==> classify_spec(b) == (InboundView::IdentityReply {
            device_id: b[2],
            software_revision: seq![b[10], b[11], b[12], b[13]],
        }),
{
    if b.len() >= 15 && b[0] == 0xF0 {
        assert((0xF0u8 & 0xF0u8) == 0xF0u8) by (bit_vector);
        assert(b.subrange(10, 14) =~= seq![b[10], b[11], b[12], b[13]]);
    }
}

/// Law: a GR-55 frame that was encoded for the wire is classified as that
/// same DT1 or RQ1 message.
pub proof fn lemma_classify_encoded_frame(f: Frame)
    requires
        is_encodable(f@),
    ensures
        classify_spec(f@.encoded()) == (match f@ {
            FrameView::Dt1 { device_id, address, data } => InboundView::Dt1 {
                device_id,
                address,
                data,
            },
            FrameView::Rq1 { device_id, address, size } => InboundView::Rq1 {
                device_id,
                address,
                size,
            },
        }),
{
    lemma_parse_encode_round_trip(f);
    let b = f@.encoded();
    assert(b[0] == 0xF0 && b[1] == 0x41 && b[3] == 0 && b[4] == 0 && b[5] == 0x53);
    assert((0xF0u8 & 0xF0u8) == 0xF0u8) by (bit_vector);
}

/// A candidate Universal SysEx message (`F0 ... F7`) is an identity reply
/// from any Roland device: `F0 7E [dev] 06 02 41 ...`.
pub open spec fn is_roland_identity_candidate(c: Seq<u8>) -> bool {
    c.len() >= 7 && c[1] == 0x7E && c[3] == 0x06 && c[4] == 0x02 && c[5] == 0x41
}

/// Index of the first `F7` in `s` at or after `i`.
pub open spec fn first_eox_at(s: Seq<u8>, i: int) -> Option<int>
    decreases s.len() - i,
{
    if i < 0 || i >= s.len() {
        None
    } else if s[i] == EOX {
        Some(i)
    } else {
        first_eox_at(s, i + 1)
    }
}

/// Where the first Roland identity reply in `buf` (scanning from `i`)
/// starts and ends; the scan gives up at an `F0` with no `F7` after it.
pub open spec fn find_identity_from(buf: Seq<u8>, i: int) -> Option<(int, int)>
    decreases buf.len() - i,
{
    if i < 0 || i >= buf.len() {
        None
    } else if buf[i] == SOX {
        match first_eox_at(buf, i) {
            None => None,
            Some(end) => if is_roland_identity_candidate(buf.subrange(i, end + 1)) {
                Some((i, end))
            } else if i < end + 1 <= buf.len() {
                find_identity_from(buf, end + 1)
            } else {
                None
            },
        }
    } else {
        find_identity_from(buf, i + 1)
    }
}

proof fn lemma_first_eox_at_bounds(s: Seq<u8>, i: int)
    ensures
        first_eox_at(s, i) matches Some(k) ==> i <= k < s.len() && s[k] == EOX,
    decreases s.len() - i,
{
    if 0 <= i < s.len() && s[i] != EOX {
        lemma_first_eox_at_bounds(s, i + 1);
    }
}

fn find_eox_at(buf: &[u8], from: usize) -> (r: Option<usize>)
    requires
        from <= buf@.len(),
    ensures
        match r {
            Some(k) => first_eox_at(buf@, from as int) == Some(k as int) && from <= k
                < buf@.len(),
            None => first_eox_at(buf@, from as int) is None,
        },
{
    let mut i = from;
    while i < buf.len()
        invariant
            from <= i <= buf@.len(),
            first_eox_at(buf@, from as int) == first_eox_at(buf@, i as int),
        decreases buf@.len() - i,
    {
        if buf[i] == EOX {
            return Some(i);
        }
        i += 1;
    }
    None
}

/// Find the first Universal Identity Reply (`F0 7E [dev] 06 02 41 ... F7`)
/// in a buffer of raw received bytes.
pub fn find_identity_reply(buf: &[u8]) -> (r: Option<Vec<u8>>)
    ensures
        match (r, find_identity_from(buf@, 0)) {
            (Some(v), Some((s, e))) => v@ == buf@.subrange(s, e + 1),
            (None, None) => true,
            _ => false,
        },
{
    let mut i: usize = 0;
    while i < buf.len()
        invariant
            i <= buf@.len(),
            find_identity_from(buf@, 0) == find_identity_from(buf@, i as int),
        decreases buf@.len() - i,
    {
        if buf[i] == SOX {
            let end = match find_eox_at(buf, i) {
                Some(e) => e,
                None => {
                    return None;
                },
            };
            let candidate = copy_range(buf, i, end + 1);
            if candidate.len() >= 7 && candidate[1] == 0x7E && candidate[3] == 0x06
                && candidate[4] == 0x02 && candidate[5] == 0x41 {
                return Some(candidate);
            }
            i = end + 1;
        } else {
            i += 1;
        }
    }
    None
}

/// The identification fields of a Universal Identity Reply
/// (`F0 7E [dev] 06 02 41 [family lo, hi] [number lo, hi] [rev x4] F7`).
#[derive(Debug, Clone, Copy, PartialEq, Eq)]
pub struct IdentityFields {
    /// Family code, least significant byte first.
    pub family_code: [u8; 2],
    /// Family number, least significant byte first.
    pub family_number: [u8; 2],
    /// Software revision.
    pub software_rev: [u8; 4],
}

/// GR-55 family code as it appears on the wire (LSB first).
pub const GR55_FAMILY_CODE: [u8; 2] = [0x53, 0x02];

impl IdentityFields {
    /// The family code as one number.
    pub fn family_code_value(&self) -> (r: u16)
        ensures
            r == self.family_code[1] * 256 + self.family_code[0],
    {
        (self.family_code[1] as u16) * 256 + (self.family_code[0] as u16)
    }

    /// Whether the family code is the GR-55's.
    pub fn is_gr55(&self) -> (r: bool)
        ensures
            r == (self.family_code[0] == 0x53 && self.family_code[1] == 0x02),
    {
        self.family_code[0] == GR55_FAMILY_CODE[0] && self.family_code[1] == GR55_FAMILY_CODE[1]
    }
}

/// Read an identity reply: its device ID, and its identification fields
/// when the reply is long enough (14 bytes or more) to hold them.
pub fn identity_fields(reply: &[u8]) -> (r: (u8, Option<IdentityFields>))
    requires
        reply@.len() >= 3,
    ensures
        r.0 == reply@[2],
        reply@.len() < 14 ==> r.1 is None,
        reply@.len() >= 14 ==> r.1 == Some(IdentityFields {
            family_code: [reply@[6], reply@[7]],
            family_number: [reply@[8], reply@[9]],
            software_rev: [reply@[10], reply@[11], reply@[12], reply@[13]],
        }),
{
    let dev = reply[2];
    if reply.len() < 14 {
        return (dev, None);
    }
    (dev, Some(IdentityFields {
        family_code: [reply[6], reply[7]],
        family_number: [reply[8], reply[9]],
        software_rev: [reply[10], reply[11], reply[12], reply[13]],
    }))
}

} // verus!
