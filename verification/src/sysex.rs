//! Roland DT1 / RQ1 SysEx framing for the GR-55.
//!
//! Wire layout of one frame:
//!
//! ```text
//! F0 41 [dev] 00 00 53 [cmd] [addr*4] [payload...] [chk] F7
//! ```
//!
//! The checksum covers the address and the payload:
//! `(128 - (sum mod 128)) mod 128`.
use vstd::prelude::*;

use crate::codec::CodecError;

verus! {

broadcast use vstd::seq_lib::group_seq_properties;

pub const SOX: u8 = 0xF0;

pub const EOX: u8 = 0xF7;

pub const MANUFACTURER_ROLAND: u8 = 0x41;

pub const MODEL_ID_GR55: [u8; 3] = [0x00, 0x00, 0x53];

pub const DEVICE_ID_DEFAULT: u8 = 0x10;

pub const DEVICE_ID_BROADCAST: u8 = 0x7F;

pub const CMD_DT1: u8 = 0x12;

pub const CMD_RQ1: u8 = 0x11;

pub const MIN_FRAME_LEN: usize = 13;

pub const HEADER_LEN: usize = 7;

pub const ADDRESS_LEN: usize = 4;

/// One decoded GR-55 SysEx frame.
#[derive(Debug, Clone, PartialEq, Eq)]
pub enum Frame {
    /// Data set: write `data` starting at `address`.
    Dt1 { device_id: u8, address: [u8; 4], data: Vec<u8> },
    /// Data request: ask for `size` bytes starting at `address`.
    Rq1 { device_id: u8, address: [u8; 4], size: u32 },
}

/// Mathematical model of a [`Frame`].
pub enum FrameView {
    Dt1 { device_id: u8, address: Seq<u8>, data: Seq<u8> },
    Rq1 { device_id: u8, address: Seq<u8>, size: u32 },
}

impl View for Frame {
    type V = FrameView;

    open spec fn view(&self) -> FrameView {
        match self {
            Frame::Dt1 { device_id, address, data } => FrameView::Dt1 {
                device_id: *device_id,
                address: address@,
                data: data@,
            },
            Frame::Rq1 { device_id, address, size } => FrameView::Rq1 {
                device_id: *device_id,
                address: address@,
                size: *size,
            },
        }
    }
}

/// Sum of all bytes of `s`, as a natural number.
pub open spec fn byte_sum(s: Seq<u8>) -> nat
    decreases s.len(),
{
    if s.len() == 0 {
        0
    } else {
        byte_sum(s.drop_last()) + s.last() as nat
    }
}

/// Roland checksum of `s`: the 7-bit value that brings the byte sum to a
/// multiple of 128.
pub open spec fn checksum_of(s: Seq<u8>) -> u8 {
    ((128 - (byte_sum(s) % 128)) % 128) as u8
}

/// The four 7-bit groups of an RQ1 size, most significant first.
pub open spec fn rq1_size_bytes(size: u32) -> Seq<u8> {
    seq![
        ((size >> 21u32) & 0x7F) as u8,
        ((size >> 14u32) & 0x7F) as u8,
        ((size >> 7u32) & 0x7F) as u8,
        (size & 0x7F) as u8,
    ]
}

/// Recombination of four RQ1 size bytes.
pub open spec fn rq1_size_value(b0: u8, b1: u8, b2: u8, b3: u8) -> u32 {
    ((b0 as u32) << 21u32) | ((b1 as u32) << 14u32) | ((b2 as u32) << 7u32) | (b3 as u32)
}

impl FrameView {
    pub open spec fn device(self) -> u8 {
        match self {
            FrameView::Dt1 { device_id, .. } => device_id,
            FrameView::Rq1 { device_id, .. } => device_id,
        }
    }

    pub open spec fn addr(self) -> Seq<u8> {
        match self {
            FrameView::Dt1 { address, .. } => address,
            FrameView::Rq1 { address, .. } => address,
        }
    }

    pub open spec fn command(self) -> u8 {
        match self {
            FrameView::Dt1 { .. } => CMD_DT1,
            FrameView::Rq1 { .. } => CMD_RQ1,
        }
    }

    /// The bytes between the address and the checksum.
    pub open spec fn payload(self) -> Seq<u8> {
        match self {
            FrameView::Dt1 { data, .. } => data,
            FrameView::Rq1 { size, .. } => rq1_size_bytes(size),
        }
    }

    /// Address followed by payload: the bytes the checksum covers.
    pub open spec fn body(self) -> Seq<u8> {
        self.addr() + self.payload()
    }

    /// The complete wire encoding of the frame.
    pub open spec fn encoded(self) -> Seq<u8> {
        seq![SOX, MANUFACTURER_ROLAND, self.device(), 0x00u8, 0x00u8, 0x53u8, self.command()]
            + self.body() + seq![checksum_of(self.body()), EOX]
    }
}

/// Index of the first `F7` at or after position `i`, if any.
pub open spec fn first_eox_from(s: Seq<u8>, i: int) -> Option<int>
    decreases s.len() - i,
{
    if i < 0 || i >= s.len() {
        None
    } else if s[i] == EOX {
        Some(i)
    } else {
        first_eox_from(s, i + 1)
    }
}

/// What parsing the front of `s` yields: the frame, the number of bytes it
/// occupies, the declared checksum and the computed checksum — or the
/// reason it is not a GR-55 frame.
pub open spec fn parse_spec(s: Seq<u8>) -> Result<(FrameView, int, u8, u8), CodecError> {
    if s.len() < 13 {
        Err(CodecError::TooShort { got: s.len() as usize, min: 13 })
    } else if s[0] != SOX {
        Err(CodecError::NotSysEx(s[0]))
    } else if s[1] != MANUFACTURER_ROLAND {
        Err(CodecError::NotRoland(s[1]))
    } else if !(s[3] == 0 && s[4] == 0 && s[5] == 0x53) {
        Err(CodecError::WrongModelId([s[3], s[4], s[5]]))
    } else {
        match first_eox_from(s, 11) {
            None => Err(CodecError::MissingEox),
            Some(e) => if e < 12 {
                Err(CodecError::TooShort { got: s.len() as usize, min: 13 })
            } else {
                let address = s.subrange(7, 11);
                let payload = s.subrange(11, e - 1);
                let declared = s[e - 1];
                let computed = checksum_of(address + payload);
                if s[6] == CMD_DT1 {
                    Ok(
                        (
                            FrameView::Dt1 { device_id: s[2], address, data: payload },
                            e + 1,
                            declared,
                            computed,
                        ),
                    )
                } else if s[6] == CMD_RQ1 {
                    if payload.len() != 4 {
                        Err(CodecError::BadRq1Size(payload.len() as usize))
                    } else {
                        Ok(
                            (
                                FrameView::Rq1 {
                                    device_id: s[2],
                                    address,
                                    size: rq1_size_value(
                                        payload[0],
                                        payload[1],
                                        payload[2],
                                        payload[3],
                                    ),
                                },
                                e + 1,
                                declared,
                                computed,
                            ),
                        )
                    }
                } else {
                    Err(CodecError::UnknownCommand(s[6]))
                }
            },
        }
    }
}

/// Strict parse: like [`parse_spec`] but a checksum mismatch is an error.
pub open spec fn strict_parse_spec(s: Seq<u8>) -> Result<(FrameView, int), CodecError> {
    match parse_spec(s) {
        Ok((f, n, declared, computed)) => if declared != computed {
            Err(CodecError::BadChecksum { computed, declared })
        } else {
            Ok((f, n))
        },
        Err(e) => Err(e),
    }
}

/// Outcome of an unchecked parse: where the declared and the computed
/// checksum of a frame agree or not.
#[derive(Debug, Clone, Copy, PartialEq, Eq)]
pub struct ChecksumStatus {
    pub declared: u8,
    pub computed: u8,
}

impl ChecksumStatus {
    pub fn is_valid(&self) -> (r: bool)
        ensures
            r == (self.declared == self.computed),
    {
        self.declared == self.computed
    }
}

proof fn lemma_byte_sum_push(s: Seq<u8>, b: u8)
    ensures
        byte_sum(s.push(b)) == byte_sum(s) + b,
{
    assert(s.push(b).drop_last() =~= s);
}

/// Roland checksum over address + data.
pub fn roland_checksum(addr_plus_data: &[u8]) -> (r: u8)
    ensures
        r == checksum_of(addr_plus_data@),
        r < 128,
{
    let mut acc: u32 = 0;
    let mut i: usize = 0;
    while i < addr_plus_data.len()
        invariant
            i <= addr_plus_data@.len(),
            acc < 128,
            acc == byte_sum(addr_plus_data@.take(i as int)) % 128,
        decreases addr_plus_data@.len() - i,
    {
        let b = addr_plus_data[i];
        proof {
            let s = addr_plus_data@;
            assert(s.take(i + 1) =~= s.take(i as int).push(b));
            lemma_byte_sum_push(s.take(i as int), b);
            vstd::arithmetic::div_mod::lemma_add_mod_noop(
                byte_sum(s.take(i as int)) as int,
                b as int,
                128,
            );
            vstd::arithmetic::div_mod::lemma_small_mod(acc as nat, 128);
        }
        acc = (acc + b as u32) % 128;
        i += 1;
    }
    assert(addr_plus_data@.take(i as int) =~= addr_plus_data@);
    ((128 - acc) % 128) as u8
}

/// Split an RQ1 size into four 7-bit bytes, most significant first.
pub fn encode_rq1_size(size: u32) -> (r: [u8; 4])
    ensures
        r@ == rq1_size_bytes(size),
        forall|i: int| 0 <= i < 4 ==> #[trigger] r@[i] < 128,
{
    let r = [
        ((size >> 21) & 0x7F) as u8,
        ((size >> 14) & 0x7F) as u8,
        ((size >> 7) & 0x7F) as u8,
        (size & 0x7F) as u8,
    ];
    assert(((size >> 21u32) & 0x7F) < 128 && ((size >> 14u32) & 0x7F) < 128 && ((size >> 7u32)
        & 0x7F) < 128 && (size & 0x7F) < 128) by (bit_vector);
    assert(r@ =~= rq1_size_bytes(size));
    r
}

/// Recombine four RQ1 size bytes.
pub fn decode_rq1_size(bytes: [u8; 4]) -> (r: u32)
    ensures
        r == rq1_size_value(bytes@[0], bytes@[1], bytes@[2], bytes@[3]),
{
    ((bytes[0] as u32) << 21) | ((bytes[1] as u32) << 14) | ((bytes[2] as u32) << 7) | (
    bytes[3] as u32)
}

/// Law: an RQ1 size is the big-endian number its four 7-bit bytes write
/// in base 128.
pub proof fn lemma_rq1_size_base128(b0: u8, b1: u8, b2: u8, b3: u8)
    requires
        b0 < 128,
        b1 < 128,
        b2 < 128,
        b3 < 128,
    ensures
        rq1_size_value(b0, b1, b2, b3) == b0 as int * 0x200000 + b1 as int * 0x4000 + b2 as int * 0x80 + b3,
{
    let v = rq1_size_value(b0, b1, b2, b3);
    assert(v == b0 as u32 * 0x200000 + b1 as u32 * 0x4000 + b2 as u32 * 0x80 + b3 as u32) by (bit_vector)
        requires
            v == rq1_size_value(b0, b1, b2, b3),
            b0 < 128,
            b1 < 128,
            b2 < 128,
            b3 < 128,
    ;
}

/// Law: the wire layout of a frame: `F0 41 dev 00 00 53`, the command
/// (`12` for DT1, `11` for RQ1), the address and payload, a checksum byte
/// below 128 that brings the sum of address, payload and checksum to a
/// multiple of 128, and `F7`.
pub proof fn lemma_encoded_layout(f: FrameView)
    ensures
        f.encoded().len() == f.body().len() + 9,
        f.encoded()[0] == 0xF0,
        f.encoded()[1] == 0x41,
        f.encoded()[2] == f.device(),
        f.encoded()[3] == 0x00,
        f.encoded()[4] == 0x00,
        f.encoded()[5] == 0x53,
        f.encoded()[6] == (if f is Dt1 { 0x12u8 } else { 0x11u8 }),
        f.encoded().subrange(7, 7 + f.body().len() as int) == f.body(),
        f.encoded()[7 + f.body().len() as int] < 128,
        (byte_sum(f.body()) + f.encoded()[7 + f.body().len() as int]) % 128 == 0,
        f.encoded()[8 + f.body().len() as int] == 0xF7,
        f.body() == f.addr() + f.payload(),
{
    let e = f.encoded();
    let n = f.body().len() as int;
    assert(e.subrange(7, 7 + n) =~= f.body());
    let sum = byte_sum(f.body());
    let c = checksum_of(f.body());
    assert(e[7 + n] == c);
    assert((sum + (128 - sum % 128) % 128) % 128 == 0 && (128 - sum % 128) % 128 < 128) by (nonlinear_arith);
}

/// Law: an RQ1 size below 2^28 survives the byte split and recombination.
pub proof fn lemma_rq1_size_round_trip(size: u32)
    requires
        size < 0x1000_0000,
    ensures
        ({
            let b = rq1_size_bytes(size);
            rq1_size_value(b[0], b[1], b[2], b[3]) == size
        }),
{
    let b0 = ((size >> 21u32) & 0x7F) as u8;
    let b1 = ((size >> 14u32) & 0x7F) as u8;
    let b2 = ((size >> 7u32) & 0x7F) as u8;
    let b3 = (size & 0x7F) as u8;
    assert(rq1_size_value(b0, b1, b2, b3) == size) by (bit_vector)
        requires
            size < 0x1000_0000,
            b0 == ((size >> 21u32) & 0x7F) as u8,
            b1 == ((size >> 14u32) & 0x7F) as u8,
            b2 == ((size >> 7u32) & 0x7F) as u8,
            b3 == (size & 0x7F) as u8,
    ;
}

/// Law: four 7-bit bytes survive recombination and a second split.
pub proof fn lemma_rq1_bytes_round_trip(b0: u8, b1: u8, b2: u8, b3: u8)
    requires
        b0 < 128,
        b1 < 128,
        b2 < 128,
        b3 < 128,
    ensures
        rq1_size_bytes(rq1_size_value(b0, b1, b2, b3)) == seq![b0, b1, b2, b3],
{
    let v = rq1_size_value(b0, b1, b2, b3);
    assert(((v >> 21u32) & 0x7F) as u8 == b0 && ((v >> 14u32) & 0x7F) as u8 == b1 && ((v
        >> 7u32) & 0x7F) as u8 == b2 && (v & 0x7F) as u8 == b3) by (bit_vector)
        requires
            b0 < 128,
            b1 < 128,
            b2 < 128,
            b3 < 128,
            v == ((b0 as u32) << 21u32) | ((b1 as u32) << 14u32) | ((b2 as u32) << 7u32) | (
            b3 as u32),
    ;
    assert(rq1_size_bytes(v) =~= seq![b0, b1, b2, b3]);
}

fn push_all(out: &mut Vec<u8>, src: &[u8])
    ensures
        final(out)@ == old(out)@ + src@,
{
    let mut i: usize = 0;
    while i < src.len()
        invariant
            i <= src@.len(),
            out@ == old(out)@ + src@.take(i as int),
        decreases src@.len() - i,
    {
        out.push(src[i]);
        assert(src@.take(i + 1) =~= src@.take(i as int).push(src@[i as int]));
        i += 1;
    }
    assert(src@.take(i as int) =~= src@);
}

/// Copy of `s[lo..hi]`.
pub fn copy_range(s: &[u8], lo: usize, hi: usize) -> (r: Vec<u8>)
    requires
        lo <= hi <= s@.len(),
    ensures
        r@ == s@.subrange(lo as int, hi as int),
{
    let mut out: Vec<u8> = Vec::new();
    let mut i = lo;
    while i < hi
        invariant
            lo <= i <= hi <= s@.len(),
            out@ == s@.subrange(lo as int, i as int),
        decreases hi - i,
    {
        out.push(s[i]);
        assert(s@.subrange(lo as int, i + 1) =~= s@.subrange(lo as int, i as int).push(
            s@[i as int],
        ));
        i += 1;
    }
    out
}


proof fn lemma_first_eox(s: Seq<u8>, i: int, k: int)
    requires
        0 <= i <= k < s.len(),
        s[k] == EOX,
        forall|j: int| i <= j < k ==> s[j] != EOX,
    ensures
        first_eox_from(s, i) == Some(k),
    decreases k - i,
{
    if i < k {
        lemma_first_eox(s, i + 1, k);
    }
}

/// A frame may be written on the wire and read back: its DT1 payload holds
/// no `F7` (which would end the frame early) and its RQ1 size fits the 28
/// bits that four 7-bit bytes carry.
pub open spec fn is_encodable(f: FrameView) -> bool {
    &&& f.addr().len() == 4
    &&& match f {
        FrameView::Dt1 { data, .. } => forall|i: int| 0 <= i < data.len() ==> data[i] != EOX,
        FrameView::Rq1 { size, .. } => size < 0x1000_0000,
    }
}

/// Law: strict parsing gives back exactly the frame that was encoded, and
/// consumes all of its bytes.
pub proof fn lemma_parse_encode_round_trip(f: Frame)
    requires
        is_encodable(f@),
    ensures
        strict_parse_spec(f@.encoded()) == Ok::<(FrameView, int), CodecError>(
            (f@, f@.encoded().len() as int),
        ),
{
    let v = f@;
    let s = v.encoded();
    let body = v.body();
    let p = v.payload();
    let chk = checksum_of(body);
    assert(chk < 128);
    let e: int = 12 + p.len() as int;
    assert(s.len() == e + 1);
    assert(s.subrange(7, 11) =~= v.addr());
    assert(s.subrange(11, e - 1) =~= p);
    assert(s[e - 1] == chk);
    assert(s[e] == EOX);
    match v {
        FrameView::Rq1 { size, .. } => {
            assert(((size >> 21u32) & 0x7F) < 128 && ((size >> 14u32) & 0x7F) < 128 && ((size
                >> 7u32) & 0x7F) < 128 && (size & 0x7F) < 128) by (bit_vector);
            lemma_rq1_size_round_trip(size);
        },
        _ => {},
    }
    assert forall|j: int| 11 <= j < e implies s[j] != EOX by {
        if j < e - 1 {
            assert(s[j] == p[j - 11]);
        }
    }
    lemma_first_eox(s, 11, e);
    assert(v.addr() + p =~= body);
}

impl Frame {
    pub fn device_id(&self) -> (r: u8)
        ensures
            r == self@.device(),
    {
        match self {
            Frame::Dt1 { device_id, .. } => *device_id,
            Frame::Rq1 { device_id, .. } => *device_id,
        }
    }

    pub fn address(&self) -> (r: [u8; 4])
        ensures
            r@ == self@.addr(),
    {
        match self {
            Frame::Dt1 { address, .. } => *address,
            Frame::Rq1 { address, .. } => *address,
        }
    }

    /// An independent copy of the frame.
    pub fn duplicate(&self) -> (r: Frame)
        ensures
            r@ == self@,
    {
        match self {
            Frame::Dt1 { device_id, address, data } => Frame::Dt1 {
                device_id: *device_id,
                address: *address,
                data: copy_range(data.as_slice(), 0, data.len()),
            },
            Frame::Rq1 { device_id, address, size } => Frame::Rq1 {
                device_id: *device_id,
                address: *address,
                size: *size,
            },
        }
    }

    /// Frames own their payload; this is the identity.
    pub fn into_owned(self) -> (r: Frame)
        ensures
            r@ == self@,
    {
        self
    }

    /// Serialise the frame to wire bytes.
    pub fn encode(&self) -> (r: Vec<u8>)
        ensures
            r@ == self@.encoded(),
    {
        let mut body: Vec<u8> = Vec::new();
        let address = self.address();
        push_all(&mut body, &address);
        match self {
            Frame::Dt1 { data, .. } => {
                push_all(&mut body, data.as_slice());
            },
            Frame::Rq1 { size, .. } => {
                let sb = encode_rq1_size(*size);
                push_all(&mut body, &sb);
            },
        }
        assert(body@ =~= self@.body());
        let checksum = roland_checksum(body.as_slice());
        let mut out: Vec<u8> = Vec::new();
        out.push(SOX);
        out.push(MANUFACTURER_ROLAND);
        out.push(self.device_id());
        out.push(0x00);
        out.push(0x00);
        out.push(0x53);
        match self {
            Frame::Dt1 { .. } => out.push(CMD_DT1),
            Frame::Rq1 { .. } => out.push(CMD_RQ1),
        }
        push_all(&mut out, body.as_slice());
        out.push(checksum);
        out.push(EOX);
        assert(out@ =~= self@.encoded());
        out
    }

    fn find_eox(bytes: &[u8]) -> (r: Option<usize>)
        requires
            bytes@.len() >= 11,
        ensures
            match r {
                Some(e) => first_eox_from(bytes@, 11) == Some(e as int) && 11 <= e < bytes@.len(),
                None => first_eox_from(bytes@, 11) is None,
            },
    {
        let mut i: usize = 11;
        while i < bytes.len()
            invariant
                11 <= i <= bytes@.len(),
                first_eox_from(bytes@, 11) == first_eox_from(bytes@, i as int),
            decreases bytes@.len() - i,
        {
            if bytes[i] == EOX {
                return Some(i);
            }
            i += 1;
        }
        None
    }

    fn try_parse_inner(bytes: &[u8]) -> (r: Result<(Frame, usize, u8, u8), CodecError>)
        ensures
            match (r, parse_spec(bytes@)) {
                (Ok((f, n, d, c)), Ok((fv, sn, sd, sc))) => f@ == fv && n == sn && d == sd && c
                    == sc,
                (Err(e), Err(se)) => e == se,
                _ => false,
            },
    {
        if bytes.len() < MIN_FRAME_LEN {
            return Err(CodecError::TooShort { got: bytes.len(), min: MIN_FRAME_LEN });
        }
        if bytes[0] != SOX {
            return Err(CodecError::NotSysEx(bytes[0]));
        }
        if bytes[1] != MANUFACTURER_ROLAND {
            return Err(CodecError::NotRoland(bytes[1]));
        }
        let device_id = bytes[2];
        if !(bytes[3] == 0 && bytes[4] == 0 && bytes[5] == 0x53) {
            return Err(CodecError::WrongModelId([bytes[3], bytes[4], bytes[5]]));
        }
        let cmd = bytes[6];
        let address = [bytes[7], bytes[8], bytes[9], bytes[10]];
        let eox_pos = match Self::find_eox(bytes) {
            Some(e) => e,
            None => {
                return Err(CodecError::MissingEox);
            },
        };
        if eox_pos < 12 {
            return Err(CodecError::TooShort { got: bytes.len(), min: MIN_FRAME_LEN });
        }
        let declared_checksum = bytes[eox_pos - 1];
        let payload = copy_range(bytes, 11, eox_pos - 1);
        let mut checksum_bytes: Vec<u8> = Vec::new();
        push_all(&mut checksum_bytes, &address);
        push_all(&mut checksum_bytes, payload.as_slice());
        assert(address@ =~= bytes@.subrange(7, 11));
        let computed_checksum = roland_checksum(checksum_bytes.as_slice());
        if cmd == CMD_DT1 {
            let frame = Frame::Dt1 { device_id, address, data: payload };
            Ok((frame, eox_pos + 1, declared_checksum, computed_checksum))
        } else if cmd == CMD_RQ1 {
            if payload.len() != ADDRESS_LEN {
                return Err(CodecError::BadRq1Size(payload.len()));
            }
            let size = decode_rq1_size([payload[0], payload[1], payload[2], payload[3]]);
            let frame = Frame::Rq1 { device_id, address, size };
            Ok((frame, eox_pos + 1, declared_checksum, computed_checksum))
        } else {
            Err(CodecError::UnknownCommand(cmd))
        }
    }

    /// Strict parse of one frame at the front of `bytes`: the checksum must
    /// match. Returns the frame and the number of bytes it occupies.
    pub fn try_parse(bytes: &[u8]) -> (r: Result<(Frame, usize), CodecError>)
        ensures
            match (r, strict_parse_spec(bytes@)) {
                (Ok((f, n)), Ok((fv, sn))) => f@ == fv && n == sn,
                (Err(e), Err(se)) => e == se,
                _ => false,
            },
    {
        let (frame, consumed, declared, computed) = Self::try_parse_inner(bytes)?;
        if declared != computed {
            return Err(CodecError::BadChecksum { computed, declared });
        }
        Ok((frame, consumed))
    }

    /// Parse one frame without enforcing its checksum; the status reports
    /// whether the declared checksum matched the computed one.
    pub fn try_parse_unchecked(bytes: &[u8]) -> (r: Result<
        (Frame, usize, ChecksumStatus),
        CodecError,
    >)
        ensures
            match (r, parse_spec(bytes@)) {
                (Ok((f, n, st)), Ok((fv, sn, sd, sc))) => f@ == fv && n == sn && st.declared
                    == sd && st.computed == sc,
                (Err(e), Err(se)) => e == se,
                _ => false,
            },
    {
        let (frame, consumed, declared, computed) = Self::try_parse_inner(bytes)?;
        Ok((frame, consumed, ChecksumStatus { declared, computed }))
    }
}

} // verus!

verus! {

/// Index of the first `F0` at or after position `i`, if any.
pub open spec fn first_sox_from(s: Seq<u8>, i: int) -> Option<int>
    decreases s.len() - i,
{
    if i < 0 || i >= s.len() {
        None
    } else if s[i] == SOX {
        Some(i)
    } else {
        first_sox_from(s, i + 1)
    }
}

/// One step of the lenient scanner over `s` from `pos`: skip to the next
/// `F0`, parse a frame there; on success continue after the frame, on
/// failure continue one byte after the `F0`. `None` when no `F0` is left.
pub open spec fn scan_step(s: Seq<u8>, pos: int) -> Option<
    (Result<(FrameView, u8, u8), CodecError>, int),
> {
    match first_sox_from(s, pos) {
        None => None,
        Some(st) => match parse_spec(s.skip(st)) {
            Ok((f, n, d, c)) => Some((Ok((f, d, c)), st + n)),
            Err(e) => Some((Err(e), st + 1)),
        },
    }
}

/// One step of the strict scanner: as [`scan_step`], but a frame whose
/// checksum does not match is reported as an error.
pub open spec fn strict_step(s: Seq<u8>, pos: int) -> Option<(Result<FrameView, CodecError>, int)> {
    match first_sox_from(s, pos) {
        None => None,
        Some(st) => match strict_parse_spec(s.skip(st)) {
            Ok((f, n)) => Some((Ok(f), st + n)),
            Err(e) => Some((Err(e), st + 1)),
        },
    }
}

proof fn lemma_first_sox_bounds(s: Seq<u8>, i: int)
    ensures
        first_sox_from(s, i) matches Some(k) ==> i <= k < s.len() && s[k] == SOX,
    decreases s.len() - i,
{
    if 0 <= i < s.len() && s[i] != SOX {
        lemma_first_sox_bounds(s, i + 1);
    }
}

proof fn lemma_first_eox_bounds(s: Seq<u8>, i: int)
    ensures
        first_eox_from(s, i) matches Some(k) ==> i <= k < s.len() && s[k] == EOX,
    decreases s.len() - i,
{
    if 0 <= i < s.len() && s[i] != EOX {
        lemma_first_eox_bounds(s, i + 1);
    }
}

/// A successful parse occupies between 13 bytes and the whole input.
pub proof fn lemma_parse_length(s: Seq<u8>)
    ensures
        parse_spec(s) matches Ok((_, n, _, _)) ==> 13 <= n <= s.len(),
{
    lemma_first_eox_bounds(s, 11);
}

/// Law: every scanner step moves strictly forward and stays inside the input.
pub proof fn lemma_steps_advance(s: Seq<u8>, pos: int)
    requires
        0 <= pos,
    ensures
        scan_step(s, pos) matches Some((_, np)) ==> pos < np <= s.len(),
        strict_step(s, pos) matches Some((_, np)) ==> pos < np <= s.len(),
{
    lemma_first_sox_bounds(s, pos);
    if let Some(st) = first_sox_from(s, pos) {
        lemma_parse_length(s.skip(st));
    }
}

/// Every item the lenient scanner yields from `pos` to the end of `s`.
pub open spec fn scan_all(s: Seq<u8>, pos: int) -> Seq<Result<(FrameView, u8, u8), CodecError>>
    decreases s.len() - pos,
{
    if pos < 0 {
        Seq::empty()
    } else {
        match scan_step(s, pos) {
            None => Seq::empty(),
            Some((item, np)) => if pos < np <= s.len() {
                seq![item] + scan_all(s, np)
            } else {
                seq![item]
            },
        }
    }
}

/// Every item the strict scanner yields from `pos` to the end of `s`.
pub open spec fn strict_all(s: Seq<u8>, pos: int) -> Seq<Result<FrameView, CodecError>>
    decreases s.len() - pos,
{
    if pos < 0 {
        Seq::empty()
    } else {
        match strict_step(s, pos) {
            None => Seq::empty(),
            Some((item, np)) => if pos < np <= s.len() {
                seq![item] + strict_all(s, np)
            } else {
                seq![item]
            },
        }
    }
}

fn find_sox(bytes: &[u8], from: usize) -> (r: Option<usize>)
    requires
        from <= bytes@.len(),
    ensures
        match r {
            Some(k) => first_sox_from(bytes@, from as int) == Some(k as int) && from <= k
                < bytes@.len(),
            None => first_sox_from(bytes@, from as int) is None,
        },
{
    let mut i = from;
    while i < bytes.len()
        invariant
            from <= i <= bytes@.len(),
            first_sox_from(bytes@, from as int) == first_sox_from(bytes@, i as int),
        decreases bytes@.len() - i,
    {
        if bytes[i] == SOX {
            return Some(i);
        }
        i += 1;
    }
    None
}

/// Strict frame scanner over a byte buffer.
pub struct FrameIter<'a> {
    bytes: &'a [u8],
    pos: usize,
}

/// Lenient frame scanner: tolerates checksum mismatches and reports them.
pub struct FrameIterUnchecked<'a> {
    bytes: &'a [u8],
    pos: usize,
}

impl<'a> FrameIter<'a> {
    #[verifier::type_invariant]
    spec fn inv(self) -> bool {
        self.pos <= self.bytes@.len()
    }

    /// The whole buffer being scanned.
    pub closed spec fn input(self) -> Seq<u8> {
        self.bytes@
    }

    /// Where the next scan starts.
    pub closed spec fn position(self) -> int {
        self.pos as int
    }

    /// A scan position is never negative, so the scanner laws
    /// ([`lemma_steps_advance`], [`lemma_scan_count`], [`lemma_strict_count`])
    /// apply to an iterator at any point of its scan.
    pub proof fn lemma_position_nonneg(self)
        ensures
            self.position() >= 0,
    {
    }

    /// Law: from any point of the scan, the items still to come number at
    /// most the `F0` bytes left in the input, so the iteration ends.
    pub proof fn lemma_remaining_bounded(self)
        ensures
            strict_all(self.input(), self.position()).len() <= sox_count(self.input(), self.position()),
    {
        lemma_strict_count(self.input(), self.position());
    }

    /// The next frame (or framing error); `None` once no `F0` is left.
    pub fn next(&mut self) -> (r: Option<Result<Frame, CodecError>>)
        ensures
            final(self).input() == old(self).input(),
            match (r, strict_step(old(self).input(), old(self).position())) {
                (None, None) => final(self).position() == old(self).position(),
                (Some(Ok(f)), Some((Ok(fv), np))) => f@ == fv && final(self).position() == np,
                (Some(Err(e)), Some((Err(se), np))) => e == se && final(self).position() == np,
                _ => false,
            },
    {
        proof {
            use_type_invariant(&*self);
        }
        let start = match find_sox(self.bytes, self.pos) {
            Some(k) => k,
            None => {
                return None;
            },
        };
        let rest = vstd::slice::slice_subrange(self.bytes, start, self.bytes.len());
        proof {
            assert(rest@ =~= self.bytes@.skip(start as int));
            lemma_parse_length(rest@);
        }
        match Frame::try_parse(rest) {
            Ok((frame, consumed)) => {
                self.pos = start + consumed;
                Some(Ok(frame))
            },
            Err(e) => {
                self.pos = start + 1;
                Some(Err(e))
            },
        }
    }

    /// Every remaining item, in order.
    pub fn collect_all(self) -> (r: Vec<Result<Frame, CodecError>>)
        ensures
            r@.len() == strict_all(self.input(), self.position()).len(),
            forall|i: int|
                0 <= i < r@.len() ==> match (#[trigger] r@[i], strict_all(
                    self.input(),
                    self.position(),
                )[i]) {
                    (Ok(f), Ok(fv)) => f@ == fv,
                    (Err(e), Err(se)) => e == se,
                    _ => false,
                },
    {
        let ghost s = self.input();
        let ghost p0 = self.position();
        let mut it = self;
        let mut out: Vec<Result<Frame, CodecError>> = Vec::new();
        proof {
            use_type_invariant(&it);
        }
        loop
            invariant
                it.input() == s,
                0 <= p0 <= it.position() <= s.len(),
                strict_all(s, p0) == seq_results_view(out@) + strict_all(s, it.position()),
            ensures
                strict_all(s, p0) == seq_results_view(out@),
            decreases s.len() - it.position(),
        {
            let ghost before = it.position();
            proof {
                lemma_steps_advance(s, before);
            }
            match it.next() {
                None => {
                    assert(strict_all(s, before) =~= Seq::empty());
                    assert(seq_results_view(out@) + Seq::<Result<FrameView, CodecError>>::empty()
                        =~= seq_results_view(out@));
                    break ;
                },
                Some(item) => {
                    let ghost old_out = out@;
                    proof {
                        use_type_invariant(&it);
                    }
                    out.push(item);
                    proof {
                        let np = it.position();
                        assert(strict_all(s, before) == seq![strict_step(s, before).unwrap().0]
                            + strict_all(s, np));
                        assert(seq_results_view(out@) =~= seq_results_view(old_out) + seq![
                            strict_step(s, before).unwrap().0,
                        ]);
                    }
                },
            }
        }
        out
    }
}

/// The model of a sequence of strict scan results.
pub open spec fn seq_results_view(v: Seq<Result<Frame, CodecError>>) -> Seq<
    Result<FrameView, CodecError>,
> {
    v.map_values(
        |x: Result<Frame, CodecError>|
            match x {
                Ok(f) => Ok(f@),
                Err(e) => Err(e),
            },
    )
}

/// Strict scanner over `bytes`, starting at the first byte.
pub fn parse_frames<'a>(bytes: &'a [u8]) -> (r: FrameIter<'a>)
    ensures
        r.input() == bytes@,
        r.position() == 0,
{
    FrameIter { bytes, pos: 0 }
}

} // verus!

verus! {

/// The model of a sequence of lenient scan results.
pub open spec fn seq_unchecked_view(v: Seq<Result<(Frame, ChecksumStatus), CodecError>>) -> Seq<
    Result<(FrameView, u8, u8), CodecError>,
> {
    v.map_values(
        |x: Result<(Frame, ChecksumStatus), CodecError>|
            match x {
                Ok((f, st)) => Ok((f@, st.declared, st.computed)),
                Err(e) => Err(e),
            },
    )
}

impl<'a> FrameIterUnchecked<'a> {
    #[verifier::type_invariant]
    spec fn inv(self) -> bool {
        self.pos <= self.bytes@.len()
    }

    /// The whole buffer being scanned.
    pub closed spec fn input(self) -> Seq<u8> {
        self.bytes@
    }

    /// Where the next scan starts.
    pub closed spec fn position(self) -> int {
        self.pos as int
    }

    /// A scan position is never negative, so the scanner laws
    /// ([`lemma_steps_advance`], [`lemma_scan_count`], [`lemma_strict_count`])
    /// apply to an iterator at any point of its scan.
    pub proof fn lemma_position_nonneg(self)
        ensures
            self.position() >= 0,
    {
    }

    /// Law: from any point of the scan, the items still to come number at
    /// most the `F0` bytes left in the input, so the iteration ends.
    pub proof fn lemma_remaining_bounded(self)
        ensures
            scan_all(self.input(), self.position()).len() <= sox_count(self.input(), self.position()),
    {
        lemma_scan_count(self.input(), self.position());
    }

    /// The next frame with its checksum status (or framing error); `None`
    /// once no `F0` is left.
    pub fn next(&mut self) -> (r: Option<Result<(Frame, ChecksumStatus), CodecError>>)
        ensures
            final(self).input() == old(self).input(),
            match (r, scan_step(old(self).input(), old(self).position())) {
                (None, None) => final(self).position() == old(self).position(),
                (Some(Ok((f, st))), Some((Ok((fv, d, c)), np))) => f@ == fv && st.declared == d
                    && st.computed == c && final(self).position() == np,
                (Some(Err(e)), Some((Err(se), np))) => e == se && final(self).position() == np,
                _ => false,
            },
    {
        proof {
            use_type_invariant(&*self);
        }
        let start = match find_sox(self.bytes, self.pos) {
            Some(k) => k,
            None => {
                return None;
            },
        };
        let rest = vstd::slice::slice_subrange(self.bytes, start, self.bytes.len());
        proof {
            assert(rest@ =~= self.bytes@.skip(start as int));
            lemma_parse_length(rest@);
        }
        match Frame::try_parse_unchecked(rest) {
            Ok((frame, consumed, status)) => {
                self.pos = start + consumed;
                Some(Ok((frame, status)))
            },
            Err(e) => {
                self.pos = start + 1;
                Some(Err(e))
            },
        }
    }

    /// Every remaining item, in order.
    pub fn collect_all(self) -> (r: Vec<Result<(Frame, ChecksumStatus), CodecError>>)
        ensures
            seq_unchecked_view(r@) == scan_all(self.input(), self.position()),
    {
        let ghost s = self.input();
        let ghost p0 = self.position();
        let mut it = self;
        let mut out: Vec<Result<(Frame, ChecksumStatus), CodecError>> = Vec::new();
        proof {
            use_type_invariant(&it);
        }
        loop
            invariant
                it.input() == s,
                0 <= p0 <= it.position() <= s.len(),
                scan_all(s, p0) == seq_unchecked_view(out@) + scan_all(s, it.position()),
            ensures
                scan_all(s, p0) == seq_unchecked_view(out@),
            decreases s.len() - it.position(),
        {
            let ghost before = it.position();
            proof {
                lemma_steps_advance(s, before);
            }
            match it.next() {
                None => {
                    assert(scan_all(s, before) =~= Seq::empty());
                    assert(seq_unchecked_view(out@) + Seq::<
                        Result<(FrameView, u8, u8), CodecError>,
                    >::empty() =~= seq_unchecked_view(out@));
                    break ;
                },
                Some(item) => {
                    let ghost old_out = out@;
                    proof {
                        use_type_invariant(&it);
                    }
                    out.push(item);
                    proof {
                        let np = it.position();
                        assert(scan_all(s, before) == seq![scan_step(s, before).unwrap().0]
                            + scan_all(s, np));
                        assert(seq_unchecked_view(out@) =~= seq_unchecked_view(old_out) + seq![
                            scan_step(s, before).unwrap().0,
                        ]);
                    }
                },
            }
        }
        out
    }
}

/// Lenient scanner over `bytes`, starting at the first byte.
pub fn parse_frames_unchecked<'a>(bytes: &'a [u8]) -> (r: FrameIterUnchecked<'a>)
    ensures
        r.input() == bytes@,
        r.position() == 0,
{
    FrameIterUnchecked { bytes, pos: 0 }
}

/// The frames among scanner items, in order, the framing errors left out.
pub open spec fn ok_frames(items: Seq<Result<(FrameView, u8, u8), CodecError>>) -> Seq<FrameView>
    decreases items.len(),
{
    if items.len() == 0 {
        Seq::empty()
    } else {
        let rest = ok_frames(items.drop_last());
        match items.last() {
            Ok((f, _, _)) => rest.push(f),
            Err(_) => rest,
        }
    }
}

/// Every frame that can be read from `bytes`, checksums not enforced and
/// stretches that do not frame skipped.
pub fn decoded_frames(bytes: &[u8]) -> (r: Vec<Frame>)
    ensures
        r@.map_values(|f: Frame| f@) == ok_frames(scan_all(bytes@, 0)),
{
    let items = parse_frames_unchecked(bytes).collect_all();
    let ghost all = seq_unchecked_view(items@);
    let mut out: Vec<Frame> = Vec::new();
    let mut i: usize = 0;
    while i < items.len()
        invariant
            i <= items@.len(),
            all == seq_unchecked_view(items@),
            out@.map_values(|f: Frame| f@) == ok_frames(all.take(i as int)),
        decreases items.len() - i,
    {
        proof {
            assert(all.take(i + 1).drop_last() =~= all.take(i as int));
        }
        match &items[i] {
            Ok((f, _)) => {
                out.push(f.duplicate());
            },
            Err(_) => {},
        }
        proof {
            assert(out@.map_values(|f: Frame| f@) =~= ok_frames(all.take(i + 1)));
        }
        i += 1;
    }
    proof {
        assert(all.take(items@.len() as int) =~= all);
    }
    out
}

/// Number of `F0` bytes in `s` from position `pos` on.
pub open spec fn sox_count(s: Seq<u8>, pos: int) -> nat
    decreases s.len() - pos,
{
    if pos < 0 || pos >= s.len() {
        0
    } else {
        (if s[pos] == SOX { 1nat } else { 0nat }) + sox_count(s, pos + 1)
    }
}

proof fn lemma_sox_count_mono(s: Seq<u8>, a: int, b: int)
    requires
        0 <= a <= b,
    ensures
        sox_count(s, a) >= sox_count(s, b),
    decreases b - a,
{
    if a < b {
        lemma_sox_count_mono(s, a + 1, b);
    }
}

proof fn lemma_sox_count_first(s: Seq<u8>, pos: int)
    requires
        0 <= pos,
    ensures
        first_sox_from(s, pos) matches Some(st) ==> sox_count(s, pos) == 1 + sox_count(s, st + 1),
    decreases s.len() - pos,
{
    if 0 <= pos < s.len() && s[pos] != SOX {
        lemma_sox_count_first(s, pos + 1);
    }
}

/// Law: the lenient scanner yields at most one item per `F0` byte left in
/// its input, so iterating it always ends.
pub proof fn lemma_scan_count(s: Seq<u8>, pos: int)
    requires
        0 <= pos,
    ensures
        scan_all(s, pos).len() <= sox_count(s, pos),
    decreases s.len() - pos,
{
    lemma_steps_advance(s, pos);
    lemma_first_sox_bounds(s, pos);
    lemma_sox_count_first(s, pos);
    if let Some(st) = first_sox_from(s, pos) {
        lemma_parse_length(s.skip(st));
        if let Some((_, np)) = scan_step(s, pos) {
            if pos < np <= s.len() {
                lemma_scan_count(s, np);
                lemma_sox_count_mono(s, st + 1, np);
            }
        }
    }
}

/// Law: the strict scanner yields at most one item per `F0` byte left in
/// its input, so iterating it always ends.
pub proof fn lemma_strict_count(s: Seq<u8>, pos: int)
    requires
        0 <= pos,
    ensures
        strict_all(s, pos).len() <= sox_count(s, pos),
    decreases s.len() - pos,
{
    lemma_steps_advance(s, pos);
    lemma_first_sox_bounds(s, pos);
    lemma_sox_count_first(s, pos);
    if let Some(st) = first_sox_from(s, pos) {
        lemma_parse_length(s.skip(st));
        if let Some((_, np)) = strict_step(s, pos) {
            if pos < np <= s.len() {
                lemma_strict_count(s, np);
                lemma_sox_count_mono(s, st + 1, np);
            }
        }
    }
}


/// `first_sox_from` on `p + r` from inside `r` is `first_sox_from` on `r`,
/// shifted by `p`'s length.
proof fn lemma_sox_shift(p: Seq<u8>, r: Seq<u8>, i: int)
    requires
        0 <= i,
    ensures
        first_sox_from(p + r, p.len() + i) == (match first_sox_from(r, i) {
            Some(k) => Some(p.len() + k),
            None => None,
        }),
    decreases r.len() - i,
{
    if i < r.len() {
        assert((p + r)[p.len() + i] == r[i]);
        if r[i] != SOX {
            lemma_sox_shift(p, r, i + 1);
            assert(p.len() + i + 1 == p.len() + (i + 1));
        }
    }
}

/// From a position inside `a`, the first `F0` of `a + r` is the first one
/// of `a`, or else the first one from the end of `a` on.
proof fn lemma_sox_prefix(a: Seq<u8>, r: Seq<u8>, i: int)
    requires
        0 <= i <= a.len(),
    ensures
        first_sox_from(a + r, i) == (match first_sox_from(a, i) {
            Some(k) => Some(k),
            None => first_sox_from(a + r, a.len() as int),
        }),
        first_sox_from(a, i) is None ==> sox_count(a, i) == 0,
    decreases a.len() - i,
{
    if i < a.len() {
        assert((a + r)[i] == a[i]);
        if a[i] != SOX {
            lemma_sox_prefix(a, r, i + 1);
        }
    }
}

/// Where the first `F7` from `i` is at `k`, no `F7` lies between.
proof fn lemma_first_eox_facts(s: Seq<u8>, i: int, k: int)
    requires
        0 <= i,
        first_eox_from(s, i) == Some(k),
    ensures
        i <= k < s.len(),
        s[k] == EOX,
        forall|j: int| i <= j < k ==> s[j] != EOX,
    decreases s.len() - i,
{
    if s[i] != EOX {
        lemma_first_eox_facts(s, i + 1, k);
    }
}

/// A parse that takes all of `t` gives the same result with more bytes
/// after `t`.
proof fn lemma_parse_extend(t: Seq<u8>, r: Seq<u8>)
    requires
        parse_spec(t) matches Ok((_, n, _, _)) && n == t.len(),
    ensures
        parse_spec(t + r) == parse_spec(t),
{
    let s = t + r;
    let k = t.len() - 1;
    assert(first_eox_from(t, 11) == Some(k));
    lemma_first_eox_facts(t, 11, k);
    assert forall|j: int| 11 <= j < k implies s[j] != EOX by {
        assert(s[j] == t[j]);
    }
    lemma_first_eox(s, 11, k);
    assert(s.subrange(7, 11) =~= t.subrange(7, 11));
    assert(s.subrange(11, k - 1) =~= t.subrange(11, k - 1));
}

/// Law: bytes before a position do not change what the strict scanner
/// yields from there on.
pub proof fn lemma_strict_all_shift(p: Seq<u8>, r: Seq<u8>, pos: int)
    requires
        0 <= pos,
    ensures
        strict_all(p + r, p.len() + pos) == strict_all(r, pos),
    decreases r.len() - pos,
{
    let s = p + r;
    lemma_sox_shift(p, r, pos);
    lemma_first_sox_bounds(r, pos);
    lemma_steps_advance(r, pos);
    lemma_steps_advance(s, p.len() + pos);
    if let Some(st) = first_sox_from(r, pos) {
        assert(s.skip(p.len() + st) =~= r.skip(st));
        if let Some((_, np)) = strict_step(r, pos) {
            lemma_strict_all_shift(p, r, np);
            assert(p.len() + np == p.len() + np);
        }
    }
}

/// Law: a whole frame at the front of the stream is read as itself, and
/// the strict scanner then reads the rest as it would alone.
pub proof fn lemma_strict_all_frame_first(f: Frame, r: Seq<u8>)
    requires
        is_encodable(f@),
    ensures
        strict_all(f@.encoded() + r, 0) == seq![Ok::<FrameView, CodecError>(f@)] + strict_all(r, 0),
{
    let e = f@.encoded();
    let s = e + r;
    lemma_parse_encode_round_trip(f);
    lemma_parse_extend(e, r);
    assert(s[0] == SOX);
    assert(s.skip(0) =~= s);
    assert(first_sox_from(s, 0) == Some(0int));
    assert(strict_step(s, 0) == Some((Ok::<FrameView, CodecError>(f@), e.len() as int)));
    lemma_strict_all_shift(e, r, 0);
    assert(e.len() + 0 == e.len());
}

/// Every `F0` of `a` opens a message of another manufacturer: the byte
/// after it, inside `a`, is not Roland's ID.
pub open spec fn foreign_sox_only(a: Seq<u8>) -> bool {
    forall|i: int|
        0 <= i < a.len() && #[trigger] a[i] == SOX ==> i + 1 < a.len() && a[i + 1] != MANUFACTURER_ROLAND
}

proof fn lemma_strict_all_foreign_from(a: Seq<u8>, r: Seq<u8>, pos: int)
    requires
        foreign_sox_only(a),
        0 <= pos <= a.len(),
    ensures
        strict_all(a + r, pos).len() == sox_count(a, pos) + strict_all(r, 0).len(),
        strict_all(a + r, pos).skip(sox_count(a, pos) as int) == strict_all(r, 0),
        forall|j: int| 0 <= j < sox_count(a, pos) ==> #[trigger] strict_all(a + r, pos)[j] is Err,
    decreases a.len() - pos,
{
    let s = a + r;
    lemma_sox_prefix(a, r, pos);
    lemma_first_sox_bounds(a, pos);
    lemma_steps_advance(s, pos);
    lemma_strict_all_shift(a, r, 0);
    assert(a.len() + 0 == a.len());
    match first_sox_from(a, pos) {
        Some(st) => {
            assert(a[st] == SOX);
            assert(st + 1 < a.len() && a[st + 1] != MANUFACTURER_ROLAND);
            let t = s.skip(st);
            assert(t[0] == SOX && t[1] == a[st + 1]);
            assert(strict_parse_spec(t) is Err);
            lemma_sox_count_first(a, pos);
            lemma_strict_all_foreign_from(a, r, st + 1);
            let rest = strict_all(s, st + 1);
            let item = strict_step(s, pos).unwrap().0;
            assert(strict_all(s, pos) == seq![item] + rest);
            assert((seq![item] + rest).skip(sox_count(a, pos) as int) =~= rest.skip(sox_count(a, st + 1) as int));
            assert forall|j: int| 0 <= j < sox_count(a, pos) implies #[trigger] strict_all(s, pos)[j] is Err by {
                if j > 0 {
                    assert(strict_all(s, pos)[j] == rest[j - 1]);
                }
            }
        },
        None => {
            lemma_first_sox_bounds(s, a.len() as int);
            if pos < a.len() {
                assert(strict_step(s, pos) == strict_step(s, a.len() as int));
                assert(strict_all(s, pos) == strict_all(s, a.len() as int));
            }
            assert(strict_all(s, pos).skip(0) =~= strict_all(s, pos));
        },
    }
}

/// Law: after a stretch `a` whose every `F0` opens another manufacturer's
/// message, the strict scanner reports one error for each such `F0`, then
/// reads the rest of the stream exactly as it would alone: a framing error
/// loses no later frame.
pub proof fn lemma_strict_all_after_foreign(a: Seq<u8>, r: Seq<u8>)
    requires
        foreign_sox_only(a),
    ensures
        strict_all(a + r, 0).len() == sox_count(a, 0) + strict_all(r, 0).len(),
        strict_all(a + r, 0).skip(sox_count(a, 0) as int) == strict_all(r, 0),
        forall|j: int| 0 <= j < sox_count(a, 0) ==> #[trigger] strict_all(a + r, 0)[j] is Err,
{
    lemma_strict_all_foreign_from(a, r, 0);
}


/// Law: bytes before a position do not change what the lenient scanner
/// yields from there on.
pub proof fn lemma_scan_all_shift(p: Seq<u8>, r: Seq<u8>, pos: int)
    requires
        0 <= pos,
    ensures
        scan_all(p + r, p.len() + pos) == scan_all(r, pos),
    decreases r.len() - pos,
{
    let s = p + r;
    lemma_sox_shift(p, r, pos);
    lemma_first_sox_bounds(r, pos);
    lemma_steps_advance(r, pos);
    lemma_steps_advance(s, p.len() + pos);
    if let Some(st) = first_sox_from(r, pos) {
        assert(s.skip(p.len() + st) =~= r.skip(st));
        if let Some((_, np)) = scan_step(r, pos) {
            lemma_scan_all_shift(p, r, np);
            assert(p.len() + np == p.len() + np);
        }
    }
}

/// Law: a whole frame at the front of the stream is read as itself, with
/// matching checksums, and the lenient scanner then reads the rest as it
/// would alone.
pub proof fn lemma_scan_all_frame_first(f: Frame, r: Seq<u8>)
    requires
        is_encodable(f@),
    ensures
        scan_all(f@.encoded() + r, 0).len() == 1 + scan_all(r, 0).len(),
        scan_all(f@.encoded() + r, 0)[0] matches Ok((g, d, c)) && g == f@ && d == c,
        scan_all(f@.encoded() + r, 0).skip(1) == scan_all(r, 0),
{
    let e = f@.encoded();
    let s = e + r;
    lemma_parse_encode_round_trip(f);
    lemma_parse_extend(e, r);
    assert(s[0] == SOX);
    assert(s.skip(0) =~= s);
    assert(first_sox_from(s, 0) == Some(0int));
    lemma_scan_all_shift(e, r, 0);
    assert(e.len() + 0 == e.len());
    let item = scan_step(s, 0).unwrap().0;
    assert(scan_all(s, 0) == seq![item] + scan_all(r, 0));
    assert((seq![item] + scan_all(r, 0)).skip(1) =~= scan_all(r, 0));
}

proof fn lemma_scan_all_foreign_from(a: Seq<u8>, r: Seq<u8>, pos: int)
    requires
        foreign_sox_only(a),
        0 <= pos <= a.len(),
    ensures
        scan_all(a + r, pos).len() == sox_count(a, pos) + scan_all(r, 0).len(),
        scan_all(a + r, pos).skip(sox_count(a, pos) as int) == scan_all(r, 0),
        forall|j: int| 0 <= j < sox_count(a, pos) ==> #[trigger] scan_all(a + r, pos)[j] is Err,
    decreases a.len() - pos,
{
    let s = a + r;
    lemma_sox_prefix(a, r, pos);
    lemma_first_sox_bounds(a, pos);
    lemma_steps_advance(s, pos);
    lemma_scan_all_shift(a, r, 0);
    assert(a.len() + 0 == a.len());
    match first_sox_from(a, pos) {
        Some(st) => {
            assert(a[st] == SOX);
            assert(st + 1 < a.len() && a[st + 1] != MANUFACTURER_ROLAND);
            let t = s.skip(st);
            assert(t[0] == SOX && t[1] == a[st + 1]);
            assert(parse_spec(t) is Err);
            lemma_sox_count_first(a, pos);
            lemma_scan_all_foreign_from(a, r, st + 1);
            let rest = scan_all(s, st + 1);
            let item = scan_step(s, pos).unwrap().0;
            assert(scan_all(s, pos) == seq![item] + rest);
            assert((seq![item] + rest).skip(sox_count(a, pos) as int) =~= rest.skip(sox_count(a, st + 1) as int));
            assert forall|j: int| 0 <= j < sox_count(a, pos) implies #[trigger] scan_all(s, pos)[j] is Err by {
                if j > 0 {
                    assert(scan_all(s, pos)[j] == rest[j - 1]);
                }
            }
        },
        None => {
            lemma_first_sox_bounds(s, a.len() as int);
            if pos < a.len() {
                assert(scan_step(s, pos) == scan_step(s, a.len() as int));
                assert(scan_all(s, pos) == scan_all(s, a.len() as int));
            }
            assert(scan_all(s, pos).skip(0) =~= scan_all(s, pos));
        },
    }
}

/// Law: after a stretch `a` whose every `F0` opens another manufacturer's
/// message, the lenient scanner reports one error for each such `F0`, then
/// reads the rest of the stream exactly as it would alone: a framing error
/// loses no later frame.
pub proof fn lemma_scan_all_after_foreign(a: Seq<u8>, r: Seq<u8>)
    requires
        foreign_sox_only(a),
    ensures
        scan_all(a + r, 0).len() == sox_count(a, 0) + scan_all(r, 0).len(),
        scan_all(a + r, 0).skip(sox_count(a, 0) as int) == scan_all(r, 0),
        forall|j: int| 0 <= j < sox_count(a, 0) ==> #[trigger] scan_all(a + r, 0)[j] is Err,
{
    lemma_scan_all_foreign_from(a, r, 0);
}

} // verus!
