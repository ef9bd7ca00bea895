//! Typed model of the GR-55 System area: the parameters at MSB `0x02`
//! page 1 offsets `0x00..=0x0D` and the first byte of the Current Patch
//! parameter at MSB `0x01`. Every other addressed byte of a System dump is
//! kept verbatim in `unknown_bytes`, so a decode/encode round trip loses
//! nothing.
use vstd::prelude::*;
use crate::byte_map::{ByteMap, entries_map, sorted_keys, lemma_entries_facts, lemma_entries_map_prefix};
use crate::codec::CodecError;
use crate::sysex::{Frame, FrameView};
pub use crate::system_enums::{GkSet, HoldType, MidiOutMode, OnOff, OutputSelect, SwitchMode};

verus! {

/// Address of the Current Patch parameter byte 0 (MSB 0x01).
pub const ADDR_CURRENT_PATCH: [u8; 4] = [0x01, 0x00, 0x00, 0x00];
/// Address of GK Set.
pub const ADDR_GK_SET: [u8; 4] = [0x02, 0x00, 0x00, 0x00];
/// Address of Output Select.
pub const ADDR_OUTPUT_SELECT: [u8; 4] = [0x02, 0x00, 0x00, 0x01];
/// Address of Assign Hold.
pub const ADDR_ASSIGN_HOLD: [u8; 4] = [0x02, 0x00, 0x00, 0x02];
/// Address of MIDI Channel.
pub const ADDR_MIDI_CHANNEL: [u8; 4] = [0x02, 0x00, 0x00, 0x03];
/// Address of Program-Change Receive Switch.
pub const ADDR_PC_RX: [u8; 4] = [0x02, 0x00, 0x00, 0x04];
/// Address of Program-Change Send Switch.
pub const ADDR_PC_TX: [u8; 4] = [0x02, 0x00, 0x00, 0x05];
/// Address of V-Link TX Channel.
pub const ADDR_VLINK_TX_CHANNEL: [u8; 4] = [0x02, 0x00, 0x00, 0x06];
/// Address of Guitar MIDI Out switch.
pub const ADDR_GUITAR_MIDI_OUT: [u8; 4] = [0x02, 0x00, 0x00, 0x07];
/// Address of MIDI Out Mode (Mono/Poly).
pub const ADDR_MIDI_OUT_MODE: [u8; 4] = [0x02, 0x00, 0x00, 0x08];
/// Address of Chromatic mode.
pub const ADDR_CHROMATIC: [u8; 4] = [0x02, 0x00, 0x00, 0x09];
/// Address of String Channel range.
pub const ADDR_STRING_CHANNEL: [u8; 4] = [0x02, 0x00, 0x00, 0x0A];
/// Address of Data Thin.
pub const ADDR_DATA_THIN: [u8; 4] = [0x02, 0x00, 0x00, 0x0B];
/// Address of CTL pedal CC# assignment.
pub const ADDR_CTL_PEDAL_CC: [u8; 4] = [0x02, 0x00, 0x00, 0x0C];
/// Address of EXP pedal CC# assignment.
pub const ADDR_EXP_PEDAL_CC: [u8; 4] = [0x02, 0x00, 0x00, 0x0D];

// ---------------------------------------------------------------------
// Value types shared with the Patch area
// ---------------------------------------------------------------------
/// MIDI channel 1..=16, encoded on the wire as byte 0..=15.
#[derive(Debug, Clone, Copy, PartialEq, Eq)]
pub struct MidiChannel(u8);

impl MidiChannel {
    #[verifier::type_invariant]
    spec fn inv(self) -> bool {
        1 <= self.0 <= 16
    }

    /// The channel number.
    pub closed spec fn value(self) -> u8 {
        self.0
    }


    pub fn new(channel: u8) -> (r: Option<Self>)
        ensures
            r is Some <==> 1 <= channel <= 16,
            r matches Some(c) ==> c.value() == channel,
    {
        if 1 <= channel && channel <= 16 {
            Some(MidiChannel(channel))
        } else {
            None
        }
    }

    pub fn get(self) -> (r: u8)
        ensures
            r == self.value(),
            1 <= r <= 16,
    {
        proof {
            use_type_invariant(self);
        }
        self.0
    }

    /// The channel a wire byte stands for (byte 0 is channel 1).
    pub open spec fn from_byte_spec(b: u8) -> Option<u8> {
        if b <= 15 {
            Some((b + 1) as u8)
        } else {
            None
        }
    }

    pub fn from_byte(b: u8) -> (r: Option<Self>)
        ensures
            r is Some <==> b <= 15,
            r matches Some(c) ==> c.value() == b + 1,
    {
        if b <= 15 {
            Self::new(b + 1)
        } else {
            None
        }
    }

    pub fn to_byte(self) -> (r: u8)
        ensures
            r == self.value() - 1,
            r <= 15,
    {
        proof {
            use_type_invariant(self);
        }
        self.0 - 1
    }
}

/// String Channel base: the low end of the six consecutive MIDI channels
/// that carry the six strings (`0` = 1..6, `10` = 11..16).
#[derive(Debug, Clone, Copy, PartialEq, Eq)]
pub struct StringChannelBase(u8);

impl StringChannelBase {
    #[verifier::type_invariant]
    spec fn inv(self) -> bool {
        self.0 <= 10
    }

    /// The base value.
    pub closed spec fn value(self) -> u8 {
        self.0
    }

    pub fn new(base: u8) -> (r: Option<Self>)
        ensures
            r is Some <==> base <= 10,
            r matches Some(c) ==> c.value() == base,
    {
        if base <= 10 {
            Some(StringChannelBase(base))
        } else {
            None
        }
    }

    pub fn get(self) -> (r: u8)
        ensures
            r == self.value(),
            r <= 10,
    {
        proof {
            use_type_invariant(self);
        }
        self.0
    }
}

/// CC# assignment of a foot-pedal input: `Off`, or standard CC# `n`.
/// Wire encoding: 0 = Off, 0x01..=0x1F = CC#1..=31, 0x20..=0x3F =
/// CC#64..=95 (the CC#32..=63 range is skipped).
#[derive(Debug, Clone, Copy, PartialEq, Eq, Structural)]
pub enum PedalCc {
    Off,
    Cc(u8),
}

impl PedalCc {
    /// The assignment a wire byte stands for, if any.
    pub open spec fn from_byte_spec(b: u8) -> Option<PedalCc> {
        if b == 0 {
            Some(PedalCc::Off)
        } else if b <= 0x1F {
            Some(PedalCc::Cc(b))
        } else if b <= 0x3F {
            Some(PedalCc::Cc((64 + (b - 0x20)) as u8))
        } else {
            None
        }
    }

    /// The wire byte of an assignment, if it has one.
    pub open spec fn byte_spec(self) -> Option<u8> {
        match self {
            PedalCc::Off => Some(0),
            PedalCc::Cc(n) => if 1 <= n <= 31 {
                Some(n)
            } else if 64 <= n <= 95 {
                Some((0x20 + (n - 64)) as u8)
            } else {
                None
            },
        }
    }

    /// The number reported when the assignment cannot be encoded.
    pub open spec fn raw_spec(self) -> u8 {
        match self {
            PedalCc::Off => 0,
            PedalCc::Cc(n) => n,
        }
    }

    /// Law: the pedal CC# wire table: byte `0x00` is Off, `0x01..=0x1F` are
    /// CC#1..=31 and `0x20..=0x3F` are CC#64..=95; no other byte decodes,
    /// and every encodable assignment is written as that byte.
    pub proof fn lemma_wire_table()
        ensures
            Self::from_byte_spec(0) == Some(PedalCc::Off),
            forall|b: u8| 1 <= b <= 0x1F ==> #[trigger] Self::from_byte_spec(b) == Some(PedalCc::Cc(b)),
            forall|b: u8| 0x20 <= b <= 0x3F ==> #[trigger] Self::from_byte_spec(b) == Some(PedalCc::Cc((b + 0x20) as u8)),
            forall|b: u8| b > 0x3F ==> #[trigger] Self::from_byte_spec(b) is None,
            PedalCc::Off.byte_spec() == Some(0u8),
            forall|n: u8| 1 <= n <= 31 ==> #[trigger] PedalCc::Cc(n).byte_spec() == Some(n),
            forall|n: u8| 64 <= n <= 95 ==> #[trigger] PedalCc::Cc(n).byte_spec() == Some((n - 0x20) as u8),
            forall|n: u8| !(1 <= n <= 31 || 64 <= n <= 95) ==> #[trigger] PedalCc::Cc(n).byte_spec() is None,
    {
    }

    pub fn from_byte(b: u8) -> (r: Option<PedalCc>)
        ensures
            r == Self::from_byte_spec(b),
    {
        if b == 0 {
            Some(PedalCc::Off)
        } else if b <= 0x1F {
            Some(PedalCc::Cc(b))
        } else if b <= 0x3F {
            Some(PedalCc::Cc(64 + (b - 0x20)))
        } else {
            None
        }
    }

    pub fn raw(self) -> (r: u8)
        ensures
            r == self.raw_spec(),
    {
        match self {
            PedalCc::Off => 0,
            PedalCc::Cc(n) => n,
        }
    }

    pub fn to_byte(self) -> (r: Option<u8>)
        ensures
            r == self.byte_spec(),
    {
        match self {
            PedalCc::Off => Some(0),
            PedalCc::Cc(n) => if 1 <= n && n <= 31 {
                Some(n)
            } else if 64 <= n && n <= 95 {
                Some(0x20 + (n - 64))
            } else {
                None
            },
        }
    }

    /// Law: an encodable assignment decodes back from its byte.
    pub proof fn lemma_round_trip(self)
        ensures
            self.byte_spec() matches Some(b) ==> b <= 0x3F && Self::from_byte_spec(b) == Some(
                self,
            ),
    {
    }

    /// Law: every byte that decodes encodes back to itself.
    pub proof fn lemma_byte_round_trip(b: u8)
        ensures
            Self::from_byte_spec(b) is Some <==> b <= 0x3F,
            Self::from_byte_spec(b) matches Some(v) ==> v.byte_spec() == Some(b),
    {
    }
}

/// Pitch-bend depth of a pedal, -12..=+12 semitones; the wire byte is the
/// depth plus 12.
#[derive(Debug, Clone, Copy, PartialEq, Eq)]
pub struct PitchBendDepth(i8);

impl PitchBendDepth {
    #[verifier::type_invariant]
    pub closed spec fn inv(self) -> bool {
        -12 <= self.0 <= 12
    }

    /// A depth that keeps its invariant is in range.
    pub proof fn lemma_inv_range(self)
        requires
            self.inv(),
        ensures
            -12 <= self.value() <= 12,
    {
    }

    /// The depth in semitones.
    pub closed spec fn value(self) -> i8 {
        self.0
    }

    /// Wire byte of the depth.
    pub open spec fn byte_spec(self) -> u8 {
        (self.value() + 12) as u8
    }


    pub fn new(semitones: i8) -> (r: Option<Self>)
        ensures
            r is Some <==> -12 <= semitones <= 12,
            r matches Some(d) ==> d.value() == semitones,
    {
        if -12 <= semitones && semitones <= 12 {
            Some(PitchBendDepth(semitones))
        } else {
            None
        }
    }

    pub fn get(self) -> (r: i8)
        ensures
            r == self.value(),
            -12 <= r <= 12,
    {
        proof {
            use_type_invariant(self);
        }
        self.0
    }

    /// The depth a wire byte stands for, if any.
    pub open spec fn from_byte_spec(b: u8) -> Option<PitchBendDepth> {
        if b <= 24 {
            Some(Self::with_value((b - 12) as i8))
        } else {
            None
        }
    }

    /// The depth with the given value.
    pub closed spec fn with_value(v: i8) -> PitchBendDepth {
        PitchBendDepth(v)
    }

    /// Law: exactly the bytes up to 24 decode, each to a depth whose byte
    /// it is.
    pub proof fn lemma_byte_round_trip(b: u8)
        ensures
            Self::from_byte_spec(b) is Some <==> b <= 24,
            Self::from_byte_spec(b) matches Some(v) ==> v.byte_spec() == b && v.value() == b - 12,
    {
    }

    pub fn from_byte(b: u8) -> (r: Option<Self>)
        ensures
            r == Self::from_byte_spec(b),
            r is Some <==> b <= 24,
            r matches Some(d) ==> d.value() == b - 12 && d.byte_spec() == b,
    {
        if b <= 24 {
            let v: i8 = (b as i8) - 12;
            Some(PitchBendDepth(v))
        } else {
            None
        }
    }

    pub fn to_byte(self) -> (r: u8)
        ensures
            r == self.byte_spec(),
            r <= 24,
            r == self.value() + 12,
    {
        proof {
            use_type_invariant(self);
        }
        (self.0 + 12) as u8
    }
}

/// The value of a 4-nibble-pair field: two wire bytes each holding four
/// bits, high nibble first.
pub open spec fn nibble_pair_value(hi: u8, lo: u8) -> Option<u8> {
    if hi <= 0x0F && lo <= 0x0F {
        Some((hi * 16 + lo) as u8)
    } else {
        None
    }
}

/// Decode a nibble pair; `None` if either byte has bits above the low four.
pub fn decode_nibble_pair(hi: u8, lo: u8) -> (r: Option<u8>)
    ensures
        r == nibble_pair_value(hi, lo),
{
    if hi <= 0x0F && lo <= 0x0F {
        Some(hi * 16 + lo)
    } else {
        None
    }
}

/// The two nibble bytes of `v`, high nibble first.
pub open spec fn nibble_pair_bytes(v: u8) -> (u8, u8) {
    ((v / 16) as u8, (v % 16) as u8)
}

/// Encode a byte as a nibble pair.
pub fn encode_nibble_pair(v: u8) -> (r: [u8; 2])
    ensures
        r@ == seq![nibble_pair_bytes(v).0, nibble_pair_bytes(v).1],
{
    [v / 16, v % 16]
}

/// Law: a nibble pair decodes back to the byte it encodes, and a decodable
/// pair is the encoding of its value.
pub proof fn lemma_nibble_pair_round_trip(v: u8, hi: u8, lo: u8)
    ensures
        nibble_pair_value(nibble_pair_bytes(v).0, nibble_pair_bytes(v).1) == Some(v),
        nibble_pair_value(hi, lo) matches Some(w) ==> nibble_pair_bytes(w) == (hi, lo),
{
}

/// Patch output level, 0..=200, carried on the wire as a nibble pair.
#[derive(Debug, Clone, Copy, PartialEq, Eq)]
pub struct PatchLevel(u8);

impl PatchLevel {
    #[verifier::type_invariant]
    spec fn inv(self) -> bool {
        self.0 <= 200
    }

    pub closed spec fn value(self) -> u8 {
        self.0
    }


    pub fn new(level: u8) -> (r: Option<Self>)
        ensures
            r is Some <==> level <= 200,
            r matches Some(l) ==> l.value() == level,
    {
        if level <= 200 {
            Some(PatchLevel(level))
        } else {
            None
        }
    }

    pub fn get(self) -> (r: u8)
        ensures
            r == self.value(),
            r <= 200,
    {
        proof {
            use_type_invariant(self);
        }
        self.0
    }

    /// Decode the two wire bytes; `None` unless both are nibbles and the
    /// value is at most 200.
    pub fn from_two_bytes(hi: u8, lo: u8) -> (r: Option<Self>)
        ensures
            r is Some <==> (nibble_pair_value(hi, lo) matches Some(v) && v <= 200),
            r matches Some(l) ==> nibble_pair_value(hi, lo) == Some(l.value()),
    {
        match decode_nibble_pair(hi, lo) {
            Some(v) => Self::new(v),
            None => None,
        }
    }

    pub fn to_two_bytes(self) -> (r: [u8; 2])
        ensures
            r@ == seq![nibble_pair_bytes(self.value()).0, nibble_pair_bytes(self.value()).1],
    {
        encode_nibble_pair(self.get())
    }
}


// ---------------------------------------------------------------------
// Addresses as integer keys
// ---------------------------------------------------------------------
/// The integer key of a 4-byte address: the bytes read big-endian.
pub open spec fn key_of(a0: u8, a1: u8, a2: u8, a3: u8) -> u32 {
    ((a0 as u32) << 24u32) | ((a1 as u32) << 16u32) | ((a2 as u32) << 8u32) | (a3 as u32)
}

/// The integer key of an address given as a sequence of four bytes.
pub open spec fn addr_key(a: Seq<u8>) -> u32 {
    key_of(a[0], a[1], a[2], a[3])
}

/// The four address bytes of a key, most significant first.
pub open spec fn key_bytes(k: u32) -> Seq<u8> {
    seq![(k >> 24u32) as u8, ((k >> 16u32) & 0xFF) as u8, ((k >> 8u32) & 0xFF) as u8, (k & 0xFF) as u8]
}

/// Law: an address and its key determine each other, and the key is the
/// big-endian value of the bytes.
pub proof fn lemma_key_bytes(k: u32, a0: u8, a1: u8, a2: u8, a3: u8)
    ensures
        addr_key(key_bytes(k)) == k,
        key_bytes(key_of(a0, a1, a2, a3)) == seq![a0, a1, a2, a3],
        key_of(a0, a1, a2, a3) as int == a0 as int * 0x1000000 + a1 as int * 0x10000 + a2 as int
            * 0x100 + a3 as int,
{
    let b0 = (k >> 24u32) as u8;
    let b1 = ((k >> 16u32) & 0xFF) as u8;
    let b2 = ((k >> 8u32) & 0xFF) as u8;
    let b3 = (k & 0xFF) as u8;
    assert((((b0 as u32) << 24u32) | ((b1 as u32) << 16u32) | ((b2 as u32) << 8u32) | (b3 as u32))
        == k) by (bit_vector)
        requires
            b0 == (k >> 24u32) as u8,
            b1 == ((k >> 16u32) & 0xFF) as u8,
            b2 == ((k >> 8u32) & 0xFF) as u8,
            b3 == (k & 0xFF) as u8,
    ;
    let kk = key_of(a0, a1, a2, a3);
    assert((kk >> 24u32) as u8 == a0 && ((kk >> 16u32) & 0xFF) as u8 == a1 && ((kk >> 8u32)
        & 0xFF) as u8 == a2 && (kk & 0xFF) as u8 == a3 && kk as int == a0 as int * 0x1000000
        + a1 as int * 0x10000 + a2 as int * 0x100 + a3 as int) by (bit_vector)
        requires
            kk == ((a0 as u32) << 24u32) | ((a1 as u32) << 16u32) | ((a2 as u32) << 8u32) | (
            a3 as u32),
    ;
    assert(key_bytes(kk) =~= seq![a0, a1, a2, a3]);
}

/// Key of a 4-byte address.
pub fn address_key(addr: [u8; 4]) -> (r: u32)
    ensures
        r == addr_key(addr@),
{
    ((addr[0] as u32) << 24u32) | ((addr[1] as u32) << 16u32) | ((addr[2] as u32) << 8u32) | (
    addr[3] as u32)
}

/// The 4-byte address of a key.
pub fn key_address(k: u32) -> (r: [u8; 4])
    ensures
        r@ == key_bytes(k),
        addr_key(r@) == k,
{
    proof {
        lemma_key_bytes(k, 0, 0, 0, 0);
    }
    let r = [(k >> 24u32) as u8, ((k >> 16u32) & 0xFF) as u8, ((k >> 8u32) & 0xFF) as u8, (k
        & 0xFF) as u8];
    assert(r@ =~= key_bytes(k));
    r
}

/// Key of the address of `current_patch_byte_0`.
pub const KEY_CURRENT_PATCH: u32 = 0x01000000;
/// Key of the address of `gk_set`.
pub const KEY_GK_SET: u32 = 0x02000000;
/// Key of the address of `output_select`.
pub const KEY_OUTPUT_SELECT: u32 = 0x02000001;
/// Key of the address of `assign_hold`.
pub const KEY_ASSIGN_HOLD: u32 = 0x02000002;
/// Key of the address of `midi_channel`.
pub const KEY_MIDI_CHANNEL: u32 = 0x02000003;
/// Key of the address of `pc_rx`.
pub const KEY_PC_RX: u32 = 0x02000004;
/// Key of the address of `pc_tx`.
pub const KEY_PC_TX: u32 = 0x02000005;
/// Key of the address of `v_link_tx_channel`.
pub const KEY_VLINK_TX_CHANNEL: u32 = 0x02000006;
/// Key of the address of `guitar_midi_out`.
pub const KEY_GUITAR_MIDI_OUT: u32 = 0x02000007;
/// Key of the address of `midi_out_mode`.
pub const KEY_MIDI_OUT_MODE: u32 = 0x02000008;
/// Key of the address of `chromatic`.
pub const KEY_CHROMATIC: u32 = 0x02000009;
/// Key of the address of `string_channel_base`.
pub const KEY_STRING_CHANNEL: u32 = 0x0200000A;
/// Key of the address of `data_thin`.
pub const KEY_DATA_THIN: u32 = 0x0200000B;
/// Key of the address of `ctl_pedal_cc`.
pub const KEY_CTL_PEDAL_CC: u32 = 0x0200000C;
/// Key of the address of `exp_pedal_cc`.
pub const KEY_EXP_PEDAL_CC: u32 = 0x0200000D;

// ---------------------------------------------------------------------
// The System area
// ---------------------------------------------------------------------
/// Typed view of the GR-55's System-area state. `unknown_bytes` holds
/// every addressed byte that is not a typed field, keyed by the address's
/// integer key (see [`address_key`]).
#[derive(Debug, Clone, PartialEq, Eq)]
pub struct SystemArea {
    pub current_patch_byte_0: Option<u8>,
    pub gk_set: Option<GkSet>,
    pub output_select: Option<OutputSelect>,
    pub assign_hold: Option<OnOff>,
    pub midi_channel: Option<MidiChannel>,
    pub pc_rx: Option<OnOff>,
    pub pc_tx: Option<OnOff>,
    pub v_link_tx_channel: Option<MidiChannel>,
    pub guitar_midi_out: Option<OnOff>,
    pub midi_out_mode: Option<MidiOutMode>,
    pub chromatic: Option<OnOff>,
    pub string_channel_base: Option<StringChannelBase>,
    pub data_thin: Option<OnOff>,
    pub ctl_pedal_cc: Option<PedalCc>,
    pub exp_pedal_cc: Option<PedalCc>,
    pub unknown_bytes: ByteMap,
}

/// Law: where each System field sits: the current patch at `01 00 00 00`,
/// then GK set, output select, assign hold, MIDI channel, PC receive, PC
/// transmit, V-LINK channel, guitar-to-MIDI, MIDI out mode, chromatic,
/// string channel base, data thin, CTL pedal CC# and EXP pedal CC# at
/// `02 00 00 00` to `02 00 00 0D`, in that order.
pub proof fn lemma_system_field_keys(a: SystemArea)
    ensures
        a.typed_byte(0x01000000) == a.current_patch_byte_0,
        a.typed_byte(0x02000000) == (match a.gk_set {
            Some(v) => Some(v.byte_spec()),
            None => None,
        }),
        a.typed_byte(0x02000001) == (match a.output_select {
            Some(v) => Some(v.byte_spec()),
            None => None,
        }),
        a.typed_byte(0x02000002) == (match a.assign_hold {
            Some(v) => Some(v.byte_spec()),
            None => None,
        }),
        a.typed_byte(0x02000003) == (match a.midi_channel {
            Some(v) => Some((v.value() - 1) as u8),
            None => None,
        }),
        a.typed_byte(0x02000004) == (match a.pc_rx {
            Some(v) => Some(v.byte_spec()),
            None => None,
        }),
        a.typed_byte(0x02000005) == (match a.pc_tx {
            Some(v) => Some(v.byte_spec()),
            None => None,
        }),
        a.typed_byte(0x02000006) == (match a.v_link_tx_channel {
            Some(v) => Some((v.value() - 1) as u8),
            None => None,
        }),
        a.typed_byte(0x02000007) == (match a.guitar_midi_out {
            Some(v) => Some(v.byte_spec()),
            None => None,
        }),
        a.typed_byte(0x02000008) == (match a.midi_out_mode {
            Some(v) => Some(v.byte_spec()),
            None => None,
        }),
        a.typed_byte(0x02000009) == (match a.chromatic {
            Some(v) => Some(v.byte_spec()),
            None => None,
        }),
        a.typed_byte(0x0200000A) == (match a.string_channel_base {
            Some(v) => Some(v.value()),
            None => None,
        }),
        a.typed_byte(0x0200000B) == (match a.data_thin {
            Some(v) => Some(v.byte_spec()),
            None => None,
        }),
        a.typed_byte(0x0200000C) == (match a.ctl_pedal_cc {
            Some(v) => v.byte_spec(),
            None => None,
        }),
        a.typed_byte(0x0200000D) == (match a.exp_pedal_cc {
            Some(v) => v.byte_spec(),
            None => None,
        }),
{
}

impl SystemArea {
    /// The wire byte each typed field contributes at key `k`.
    pub open spec fn typed_byte(self, k: u32) -> Option<u8> {
        if k == KEY_CURRENT_PATCH {
            self.current_patch_byte_0
        } else if k == KEY_GK_SET {
            match self.gk_set { Some(v) => Some(v.byte_spec()), None => None }
        } else if k == KEY_OUTPUT_SELECT {
            match self.output_select { Some(v) => Some(v.byte_spec()), None => None }
        } else if k == KEY_ASSIGN_HOLD {
            match self.assign_hold { Some(v) => Some(v.byte_spec()), None => None }
        } else if k == KEY_MIDI_CHANNEL {
            match self.midi_channel { Some(v) => Some((v.value() - 1) as u8), None => None }
        } else if k == KEY_PC_RX {
            match self.pc_rx { Some(v) => Some(v.byte_spec()), None => None }
        } else if k == KEY_PC_TX {
            match self.pc_tx { Some(v) => Some(v.byte_spec()), None => None }
        } else if k == KEY_VLINK_TX_CHANNEL {
            match self.v_link_tx_channel { Some(v) => Some((v.value() - 1) as u8), None => None }
        } else if k == KEY_GUITAR_MIDI_OUT {
            match self.guitar_midi_out { Some(v) => Some(v.byte_spec()), None => None }
        } else if k == KEY_MIDI_OUT_MODE {
            match self.midi_out_mode { Some(v) => Some(v.byte_spec()), None => None }
        } else if k == KEY_CHROMATIC {
            match self.chromatic { Some(v) => Some(v.byte_spec()), None => None }
        } else if k == KEY_STRING_CHANNEL {
            match self.string_channel_base { Some(v) => Some(v.value()), None => None }
        } else if k == KEY_DATA_THIN {
            match self.data_thin { Some(v) => Some(v.byte_spec()), None => None }
        } else if k == KEY_CTL_PEDAL_CC {
            match self.ctl_pedal_cc { Some(v) => v.byte_spec(), None => None }
        } else if k == KEY_EXP_PEDAL_CC {
            match self.exp_pedal_cc { Some(v) => v.byte_spec(), None => None }
        } else {
            None
        }
    }

    /// The typed fields at keys up to `bound`, as a map from key to wire
    /// byte.
    pub open spec fn typed_upto(self, bound: u32) -> Map<u32, u8> {
        Map::new(
            |k: u32| system_key(k) && k <= bound && self.typed_byte(k) is Some,
            |k: u32| self.typed_byte(k)->0,
        )
    }

    /// The typed fields as a map from key to wire byte.
    pub open spec fn typed_map(self) -> Map<u32, u8> {
        self.typed_upto(KEY_EXP_PEDAL_CC)
    }

    /// Every byte the area puts on the wire; an unknown byte at a typed
    /// key overrides the typed field.
    pub open spec fn wire(self) -> Map<u32, u8> {
        self.typed_map().union_prefer_right(self.unknown_bytes@)
    }

    /// Both pedal assignments can be encoded.
    pub open spec fn pedals_encodable(self) -> bool {
        &&& (self.ctl_pedal_cc matches Some(p) ==> p.byte_spec() is Some)
        &&& (self.exp_pedal_cc matches Some(p) ==> p.byte_spec() is Some)
    }

    /// The error encoding reports when a pedal assignment cannot be encoded.
    pub open spec fn pedal_error(self) -> CodecError {
        if self.ctl_pedal_cc matches Some(p) && p.byte_spec() is None {
            CodecError::PedalCcOutOfRange(self.ctl_pedal_cc.unwrap().raw_spec())
        } else {
            CodecError::PedalCcOutOfRange(self.exp_pedal_cc.unwrap().raw_spec())
        }
    }

    /// An area with no field set and no unknown byte.
    pub fn new() -> (r: SystemArea)
        ensures
            r.current_patch_byte_0 is None,
            r.gk_set is None,
            r.output_select is None,
            r.assign_hold is None,
            r.midi_channel is None,
            r.pc_rx is None,
            r.pc_tx is None,
            r.v_link_tx_channel is None,
            r.guitar_midi_out is None,
            r.midi_out_mode is None,
            r.chromatic is None,
            r.string_channel_base is None,
            r.data_thin is None,
            r.ctl_pedal_cc is None,
            r.exp_pedal_cc is None,
            r.unknown_bytes@ == Map::<u32, u8>::empty(),
            r.wire() == Map::<u32, u8>::empty(),
    {
        let r = SystemArea {
            current_patch_byte_0: None,
            gk_set: None,
            output_select: None,
            assign_hold: None,
            midi_channel: None,
            pc_rx: None,
            pc_tx: None,
            v_link_tx_channel: None,
            guitar_midi_out: None,
            midi_out_mode: None,
            chromatic: None,
            string_channel_base: None,
            data_thin: None,
            ctl_pedal_cc: None,
            exp_pedal_cc: None,
            unknown_bytes: ByteMap::new(),
        };
        assert(r.typed_map() =~= Map::<u32, u8>::empty());
        assert(r.wire() =~= Map::<u32, u8>::empty());
        r
    }
}

/// `m` with `k` mapped to the byte in `o`, if there is one.
pub open spec fn opt_insert(m: Map<u32, u8>, k: u32, o: Option<u8>) -> Map<u32, u8> {
    match o {
        Some(b) => m.insert(k, b),
        None => m,
    }
}

/// The keys of the typed System fields.
pub open spec fn system_key(k: u32) -> bool {
    k == KEY_CURRENT_PATCH || (KEY_GK_SET <= k <= KEY_EXP_PEDAL_CC)
}

/// The field a decoder reads from the byte found at a typed key: what the
/// decoder of that field's type makes of it.
pub open spec fn decodes_to(a: SystemArea, m: Map<u32, u8>) -> bool {
    &&& a.current_patch_byte_0 == m.get(KEY_CURRENT_PATCH)
    &&& a.gk_set == (match m.get(KEY_GK_SET) { Some(b) => GkSet::from_byte_spec(b), None => None })
    &&& a.output_select == (match m.get(KEY_OUTPUT_SELECT) { Some(b) => OutputSelect::from_byte_spec(b), None => None })
    &&& a.assign_hold == (match m.get(KEY_ASSIGN_HOLD) { Some(b) => OnOff::from_byte_spec(b), None => None })
    &&& (a.midi_channel is Some <==> (m.get(KEY_MIDI_CHANNEL) matches Some(b) && b <= 15))
    &&& (a.midi_channel matches Some(c) ==> c.value() == m[KEY_MIDI_CHANNEL] + 1)
    &&& a.pc_rx == (match m.get(KEY_PC_RX) { Some(b) => OnOff::from_byte_spec(b), None => None })
    &&& a.pc_tx == (match m.get(KEY_PC_TX) { Some(b) => OnOff::from_byte_spec(b), None => None })
    &&& (a.v_link_tx_channel is Some <==> (m.get(KEY_VLINK_TX_CHANNEL) matches Some(b) && b <= 15))
    &&& (a.v_link_tx_channel matches Some(c) ==> c.value() == m[KEY_VLINK_TX_CHANNEL] + 1)
    &&& a.guitar_midi_out == (match m.get(KEY_GUITAR_MIDI_OUT) { Some(b) => OnOff::from_byte_spec(b), None => None })
    &&& a.midi_out_mode == (match m.get(KEY_MIDI_OUT_MODE) { Some(b) => MidiOutMode::from_byte_spec(b), None => None })
    &&& a.chromatic == (match m.get(KEY_CHROMATIC) { Some(b) => OnOff::from_byte_spec(b), None => None })
    &&& (a.string_channel_base is Some <==> (m.get(KEY_STRING_CHANNEL) matches Some(b) && b <= 10))
    &&& (a.string_channel_base matches Some(c) ==> c.value() == m[KEY_STRING_CHANNEL])
    &&& a.data_thin == (match m.get(KEY_DATA_THIN) { Some(b) => OnOff::from_byte_spec(b), None => None })
    &&& a.ctl_pedal_cc == (match m.get(KEY_CTL_PEDAL_CC) { Some(b) => PedalCc::from_byte_spec(b), None => None })
    &&& a.exp_pedal_cc == (match m.get(KEY_EXP_PEDAL_CC) { Some(b) => PedalCc::from_byte_spec(b), None => None })
    &&& a.unknown_bytes@ == m.remove_keys(Set::new(|k: u32| system_key(k)))
}

proof fn lemma_upto_step(a: SystemArea, prev: u32, k: u32)
    requires
        prev < k,
        system_key(k),
        forall|x: u32| prev < x < k ==> !system_key(x),
    ensures
        a.typed_upto(k) == opt_insert(a.typed_upto(prev), k, a.typed_byte(k)),
{
    assert(a.typed_upto(k) =~= opt_insert(a.typed_upto(prev), k, a.typed_byte(k)));
}

/// Insert `k` ↦ the byte in `o`, if there is one.
pub fn insert_opt(m: &mut ByteMap, k: u32, o: Option<u8>)
    ensures
        final(m)@ == opt_insert(old(m)@, k, o),
{
    if let Some(b) = o {
        m.insert(k, b);
    }
}

impl SystemArea {
    /// Split a key → byte map into the typed fields and the unknown rest.
    pub fn from_byte_map(bytes: ByteMap) -> (r: SystemArea)
        ensures
            decodes_to(r, bytes@),
    {
        let ghost m = bytes@;
        let mut bytes = bytes;
        let current_patch_byte_0 = bytes.remove(KEY_CURRENT_PATCH);
        let gk_set = match bytes.remove(KEY_GK_SET) { Some(b) => GkSet::from_byte(b), None => None };
        let output_select = match bytes.remove(KEY_OUTPUT_SELECT) { Some(b) => OutputSelect::from_byte(b), None => None };
        let assign_hold = match bytes.remove(KEY_ASSIGN_HOLD) { Some(b) => OnOff::from_byte(b), None => None };
        let midi_channel = match bytes.remove(KEY_MIDI_CHANNEL) { Some(b) => MidiChannel::from_byte(b), None => None };
        let pc_rx = match bytes.remove(KEY_PC_RX) { Some(b) => OnOff::from_byte(b), None => None };
        let pc_tx = match bytes.remove(KEY_PC_TX) { Some(b) => OnOff::from_byte(b), None => None };
        let v_link_tx_channel = match bytes.remove(KEY_VLINK_TX_CHANNEL) { Some(b) => MidiChannel::from_byte(b), None => None };
        let guitar_midi_out = match bytes.remove(KEY_GUITAR_MIDI_OUT) { Some(b) => OnOff::from_byte(b), None => None };
        let midi_out_mode = match bytes.remove(KEY_MIDI_OUT_MODE) { Some(b) => MidiOutMode::from_byte(b), None => None };
        let chromatic = match bytes.remove(KEY_CHROMATIC) { Some(b) => OnOff::from_byte(b), None => None };
        let string_channel_base = match bytes.remove(KEY_STRING_CHANNEL) { Some(b) => StringChannelBase::new(b), None => None };
        let data_thin = match bytes.remove(KEY_DATA_THIN) { Some(b) => OnOff::from_byte(b), None => None };
        let ctl_pedal_cc = match bytes.remove(KEY_CTL_PEDAL_CC) { Some(b) => PedalCc::from_byte(b), None => None };
        let exp_pedal_cc = match bytes.remove(KEY_EXP_PEDAL_CC) { Some(b) => PedalCc::from_byte(b), None => None };
        let r = SystemArea {
            current_patch_byte_0,
            gk_set,
            output_select,
            assign_hold,
            midi_channel,
            pc_rx,
            pc_tx,
            v_link_tx_channel,
            guitar_midi_out,
            midi_out_mode,
            chromatic,
            string_channel_base,
            data_thin,
            ctl_pedal_cc,
            exp_pedal_cc,
            unknown_bytes: bytes,
        };
        assert(r.unknown_bytes@ =~= m.remove_keys(Set::new(|k: u32| system_key(k))));
        r
    }

    /// The typed fields' bytes, given the pedal bytes.
    fn typed_bytes(&self, ctl: Option<u8>, exp: Option<u8>) -> (r: ByteMap)
        requires
            ctl == self.typed_byte(KEY_CTL_PEDAL_CC),
            exp == self.typed_byte(KEY_EXP_PEDAL_CC),
        ensures
            r@ == self.typed_map(),
    {
        let mut bytes = ByteMap::new();
        proof {
            assert(self.typed_upto(0) =~= Map::<u32, u8>::empty());
        }
        let o: Option<u8> = self.current_patch_byte_0;
        assert(o == self.typed_byte(KEY_CURRENT_PATCH));
        insert_opt(&mut bytes, KEY_CURRENT_PATCH, o);
        proof {
            lemma_upto_step(*self, 0, KEY_CURRENT_PATCH);
        }
        let o: Option<u8> = match self.gk_set {
            Some(v) => Some(v.to_byte()),
            None => None,
        };
        assert(o == self.typed_byte(KEY_GK_SET));
        insert_opt(&mut bytes, KEY_GK_SET, o);
        proof {
            lemma_upto_step(*self, KEY_CURRENT_PATCH, KEY_GK_SET);
        }
        let o: Option<u8> = match self.output_select {
            Some(v) => Some(v.to_byte()),
            None => None,
        };
        assert(o == self.typed_byte(KEY_OUTPUT_SELECT));
        insert_opt(&mut bytes, KEY_OUTPUT_SELECT, o);
        proof {
            lemma_upto_step(*self, KEY_GK_SET, KEY_OUTPUT_SELECT);
        }
        let o: Option<u8> = match self.assign_hold {
            Some(v) => Some(v.to_byte()),
            None => None,
        };
        assert(o == self.typed_byte(KEY_ASSIGN_HOLD));
        insert_opt(&mut bytes, KEY_ASSIGN_HOLD, o);
        proof {
            lemma_upto_step(*self, KEY_OUTPUT_SELECT, KEY_ASSIGN_HOLD);
        }
        let o: Option<u8> = match self.midi_channel {
            Some(v) => Some(v.to_byte()),
            None => None,
        };
        assert(o == self.typed_byte(KEY_MIDI_CHANNEL));
        insert_opt(&mut bytes, KEY_MIDI_CHANNEL, o);
        proof {
            lemma_upto_step(*self, KEY_ASSIGN_HOLD, KEY_MIDI_CHANNEL);
        }
        let o: Option<u8> = match self.pc_rx {
            Some(v) => Some(v.to_byte()),
            None => None,
        };
        assert(o == self.typed_byte(KEY_PC_RX));
        insert_opt(&mut bytes, KEY_PC_RX, o);
        proof {
            lemma_upto_step(*self, KEY_MIDI_CHANNEL, KEY_PC_RX);
        }
        let o: Option<u8> = match self.pc_tx {
            Some(v) => Some(v.to_byte()),
            None => None,
        };
        assert(o == self.typed_byte(KEY_PC_TX));
        insert_opt(&mut bytes, KEY_PC_TX, o);
        proof {
            lemma_upto_step(*self, KEY_PC_RX, KEY_PC_TX);
        }
        let o: Option<u8> = match self.v_link_tx_channel {
            Some(v) => Some(v.to_byte()),
            None => None,
        };
        assert(o == self.typed_byte(KEY_VLINK_TX_CHANNEL));
        insert_opt(&mut bytes, KEY_VLINK_TX_CHANNEL, o);
        proof {
            lemma_upto_step(*self, KEY_PC_TX, KEY_VLINK_TX_CHANNEL);
        }
        let o: Option<u8> = match self.guitar_midi_out {
            Some(v) => Some(v.to_byte()),
            None => None,
        };
        assert(o == self.typed_byte(KEY_GUITAR_MIDI_OUT));
        insert_opt(&mut bytes, KEY_GUITAR_MIDI_OUT, o);
        proof {
            lemma_upto_step(*self, KEY_VLINK_TX_CHANNEL, KEY_GUITAR_MIDI_OUT);
        }
        let o: Option<u8> = match self.midi_out_mode {
            Some(v) => Some(v.to_byte()),
            None => None,
        };
        assert(o == self.typed_byte(KEY_MIDI_OUT_MODE));
        insert_opt(&mut bytes, KEY_MIDI_OUT_MODE, o);
        proof {
            lemma_upto_step(*self, KEY_GUITAR_MIDI_OUT, KEY_MIDI_OUT_MODE);
        }
        let o: Option<u8> = match self.chromatic {
            Some(v) => Some(v.to_byte()),
            None => None,
        };
        assert(o == self.typed_byte(KEY_CHROMATIC));
        insert_opt(&mut bytes, KEY_CHROMATIC, o);
        proof {
            lemma_upto_step(*self, KEY_MIDI_OUT_MODE, KEY_CHROMATIC);
        }
        let o: Option<u8> = match self.string_channel_base {
            Some(v) => Some(v.get()),
            None => None,
        };
        assert(o == self.typed_byte(KEY_STRING_CHANNEL));
        insert_opt(&mut bytes, KEY_STRING_CHANNEL, o);
        proof {
            lemma_upto_step(*self, KEY_CHROMATIC, KEY_STRING_CHANNEL);
        }
        let o: Option<u8> = match self.data_thin {
            Some(v) => Some(v.to_byte()),
            None => None,
        };
        assert(o == self.typed_byte(KEY_DATA_THIN));
        insert_opt(&mut bytes, KEY_DATA_THIN, o);
        proof {
            lemma_upto_step(*self, KEY_STRING_CHANNEL, KEY_DATA_THIN);
        }
        let o: Option<u8> = ctl;
        assert(o == self.typed_byte(KEY_CTL_PEDAL_CC));
        insert_opt(&mut bytes, KEY_CTL_PEDAL_CC, o);
        proof {
            lemma_upto_step(*self, KEY_DATA_THIN, KEY_CTL_PEDAL_CC);
        }
        let o: Option<u8> = exp;
        assert(o == self.typed_byte(KEY_EXP_PEDAL_CC));
        insert_opt(&mut bytes, KEY_EXP_PEDAL_CC, o);
        proof {
            lemma_upto_step(*self, KEY_CTL_PEDAL_CC, KEY_EXP_PEDAL_CC);
        }
        bytes
    }

    /// All the area's wire bytes, keyed by address; fails if a pedal
    /// assignment cannot be encoded.
    pub fn to_byte_map(&self) -> (r: Result<ByteMap, CodecError>)
        ensures
            r is Ok <==> self.pedals_encodable(),
            r matches Ok(m) ==> m@ == self.wire(),
            r matches Err(e) ==> e == self.pedal_error(),
    {
        let ctl: Option<u8> = match self.ctl_pedal_cc {
            Some(v) => match v.to_byte() {
                Some(b) => Some(b),
                None => {
                    return Err(CodecError::PedalCcOutOfRange(v.raw()));
                },
            },
            None => None,
        };
        let exp: Option<u8> = match self.exp_pedal_cc {
            Some(v) => match v.to_byte() {
                Some(b) => Some(b),
                None => {
                    return Err(CodecError::PedalCcOutOfRange(v.raw()));
                },
            },
            None => None,
        };
        let mut bytes = self.typed_bytes(ctl, exp);
        bytes.extend_from(&self.unknown_bytes);
        Ok(bytes)
    }
}

// ---------------------------------------------------------------------
// Frames
// ---------------------------------------------------------------------
/// How many bytes of an `n`-byte DT1 run starting at address LSB `lsb`
/// land at 7-bit addresses: the run stops before the LSB passes `0x7F`.
pub open spec fn run_len(lsb: u8, n: nat) -> nat {
    if lsb > 0x7F {
        0
    } else if n <= 0x80 - lsb {
        n
    } else {
        (0x80 - lsb) as nat
    }
}

/// `m` after writing the first `n` bytes of `data` at `addr`, `addr + 1`,
/// ... (the LSB counts up; the other three bytes stay).
pub open spec fn write_run(m: Map<u32, u8>, addr: Seq<u8>, data: Seq<u8>, n: nat) -> Map<u32, u8>
    decreases n,
{
    if n == 0 {
        m
    } else {
        write_run(m, addr, data, (n - 1) as nat).insert(
            key_of(addr[0], addr[1], addr[2], (addr[3] + n - 1) as u8),
            data[n - 1],
        )
    }
}

/// `m` after the System-area bytes of one frame: DT1 frames at MSB `0x01`
/// or `0x02` write their run; every other frame is ignored.
pub open spec fn system_frame_bytes(m: Map<u32, u8>, f: FrameView) -> Map<u32, u8> {
    match f {
        FrameView::Dt1 { address, data, .. } => if address[0] == 1 || address[0] == 2 {
            write_run(m, address, data, run_len(address[3], data.len()))
        } else {
            m
        },
        FrameView::Rq1 { .. } => m,
    }
}

/// The System-area bytes a frame sequence writes, later writes winning.
pub open spec fn system_bytes(fs: Seq<FrameView>) -> Map<u32, u8>
    decreases fs.len(),
{
    if fs.len() == 0 {
        Map::empty()
    } else {
        system_frame_bytes(system_bytes(fs.drop_last()), fs.last())
    }
}

/// The views of a slice of frames.
pub open spec fn frame_views(fs: Seq<Frame>) -> Seq<FrameView> {
    fs.map_values(|f: Frame| f@)
}

/// The (key, byte) writes of one frame, in order: byte `i` of a DT1 frame
/// goes to the frame's key plus `i`. RQ1 frames write nothing.
pub open spec fn frame_writes(f: FrameView) -> Seq<(u32, u8)> {
    match f {
        FrameView::Dt1 { address, data, .. } => Seq::new(
            data.len(),
            |i: int| ((addr_key(address) + i) as u32, data[i]),
        ),
        FrameView::Rq1 { .. } => Seq::empty(),
    }
}

/// The writes of a frame sequence, frame after frame.
pub open spec fn all_writes(fs: Seq<FrameView>) -> Seq<(u32, u8)>
    decreases fs.len(),
{
    if fs.len() == 0 {
        Seq::empty()
    } else {
        all_writes(fs.drop_last()) + frame_writes(fs.last())
    }
}

/// A DT1 frame from `device_id` whose run is non-empty and does not carry
/// past address LSB `0xFF`.
pub open spec fn is_packed_frame(f: FrameView, device_id: u8) -> bool {
    f matches FrameView::Dt1 { device_id: d, address, data } && d == device_id && address.len()
        == 4 && data.len() >= 1 && address[3] + data.len() - 1 <= 0xFF
}

/// Key of the first and of the last byte a DT1 frame writes.
pub open spec fn first_key(f: FrameView) -> u32 {
    match f {
        FrameView::Dt1 { address, .. } => addr_key(address),
        FrameView::Rq1 { address, .. } => addr_key(address),
    }
}

pub open spec fn last_key(f: FrameView) -> u32 {
    match f {
        FrameView::Dt1 { address, data, .. } => (addr_key(address) + data.len() - 1) as u32,
        FrameView::Rq1 { address, .. } => addr_key(address),
    }
}

/// Two keys that one frame could carry in a row: the second follows the
/// first and the first's LSB is below `0xFF`.
pub open spec fn contiguous(k1: u32, k2: u32) -> bool {
    k2 == k1 + 1 && k1 % 256 != 255
}

/// The frames carry exactly the entries of `s`, in order, each frame as
/// long as contiguity allows.
pub open spec fn packs(fs: Seq<FrameView>, device_id: u8, s: Seq<(u32, u8)>) -> bool {
    &&& all_writes(fs) == s
    &&& forall|j: int| 0 <= j < fs.len() ==> #[trigger] is_packed_frame(fs[j], device_id)
    &&& forall|j: int|
        0 <= j < fs.len() - 1 ==> !contiguous(#[trigger] last_key(fs[j]), first_key(fs[j + 1]))
}

proof fn lemma_all_writes_push(fs: Seq<FrameView>, f: FrameView)
    ensures
        all_writes(fs.push(f)) == all_writes(fs) + frame_writes(f),
{
    assert(fs.push(f).drop_last() =~= fs);
}

proof fn lemma_system_bytes_push(fs: Seq<FrameView>, f: FrameView)
    ensures
        system_bytes(fs.push(f)) == system_frame_bytes(system_bytes(fs), f),
{
    assert(fs.push(f).drop_last() =~= fs);
}

impl SystemArea {
    /// Decode a sequence of frames into a `SystemArea`. RQ1 frames and
    /// frames outside the System-area MSBs (`0x01`, `0x02`) are ignored.
    pub fn from_frames(frames: &[Frame]) -> (r: SystemArea)
        ensures
            decodes_to(r, system_bytes(frame_views(frames@))),
    {
        let ghost views = frame_views(frames@);
        let mut bytes = ByteMap::new();
        let mut fi: usize = 0;
        proof {
            assert(views.take(0) =~= Seq::<FrameView>::empty());
        }
        while fi < frames.len()
            invariant
                fi <= frames.len(),
                views == frame_views(frames@),
                bytes@ == system_bytes(views.take(fi as int)),
            decreases frames.len() - fi,
        {
            proof {
                assert(views.take(fi + 1) =~= views.take(fi as int).push(views[fi as int]));
                lemma_system_bytes_push(views.take(fi as int), views[fi as int]);
            }
            match &frames[fi] {
                Frame::Dt1 { address, data, .. } => {
                    if address[0] == 1 || address[0] == 2 {
                        let ghost start = bytes@;
                        let mut i: usize = 0;
                        while i < data.len()
                            invariant
                                i <= data.len(),
                                i == 0 || address[3] + i <= 0x80,
                                bytes@ == write_run(start, address@, data@, i as nat),
                            ensures
                                bytes@ == write_run(start, address@, data@, run_len(address[3], data@.len())),
                            decreases data.len() - i,
                        {
                            if i > 0x7F {
                                break;
                            }
                            let lsb: u32 = address[3] as u32 + i as u32;
                            if lsb > 0x7F {
                                break;
                            }
                            bytes.insert(address_key([address[0], address[1], address[2], lsb as u8]), data[i]);
                            i += 1;
                        }
                    }
                },
                Frame::Rq1 { .. } => {},
            }
            fi += 1;
        }
        proof {
            assert(views.take(frames.len() as int) =~= views);
        }
        Self::from_byte_map(bytes)
    }
}

/// `p` holds the bytes of the entries of `s` from index `i0` on, whose keys
/// count up from `start`.
spec fn run_matches(p: Seq<u8>, s: Seq<(u32, u8)>, i0: int, start: u32) -> bool {
    forall|j: int| 0 <= j < p.len() ==> (#[trigger] p[j]) == s[i0 + j].1 && s[i0 + j].0 == start + j
}

/// Pack the entries of a map into DT1 frames, one per run of contiguous
/// keys.
pub fn pack_dt1_frames(device_id: u8, bytes: &ByteMap) -> (r: Vec<Frame>)
    ensures
        packs(frame_views(r@), device_id, bytes.entries_spec()),
{
    let n = bytes.len();
    let ghost s = bytes.entries_spec();
    let mut frames: Vec<Frame> = Vec::new();
    let mut i: usize = 0;
    proof {
        assert(frame_views(frames@) =~= Seq::<FrameView>::empty());
        assert(s.take(0) =~= Seq::<(u32, u8)>::empty());
    }
    while i < n
        invariant
            n == s.len(),
            s == bytes.entries_spec(),
            sorted_keys(s),
            i <= n,
            packs(frame_views(frames@), device_id, s.take(i as int)),
            frames@.len() > 0 && i < n ==> !contiguous(last_key(frame_views(frames@).last()), s[i as int].0),
            frames@.len() > 0 ==> last_key(frame_views(frames@).last()) == s[i - 1].0,
        decreases n - i,
    {
        let i0 = i;
        let (start, b0) = bytes.entry(i);
        let mut payload: Vec<u8> = Vec::new();
        payload.push(b0);
        let mut last = start;
        i += 1;
        assert(payload@[0] == s[i0 as int].1);
        assert(run_matches(payload@, s, i0 as int, start));
        let mut go = true;
        while i < n && go
            invariant
                n == s.len(),
                s == bytes.entries_spec(),
                sorted_keys(s),
                i0 < i <= n,
                start == s[i0 as int].0,
                last == s[i - 1].0,
                payload@.len() == i - i0,
                start % 256 + payload@.len() - 1 <= 255,
                last % 256 == start % 256 + payload@.len() - 1,
                last == start + payload@.len() - 1,
                !go ==> i < n && !contiguous(last, s[i as int].0),
                run_matches(payload@, s, i0 as int, start),
            decreases n - i + (if go { 1int } else { 0int }),
        {
            let (k, b) = bytes.entry(i);
            if last % 256 != 255 && k == last + 1 {
                let ghost old_p = payload@;
                payload.push(b);
                proof {
                    assert forall|j: int| 0 <= j < payload@.len() implies (#[trigger] payload@[j])
                        == s[i0 + j].1 && s[i0 + j].0 == start + j by {
                        assert(run_matches(old_p, s, i0 as int, start));
                        if j < old_p.len() {
                            assert(payload@[j] == old_p[j]);
                        } else {
                            assert(i0 + j == i);
                        }
                    }
                    assert(run_matches(payload@, s, i0 as int, start));
                }
                last = k;
                i += 1;
            } else {
                go = false;
            }
        }
        let address = key_address(start);
        let ghost pl = payload@;
        assert(run_matches(pl, s, i0 as int, start));
        let ghost old_frames = frame_views(frames@);
        frames.push(Frame::Dt1 { device_id, address, data: payload });
        proof {
            let f = frame_views(frames@).last();
            assert(frame_views(frames@) =~= old_frames.push(f));
            lemma_all_writes_push(old_frames, f);
            lemma_key_bytes(start, 0, 0, 0, 0);
            let a3: u8 = address@[3];
            assert(a3 == start % 256) by (bit_vector)
                requires
                    a3 == (start & 0xFF) as u8,
            ;
            assert(frame_writes(f) =~= s.subrange(i0 as int, i as int)) by {
                assert forall|j: int| 0 <= j < pl.len() implies #[trigger] pl[j] == s[i0 + j].1
                    && s[i0 + j].0 == start + j by {}
            }
            assert(last_key(f) == last);
            assert(s.take(i as int) =~= s.take(i0 as int) + s.subrange(i0 as int, i as int));
        }
    }
    proof {
        assert(s.take(n as int) =~= s);
    }
    frames
}

/// A key the System decoder keeps: MSB `0x01` or `0x02`, LSB at most `0x7F`.
pub open spec fn system_addressable(k: u32) -> bool {
    (k / 0x1000000 == 1 || k / 0x1000000 == 2) && k % 0x100 <= 0x7F
}

impl SystemArea {
    /// Encode the area as DT1 frames, packing contiguous bytes into as few
    /// frames as possible.
    pub fn to_frames(&self, device_id: u8) -> (r: Result<Vec<Frame>, CodecError>)
        ensures
            r is Ok <==> self.pedals_encodable(),
            r matches Err(e) ==> e == self.pedal_error(),
            r matches Ok(fs) ==> {
                let w = all_writes(frame_views(fs@));
                &&& sorted_keys(w)
                &&& entries_map(w) == self.wire()
                &&& packs(frame_views(fs@), device_id, w)
            },
    {
        match self.to_byte_map() {
            Ok(bytes) => {
                let _ = bytes.len();
                Ok(pack_dt1_frames(device_id, &bytes))
            },
            Err(e) => Err(e),
        }
    }

    /// The two areas hold the same fields and the same unknown bytes.
    pub open spec fn same_content(self, other: SystemArea) -> bool {
        &&& self.current_patch_byte_0 == other.current_patch_byte_0
        &&& self.gk_set == other.gk_set
        &&& self.output_select == other.output_select
        &&& self.assign_hold == other.assign_hold
        &&& self.midi_channel == other.midi_channel
        &&& self.pc_rx == other.pc_rx
        &&& self.pc_tx == other.pc_tx
        &&& self.v_link_tx_channel == other.v_link_tx_channel
        &&& self.guitar_midi_out == other.guitar_midi_out
        &&& self.midi_out_mode == other.midi_out_mode
        &&& self.chromatic == other.chromatic
        &&& self.string_channel_base == other.string_channel_base
        &&& self.data_thin == other.data_thin
        &&& self.ctl_pedal_cc == other.ctl_pedal_cc
        &&& self.exp_pedal_cc == other.exp_pedal_cc
        &&& self.unknown_bytes@ == other.unknown_bytes@
    }

    /// The typed values are within their types' ranges.
    pub open spec fn values_valid(self) -> bool {
        &&& (self.midi_channel matches Some(c) ==> 1 <= c.value() <= 16)
        &&& (self.v_link_tx_channel matches Some(c) ==> 1 <= c.value() <= 16)
        &&& (self.string_channel_base matches Some(c) ==> c.value() <= 10)
    }
}

proof fn lemma_write_run_frame(m: Map<u32, u8>, s: Seq<(u32, u8)>, p: int, addr: Seq<u8>, data: Seq<u8>, i: nat)
    requires
        sorted_keys(s),
        addr.len() == 4,
        0 <= p,
        p + data.len() <= s.len(),
        i <= data.len(),
        addr[3] + data.len() <= 0x80,
        m == entries_map(s.take(p)),
        forall|j: int| 0 <= j < data.len() ==> #[trigger] s[p + j] == ((addr_key(addr) + j) as u32, data[j]),
    ensures
        write_run(m, addr, data, i) == entries_map(s.take(p + i)),
    decreases i,
{
    if i > 0 {
        lemma_write_run_frame(m, s, p, addr, data, (i - 1) as nat);
        lemma_key_bytes(0, addr[0], addr[1], addr[2], addr[3]);
        lemma_key_bytes(0, addr[0], addr[1], addr[2], (addr[3] + i - 1) as u8);
        assert(s[p + (i - 1)] == ((addr_key(addr) + (i - 1)) as u32, data[i - 1]));
        lemma_entries_map_prefix(s, p + i - 1);
    }
}

/// Law: decoding frames that pack a sorted run of System-addressable
/// entries gives back exactly those entries.
pub proof fn lemma_packed_system_bytes(fs: Seq<FrameView>, device_id: u8, s: Seq<(u32, u8)>)
    requires
        packs(fs, device_id, s),
        sorted_keys(s),
        forall|i: int| 0 <= i < s.len() ==> system_addressable(#[trigger] s[i].0),
    ensures
        system_bytes(fs) == entries_map(s),
    decreases fs.len(),
{
    if fs.len() == 0 {
        assert(entries_map(s) =~= Map::<u32, u8>::empty());
    } else {
        let fs0 = fs.drop_last();
        let f = fs.last();
        let w0 = all_writes(fs0);
        let p = w0.len() as int;
        assert(s == w0 + frame_writes(f));
        assert(w0 =~= s.take(p));
        assert(sorted_keys(w0));
        assert forall|j: int| 0 <= j < fs0.len() implies #[trigger] is_packed_frame(fs0[j], device_id) by {
            assert(fs0[j] == fs[j]);
        }
        assert forall|j: int| 0 <= j < fs0.len() - 1 implies !contiguous(#[trigger] last_key(fs0[j]), first_key(fs0[j + 1])) by {
            assert(fs0[j] == fs[j]);
            assert(fs0[j + 1] == fs[j + 1]);
        }
        assert forall|i: int| 0 <= i < w0.len() implies system_addressable(#[trigger] w0[i].0) by {
            assert(w0[i] == s[i]);
        }
        lemma_packed_system_bytes(fs0, device_id, w0);
        assert(is_packed_frame(fs[fs.len() - 1], device_id));
        match f {
            FrameView::Dt1 { address, data, .. } => {
                lemma_key_bytes(0, address[0], address[1], address[2], address[3]);
                let k0 = addr_key(address);
                assert(s[p] == frame_writes(f)[0]);
                assert(system_addressable(s[p].0));
                assert(k0 / 0x1000000 == address[0]);
                let last = data.len() - 1;
                assert(s[p + last] == frame_writes(f)[last]);
                assert(system_addressable(s[p + last].0));
                assert((k0 + last) % 0x100 == address[3] + last);
                assert(run_len(address[3], data.len()) == data.len());
                assert forall|j: int| 0 <= j < data.len() implies #[trigger] s[p + j] == ((addr_key(address) + j) as u32, data[j]) by {
                    assert(s[p + j] == frame_writes(f)[j]);
                }
                lemma_write_run_frame(system_bytes(fs0), s, p, address, data, data.len());
                assert(s.take(p + data.len()) =~= s);
            },
            FrameView::Rq1 { .. } => {},
        }
    }
}

/// The typed map holds exactly the typed bytes.
pub proof fn lemma_typed_map_get(a: SystemArea, k: u32)
    ensures
        a.typed_map().get(k) == a.typed_byte(k),
        a.typed_map().contains_key(k) ==> system_key(k),
{
    if system_key(k) {
        assert(k <= KEY_EXP_PEDAL_CC);
    }
}

/// Law: an area whose unknown bytes sit at System addresses other than the
/// typed ones decodes back from the frames it encodes to.
#[verifier::rlimit(50)]
pub proof fn lemma_system_round_trip(a: SystemArea, device_id: u8, fs: Seq<FrameView>, b: SystemArea)
    requires
        a.values_valid(),
        a.pedals_encodable(),
        forall|k: u32| #[trigger] a.unknown_bytes@.contains_key(k) ==> !system_key(k) && system_addressable(k),
        sorted_keys(all_writes(fs)),
        entries_map(all_writes(fs)) == a.wire(),
        packs(fs, device_id, all_writes(fs)),
        decodes_to(b, system_bytes(fs)),
    ensures
        b.same_content(a),
{
    let w = all_writes(fs);
    let wire = a.wire();
    lemma_entries_facts(w);
    assert forall|i: int| 0 <= i < w.len() implies system_addressable(#[trigger] w[i].0) by {
        assert(wire.contains_key(w[i].0));
        if !a.unknown_bytes@.contains_key(w[i].0) {
            lemma_typed_map_get(a, w[i].0);
        }
    }
    lemma_packed_system_bytes(fs, device_id, w);
    lemma_typed_map_get(a, KEY_CURRENT_PATCH);
    lemma_typed_map_get(a, KEY_GK_SET);
    lemma_typed_map_get(a, KEY_OUTPUT_SELECT);
    lemma_typed_map_get(a, KEY_ASSIGN_HOLD);
    lemma_typed_map_get(a, KEY_MIDI_CHANNEL);
    lemma_typed_map_get(a, KEY_PC_RX);
    lemma_typed_map_get(a, KEY_PC_TX);
    lemma_typed_map_get(a, KEY_VLINK_TX_CHANNEL);
    lemma_typed_map_get(a, KEY_GUITAR_MIDI_OUT);
    lemma_typed_map_get(a, KEY_MIDI_OUT_MODE);
    lemma_typed_map_get(a, KEY_CHROMATIC);
    lemma_typed_map_get(a, KEY_STRING_CHANNEL);
    lemma_typed_map_get(a, KEY_DATA_THIN);
    lemma_typed_map_get(a, KEY_CTL_PEDAL_CC);
    lemma_typed_map_get(a, KEY_EXP_PEDAL_CC);
    if a.gk_set is Some {
        a.gk_set.unwrap().lemma_round_trip();
    }
    if a.output_select is Some {
        a.output_select.unwrap().lemma_round_trip();
    }
    if a.assign_hold is Some {
        a.assign_hold.unwrap().lemma_round_trip();
    }
    if a.pc_rx is Some {
        a.pc_rx.unwrap().lemma_round_trip();
    }
    if a.pc_tx is Some {
        a.pc_tx.unwrap().lemma_round_trip();
    }
    if a.guitar_midi_out is Some {
        a.guitar_midi_out.unwrap().lemma_round_trip();
    }
    if a.midi_out_mode is Some {
        a.midi_out_mode.unwrap().lemma_round_trip();
    }
    if a.chromatic is Some {
        a.chromatic.unwrap().lemma_round_trip();
    }
    if a.data_thin is Some {
        a.data_thin.unwrap().lemma_round_trip();
    }
    if a.ctl_pedal_cc is Some {
        a.ctl_pedal_cc.unwrap().lemma_round_trip();
    }
    if a.exp_pedal_cc is Some {
        a.exp_pedal_cc.unwrap().lemma_round_trip();
    }
    assert(b.unknown_bytes@ =~= a.unknown_bytes@);
}

/// 1 when an optional field is set, else 0.
pub open spec fn is_set<T>(o: Option<T>) -> nat {
    if o is Some { 1 } else { 0 }
}

fn set_count<T>(o: &Option<T>) -> (r: usize)
    ensures
        r == is_set(*o),
{
    if o.is_some() { 1 } else { 0 }
}

impl SystemArea {
    /// Number of typed fields that are set.
    pub open spec fn typed_count_spec(self) -> nat {
        is_set(self.current_patch_byte_0) + is_set(self.gk_set) + is_set(self.output_select) + is_set(self.assign_hold) + is_set(self.midi_channel) + is_set(self.pc_rx) + is_set(self.pc_tx) + is_set(self.v_link_tx_channel) + is_set(self.guitar_midi_out) + is_set(self.midi_out_mode) + is_set(self.chromatic) + is_set(self.string_channel_base) + is_set(self.data_thin) + is_set(self.ctl_pedal_cc) + is_set(self.exp_pedal_cc)
    }

    /// Number of typed fields (all but `unknown_bytes`) that are set.
    pub fn typed_field_count(&self) -> (r: usize)
        ensures
            r == self.typed_count_spec(),
            r <= 15,
    {
        set_count(&self.current_patch_byte_0) + set_count(&self.gk_set) + set_count(&self.output_select) + set_count(&self.assign_hold) + set_count(&self.midi_channel) + set_count(&self.pc_rx) + set_count(&self.pc_tx) + set_count(&self.v_link_tx_channel) + set_count(&self.guitar_midi_out) + set_count(&self.midi_out_mode) + set_count(&self.chromatic) + set_count(&self.string_channel_base) + set_count(&self.data_thin) + set_count(&self.ctl_pedal_cc) + set_count(&self.exp_pedal_cc)
    }
}

impl Default for SystemArea {
    /// An empty area, as [`SystemArea::new`] gives.
    fn default() -> (r: SystemArea)
        ensures
            r.current_patch_byte_0 is None,
            r.gk_set is None,
            r.output_select is None,
            r.assign_hold is None,
            r.midi_channel is None,
            r.pc_rx is None,
            r.pc_tx is None,
            r.v_link_tx_channel is None,
            r.guitar_midi_out is None,
            r.midi_out_mode is None,
            r.chromatic is None,
            r.string_channel_base is None,
            r.data_thin is None,
            r.ctl_pedal_cc is None,
            r.exp_pedal_cc is None,
            r.unknown_bytes@ == Map::<u32, u8>::empty(),
            r.wire() == Map::<u32, u8>::empty(),
    {
        SystemArea::new()
    }
}

} // verus!
