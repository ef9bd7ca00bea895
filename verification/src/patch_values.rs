//! Small value types of the Patch area: the 16-byte patch name, the
//! Master Assign source, the patch tempo and the PCM tone index.
use vstd::prelude::*;
use crate::system::{nibble_pair_bytes, nibble_pair_value, decode_nibble_pair, encode_nibble_pair};
use crate::text::string_from_utf8_lossy;
use vstd::string::StringSliceAdditionalSpecFns;

verus! {

/// A byte FloorBoard allows in a patch name (ASCII `0x20..=0x7D`).
pub open spec fn is_name_byte(b: u8) -> bool {
    0x20 <= b <= 0x7D
}

/// The character shown for a name byte: itself when printable, else `?`.
pub open spec fn name_char(b: u8) -> char {
    if is_name_byte(b) {
        b as char
    } else {
        '?'
    }
}

/// 16-character patch name, kept as the raw bytes so that a round trip
/// preserves whatever the device sent, pad spaces included.
#[derive(Debug, Clone, Copy, PartialEq, Eq)]
pub struct PatchName(pub [u8; 16]);

impl Default for PatchName {
    fn default() -> (r: Self)
        ensures
            forall|i: int| 0 <= i < 16 ==> #[trigger] r.0@[i] == 0x20,
    {
        PatchName([0x20u8; 16])
    }
}

/// Why a string is not a patch name.
#[derive(Debug, Clone, Copy, PartialEq, Eq, Structural)]
pub enum PatchNameError {
    /// The name has this many bytes; at most 16 fit.
    TooLong(usize),
    /// The byte at `index` is outside the printable range `0x20..=0x7D`.
    NotPrintable { index: usize, byte: u8 },
}

/// Index of the first byte of `s` outside the name range, if any.
pub open spec fn first_bad_name_byte(s: Seq<u8>) -> Option<int> {
    if exists|i: int| 0 <= i < s.len() && !is_name_byte(#[trigger] s[i]) {
        Some(choose|i: int| 0 <= i < s.len() && !is_name_byte(#[trigger] s[i]) && forall|j: int|
            0 <= j < i ==> is_name_byte(#[trigger] s[j]))
    } else {
        None
    }
}

/// The 16 name bytes for `s`: its bytes followed by pad spaces.
pub open spec fn padded_name(s: Seq<u8>) -> Seq<u8> {
    Seq::new(16, |i: int| if i < s.len() { s[i] } else { 0x20u8 })
}

/// What parsing the byte string `s` as a patch name gives.
pub open spec fn parse_name_spec(s: Seq<u8>) -> Result<Seq<u8>, PatchNameError> {
    if s.len() > 16 {
        Err(PatchNameError::TooLong(s.len() as usize))
    } else {
        match first_bad_name_byte(s) {
            Some(i) => Err(PatchNameError::NotPrintable { index: i as usize, byte: s[i] }),
            None => Ok(padded_name(s)),
        }
    }
}

impl PatchName {
    /// True if every byte is the pad space `0x20`.
    pub fn is_empty(&self) -> (r: bool)
        ensures
            r == (forall|i: int| 0 <= i < 16 ==> #[trigger] self.0@[i] == 0x20),
    {
        let mut i: usize = 0;
        while i < 16
            invariant
                i <= 16,
                forall|j: int| 0 <= j < i ==> #[trigger] self.0@[j] == 0x20,
            decreases 16 - i,
        {
            if self.0[i] != 0x20 {
                return false;
            }
            i += 1;
        }
        true
    }

    /// The name as a `String`, with every byte outside `0x20..=0x7D`
    /// shown as `?`.
    pub fn as_string(&self) -> (r: String)
        ensures
            r@ == Seq::new(16, |i: int| name_char(self.0@[i])),
    {
        let mut shown: Vec<u8> = Vec::new();
        let mut i: usize = 0;
        while i < 16
            invariant
                i <= 16,
                shown@.len() == i,
                forall|j: int|
                    0 <= j < i ==> #[trigger] shown@[j] == (if is_name_byte(self.0@[j]) {
                        self.0@[j]
                    } else {
                        0x3Fu8
                    }),
            decreases 16 - i,
        {
            let b = self.0[i];
            if 0x20 <= b && b <= 0x7D {
                shown.push(b);
            } else {
                shown.push(0x3F);
            }
            i += 1;
        }
        let r = string_from_utf8_lossy(shown.as_slice());
        assert(r@ =~= Seq::new(16, |i: int| name_char(self.0@[i])));
        r
    }

    /// Parse a name from text: at most 16 bytes, each in `0x20..=0x7D`;
    /// shorter names are padded with spaces.
    pub fn parse(s: &str) -> (r: Result<PatchName, PatchNameError>)
        ensures
            match parse_name_spec(s.spec_bytes()) {
                Ok(bytes) => r matches Ok(n) && n.0@ == bytes,
                Err(e) => r == Err::<PatchName, PatchNameError>(e),
            },
    {
        let bytes = s.as_bytes();
        if bytes.len() > 16 {
            return Err(PatchNameError::TooLong(bytes.len()));
        }
        let mut i: usize = 0;
        while i < bytes.len()
            invariant
                i <= bytes@.len() <= 16,
                bytes@ == s.spec_bytes(),
                forall|j: int| 0 <= j < i ==> is_name_byte(#[trigger] bytes@[j]),
            decreases bytes.len() - i,
        {
            let b = bytes[i];
            if !(0x20 <= b && b <= 0x7D) {
                proof {
                    let ii = i as int;
                    assert(0 <= ii < bytes@.len() && !is_name_byte(bytes@[ii]) && forall|j: int|
                        0 <= j < ii ==> is_name_byte(#[trigger] bytes@[j]));
                    let c = first_bad_name_byte(bytes@)->0;
                    if c < ii {
                        assert(is_name_byte(bytes@[c]));
                    } else if c > ii {
                        assert(is_name_byte(bytes@[ii]));
                    }
                }
                return Err(PatchNameError::NotPrintable { index: i, byte: b });
            }
            i += 1;
        }
        let mut out = [0x20u8; 16];
        let mut k: usize = 0;
        while k < bytes.len()
            invariant
                k <= bytes@.len() <= 16,
                forall|j: int| 0 <= j < k ==> #[trigger] out@[j] == bytes@[j],
                forall|j: int| k <= j < 16 ==> #[trigger] out@[j] == 0x20,
            decreases bytes.len() - k,
        {
            out[k] = bytes[k];
            k += 1;
        }
        assert(out@ =~= padded_name(bytes@));
        Ok(PatchName(out))
    }
}

impl core::str::FromStr for PatchName {
    type Err = PatchNameError;

    fn from_str(s: &str) -> (r: Result<PatchName, PatchNameError>)
        ensures
            match parse_name_spec(s.spec_bytes()) {
                Ok(bytes) => r matches Ok(n) && n.0@ == bytes,
                Err(e) => r == Err::<PatchName, PatchNameError>(e),
            },
    {
        PatchName::parse(s)
    }
}

/// Master Assign source: one of nine controllers, or a MIDI CC number.
/// Wire bytes `0x00..=0x08` are the controllers, `0x09..=0x27` are
/// CC#1..=31 and `0x28..=0x47` are CC#64..=95.
#[derive(Debug, Clone, Copy, PartialEq, Eq, Structural)]
pub enum AssignSource {
    CtrlPdl,
    ExpPdl,
    ExpPdlOn,
    ExpPdlSw,
    IntPedal,
    WavePedal,
    GkS1,
    GkS2,
    GkVol,
    MidiCc(u8),
}

/// A CC number a Master Assign can use: 1..=31 or 64..=95.
pub open spec fn is_assign_cc(cc: u8) -> bool {
    (1 <= cc <= 31) || (64 <= cc <= 95)
}

impl AssignSource {
    /// The source a wire byte stands for, if any.
    pub open spec fn from_byte_spec(b: u8) -> Option<AssignSource> {
        if b == 0 {
            Some(AssignSource::CtrlPdl)
        } else if b == 1 {
            Some(AssignSource::ExpPdl)
        } else if b == 2 {
            Some(AssignSource::ExpPdlOn)
        } else if b == 3 {
            Some(AssignSource::ExpPdlSw)
        } else if b == 4 {
            Some(AssignSource::IntPedal)
        } else if b == 5 {
            Some(AssignSource::WavePedal)
        } else if b == 6 {
            Some(AssignSource::GkS1)
        } else if b == 7 {
            Some(AssignSource::GkS2)
        } else if b == 8 {
            Some(AssignSource::GkVol)
        } else if b <= 0x27 {
            Some(AssignSource::MidiCc((b - 0x08) as u8))
        } else if b <= 0x47 {
            Some(AssignSource::MidiCc((b - 0x28 + 0x40) as u8))
        } else {
            None
        }
    }

    /// Wire byte of a source; a `MidiCc` outside the assignable CC
    /// numbers is written as `0x00`.
    pub open spec fn byte_spec(self) -> u8 {
        match self {
            AssignSource::CtrlPdl => 0,
            AssignSource::ExpPdl => 1,
            AssignSource::ExpPdlOn => 2,
            AssignSource::ExpPdlSw => 3,
            AssignSource::IntPedal => 4,
            AssignSource::WavePedal => 5,
            AssignSource::GkS1 => 6,
            AssignSource::GkS2 => 7,
            AssignSource::GkVol => 8,
            AssignSource::MidiCc(cc) => if 1 <= cc <= 31 {
                (0x08 + cc) as u8
            } else if 64 <= cc <= 95 {
                (0x28 + (cc - 0x40)) as u8
            } else {
                0
            },
        }
    }

    /// Law: the source wire table: bytes `0x00..=0x08` are the nine fixed
    /// sources in order (CTL pedal, EXP pedal, EXP pedal on, EXP pedal
    /// switch, internal pedal, wave pedal, GK S1, GK S2, GK volume), bytes
    /// `0x09..=0x27` are CC#1..=31 and `0x28..=0x47` are CC#64..=95, and
    /// every source is written as that byte.
    pub proof fn lemma_wire_table()
        ensures
            Self::from_byte_spec(0x00) == Some(AssignSource::CtrlPdl),
            Self::from_byte_spec(0x01) == Some(AssignSource::ExpPdl),
            Self::from_byte_spec(0x02) == Some(AssignSource::ExpPdlOn),
            Self::from_byte_spec(0x03) == Some(AssignSource::ExpPdlSw),
            Self::from_byte_spec(0x04) == Some(AssignSource::IntPedal),
            Self::from_byte_spec(0x05) == Some(AssignSource::WavePedal),
            Self::from_byte_spec(0x06) == Some(AssignSource::GkS1),
            Self::from_byte_spec(0x07) == Some(AssignSource::GkS2),
            Self::from_byte_spec(0x08) == Some(AssignSource::GkVol),
            forall|b: u8| 0x09 <= b <= 0x27 ==> #[trigger] Self::from_byte_spec(b) == Some(AssignSource::MidiCc((b - 8) as u8)),
            forall|b: u8| 0x28 <= b <= 0x47 ==> #[trigger] Self::from_byte_spec(b) == Some(AssignSource::MidiCc((b + 0x18) as u8)),
            forall|b: u8| b > 0x47 ==> #[trigger] Self::from_byte_spec(b) is None,
            AssignSource::CtrlPdl.byte_spec() == 0x00,
            AssignSource::ExpPdl.byte_spec() == 0x01,
            AssignSource::ExpPdlOn.byte_spec() == 0x02,
            AssignSource::ExpPdlSw.byte_spec() == 0x03,
            AssignSource::IntPedal.byte_spec() == 0x04,
            AssignSource::WavePedal.byte_spec() == 0x05,
            AssignSource::GkS1.byte_spec() == 0x06,
            AssignSource::GkS2.byte_spec() == 0x07,
            AssignSource::GkVol.byte_spec() == 0x08,
            forall|cc: u8| 1 <= cc <= 31 ==> #[trigger] AssignSource::MidiCc(cc).byte_spec() == cc + 8,
            forall|cc: u8| 64 <= cc <= 95 ==> #[trigger] AssignSource::MidiCc(cc).byte_spec() == cc - 0x18,
    {
    }

    pub fn from_byte(b: u8) -> (r: Option<AssignSource>)
        ensures
            r == Self::from_byte_spec(b),
    {
        if b == 0 {
            Some(AssignSource::CtrlPdl)
        } else if b == 1 {
            Some(AssignSource::ExpPdl)
        } else if b == 2 {
            Some(AssignSource::ExpPdlOn)
        } else if b == 3 {
            Some(AssignSource::ExpPdlSw)
        } else if b == 4 {
            Some(AssignSource::IntPedal)
        } else if b == 5 {
            Some(AssignSource::WavePedal)
        } else if b == 6 {
            Some(AssignSource::GkS1)
        } else if b == 7 {
            Some(AssignSource::GkS2)
        } else if b == 8 {
            Some(AssignSource::GkVol)
        } else if b <= 0x27 {
            Some(AssignSource::MidiCc(b - 0x08))
        } else if b <= 0x47 {
            Some(AssignSource::MidiCc(b - 0x28 + 0x40))
        } else {
            None
        }
    }

    pub fn to_byte(self) -> (r: u8)
        ensures
            r == self.byte_spec(),
    {
        match self {
            AssignSource::CtrlPdl => 0,
            AssignSource::ExpPdl => 1,
            AssignSource::ExpPdlOn => 2,
            AssignSource::ExpPdlSw => 3,
            AssignSource::IntPedal => 4,
            AssignSource::WavePedal => 5,
            AssignSource::GkS1 => 6,
            AssignSource::GkS2 => 7,
            AssignSource::GkVol => 8,
            AssignSource::MidiCc(cc) => if 1 <= cc && cc <= 31 {
                0x08 + cc
            } else if 64 <= cc && cc <= 95 {
                0x28 + (cc - 0x40)
            } else {
                0
            },
        }
    }

    /// Validated constructor of `MidiCc`: CC numbers 1..=31 or 64..=95.
    pub fn midi_cc(cc: u8) -> (r: Option<AssignSource>)
        ensures
            r is Some <==> is_assign_cc(cc),
            r matches Some(s) ==> s == AssignSource::MidiCc(cc),
    {
        if (1 <= cc && cc <= 31) || (64 <= cc && cc <= 95) {
            Some(AssignSource::MidiCc(cc))
        } else {
            None
        }
    }

    /// Law: a source with an assignable CC (or a controller) decodes back
    /// from its byte, and every byte written is one that decodes.
    pub proof fn lemma_round_trip(self)
        ensures
            self.byte_spec() <= 0x47,
            Self::from_byte_spec(self.byte_spec()) is Some,
            (self matches AssignSource::MidiCc(cc) ==> is_assign_cc(cc)) ==> Self::from_byte_spec(
                self.byte_spec(),
            ) == Some(self),
    {
    }

    /// Law: exactly the bytes up to `0x47` decode, each to a source whose
    /// byte it is.
    pub proof fn lemma_byte_round_trip(b: u8)
        ensures
            Self::from_byte_spec(b) is Some <==> b <= 0x47,
            Self::from_byte_spec(b) matches Some(v) ==> v.byte_spec() == b,
    {
    }
}

/// Patch tempo, carried on the wire as a nibble pair.
#[derive(Debug, Clone, Copy, PartialEq, Eq, Structural)]
pub struct PatchTempo(pub u8);

impl PatchTempo {
    pub fn new(value: u8) -> (r: Self)
        ensures
            r.0 == value,
    {
        PatchTempo(value)
    }

    pub fn raw(self) -> (r: u8)
        ensures
            r == self.0,
    {
        self.0
    }

    /// Decode the two wire bytes; `None` unless both are nibbles.
    pub fn from_two_bytes(hi: u8, lo: u8) -> (r: Option<Self>)
        ensures
            r is Some <==> nibble_pair_value(hi, lo) is Some,
            r matches Some(t) ==> nibble_pair_value(hi, lo) == Some(t.0),
    {
        match decode_nibble_pair(hi, lo) {
            Some(v) => Some(PatchTempo(v)),
            None => None,
        }
    }

    pub fn to_two_bytes(self) -> (r: [u8; 2])
        ensures
            r@ == seq![nibble_pair_bytes(self.0).0, nibble_pair_bytes(self.0).1],
    {
        encode_nibble_pair(self.0)
    }
}

/// Index into the GR-55's PCM tone catalogue, 0..=909, carried on the wire
/// as a bank byte (0..=7) and a position byte (0..=127).
#[derive(Debug, Clone, Copy, PartialEq, Eq)]
pub struct PcmToneIndex(u16);

impl PcmToneIndex {
    #[verifier::type_invariant]
    spec fn inv(self) -> bool {
        self.0 <= 909
    }

    /// The index.
    pub closed spec fn value(self) -> u16 {
        self.0
    }

    /// The (bank, position) bytes of an index.
    pub open spec fn bytes_spec(self) -> (u8, u8) {
        ((self.value() / 128) as u8, (self.value() % 128) as u8)
    }

    pub fn new(linear: u16) -> (r: Option<Self>)
        ensures
            r is Some <==> linear <= 909,
            r matches Some(t) ==> t.value() == linear,
    {
        if linear <= 909 {
            Some(PcmToneIndex(linear))
        } else {
            None
        }
    }

    pub fn get(self) -> (r: u16)
        ensures
            r == self.value(),
            r <= 909,
    {
        proof {
            use_type_invariant(self);
        }
        self.0
    }

    /// The index of a (bank, position) pair, if it names a catalogue entry.
    pub fn from_two_bytes(bank: u8, position: u8) -> (r: Option<Self>)
        ensures
            r is Some <==> bank <= 7 && position <= 0x7F && bank * 128 + position <= 909,
            r matches Some(t) ==> t.value() == bank * 128 + position && t.bytes_spec() == (
                bank,
                position,
            ),
    {
        if bank > 7 || position > 0x7F {
            return None;
        }
        let linear: u16 = (bank as u16) * 128 + (position as u16);
        Self::new(linear)
    }

    pub fn to_two_bytes(self) -> (r: [u8; 2])
        ensures
            r@ == seq![self.bytes_spec().0, self.bytes_spec().1],
            r@[0] <= 7,
            r@[1] <= 0x7F,
    {
        let v = self.get();
        [(v / 128) as u8, (v % 128) as u8]
    }

    /// The 1-based number shown on the device.
    pub fn display_number(self) -> (r: u16)
        ensures
            r == self.value() + 1,
    {
        self.get() + 1
    }
}

} // verus!
