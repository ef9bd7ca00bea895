//! Typed GR-55 SysEx address space and patch-slot identity.
//!
//! USER slots are banks `1..=99`, PRESET slots banks `100..=189`, three
//! positions per bank. A slot's linear index is `(bank-1)*3 + position-1`
//! (plus a gap of 87 for PRESET slots); its wire address is
//! `[0x20 + index / 128, index % 128, 0, 0]`.
use vstd::prelude::*;
use vstd::string::StringSliceAdditionalSpecFns;

use crate::text::{
    all_ascii, ascii_chars, dec_digits, dec_digits_pad2, lemma_dec_digits_parse, parse_u8,
    parse_u8_spec, push_decimal, string_from_utf8_lossy,
};

verus! {

broadcast use vstd::seq_lib::group_seq_properties;

/// Number of patches per bank — 3 on the GR-55 (positions A, B, C).
pub const PATCHES_PER_BANK: u8 = 3;

/// Number of USER banks (USER patches: 1..=99, 3 positions each = 297 slots).
pub const USER_BANKS: u8 = 99;

/// Number of banks in total (USER + PRESET).
pub const TOTAL_BANKS: u8 = 189;

/// Linear gap between the USER and the PRESET patch indices.
pub const USER_PRESET_INDEX_GAP: u32 = 87;

/// Each 128-slot address row is one MSB increment in the wire address.
pub const SLOTS_PER_ADDRESS_ROW: u32 = 128;

/// Base MSB for the first row of USER patches.
pub const PATCH_BASE_MSB: u8 = 0x20;

/// MSB of the live "current patch being edited" write area.
pub const TEMP_WRITE_MSB: u8 = 0x18;

/// MSB of the bulk/individual edit-buffer read area.
pub const TEMP_BUFFER_MSB: u8 = 0x60;

/// MSBs that hold System-area parameters.
pub const SYSTEM_MSB_1: u8 = 0x01;

pub const SYSTEM_MSB_2: u8 = 0x02;

/// A USER or PRESET patch slot identified by bank and position (1..=3).
#[derive(Debug, Clone, Copy, PartialEq, Eq, Hash)]
pub enum PatchSlot {
    User { bank: u8, position: u8 },
    Preset { bank: u8, position: u8 },
}

/// Why a patch slot could not be built or parsed.
#[derive(Debug, Clone, PartialEq, Eq)]
pub enum PatchSlotError {
    BankOutOfRange { bank: u8, max: u8 },
    PositionOutOfRange { position: u8 },
    Parse(String),
}

impl PatchSlot {
    pub open spec fn bank_of(self) -> u8 {
        match self {
            PatchSlot::User { bank, .. } => bank,
            PatchSlot::Preset { bank, .. } => bank,
        }
    }

    pub open spec fn position_of(self) -> u8 {
        match self {
            PatchSlot::User { position, .. } => position,
            PatchSlot::Preset { position, .. } => position,
        }
    }

    /// A slot the device actually has.
    pub open spec fn is_valid(self) -> bool {
        &&& 1 <= self.position_of() <= 3
        &&& match self {
            PatchSlot::User { bank, .. } => 1 <= bank <= 99,
            PatchSlot::Preset { bank, .. } => 100 <= bank <= 189,
        }
    }

    /// The linear index can be computed without going below zero.
    pub open spec fn has_index(self) -> bool {
        self.bank_of() >= 1 && (self.bank_of() - 1) * 3 + self.position_of() >= 1
    }

    /// Linear patch index: `(bank-1)*3 + position-1`, plus the 87-slot gap
    /// for PRESET slots.
    pub open spec fn index_spec(self) -> int {
        let raw = (self.bank_of() - 1) * 3 + self.position_of() - 1;
        match self {
            PatchSlot::User { .. } => raw,
            PatchSlot::Preset { .. } => raw + 87,
        }
    }

    /// Wire address of the slot's base.
    pub open spec fn address_spec(self) -> Seq<u8> {
        seq![(0x20 + self.index_spec() / 128) as u8, (self.index_spec() % 128) as u8, 0u8, 0u8]
    }

    /// The slot whose linear index is `idx`, if any (the gap `297..384` and
    /// indices past `650` have none).
    pub open spec fn from_index_spec(idx: int) -> Option<PatchSlot> {
        if 0 <= idx < 297 {
            Some(PatchSlot::User { bank: (idx / 3 + 1) as u8, position: (idx % 3 + 1) as u8 })
        } else if 384 <= idx < 654 {
            Some(
                PatchSlot::Preset {
                    bank: ((idx - 384) / 3 + 100) as u8,
                    position: ((idx - 384) % 3 + 1) as u8,
                },
            )
        } else {
            None
        }
    }

    /// Constructor that checks the USER ranges.
    pub open spec fn user_spec(bank: u8, position: u8) -> Result<PatchSlot, PatchSlotError> {
        if !(1 <= bank <= 99) {
            Err(PatchSlotError::BankOutOfRange { bank, max: 99 })
        } else if !(1 <= position <= 3) {
            Err(PatchSlotError::PositionOutOfRange { position })
        } else {
            Ok(PatchSlot::User { bank, position })
        }
    }

    /// Constructor that checks the PRESET ranges.
    pub open spec fn preset_spec(bank: u8, position: u8) -> Result<PatchSlot, PatchSlotError> {
        if !(100 <= bank <= 189) {
            Err(PatchSlotError::BankOutOfRange { bank, max: 189 })
        } else if !(1 <= position <= 3) {
            Err(PatchSlotError::PositionOutOfRange { position })
        } else {
            Ok(PatchSlot::Preset { bank, position })
        }
    }

    pub fn user(bank: u8, position: u8) -> (r: Result<Self, PatchSlotError>)
        ensures
            r == Self::user_spec(bank, position),
    {
        if !(1 <= bank && bank <= USER_BANKS) {
            return Err(PatchSlotError::BankOutOfRange { bank, max: USER_BANKS });
        }
        if !(1 <= position && position <= PATCHES_PER_BANK) {
            return Err(PatchSlotError::PositionOutOfRange { position });
        }
        Ok(PatchSlot::User { bank, position })
    }

    pub fn preset(bank: u8, position: u8) -> (r: Result<Self, PatchSlotError>)
        ensures
            r == Self::preset_spec(bank, position),
    {
        if !(USER_BANKS + 1 <= bank && bank <= TOTAL_BANKS) {
            return Err(PatchSlotError::BankOutOfRange { bank, max: TOTAL_BANKS });
        }
        if !(1 <= position && position <= PATCHES_PER_BANK) {
            return Err(PatchSlotError::PositionOutOfRange { position });
        }
        Ok(PatchSlot::Preset { bank, position })
    }

    pub fn bank(&self) -> (r: u8)
        ensures
            r == self.bank_of(),
    {
        match *self {
            PatchSlot::User { bank, .. } => bank,
            PatchSlot::Preset { bank, .. } => bank,
        }
    }

    pub fn position(&self) -> (r: u8)
        ensures
            r == self.position_of(),
    {
        match *self {
            PatchSlot::User { position, .. } => position,
            PatchSlot::Preset { position, .. } => position,
        }
    }

    /// Linear patch index (USER `0..=296`, PRESET `384..=653`).
    pub fn linear_index(&self) -> (r: u32)
        requires
            self.has_index(),
        ensures
            r == self.index_spec(),
    {
        let raw = (self.bank() as u32 - 1) * (PATCHES_PER_BANK as u32) + self.position() as u32
            - 1;
        match self {
            PatchSlot::User { .. } => raw,
            PatchSlot::Preset { .. } => raw + USER_PRESET_INDEX_GAP,
        }
    }

    /// Inverse of [`PatchSlot::linear_index`].
    pub fn from_linear_index(idx: u32) -> (r: Option<Self>)
        ensures
            r == Self::from_index_spec(idx as int),
    {
        let patches_per_bank = PATCHES_PER_BANK as u32;
        let user_slot_count = USER_BANKS as u32 * patches_per_bank;
        let preset_bank_count = (TOTAL_BANKS - USER_BANKS) as u32;
        let preset_slot_count = preset_bank_count * patches_per_bank;
        let preset_start = user_slot_count + USER_PRESET_INDEX_GAP;
        let preset_end = preset_start + preset_slot_count;
        if idx < user_slot_count {
            let bank = (idx / patches_per_bank + 1) as u8;
            let position = (idx % patches_per_bank + 1) as u8;
            Some(PatchSlot::User { bank, position })
        } else if preset_start <= idx && idx < preset_end {
            let preset_idx = idx - preset_start;
            let bank = (preset_idx / patches_per_bank) as u8 + USER_BANKS + 1;
            let position = (preset_idx % patches_per_bank + 1) as u8;
            Some(PatchSlot::Preset { bank, position })
        } else {
            None
        }
    }

    /// Wire address of this slot's base. Bytes 2 and 3 are always `0x00`.
    pub fn address(&self) -> (r: [u8; 4])
        requires
            self.has_index(),
        ensures
            r@ == self.address_spec(),
    {
        let idx = self.linear_index();
        let row = idx / SLOTS_PER_ADDRESS_ROW;
        let col = idx % SLOTS_PER_ADDRESS_ROW;
        let r = [PATCH_BASE_MSB + row as u8, col as u8, 0x00, 0x00];
        assert(r@ =~= self.address_spec());
        r
    }

    /// Inverse of [`PatchSlot::address`]; `None` outside the patch area.
    pub fn from_address(address: [u8; 4]) -> (r: Option<Self>)
        ensures
            r == (if address@[0] < 0x20 || address@[2] != 0 || address@[3] != 0 || address@[1]
                >= 0x80 {
                None
            } else {
                Self::from_index_spec((address@[0] - 0x20) * 128 + address@[1])
            }),
    {
        if address[0] < PATCH_BASE_MSB {
            return None;
        }
        if address[2] != 0 || address[3] != 0 || address[1] >= 0x80 {
            return None;
        }
        let row = (address[0] - PATCH_BASE_MSB) as u32;
        let col = address[1] as u32;
        let idx = row * SLOTS_PER_ADDRESS_ROW + col;
        Self::from_linear_index(idx)
    }
}

/// Law: a slot's wire address counts slots in rows of 128 from MSB `0x20`:
/// USER slots from 0 (bank 1, position 1) in bank-major order, three per
/// bank, and PRESET slots after a gap of 87, so PRESET bank 100 position 1
/// sits at `23 00 00 00`.
pub proof fn lemma_address_layout(s: PatchSlot)
    requires
        s.is_valid(),
    ensures
        s.address_spec()[2] == 0,
        s.address_spec()[3] == 0,
        s.address_spec()[1] < 128,
        s.address_spec()[0] >= 0x20,
        (s.address_spec()[0] - 0x20) * 128 + s.address_spec()[1] == 3 * (s.bank_of() - 1) + s.position_of() - 1
            + (if s is Preset { 87int } else { 0int }),
        (PatchSlot::User { bank: 1, position: 1 }).address_spec() == seq![0x20u8, 0u8, 0u8, 0u8],
        (PatchSlot::Preset { bank: 100, position: 1 }).address_spec() == seq![0x23u8, 0u8, 0u8, 0u8],
{
    let n = s.index_spec();
    assert(0 <= n < 654);
    assert((0x20 + n / 128) as u8 - 0x20 == n / 128);
}

/// Law: every real slot has an index, and the index leads back to the slot.
pub proof fn lemma_index_round_trip(s: PatchSlot)
    requires
        s.is_valid(),
    ensures
        s.has_index(),
        PatchSlot::from_index_spec(s.index_spec()) == Some(s),
{
}

/// Law: a slot found from an index is real and has that index.
pub proof fn lemma_from_index_is_valid(idx: int)
    ensures
        PatchSlot::from_index_spec(idx) matches Some(s) ==> s.is_valid() && s.has_index()
            && s.index_spec() == idx,
{
}

/// Law: the wire address of a real slot decodes back to the same slot.
pub proof fn lemma_address_round_trip(s: PatchSlot)
    requires
        s.is_valid(),
    ensures
        ({
            let a = s.address_spec();
            &&& a[0] >= 0x20 && a[1] < 0x80 && a[2] == 0 && a[3] == 0
            &&& PatchSlot::from_index_spec((a[0] - 0x20) * 128 + a[1]) == Some(s)
        }),
{
    let i = s.index_spec();
    assert(0 <= i < 654);
    assert((i / 128) * 128 + i % 128 == i);
}

/// Classification of a 4-byte SysEx address.
#[derive(Debug, Clone, Copy, PartialEq, Eq, Hash)]
pub enum AddressSpace {
    /// System parameters (MSB 0x01 or 0x02).
    System,
    /// The base of a USER patch.
    UserPatch(PatchSlot),
    /// The base of a PRESET patch.
    PresetPatch(PatchSlot),
    /// The live current-patch write/edit area (MSB 0x18).
    TempWriteBuffer,
    /// The read mirror of the current patch (MSB 0x60).
    TempReadBuffer,
    /// MSB outside any documented region.
    Unknown,
}

impl AddressSpace {
    pub open spec fn classify_spec(a: Seq<u8>) -> AddressSpace {
        if a[0] == 0x01 || a[0] == 0x02 {
            AddressSpace::System
        } else if a[0] == 0x18 {
            AddressSpace::TempWriteBuffer
        } else if a[0] == 0x60 {
            AddressSpace::TempReadBuffer
        } else if a[0] < 0x20 || a[2] != 0 || a[3] != 0 || a[1] >= 0x80 {
            AddressSpace::Unknown
        } else {
            match PatchSlot::from_index_spec((a[0] - 0x20) * 128 + a[1]) {
                Some(slot) => match slot {
                    PatchSlot::User { .. } => AddressSpace::UserPatch(slot),
                    PatchSlot::Preset { .. } => AddressSpace::PresetPatch(slot),
                },
                None => AddressSpace::Unknown,
            }
        }
    }

    pub fn classify(address: [u8; 4]) -> (r: Self)
        ensures
            r == Self::classify_spec(address@),
    {
        if address[0] == SYSTEM_MSB_1 || address[0] == SYSTEM_MSB_2 {
            return AddressSpace::System;
        }
        if address[0] == TEMP_WRITE_MSB {
            return AddressSpace::TempWriteBuffer;
        }
        if address[0] == TEMP_BUFFER_MSB {
            return AddressSpace::TempReadBuffer;
        }
        if let Some(slot) = PatchSlot::from_address(address) {
            return match slot {
                PatchSlot::User { .. } => AddressSpace::UserPatch(slot),
                PatchSlot::Preset { .. } => AddressSpace::PresetPatch(slot),
            };
        }
        AddressSpace::Unknown
    }
}

/// Law: the address of a real slot is classified as that slot, USER or
/// PRESET by its kind; MSBs `0x01`/`0x02` are System, `0x18` the write
/// buffer and `0x60` the read buffer.
pub proof fn lemma_classify_slot_address(s: PatchSlot, a: Seq<u8>)
    requires
        s.is_valid(),
    ensures
        AddressSpace::classify_spec(s.address_spec()) == (match s {
            PatchSlot::User { .. } => AddressSpace::UserPatch(s),
            PatchSlot::Preset { .. } => AddressSpace::PresetPatch(s),
        }),
        a.len() == 4 && (a[0] == 0x01 || a[0] == 0x02) ==> AddressSpace::classify_spec(a) == AddressSpace::System,
        a.len() == 4 && a[0] == 0x18 ==> AddressSpace::classify_spec(a) == AddressSpace::TempWriteBuffer,
        a.len() == 4 && a[0] == 0x60 ==> AddressSpace::classify_spec(a) == AddressSpace::TempReadBuffer,
{
    lemma_index_round_trip(s);
    lemma_address_layout(s);
    let b = s.address_spec();
    assert((b[0] - 0x20) * 128 + b[1] == s.index_spec());
}

pub open spec fn user_word() -> Seq<u8> {
    seq![85u8, 115u8, 101u8, 114u8]
}

pub open spec fn preset_word() -> Seq<u8> {
    seq![80u8, 114u8, 101u8, 115u8, 101u8, 116u8]
}

/// Index of the first occurrence of `b` in `s` at or after `i`.
pub open spec fn first_index_of(s: Seq<u8>, b: u8, i: int) -> Option<int>
    decreases s.len() - i,
{
    if i < 0 || i >= s.len() {
        None
    } else if s[i] == b {
        Some(i)
    } else {
        first_index_of(s, b, i + 1)
    }
}

proof fn lemma_first_index_bounds(s: Seq<u8>, b: u8, i: int)
    ensures
        first_index_of(s, b, i) matches Some(k) ==> i <= k < s.len() && s[k] == b,
    decreases s.len() - i,
{
    if 0 <= i < s.len() && s[i] != b {
        lemma_first_index_bounds(s, b, i + 1);
    }
}

proof fn lemma_first_index_is(s: Seq<u8>, b: u8, i: int, k: int)
    requires
        0 <= i <= k < s.len(),
        s[k] == b,
        forall|j: int| i <= j < k ==> s[j] != b,
    ensures
        first_index_of(s, b, i) == Some(k),
    decreases k - i,
{
    if i < k {
        lemma_first_index_is(s, b, i + 1, k);
    }
}

fn find_byte(s: &[u8], b: u8) -> (r: Option<usize>)
    ensures
        match r {
            Some(k) => first_index_of(s@, b, 0) == Some(k as int) && k < s@.len(),
            None => first_index_of(s@, b, 0) is None,
        },
{
    let mut i: usize = 0;
    while i < s.len()
        invariant
            i <= s@.len(),
            first_index_of(s@, b, 0) == first_index_of(s@, b, i as int),
        decreases s@.len() - i,
    {
        if s[i] == b {
            return Some(i);
        }
        i += 1;
    }
    None
}

/// What a slot label `"<Kind> <bank>:<position>"` parses to, ignoring the
/// error's copy of the input.
pub open spec fn parse_label_spec(b: Seq<u8>) -> Option<Result<PatchSlot, PatchSlotError>> {
    match first_index_of(b, 32, 0) {
        None => None,
        Some(sp) => {
            let kind = b.take(sp);
            let rest = b.skip(sp + 1);
            match first_index_of(rest, 58, 0) {
                None => None,
                Some(c) => match (
                    parse_u8_spec(rest.take(c)),
                    parse_u8_spec(rest.skip(c + 1)),
                ) {
                    (Some(bank), Some(position)) => if kind == user_word() {
                        Some(PatchSlot::user_spec(bank, position))
                    } else if kind == preset_word() {
                        Some(PatchSlot::preset_spec(bank, position))
                    } else {
                        None
                    },
                    _ => None,
                },
            }
        },
    }
}

/// The label of a slot: `User 01:1`, `User 99:3`, `Preset 100:1`.
pub open spec fn label_spec(s: PatchSlot) -> Seq<u8> {
    let kind = match s {
        PatchSlot::User { .. } => user_word(),
        PatchSlot::Preset { .. } => preset_word(),
    };
    kind + seq![32u8] + dec_digits_pad2(s.bank_of() as nat) + seq![58u8] + dec_digits(
        s.position_of() as nat,
    )
}

impl PatchSlot {
    /// The slot's label bytes.
    pub fn label_bytes(&self) -> (r: Vec<u8>)
        ensures
            r@ == label_spec(*self),
    {
        let mut out: Vec<u8> = Vec::new();
        match self {
            PatchSlot::User { .. } => {
                out.push(85);
                out.push(115);
                out.push(101);
                out.push(114);
            },
            PatchSlot::Preset { .. } => {
                out.push(80);
                out.push(114);
                out.push(101);
                out.push(115);
                out.push(101);
                out.push(116);
            },
        }
        out.push(32);
        push_decimal(&mut out, self.bank(), true);
        out.push(58);
        push_decimal(&mut out, self.position(), false);
        assert(out@ =~= label_spec(*self));
        out
    }

    /// The slot's label as text, e.g. `User 01:1` (FloorBoard's convention).
    pub fn label(&self) -> (r: String)
        ensures
            r@ == ascii_chars(label_spec(*self)),
    {
        let bytes = self.label_bytes();
        proof {
            lemma_label_ascii(*self);
        }
        string_from_utf8_lossy(bytes.as_slice())
    }

    /// Parse a slot label such as `User 01:1` or `Preset 100:1`.
    pub fn parse_label(s: &str) -> (r: Result<Self, PatchSlotError>)
        ensures
            match parse_label_spec(s.spec_bytes()) {
                Some(res) => r == res,
                None => r matches Err(PatchSlotError::Parse(t)) && t@ == s@,
            },
    {
        let b = s.as_bytes();
        let sp = match find_byte(b, 32) {
            Some(k) => k,
            None => {
                return Err(PatchSlotError::Parse(s.to_owned()));
            },
        };
        let n = b.len();
        assert(sp < n);
        let kind = vstd::slice::slice_subrange(b, 0, sp);
        let rest = vstd::slice::slice_subrange(b, sp + 1, n);
        assert(kind@ =~= b@.take(sp as int));
        assert(rest@ =~= b@.skip(sp + 1));
        let c = match find_byte(rest, 58) {
            Some(k) => k,
            None => {
                return Err(PatchSlotError::Parse(s.to_owned()));
            },
        };
        let m = rest.len();
        assert(c < m);
        let bank_s = vstd::slice::slice_subrange(rest, 0, c);
        let pos_s = vstd::slice::slice_subrange(rest, c + 1, m);
        assert(bank_s@ =~= rest@.take(c as int));
        assert(pos_s@ =~= rest@.skip(c + 1));
        let bank = match parse_u8(bank_s) {
            Some(v) => v,
            None => {
                return Err(PatchSlotError::Parse(s.to_owned()));
            },
        };
        let position = match parse_u8(pos_s) {
            Some(v) => v,
            None => {
                return Err(PatchSlotError::Parse(s.to_owned()));
            },
        };
        if kind.len() == 4 && kind[0] == 85 && kind[1] == 115 && kind[2] == 101 && kind[3] == 114 {
            assert(kind@ =~= user_word());
            PatchSlot::user(bank, position)
        } else if kind.len() == 6 && kind[0] == 80 && kind[1] == 114 && kind[2] == 101 && kind[3]
            == 115 && kind[4] == 101 && kind[5] == 116 {
            assert(kind@ =~= preset_word());
            PatchSlot::preset(bank, position)
        } else {
            assert(kind@ != user_word() && kind@ != preset_word()) by {
                if kind@ == user_word() {
                    assert(kind@.len() == 4);
                }
                if kind@ == preset_word() {
                    assert(kind@.len() == 6);
                }
            }
            Err(PatchSlotError::Parse(s.to_owned()))
        }
    }
}

proof fn lemma_label_ascii(s: PatchSlot)
    ensures
        all_ascii(label_spec(s)),
{
    lemma_dec_digits_parse(s.bank_of() as nat);
    lemma_dec_digits_parse(s.position_of() as nat);
    let l = label_spec(s);
    assert forall|i: int| 0 <= i < l.len() implies #[trigger] l[i] < 128 by {
        let kind = match s {
            PatchSlot::User { .. } => user_word(),
            PatchSlot::Preset { .. } => preset_word(),
        };
        let d1 = dec_digits_pad2(s.bank_of() as nat);
        let d2 = dec_digits(s.position_of() as nat);
        if i < kind.len() {
        } else if i == kind.len() {
        } else if i < kind.len() + 1 + d1.len() {
            assert(l[i] == d1[i - kind.len() - 1]);
        } else if i == kind.len() + 1 + d1.len() {
        } else {
            assert(l[i] == d2[i - kind.len() - 2 - d1.len()]);
        }
    }
}

/// Law: labels read as FloorBoard writes them: `User 01:1` for USER bank 1
/// position 1 and `Preset 100:2` for PRESET bank 100 position 2 (the kind,
/// a space, the bank in decimal padded to two digits, a colon, the
/// position).
pub proof fn lemma_label_examples()
    ensures
        label_spec(PatchSlot::User { bank: 1, position: 1 }) == seq![85u8, 115, 101, 114, 32, 48, 49, 58, 49],
        label_spec(PatchSlot::User { bank: 42, position: 3 }) == seq![85u8, 115, 101, 114, 32, 52, 50, 58, 51],
        label_spec(PatchSlot::Preset { bank: 100, position: 2 }) == seq![80u8, 114, 101, 115, 101, 116, 32, 49, 48, 48, 58, 50],
{
    reveal_with_fuel(dec_digits, 4);
    assert(label_spec(PatchSlot::User { bank: 1, position: 1 }) =~= seq![85u8, 115, 101, 114, 32, 48, 49, 58, 49]);
    assert(label_spec(PatchSlot::User { bank: 42, position: 3 }) =~= seq![85u8, 115, 101, 114, 32, 52, 50, 58, 51]);
    assert(label_spec(PatchSlot::Preset { bank: 100, position: 2 }) =~= seq![80u8, 114, 101, 115, 101, 116, 32, 49, 48, 48, 58, 50]);
}

/// Law: the label of a real slot parses back to the same slot.
pub proof fn lemma_label_round_trip(s: PatchSlot)
    requires
        s.is_valid(),
    ensures
        parse_label_spec(label_spec(s)) == Some(Ok::<PatchSlot, PatchSlotError>(s)),
{
    lemma_dec_digits_parse(s.bank_of() as nat);
    lemma_dec_digits_parse(s.position_of() as nat);
    let kind = match s {
        PatchSlot::User { .. } => user_word(),
        PatchSlot::Preset { .. } => preset_word(),
    };
    let d1 = dec_digits_pad2(s.bank_of() as nat);
    let d2 = dec_digits(s.position_of() as nat);
    let l = label_spec(s);
    let k = kind.len() as int;
    assert(l[k] == 32);
    assert forall|j: int| 0 <= j < k implies l[j] != 32 by {
        assert(l[j] == kind[j]);
    }
    lemma_first_index_is(l, 32, 0, k);
    assert(l.take(k) =~= kind);
    let rest = l.skip(k + 1);
    assert(rest =~= d1 + seq![58u8] + d2);
    let c = d1.len() as int;
    assert(rest[c] == 58);
    assert forall|j: int| 0 <= j < c implies rest[j] != 58 by {
        assert(rest[j] == d1[j]);
    }
    lemma_first_index_is(rest, 58, 0, c);
    assert(rest.take(c) =~= d1);
    assert(rest.skip(c + 1) =~= d2);
    assert(user_word() != preset_word()) by {
        assert(user_word().len() != preset_word().len());
    }
}

impl std::str::FromStr for PatchSlot {
    type Err = PatchSlotError;

    fn from_str(s: &str) -> (r: Result<Self, PatchSlotError>)
        ensures
            match parse_label_spec(s.spec_bytes()) {
                Some(res) => r == res,
                None => r matches Err(PatchSlotError::Parse(t)) && t@ == s@,
            },
    {
        PatchSlot::parse_label(s)
    }
}

} // verus!
