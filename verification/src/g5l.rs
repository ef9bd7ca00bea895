//! Reader for FloorBoard `.g5l` library files: a 160-byte header starting
//! with the `G5LLibrarianFile` magic, then one 1239-byte slot per patch.
//! Each slot holds the patch's blocks at fixed offsets (see
//! [`layout_entry`]); block `0x01` is split in two and merged back here.
use vstd::prelude::*;
use crate::patch::PatchArea;
use crate::patch_codec::{decode_view, decode_fold, patch_writes, frame_patch_writes, last_at, taken_at, lemma_fold_header_byte, lemma_last_at_concat, lemma_addr_after_row, lift_pair, addr_after};
use crate::patch::PatchMode;
use crate::sysex::{Frame, FrameView};
use crate::system::frame_views;
use crate::text::{all_ascii, ascii_chars, string_from_utf8_lossy, utf8_lossy};
use crate::sysex::copy_range;

verus! {

/// Magic at the start of every `.g5l` file: `G5LLibrarianFile`.
pub const G5L_MAGIC: [u8; 16] = [
    0x47, 0x35, 0x4C, 0x4C, 0x69, 0x62, 0x72, 0x61, 0x72, 0x69, 0x61, 0x6E, 0x46, 0x69, 0x6C, 0x65,
];

/// Length of the file header before the first slot.
pub const G5L_HEADER_LEN: usize = 160;

/// Width of one patch slot, prefix included.
pub const G5L_PATCH_SLOT_LEN: usize = 1239;

/// The usual slot-prefix marker at slot offsets +2/+3. Files in the wild
/// use others too; slots are found by their fixed width, not by this.
pub const G5L_PATCH_MARKER: [u8; 2] = [0x04, 0xD3];

/// One block's payload from a slot: `block` is the block byte, `bytes` the
/// payload from the block's offset 0 on.
#[derive(Debug, Clone)]
pub struct G5lBlock {
    pub block: u8,
    pub bytes: Vec<u8>,
}

/// One patch read from a `.g5l` file.
#[derive(Debug, Clone)]
pub struct G5lPatch {
    /// Slot index within the file, from 0.
    pub slot_index: usize,
    /// The 16-byte, space-padded patch name.
    pub name: [u8; 16],
    /// The blocks, in slot order.
    pub blocks: Vec<G5lBlock>,
}

/// Why a file is not a `.g5l` library.
#[derive(Debug, Clone, Copy, PartialEq, Eq, Structural)]
pub enum G5lError {
    /// The file is shorter than a header and one slot.
    TooShort { min: usize, got: usize },
    /// The file does not start with the magic.
    BadMagic,
}

/// The `i`-th (slot offset, length, block) entry of the slot layout, in
/// the order the writer lays them out. Block `0x01` appears twice (its
/// first 114 and last 14 bytes); block `0x04` holds only its first 114
/// bytes.
pub open spec fn layout_entry(i: int) -> (int, int, u8) {
    if i == 0 {
        (12, 128, 0x00)
    } else if i == 1 {
        (140, 114, 0x01)
    } else if i == 2 {
        (262, 14, 0x01)
    } else if i == 3 {
        (276, 78, 0x02)
    } else if i == 4 {
        (362, 128, 0x03)
    } else if i == 5 {
        (490, 114, 0x04)
    } else if i == 6 {
        (618, 18, 0x05)
    } else if i == 7 {
        (652, 30, 0x06)
    } else if i == 8 {
        (690, 125, 0x07)
    } else if i == 9 {
        (823, 128, 0x10)
    } else if i == 10 {
        (951, 86, 0x11)
    } else if i == 11 {
        (1045, 35, 0x20)
    } else if i == 12 {
        (1084, 35, 0x21)
    } else if i == 13 {
        (1127, 52, 0x30)
    } else {
        (1183, 52, 0x31)
    }
}

/// The bytes of layout entry `i` of a slot.
pub open spec fn layout_bytes(slot: Seq<u8>, i: int) -> Seq<u8> {
    slot.subrange(layout_entry(i).0, layout_entry(i).0 + layout_entry(i).1)
}

/// The 14 blocks of a slot, block `0x01`'s two parts joined.
pub open spec fn slot_blocks(slot: Seq<u8>) -> Seq<(u8, Seq<u8>)> {
    Seq::new(
        14,
        |j: int|
            if j == 0 {
                (0x00u8, layout_bytes(slot, 0))
            } else if j == 1 {
                (0x01u8, layout_bytes(slot, 1) + layout_bytes(slot, 2))
            } else {
                (layout_entry(j + 1).2, layout_bytes(slot, j + 1))
            },
    )
}

/// Law: the slot layout of a `.g5l` patch: block `0x00` (names and pedal)
/// at slot offset 12, block `0x01` (Master Assigns) in two parts at 140 and
/// 262, Patch Common at 276, the MFX pages at 362 and 490, the reserved
/// block at 618, chorus/delay/reverb/EQ at 652, MOD/AMP at 690, the Modeling
/// pages at 823 and 951, the PCM 1 and PCM 2 headers at 1045 and 1084, and
/// the PCM 1 and PCM 2 tails at 1127 and 1183.
pub proof fn lemma_slot_layout(slot: Seq<u8>)
    ensures
        slot_blocks(slot).len() == 14,
        slot_blocks(slot)[0] == (0x00u8, slot.subrange(12, 140)),
        slot_blocks(slot)[1] == (0x01u8, slot.subrange(140, 254) + slot.subrange(262, 276)),
        slot_blocks(slot)[2] == (0x02u8, slot.subrange(276, 354)),
        slot_blocks(slot)[3] == (0x03u8, slot.subrange(362, 490)),
        slot_blocks(slot)[4] == (0x04u8, slot.subrange(490, 604)),
        slot_blocks(slot)[5] == (0x05u8, slot.subrange(618, 636)),
        slot_blocks(slot)[6] == (0x06u8, slot.subrange(652, 682)),
        slot_blocks(slot)[7] == (0x07u8, slot.subrange(690, 815)),
        slot_blocks(slot)[8] == (0x10u8, slot.subrange(823, 951)),
        slot_blocks(slot)[9] == (0x11u8, slot.subrange(951, 1037)),
        slot_blocks(slot)[10] == (0x20u8, slot.subrange(1045, 1080)),
        slot_blocks(slot)[11] == (0x21u8, slot.subrange(1084, 1119)),
        slot_blocks(slot)[12] == (0x30u8, slot.subrange(1127, 1179)),
        slot_blocks(slot)[13] == (0x31u8, slot.subrange(1183, 1235)),
{
}

/// Law: the name of a patch read from a slot is bytes 1 to 16 of its block
/// `0x00`, where the patch map keeps the patch name.
pub proof fn lemma_name_in_first_block(p: G5lPatch, index: usize, slot: Seq<u8>)
    requires
        extracts(p, index, slot),
        slot.len() == 1239,
    ensures
        p.blocks@.len() == 14,
        p.blocks@[0].block == 0x00,
        p.name@ == p.blocks@[0].bytes@.subrange(1, 17),
{
    lemma_slot_layout(slot);
    assert(p.blocks@.map_values(|b: G5lBlock| block_view(b))[0] == block_view(p.blocks@[0]));
    assert(p.blocks@[0].bytes@ == slot.subrange(12, 140));
    assert(p.blocks@[0].bytes@.subrange(1, 17) =~= slot.subrange(13, 29));
}

/// A block as (block byte, payload).
pub open spec fn block_view(b: G5lBlock) -> (u8, Seq<u8>) {
    (b.block, b.bytes@)
}

/// The patch read from `slot` as slot `index`.
pub open spec fn extracts(p: G5lPatch, index: usize, slot: Seq<u8>) -> bool {
    &&& p.slot_index == index
    &&& p.name@ == slot.subrange(13, 29)
    &&& p.blocks@.map_values(|b: G5lBlock| block_view(b)) == slot_blocks(slot)
}

/// The bytes of slot `i` of a file.
pub open spec fn slot_bytes(file: Seq<u8>, i: int) -> Seq<u8> {
    file.subrange(160 + i * 1239, 160 + (i + 1) * 1239)
}

/// Read one patch from a 1239-byte slot.
fn extract_patch(slot_index: usize, slot: &[u8]) -> (r: G5lPatch)
    requires
        slot@.len() == 1239,
    ensures
        extracts(r, slot_index, slot@),
{
    let mut name = [0u8; 16];
    let mut k: usize = 0;
    while k < 16
        invariant
            k <= 16,
            slot@.len() == 1239,
            forall|j: int| 0 <= j < k ==> #[trigger] name@[j] == slot@[13 + j],
        decreases 16 - k,
    {
        name[k] = slot[13 + k];
        k += 1;
    }
    assert(name@ =~= slot@.subrange(13, 29));
    let offs: [usize; 15] = [12, 140, 262, 276, 362, 490, 618, 652, 690, 823, 951, 1045, 1084, 1127, 1183];
    let lens: [usize; 15] = [128, 114, 14, 78, 128, 114, 18, 30, 125, 128, 86, 35, 35, 52, 52];
    let ids: [u8; 15] = [0x00, 0x01, 0x01, 0x02, 0x03, 0x04, 0x05, 0x06, 0x07, 0x10, 0x11, 0x20, 0x21, 0x30, 0x31];
    let mut blocks: Vec<G5lBlock> = Vec::new();
    let mut first = copy_range(slot, 12, 140);
    blocks.push(G5lBlock { block: 0x00, bytes: first });
    let mut merged = copy_range(slot, 140, 254);
    let tail = copy_range(slot, 262, 276);
    let mut t: usize = 0;
    while t < tail.len()
        invariant
            t <= tail@.len(),
            tail@ == slot@.subrange(262, 276),
            merged@ == slot@.subrange(140, 254) + tail@.take(t as int),
        decreases tail.len() - t,
    {
        merged.push(tail[t]);
        assert(tail@.take(t + 1) =~= tail@.take(t as int).push(tail@[t as int]));
        t += 1;
    }
    assert(tail@.take(14) =~= tail@);
    blocks.push(G5lBlock { block: 0x01, bytes: merged });
    let mut i: usize = 3;
    while i < 15
        invariant
            3 <= i <= 15,
            slot@.len() == 1239,
            offs@ == seq![12usize, 140, 262, 276, 362, 490, 618, 652, 690, 823, 951, 1045, 1084, 1127, 1183],
            lens@ == seq![128usize, 114, 14, 78, 128, 114, 18, 30, 125, 128, 86, 35, 35, 52, 52],
            ids@ == seq![0x00u8, 0x01, 0x01, 0x02, 0x03, 0x04, 0x05, 0x06, 0x07, 0x10, 0x11, 0x20, 0x21, 0x30, 0x31],
            blocks@.len() == i - 1,
            forall|j: int| 0 <= j < i - 1 ==> #[trigger] block_view(blocks@[j]) == slot_blocks(slot@)[j],
        decreases 15 - i,
    {
        let bytes = copy_range(slot, offs[i], offs[i] + lens[i]);
        blocks.push(G5lBlock { block: ids[i], bytes });
        i += 1;
    }
    let r = G5lPatch { slot_index, name, blocks };
    assert(r.blocks@.map_values(|b: G5lBlock| block_view(b)) =~= slot_blocks(slot@));
    r
}

/// Whether `bytes` starts with the magic.
fn has_magic(bytes: &[u8]) -> (r: bool)
    requires
        bytes@.len() >= 16,
    ensures
        r == (bytes@.subrange(0, 16) == G5L_MAGIC@),
{
    let mut i: usize = 0;
    while i < 16
        invariant
            i <= 16,
            bytes@.len() >= 16,
            forall|j: int| 0 <= j < i ==> bytes@[j] == G5L_MAGIC@[j],
        decreases 16 - i,
    {
        if bytes[i] != G5L_MAGIC[i] {
            assert(bytes@.subrange(0, 16)[i as int] != G5L_MAGIC@[i as int]);
            return false;
        }
        i += 1;
    }
    assert(bytes@.subrange(0, 16) =~= G5L_MAGIC@);
    true
}

/// Parse a `.g5l` file into one patch per full 1239-byte slot after the
/// 160-byte header. Bytes after the last full slot are ignored, and the
/// slot-prefix marker is not checked.
pub fn parse(bytes: &[u8]) -> (r: Result<Vec<G5lPatch>, G5lError>)
    ensures
        bytes@.len() < 1399 <==> r == Err::<Vec<G5lPatch>, G5lError>(
            G5lError::TooShort { min: 1399, got: bytes@.len() as usize },
        ),
        bytes@.len() >= 1399 && bytes@.subrange(0, 16) != G5L_MAGIC@ <==> r == Err::<
            Vec<G5lPatch>,
            G5lError,
        >(G5lError::BadMagic),
        bytes@.len() >= 1399 && bytes@.subrange(0, 16) == G5L_MAGIC@ ==> r is Ok,
        r matches Ok(ps) ==> {
            &&& ps@.len() == (bytes@.len() - 160) / 1239
            &&& forall|i: int| 0 <= i < ps@.len() ==> extracts(#[trigger] ps@[i], i as usize, slot_bytes(bytes@, i))
        },
{
    if bytes.len() < G5L_HEADER_LEN + G5L_PATCH_SLOT_LEN {
        return Err(G5lError::TooShort { min: G5L_HEADER_LEN + G5L_PATCH_SLOT_LEN, got: bytes.len() });
    }
    if !has_magic(bytes) {
        return Err(G5lError::BadMagic);
    }
    let n_patches = (bytes.len() - G5L_HEADER_LEN) / G5L_PATCH_SLOT_LEN;
    let mut out: Vec<G5lPatch> = Vec::new();
    let mut i: usize = 0;
    while i < n_patches
        invariant
            i <= n_patches,
            n_patches == (bytes@.len() - 160) / 1239,
            bytes@.len() >= 1399,
            out@.len() == i,
            forall|j: int| 0 <= j < i ==> extracts(#[trigger] out@[j], j as usize, slot_bytes(bytes@, j)),
        decreases n_patches - i,
    {
        assert(160 + (i + 1) * 1239 <= bytes@.len() && 160 + i * 1239 + 1239 <= bytes@.len()) by (nonlinear_arith)
            requires
                i < n_patches,
                n_patches == (bytes@.len() - 160) / 1239,
                bytes@.len() >= 1399,
        ;
        let len = bytes.len();
        assert(i * 1239 + 1399 <= len);
        let slot_start: usize = 160 + i * 1239;
        let slot = copy_range(bytes, slot_start, slot_start + 1239);
        out.push(extract_patch(i, slot.as_slice()));
        i += 1;
    }
    Ok(out)
}

/// How many bytes follow the last full slot.
pub fn trailing_bytes_after_last_slot(bytes: &[u8]) -> (r: usize)
    ensures
        r == (if bytes@.len() < 160 {
            0
        } else {
            (bytes@.len() - 160) % 1239
        }),
{
    if bytes.len() < G5L_HEADER_LEN {
        return 0;
    }
    (bytes.len() - G5L_HEADER_LEN) % G5L_PATCH_SLOT_LEN
}

/// Length of `name` without its trailing spaces.
pub open spec fn trimmed_len(name: Seq<u8>) -> int
    decreases name.len(),
{
    if name.len() == 0 {
        0
    } else if name.last() == 0x20 {
        trimmed_len(name.drop_last())
    } else {
        name.len() as int
    }
}

/// The DT1 frame carrying block `b` of a patch at MSB `msb`: address
/// `[msb, 0x00, block, 0x00]`.
pub open spec fn block_frame(b: (u8, Seq<u8>), device_id: u8, msb: u8) -> FrameView {
    FrameView::Dt1 { device_id, address: seq![msb, 0x00, b.0, 0x00], data: b.1 }
}

impl G5lPatch {
    /// The patch name as text, trailing pad spaces removed.
    pub fn name_str(&self) -> (r: String)
        ensures
            r@ == utf8_lossy(self.name@.take(trimmed_len(self.name@))),
            all_ascii(self.name@) ==> r@ == ascii_chars(self.name@.take(trimmed_len(self.name@))),
    {
        let mut n: usize = 16;
        proof {
            assert(self.name@.take(16) =~= self.name@);
        }
        while n > 0 && self.name[n - 1] == 0x20
            invariant
                n <= 16,
                trimmed_len(self.name@.take(n as int)) == trimmed_len(self.name@),
            decreases n,
        {
            proof {
                assert(self.name@.take(n as int).drop_last() =~= self.name@.take(n - 1));
            }
            n -= 1;
        }
        proof {
            if n > 0 {
                assert(self.name@.take(n as int).last() != 0x20);
            }
            assert(trimmed_len(self.name@.take(n as int)) == n);
        }
        let bytes = copy_range(&self.name, 0, n);
        proof {
            assert(bytes@ =~= self.name@.take(n as int));
            if all_ascii(self.name@) {
                assert(all_ascii(bytes@));
            }
        }
        string_from_utf8_lossy(bytes.as_slice())
    }

    /// One DT1 frame per block at address `[base_msb, 0x00, block, 0x00]`.
    pub fn to_frames(&self, device_id: u8, base_msb: u8) -> (r: Vec<Frame>)
        ensures
            frame_views(r@) == self.blocks@.map_values(
                |b: G5lBlock| block_frame(block_view(b), device_id, base_msb),
            ),
    {
        let mut out: Vec<Frame> = Vec::new();
        let mut i: usize = 0;
        while i < self.blocks.len()
            invariant
                i <= self.blocks@.len(),
                frame_views(out@) == self.blocks@.take(i as int).map_values(
                    |b: G5lBlock| block_frame(block_view(b), device_id, base_msb),
                ),
            decreases self.blocks.len() - i,
        {
            let b = &self.blocks[i];
            let data = copy_range(b.bytes.as_slice(), 0, b.bytes.len());
            let address = [base_msb, 0x00, b.block, 0x00];
            assert(address@ =~= seq![base_msb, 0x00, b.block, 0x00]);
            assert(data@ =~= b.bytes@);
            let ghost before = frame_views(out@);
            let f = Frame::Dt1 { device_id, address, data };
            out.push(f);
            proof {
                assert(frame_views(out@) =~= before.push(f@));
                assert(self.blocks@.take(i + 1) =~= self.blocks@.take(i as int).push(self.blocks@[i as int]));
                assert(frame_views(out@) =~= self.blocks@.take(i + 1).map_values(
                    |b: G5lBlock| block_frame(block_view(b), device_id, base_msb),
                ));
            }
            i += 1;
        }
        proof {
            assert(self.blocks@.take(self.blocks@.len() as int) =~= self.blocks@);
        }
        out
    }

    /// Decode the patch at MSB `base_msb` (device id `0x10`).
    pub fn to_patch_area(&self, base_msb: u8) -> (r: PatchArea)
        ensures
            r.has_view(
                decode_view(
                    self.blocks@.map_values(|b: G5lBlock| block_frame(block_view(b), 0x10, base_msb)),
                    base_msb,
                ),
            ),
    {
        let frames = self.to_frames(0x10, base_msb);
        PatchArea::from_frames_at(frames.as_slice(), base_msb)
    }
}

/// The decoder frames of a patch's blocks at MSB `msb`.
pub open spec fn block_frames(p: G5lPatch, msb: u8) -> Seq<FrameView> {
    p.blocks@.map_values(|b: G5lBlock| block_frame(block_view(b), 0x10, msb))
}

/// A row of writes at `(0, h, 0)`, `(0, h, 1)`, ... shows at `(0, 0, l)`
/// the byte written there, and nothing when `h` is not `0`.
proof fn lemma_row_last_at(ws: Seq<(u8, u8, u8, u8)>, h: u8, l: u8)
    requires
        ws.len() <= 0x80,
        forall|i: int| 0 <= i < ws.len() ==> (#[trigger] ws[i]).0 == 0 && ws[i].1 == h && ws[i].2 == i,
    ensures
        last_at(ws, (0u8, 0u8, l)) == (if h == 0 && l < ws.len() { Some(ws[l as int].3) } else { None }),
    decreases ws.len(),
{
    if ws.len() > 0 {
        let w0 = ws.drop_last();
        assert forall|i: int| 0 <= i < w0.len() implies (#[trigger] w0[i]).0 == 0 && w0[i].1 == h && w0[i].2 == i by {
            assert(w0[i] == ws[i]);
        }
        lemma_row_last_at(w0, h, l);
        if h == 0 && l < w0.len() {
            assert(w0[l as int] == ws[l as int]);
        }
    }
}

/// The writes of a block's frame: its payload along one page row.
proof fn lemma_block_writes(blk: u8, data: Seq<u8>, msb: u8)
    requires
        data.len() <= 0x80,
    ensures
        ({
            let ws = frame_patch_writes(block_frame((blk, data), 0x10, msb), msb);
            &&& ws.len() == data.len()
            &&& forall|i: int| 0 <= i < ws.len() ==> (#[trigger] ws[i]).0 == 0 && ws[i].1 == blk
                && ws[i].2 == i && ws[i].3 == data[i]
        }),
{
    let ws = frame_patch_writes(block_frame((blk, data), 0x10, msb), msb);
    assert forall|i: int| 0 <= i < ws.len() implies (#[trigger] ws[i]).0 == 0 && ws[i].1 == blk
        && ws[i].2 == i && ws[i].3 == data[i] by {
        lemma_addr_after_row(0, blk, i as nat);
    }
}

/// The last write at `(0, 0, l)` among a parsed patch's block frames is
/// block `0x00`'s byte `l`.
proof fn lemma_blocks_last_at(p: G5lPatch, index: usize, slot: Seq<u8>, msb: u8, l: u8, n: int)
    requires
        slot.len() == 1239,
        extracts(p, index, slot),
        1 <= n <= 14,
        l <= 0x10,
    ensures
        last_at(patch_writes(block_frames(p, msb).take(n), msb), (0u8, 0u8, l)) == Some(slot[12 + l]),
    decreases n,
{
    let fs = block_frames(p, msb);
    let bs = slot_blocks(slot);
    assert(p.blocks@.map_values(|b: G5lBlock| block_view(b)) == bs);
    assert(p.blocks@.len() == 14);
    assert(fs.take(n).drop_last() =~= fs.take(n - 1));
    assert(fs.take(n).last() == fs[n - 1]);
    let j = n - 1;
    assert(block_view(p.blocks@[j]) == bs[j]);
    assert(fs[j] == block_frame(bs[j], 0x10, msb));
    assert(bs[j].1.len() <= 0x80);
    lemma_block_writes(bs[j].0, bs[j].1, msb);
    let last = frame_patch_writes(fs[j], msb);
    lemma_row_last_at(last, bs[j].0, l);
    lemma_last_at_concat(patch_writes(fs.take(n - 1), msb), last, (0u8, 0u8, l));
    if n == 1 {
        assert(fs.take(0) =~= Seq::<FrameView>::empty());
        assert(patch_writes(fs.take(0), msb) =~= Seq::<(u8, u8, u8, u8)>::empty());
        assert(bs[0].0 == 0 && bs[0].1 == slot.subrange(12, 140));
    } else {
        assert(bs[j].0 != 0);
        lemma_blocks_last_at(p, index, slot, msb, l, n - 1);
    }
}

/// Law: a patch read from a `.g5l` slot decodes to the name the slot
/// holds and the mode byte that opens block `0x00`.
pub proof fn lemma_g5l_name_mode(p: G5lPatch, index: usize, slot: Seq<u8>, msb: u8, a: PatchArea)
    requires
        slot.len() == 1239,
        extracts(p, index, slot),
        a.has_view(decode_view(block_frames(p, msb), msb)),
    ensures
        a.name.0@ == p.name@,
        a.mode == PatchMode::from_byte_spec(p.blocks@[0].bytes@[0]),
{
    let fs = block_frames(p, msb);
    assert(p.blocks@.map_values(|b: G5lBlock| block_view(b)) == slot_blocks(slot));
    assert(fs.take(14) =~= fs);
    assert(block_view(p.blocks@[0]) == slot_blocks(slot)[0]);
    let v0 = decode_fold(patch_writes(fs, msb));
    let v1 = lift_pair(v0, (2u8, 0u8, 0x30u8), (2u8, 0u8, 0x31u8), 200);
    let dv = decode_view(fs, msb);
    assert forall|l: u8| l <= 0x10 implies #[trigger] a.typed_at(0, 0, l) == taken_at((0u8, 0u8, l), slot[12 + l]) by {
        lemma_blocks_last_at(p, index, slot, msb, l, 14);
        lemma_fold_header_byte(patch_writes(fs, msb), l);
        assert(dv.0.get((0u8, 0u8, l)) == v0.0.get((0u8, 0u8, l)));
        assert(a.typed_at(0, 0, l) == dv.0.get((0u8, 0u8, l)));
    }
    assert forall|i: int| 0 <= i < 16 implies a.name.0@[i] == #[trigger] p.name@[i] by {
        let l = (i + 1) as u8;
        assert(a.typed_at(0, 0, l) == taken_at((0u8, 0u8, l), slot[12 + l]));
        assert(p.name@[i] == slot[13 + i]);
    }
    assert(a.name.0@ =~= p.name@);
    assert(a.typed_at(0, 0, 0) == taken_at((0u8, 0u8, 0u8), slot[12]));
    assert(p.blocks@[0].bytes@[0] == slot[12]);
    reveal(crate::patch::opt_byte_patch_mode);
    crate::patch::lemma_opt_byte_patch_mode(slot[12]);
}

} // verus!
