//! Encoding a [`PatchArea`] to DT1 frames and decoding it from them.
use vstd::prelude::*;
use crate::byte_map::{ByteMap, entries_map, sorted_keys, lemma_entries_facts, lemma_entries_map_prefix};
use crate::codec::CodecError;
use crate::patch::{PatchArea, keys_below, overlay, raw_wire_key, lemma_overlay_gap, lemma_overlay_same};
use crate::patch_slots::Pcm;
use crate::system::{key_of, key_bytes, lemma_key_bytes, key_address, opt_insert, insert_opt, frame_views, nibble_pair_value, nibble_pair_bytes, lemma_nibble_pair_round_trip, PatchLevel};
use crate::patch_values::PatchTempo;
use crate::sysex::{decoded_frames, ok_frames, scan_all, Frame, FrameView};

verus! {

broadcast use vstd::array::lemma_array_index;

/// Which PCM tone a page belongs to, and which of its two pages it is.
#[derive(Debug, Clone, Copy, PartialEq, Eq)]
pub enum PcmPageRole {
    /// The tone's common header page.
    Header(usize),
    /// The tone's tone-shaping tail page.
    Tail(usize),
}

/// The role of wire page `page`: PCM Tone 1 owns pages `0x20` (header) and
/// `0x30` (tail), PCM Tone 2 owns `0x21` and `0x31`; no other page is a
/// PCM page.
pub fn pcm_route_for_page(page: u8) -> (r: Option<PcmPageRole>)
    ensures
        r == pcm_route_for_page_spec(page),
{
    if page == 0x20 {
        Some(PcmPageRole::Header(0))
    } else if page == 0x21 {
        Some(PcmPageRole::Header(1))
    } else if page == 0x30 {
        Some(PcmPageRole::Tail(0))
    } else if page == 0x31 {
        Some(PcmPageRole::Tail(1))
    } else {
        None
    }
}

/// The `(header_page, tail_page)` pair that PCM slot `idx` writes to.
pub fn pcm_pages_for_slot(idx: usize) -> (r: (u8, u8))
    requires
        idx < 2,
    ensures
        r == (if idx == 0 { (0x20u8, 0x30u8) } else { (0x21u8, 0x31u8) }),
        pcm_route_for_page_spec(r.0) == Some(PcmPageRole::Header(idx)),
        pcm_route_for_page_spec(r.1) == Some(PcmPageRole::Tail(idx)),
{
    if idx == 0 {
        (0x20, 0x30)
    } else {
        (0x21, 0x31)
    }
}

/// Mathematical statement of [`pcm_route_for_page`].
pub open spec fn pcm_route_for_page_spec(page: u8) -> Option<PcmPageRole> {
    if page == 0x20 {
        Some(PcmPageRole::Header(0))
    } else if page == 0x21 {
        Some(PcmPageRole::Header(1))
    } else if page == 0x30 {
        Some(PcmPageRole::Tail(0))
    } else if page == 0x31 {
        Some(PcmPageRole::Tail(1))
    } else {
        None
    }
}

/// Adding key `k` to the bound adds its typed byte, if any.
proof fn lemma_typed_upto_step(a: PatchArea, k: u32)
    requires
        k < 0x1000000,
    ensures
        a.typed_upto(k + 1) == opt_insert(
            a.typed_upto(k as int),
            k,
            a.typed_at(key_bytes(k)[1], key_bytes(k)[2], key_bytes(k)[3]),
        ),
{
    assert(a.typed_upto(k + 1) =~= opt_insert(
        a.typed_upto(k as int),
        k,
        a.typed_at(key_bytes(k)[1], key_bytes(k)[2], key_bytes(k)[3]),
    ));
}

/// Keys whose middle byte is not zero carry no typed byte.
proof fn lemma_typed_upto_gap(a: PatchArea, lo: int, hi: int)
    requires
        lo <= hi,
        forall|k: u32| lo <= k < hi ==> #[trigger] a.typed_at(key_bytes(k)[1], key_bytes(k)[2], key_bytes(k)[3]) is None,
    ensures
        a.typed_upto(lo) == a.typed_upto(hi),
{
    assert(a.typed_upto(lo) =~= a.typed_upto(hi));
}

/// A raw tail's keys all lie in `lo..=hi`, or here is one that does not.
fn check_range(m: &ByteMap, lo: u32, hi: u32) -> (r: Option<u32>)
    ensures
        r is None <==> forall|k: u32| #[trigger] m@.contains_key(k) ==> lo <= k <= hi,
        r matches Some(k) ==> m@.contains_key(k) && !(lo <= k <= hi),
{
    let n = m.len();
    let mut i: usize = 0;
    while i < n
        invariant
            i <= n,
            n == m.entries_spec().len(),
            sorted_keys(m.entries_spec()),
            m@ == entries_map(m.entries_spec()),
            forall|j: int| 0 <= j < i ==> lo <= #[trigger] m.entries_spec()[j].0 <= hi,
        decreases n - i,
    {
        let (k, _) = m.entry(i);
        if k < lo || k > hi {
            return Some(k);
        }
        i += 1;
    }
    proof {
        lemma_entries_facts(m.entries_spec());
        assert forall|k: u32| #[trigger] m@.contains_key(k) implies lo <= k <= hi by {
            let j = choose|j: int| 0 <= j < m.entries_spec().len() && m.entries_spec()[j].0 == k;
        }
    }
    None
}

impl PatchArea {
    /// The first raw-tail or unknown key that cannot be encoded, if any.
    fn bad_key(&self) -> (r: Option<u32>)
        ensures
            r is None <==> self.encodable(),
            r matches Some(k) ==> self.key_is_bad(k),
    {
        if let Some(m) = &self.mfx {
            if let Some(k) = check_range(&m.raw_tail, 0, 0xFFFF) {
                return Some(k);
            }
        }
        if let Some(m) = &self.modulation {
            if let Some(k) = check_range(&m.raw_tail, 0, 0xFF) {
                return Some(k);
            }
        }
        if let Some(m) = &self.modeling {
            if let Some(k) = check_range(&m.raw_tail, 0, 0xFFFF) {
                return Some(k);
            }
        }
        if let Some(x) = &self.pcm[0] {
            if let Some(k) = check_range(&x.raw_tail, 0, 0xFF) {
                return Some(k);
            }
        }
        if let Some(x) = &self.pcm[1] {
            if let Some(k) = check_range(&x.raw_tail, 0, 0xFF) {
                return Some(k);
            }
        }
        check_range(&self.unknown_bytes, 0, 0xFFFFFF)
    }

    /// `k` is a raw-tail key wider than its slot's key width, or an unknown
    /// key wider than three bytes.
    pub open spec fn key_is_bad(self, k: u32) -> bool {
        ||| (Self::mfx_raw(self.mfx).contains_key(k) && k > 0xFFFF)
        ||| (Self::mod_raw(self.modulation).contains_key(k) && k > 0xFF)
        ||| (Self::modeling_raw(self.modeling).contains_key(k) && k > 0xFFFF)
        ||| (Self::pcm_raw(self.pcm@[0]).contains_key(k) && k > 0xFF)
        ||| (Self::pcm_raw(self.pcm@[1]).contains_key(k) && k > 0xFF)
        ||| (self.unknown_bytes@.contains_key(k) && k >= 0x1000000)
    }

    /// All the area's wire bytes keyed by packed (page, hi, lo); fails on a
    /// key that cannot be encoded.
    pub fn collect_bytes(&self) -> (r: Result<ByteMap, CodecError>)
        ensures
            r is Ok <==> self.encodable(),
            r matches Ok(m) ==> m@ == self.wire(),
            r matches Err(e) ==> e matches CodecError::BadStoredAddress(k) && self.key_is_bad(k),
    {
        if let Some(k) = self.bad_key() {
            return Err(CodecError::BadStoredAddress(k));
        }
        let mut bytes = ByteMap::new();
        proof {
            assert(self.typed_upto(0) =~= Map::<u32, u8>::empty());
        }
        let mut p: u32 = 0;
        while p < 0x32
            invariant
                p <= 0x32,
                bytes@ == self.typed_upto(p * 0x10000),
            decreases 0x32 - p,
        {
            let mut l: u32 = 0;
            while l < 256
                invariant
                    p < 0x32,
                    l <= 256,
                    bytes@ == self.typed_upto(p * 0x10000 + l),
                decreases 256 - l,
            {
                let k: u32 = p * 0x10000 + l;
                proof {
                    lemma_key_bytes(k, 0, p as u8, 0, l as u8);
                    assert(k == key_of(0, p as u8, 0, l as u8));
                    lemma_typed_upto_step(*self, k);
                }
                let o = self.typed_byte(p as u8, 0, l as u8);
                insert_opt(&mut bytes, k, o);
                l += 1;
            }
            proof {
                assert forall|k: u32| p * 0x10000 + 256 <= k < (p + 1) * 0x10000 implies #[trigger] self.typed_at(key_bytes(k)[1], key_bytes(k)[2], key_bytes(k)[3]) is None by {
                    let pp = p;
                    assert(((k >> 8u32) & 0xFF) as u8 != 0) by (bit_vector)
                        requires
                            pp < 0x32,
                            pp * 0x10000 + 256 <= k < (pp + 1) * 0x10000,
                    ;
                    assert(key_bytes(k)[2] != 0);
                }
                lemma_typed_upto_gap(*self, p * 0x10000 + 256, (p + 1) * 0x10000);
            }
            p += 1;
        }
        proof {
            assert forall|k: u32| 0x320000 <= k < 0x1000000 implies #[trigger] self.typed_at(key_bytes(k)[1], key_bytes(k)[2], key_bytes(k)[3]) is None by {
                assert(((k >> 16u32) & 0xFF) as u8 >= 0x32) by (bit_vector)
                    requires
                        0x320000 <= k < 0x1000000,
                ;
                assert(key_bytes(k)[1] >= 0x32);
            }
            lemma_typed_upto_gap(*self, 0x320000, 0x1000000);
        }
        let ghost t = bytes@;
        let ghost a = overlay(t, PatchArea::mfx_raw(self.mfx), 3, 4, true, 0x10000);
        if let Some(m) = &self.mfx {
            overlay_raw(&mut bytes, &m.raw_tail, 3, 4, true, 0x10000);
        } else {
            proof {
                lemma_overlay_same(t, Map::empty(), 3, 4, true, 0x10000);
            }
        }
        let ghost b = overlay(a, PatchArea::mod_raw(self.modulation), 7, 7, false, 0x100);
        if let Some(m) = &self.modulation {
            overlay_raw(&mut bytes, &m.raw_tail, 7, 7, false, 0x100);
        } else {
            proof {
                lemma_overlay_same(a, Map::empty(), 7, 7, false, 0x100);
            }
        }
        assert(bytes@ == b);
        proof {
            lemma_key_bytes(0, 0, 7, 0, 0x5A);
            lemma_key_bytes(0, 0, 7, 0, 0x5B);
            lemma_key_bytes(0, 0, 7, 0, 0x5C);
        }
        let o = self.typed_byte(7, 0, 0x5A);
        insert_opt(&mut bytes, 0x07005A, o);
        let o = self.typed_byte(7, 0, 0x5B);
        insert_opt(&mut bytes, 0x07005B, o);
        let o = self.typed_byte(7, 0, 0x5C);
        insert_opt(&mut bytes, 0x07005C, o);
        let ghost c = bytes@;
        let ghost d = overlay(c, PatchArea::modeling_raw(self.modeling), 0x10, 0x11, true, 0x10000);
        if let Some(m) = &self.modeling {
            overlay_raw(&mut bytes, &m.raw_tail, 0x10, 0x11, true, 0x10000);
        } else {
            proof {
                lemma_overlay_same(c, Map::empty(), 0x10, 0x11, true, 0x10000);
            }
        }
        let ghost e = overlay(d, PatchArea::pcm_raw(self.pcm@[0]), 0x30, 0x30, false, 0x100);
        if let Some(x) = &self.pcm[0] {
            overlay_raw(&mut bytes, &x.raw_tail, 0x30, 0x30, false, 0x100);
        } else {
            proof {
                lemma_overlay_same(d, Map::empty(), 0x30, 0x30, false, 0x100);
            }
        }
        let ghost f = overlay(e, PatchArea::pcm_raw(self.pcm@[1]), 0x31, 0x31, false, 0x100);
        if let Some(x) = &self.pcm[1] {
            overlay_raw(&mut bytes, &x.raw_tail, 0x31, 0x31, false, 0x100);
        } else {
            proof {
                lemma_overlay_same(e, Map::empty(), 0x31, 0x31, false, 0x100);
            }
        }
        assert(bytes@ == f);
        bytes.extend_from(&self.unknown_bytes);
        Ok(bytes)
    }
}

/// The wire key of raw-tail key `k` (see [`raw_wire_key`]).
fn raw_key_at(p0: u8, p1: u8, split: bool, k: u32) -> (r: u32)
    ensures
        r == raw_wire_key(p0, p1, split, k),
{
    let (page, lo): (u8, u8) = if split && k >= 128 {
        (p1, (k - 128) as u8)
    } else {
        (p0, k as u8)
    };
    proof {
        lemma_key_bytes(0, 0, page, 0, lo);
    }
    (page as u32) * 0x10000 + (lo as u32)
}

/// Write the raw-tail bytes of `raw` over `bytes` in increasing key order,
/// each at its wire key.
fn overlay_raw(bytes: &mut ByteMap, raw: &ByteMap, p0: u8, p1: u8, split: bool, bound: u32)
    requires
        keys_below(raw@, bound as int),
    ensures
        final(bytes)@ == overlay(old(bytes)@, raw@, p0, p1, split, bound as nat),
{
    let n = raw.len();
    let ghost s = raw.entries_spec();
    let ghost start = bytes@;
    let ghost mut cur: nat = 0;
    let mut i: usize = 0;
    while i < n
        invariant
            i <= n,
            n == s.len(),
            s == raw.entries_spec(),
            sorted_keys(s),
            raw@ == entries_map(s),
            keys_below(raw@, bound as int),
            cur <= bound,
            i == 0 ==> cur == 0,
            i > 0 ==> cur == s[i - 1].0 + 1,
            bytes@ == overlay(start, raw@, p0, p1, split, cur),
        decreases n - i,
    {
        let (k, b) = raw.entry(i);
        proof {
            lemma_entries_facts(s);
            assert forall|j: u32| cur <= j < k implies !#[trigger] raw@.contains_key(j) by {
                if raw@.contains_key(j) {
                    let x = choose|x: int| 0 <= x < s.len() && s[x].0 == j;
                    if x < i {
                        assert(s[x].0 <= s[i - 1].0);
                    } else if x > i {
                        assert(s[i as int].0 < s[x].0);
                    }
                }
            }
            if i > 0 {
                assert(s[i - 1].0 < s[i as int].0);
            }
            lemma_overlay_gap(start, raw@, p0, p1, split, cur, k as nat);
        }
        let key = raw_key_at(p0, p1, split, k);
        bytes.insert(key, b);
        proof {
            cur = k as nat + 1;
        }
        i += 1;
    }
    proof {
        lemma_entries_facts(s);
        assert forall|j: u32| cur <= j < bound implies !#[trigger] raw@.contains_key(j) by {
            if raw@.contains_key(j) {
                let x = choose|x: int| 0 <= x < s.len() && s[x].0 == j;
                assert(s[x].0 <= s[n - 1].0);
            }
        }
        lemma_overlay_gap(start, raw@, p0, p1, split, cur, bound as nat);
    }
}

// ---------------------------------------------------------------------
// Decoding
// ---------------------------------------------------------------------
/// A patch address: page, hi, lo.
pub type Addr3 = (u8, u8, u8);

/// The address after `a`: the LSB counts up to `0x7F`, then carries into
/// hi, and hi into the page.
pub open spec fn next_addr(a: Addr3) -> Addr3 {
    if a.2 >= 0x7F {
        if a.1 >= 0x7F {
            (if a.0 == 255 { 0u8 } else { (a.0 + 1) as u8 }, 0u8, 0u8)
        } else {
            (a.0, (a.1 + 1) as u8, 0u8)
        }
    } else {
        (a.0, a.1, (a.2 + 1) as u8)
    }
}

/// The address `n` steps after `a`.
pub open spec fn addr_after(a: Addr3, n: nat) -> Addr3
    decreases n,
{
    if n == 0 {
        a
    } else {
        next_addr(addr_after(a, (n - 1) as nat))
    }
}

/// The (page, hi, lo, byte) writes of one frame for a patch at MSB `msb`:
/// a DT1 frame at that MSB writes its bytes at consecutive addresses; other
/// frames write nothing.
pub open spec fn frame_patch_writes(f: FrameView, msb: u8) -> Seq<(u8, u8, u8, u8)> {
    match f {
        FrameView::Dt1 { address, data, .. } => if address[0] == msb {
            Seq::new(
                data.len(),
                |i: int|
                    {
                        let a = addr_after((address[1], address[2], address[3]), i as nat);
                        (a.0, a.1, a.2, data[i])
                    },
            )
        } else {
            Seq::empty()
        },
        FrameView::Rq1 { .. } => Seq::empty(),
    }
}

/// The writes of a frame sequence, frame after frame.
pub open spec fn patch_writes(fs: Seq<FrameView>, msb: u8) -> Seq<(u8, u8, u8, u8)>
    decreases fs.len(),
{
    if fs.len() == 0 {
        Seq::empty()
    } else {
        patch_writes(fs.drop_last(), msb) + frame_patch_writes(fs.last(), msb)
    }
}

/// What decoding tracks: the typed wire view, by address, and the unknown
/// bytes, by packed address.
pub type DecodeView = (Map<Addr3, u8>, Map<u32, u8>);

/// One byte taken by the decoder (see [`PatchArea::store_post`]).
pub open spec fn decode_step(v: DecodeView, w: (u8, u8, u8, u8)) -> DecodeView {
    let (p, h, l, b) = w;
    let wk = PatchArea::wire_key(p, h, l);
    let c = PatchArea::key_class(p, h, l);
    let acc = PatchArea::key_accepts(p, h, l, b);
    let t = if c == 1 {
        if acc {
            Some(b)
        } else {
            None
        }
    } else if c == 3 {
        if b == 0x20 {
            None
        } else {
            Some(b)
        }
    } else if c == 4 {
        Some(b)
    } else if c == 2 && acc {
        Some(b)
    } else {
        v.0.get(wk)
    };
    let typed = match t {
        Some(x) => v.0.insert(wk, x),
        None => v.0.remove(wk),
    };
    let unknown = if PatchArea::goes_unknown(p, h, l, b) {
        v.1.insert(key_of(0, p, h, l), b)
    } else {
        v.1
    };
    (typed, unknown)
}

/// Every byte of `m` would decode back to itself at its own address.
pub open spec fn unknown_ok(m: Map<u32, u8>) -> bool {
    forall|k: u32| #[trigger] m.contains_key(k) ==> write_ok(k, m[k])
}

/// A decoder step parks only bytes that would be parked again.
proof fn lemma_step_unknown_ok(v: DecodeView, w: (u8, u8, u8, u8))
    requires
        unknown_ok(v.1),
    ensures
        unknown_ok(decode_step(v, w).1),
{
    let (p, h, l, b) = w;
    lemma_key_bytes(0, 0, p, h, l);
    let k = key_of(0, p, h, l);
    assert(key_bytes(k)[1] == p && key_bytes(k)[2] == h && key_bytes(k)[3] == l);
}

/// The decoder's parked bytes would all be parked again.
proof fn lemma_fold_unknown_ok(ws: Seq<(u8, u8, u8, u8)>)
    ensures
        unknown_ok(decode_fold(ws).1),
    decreases ws.len(),
{
    if ws.len() > 0 {
        lemma_fold_unknown_ok(ws.drop_last());
        lemma_step_unknown_ok(decode_fold(ws.drop_last()), ws.last());
    }
}

/// Lifting a nibble pair only removes parked bytes.
proof fn lemma_lift_unknown_ok(v: DecodeView, hk: Addr3, lk: Addr3, max: int)
    requires
        unknown_ok(v.1),
    ensures
        unknown_ok(lift_pair(v, hk, lk, max).1),
{
}

/// The decoder's view after a sequence of writes, from an empty patch.
pub open spec fn decode_fold(ws: Seq<(u8, u8, u8, u8)>) -> DecodeView
    decreases ws.len(),
{
    if ws.len() == 0 {
        (Map::empty(), Map::empty())
    } else {
        decode_step(decode_fold(ws.drop_last()), ws.last())
    }
}

/// Lift a nibble pair parked in the unknown bytes at `hk`/`lk` into the
/// typed view when both are there and their value is at most `max`.
pub open spec fn lift_pair(v: DecodeView, hk: Addr3, lk: Addr3, max: int) -> DecodeView {
    let kh = key_of(0, hk.0, hk.1, hk.2);
    let kl = key_of(0, lk.0, lk.1, lk.2);
    if v.1.contains_key(kh) && v.1.contains_key(kl) && (nibble_pair_value(v.1[kh], v.1[kl]) matches Some(x)
        && x <= max) {
        (v.0.insert(hk, v.1[kh]).insert(lk, v.1[kl]), v.1.remove(kh).remove(kl))
    } else {
        v
    }
}

/// The view of the patch decoded from `fs` at MSB `msb`: every write
/// taken in order, then the patch level and tempo nibble pairs lifted.
pub open spec fn decode_view(fs: Seq<FrameView>, msb: u8) -> DecodeView {
    lift_pair(
        lift_pair(decode_fold(patch_writes(fs, msb)), (2u8, 0u8, 0x30u8), (2u8, 0u8, 0x31u8), 200),
        (2u8, 0u8, 0x3Cu8),
        (2u8, 0u8, 0x3Du8),
        255,
    )
}

proof fn lemma_patch_writes_push(fs: Seq<FrameView>, f: FrameView, msb: u8)
    ensures
        patch_writes(fs.push(f), msb) == patch_writes(fs, msb) + frame_patch_writes(f, msb),
{
    assert(fs.push(f).drop_last() =~= fs);
}

proof fn lemma_decode_fold_push(ws: Seq<(u8, u8, u8, u8)>, w: (u8, u8, u8, u8))
    ensures
        decode_fold(ws.push(w)) == decode_step(decode_fold(ws), w),
{
    assert(ws.push(w).drop_last() =~= ws);
}

impl PatchArea {
    /// The area's typed view and unknown bytes are `v`.
    pub open spec fn has_view(self, v: DecodeView) -> bool {
        &&& forall|p: u8, h: u8, l: u8| #[trigger] self.typed_at(p, h, l) == v.0.get((p, h, l))
        &&& self.unknown_bytes@ == v.1
    }

    /// A decoder step keeps the area in step with its view.
    proof fn lemma_store_step(old: PatchArea, new: PatchArea, v: DecodeView, p: u8, h: u8, l: u8, b: u8)
        requires
            old.has_view(v),
            old.tones_unset(),
            PatchArea::store_post(new, old, p, h, l, b),
        ensures
            new.has_view(decode_step(v, (p, h, l, b))),
            new.tones_unset(),
    {
        let nv = decode_step(v, (p, h, l, b));
        let w = PatchArea::wire_key(p, h, l);
        assert forall|pp: u8, hh: u8, ll: u8| #[trigger] new.typed_at(pp, hh, ll) == nv.0.get((pp, hh, ll)) by {
            if pp == w.0 && hh == w.1 && ll == w.2 {
                assert(old.typed_at(w.0, w.1, w.2) == v.0.get(w));
            } else {
                assert(old.typed_at(pp, hh, ll) == v.0.get((pp, hh, ll)));
            }
        }
    }

    /// Lift the patch level's nibble pair out of the unknown bytes.
    fn lift_level(&mut self)
        requires
            old(self).patch_level is None,
        ensures
            final(self).unknown_bytes@ == lift_pair((Map::empty(), old(self).unknown_bytes@), (2u8, 0u8, 0x30u8), (2u8, 0u8, 0x31u8), 200).1,
            forall|p: u8, h: u8, l: u8| #[trigger] final(self).typed_at(p, h, l) == (
                if lift_pair((Map::empty(), old(self).unknown_bytes@), (2u8, 0u8, 0x30u8), (2u8, 0u8, 0x31u8), 200).0.contains_key((p, h, l)) {
                    Some(lift_pair((Map::empty(), old(self).unknown_bytes@), (2u8, 0u8, 0x30u8), (2u8, 0u8, 0x31u8), 200).0[(p, h, l)])
                } else {
                    old(self).typed_at(p, h, l)
                }),
            final(self).tones_unset() == old(self).tones_unset(),
            final(self).raws_ok() == old(self).raws_ok(),
            final(self).patch_tempo == old(self).patch_tempo,
    {
        let kh: u32 = 0x020030;
        let kl: u32 = 0x020031;
        proof {
            lemma_key_bytes(0, 0, 2, 0, 0x30);
            lemma_key_bytes(0, 0, 2, 0, 0x31);
        }
        if let Some(hb) = self.unknown_bytes.get(kh) {
            if let Some(lb) = self.unknown_bytes.get(kl) {
                if let Some(v) = PatchLevel::from_two_bytes(hb, lb) {
                    self.unknown_bytes.remove(kh);
                    self.unknown_bytes.remove(kl);
                    self.patch_level = Some(v);
                    proof {
                        lemma_nibble_pair_round_trip(0, hb, lb);
                        assert(self.unknown_bytes@ =~= old(self).unknown_bytes@.remove(kh).remove(kl));
                    }
                }
            }
        }
    }

    /// Lift the patch tempo's nibble pair out of the unknown bytes.
    fn lift_tempo(&mut self)
        requires
            old(self).patch_tempo is None,
        ensures
            final(self).unknown_bytes@ == lift_pair((Map::empty(), old(self).unknown_bytes@), (2u8, 0u8, 0x3Cu8), (2u8, 0u8, 0x3Du8), 255).1,
            forall|p: u8, h: u8, l: u8| #[trigger] final(self).typed_at(p, h, l) == (
                if lift_pair((Map::empty(), old(self).unknown_bytes@), (2u8, 0u8, 0x3Cu8), (2u8, 0u8, 0x3Du8), 255).0.contains_key((p, h, l)) {
                    Some(lift_pair((Map::empty(), old(self).unknown_bytes@), (2u8, 0u8, 0x3Cu8), (2u8, 0u8, 0x3Du8), 255).0[(p, h, l)])
                } else {
                    old(self).typed_at(p, h, l)
                }),
            final(self).tones_unset() == old(self).tones_unset(),
            final(self).raws_ok() == old(self).raws_ok(),
    {
        let kh: u32 = 0x02003C;
        let kl: u32 = 0x02003D;
        proof {
            lemma_key_bytes(0, 0, 2, 0, 0x3C);
            lemma_key_bytes(0, 0, 2, 0, 0x3D);
        }
        if let Some(hb) = self.unknown_bytes.get(kh) {
            if let Some(lb) = self.unknown_bytes.get(kl) {
                if let Some(v) = PatchTempo::from_two_bytes(hb, lb) {
                    self.unknown_bytes.remove(kh);
                    self.unknown_bytes.remove(kl);
                    self.patch_tempo = Some(v);
                    proof {
                        lemma_nibble_pair_round_trip(0, hb, lb);
                        assert(self.unknown_bytes@ =~= old(self).unknown_bytes@.remove(kh).remove(kl));
                    }
                }
            }
        }
    }
}

/// A PCM slot after its parked tone-selector bytes are lifted: an empty
/// slot stays empty, a present one is finalized.
pub open spec fn tone_finalized(before: Option<Pcm>, after: Option<Pcm>) -> bool {
    match (before, after) {
        (None, None) => true,
        (Some(x), Some(y)) => x.finalizes_to(y),
        _ => false,
    }
}

impl PatchArea {
    /// Lift each PCM slot's parked tone-selector bytes into its
    /// `synth_tone`; the wire view does not change.
    fn finalize_tones(&mut self)
        requires
            old(self).tones_unset(),
        ensures
            forall|p: u8, h: u8, l: u8| #[trigger] final(self).typed_at(p, h, l) == old(self).typed_at(p, h, l),
            final(self).unknown_bytes == old(self).unknown_bytes,
            *final(self) == (PatchArea { pcm: final(self).pcm, ..*old(self) }),
            forall|j: int| 0 <= j < 2 ==> tone_finalized(#[trigger] old(self).pcm@[j], final(self).pcm@[j]),
    {
        let mut i: usize = 0;
        while i < 2
            invariant
                i <= 2,
                forall|p: u8, h: u8, l: u8| #[trigger] self.typed_at(p, h, l) == old(self).typed_at(p, h, l),
                self.unknown_bytes == old(self).unknown_bytes,
                forall|j: int| i <= j < 2 ==> (#[trigger] self.pcm@[j] matches Some(x) ==> x.synth_tone is None),
                *self == (PatchArea { pcm: self.pcm, ..*old(self) }),
                forall|j: int| 0 <= j < i ==> tone_finalized(#[trigger] old(self).pcm@[j], self.pcm@[j]),
                forall|j: int| i <= j < 2 ==> #[trigger] self.pcm@[j] == old(self).pcm@[j],
            decreases 2 - i,
        {
            let ghost before = *self;
            if let Some(mut x) = self.pcm[i].take() {
                x.finalize();
                self.pcm[i] = Some(x);
            }
            proof {
                reveal(PatchArea::pcm_header_at);
                reveal(PatchArea::pcm_tail_at);
                assert forall|p: u8, h: u8, l: u8| #[trigger] self.typed_at(p, h, l) == before.typed_at(p, h, l) by {}
            }
            i += 1;
        }
    }

    /// Decode the DT1 frames addressed to MSB `base_msb` into a patch.
    /// Each frame's bytes go to consecutive addresses (see [`next_addr`]);
    /// other frames are ignored. The result's typed view and unknown bytes
    /// are [`decode_view`].
    pub fn from_frames_at(frames: &[Frame], base_msb: u8) -> (r: PatchArea)
        ensures
            r.has_view(decode_view(frame_views(frames@), base_msb)),
            r.depths_valid(),
            r.unknown_faithful(),
            r.encodable(),
            r.raws_ok(),
    {
        let ghost views = frame_views(frames@);
        let mut area = PatchArea::new();
        proof {
            assert(views.take(0) =~= Seq::<FrameView>::empty());
            assert(area.has_view(decode_fold(patch_writes(views.take(0), base_msb))));
        }
        let mut fi: usize = 0;
        while fi < frames.len()
            invariant
                fi <= frames.len(),
                views == frame_views(frames@),
                area.has_view(decode_fold(patch_writes(views.take(fi as int), base_msb))),
                area.tones_unset(),
                area.raws_ok(),
                area.patch_level is None,
                area.patch_tempo is None,
            decreases frames.len() - fi,
        {
            proof {
                assert(views.take(fi + 1) =~= views.take(fi as int).push(views[fi as int]));
                lemma_patch_writes_push(views.take(fi as int), views[fi as int], base_msb);
            }
            let ghost ws0 = patch_writes(views.take(fi as int), base_msb);
            let ghost fw = frame_patch_writes(views[fi as int], base_msb);
            match &frames[fi] {
                Frame::Dt1 { device_id, address, data } => {
                    proof {
                        assert(views[fi as int] == FrameView::Dt1 { device_id: *device_id, address: address@, data: data@ });
                    }
                    if address[0] == base_msb {
                        let mut page = address[1];
                        let mut hi = address[2];
                        let mut lo = address[3];
                        let mut i: usize = 0;
                        proof {
                            assert(fw.take(0) =~= Seq::<(u8, u8, u8, u8)>::empty());
                            assert(ws0 + fw.take(0) =~= ws0);
                        }
                        while i < data.len()
                            invariant
                                i <= data@.len(),
                                fw == frame_patch_writes(views[fi as int], base_msb),
                                views[fi as int] == (FrameView::Dt1 { device_id: *device_id, address: address@, data: data@ }),
                                address@[0] == base_msb,
                                fw.len() == data@.len(),
                                (page, hi, lo) == addr_after((address@[1], address@[2], address@[3]), i as nat),
                                area.has_view(decode_fold(ws0 + fw.take(i as int))),
                                area.tones_unset(),
                                area.raws_ok(),
                                area.patch_level is None,
                                area.patch_tempo is None,
                            decreases data.len() - i,
                        {
                            let ghost before = area;
                            let b = data[i];
                            area.store(page, hi, lo, b);
                            proof {
                                assert(fw[i as int] == (page, hi, lo, b));
                                PatchArea::lemma_store_step(before, area, decode_fold(ws0 + fw.take(i as int)), page, hi, lo, b);
                                assert(ws0 + fw.take(i + 1) =~= (ws0 + fw.take(i as int)).push(fw[i as int]));
                                lemma_decode_fold_push(ws0 + fw.take(i as int), fw[i as int]);
                            }
                            if lo >= 0x7F {
                                lo = 0;
                                if hi >= 0x7F {
                                    hi = 0;
                                    page = if page == 255 {
                                        0
                                    } else {
                                        page + 1
                                    };
                                } else {
                                    hi = hi + 1;
                                }
                            } else {
                                lo = lo + 1;
                            }
                            i += 1;
                        }
                        proof {
                            assert(fw.take(data@.len() as int) =~= fw);
                        }
                    } else {
                        proof {
                            assert(fw =~= Seq::<(u8, u8, u8, u8)>::empty());
                            assert(ws0 + fw =~= ws0);
                        }
                    }
                },
                Frame::Rq1 { .. } => {
                    proof {
                        assert(fw =~= Seq::<(u8, u8, u8, u8)>::empty());
                        assert(ws0 + fw =~= ws0);
                    }
                },
            }
            fi += 1;
        }
        proof {
            assert(views.take(frames.len() as int) =~= views);
        }
        let ghost v0 = decode_fold(patch_writes(views, base_msb));
        area.lift_level();
        let ghost v1 = lift_pair(v0, (2u8, 0u8, 0x30u8), (2u8, 0u8, 0x31u8), 200);
        proof {
            assert forall|p: u8, h: u8, l: u8| #[trigger] area.typed_at(p, h, l) == v1.0.get((p, h, l)) by {}
        }
        area.lift_tempo();
        let ghost v2 = lift_pair(v1, (2u8, 0u8, 0x3Cu8), (2u8, 0u8, 0x3Du8), 255);
        proof {
            assert forall|p: u8, h: u8, l: u8| #[trigger] area.typed_at(p, h, l) == v2.0.get((p, h, l)) by {}
        }
        area.finalize_tones();
        proof {
            lemma_fold_unknown_ok(patch_writes(views, base_msb));
            lemma_lift_unknown_ok(v0, (2u8, 0u8, 0x30u8), (2u8, 0u8, 0x31u8), 200);
            lemma_lift_unknown_ok(v1, (2u8, 0u8, 0x3Cu8), (2u8, 0u8, 0x3Du8), 255);
        }
        if let Some(d) = area.exp_pitch_bend_depth {
            proof {
                use_type_invariant(&d);
                d.lemma_inv_range();
            }
        }
        if let Some(d) = area.exp_on_pitch_bend_depth {
            proof {
                use_type_invariant(&d);
                d.lemma_inv_range();
            }
        }
        if let Some(d) = area.gk_vol_pitch_bend_depth {
            proof {
                use_type_invariant(&d);
                d.lemma_inv_range();
            }
        }
        area
    }
}

/// The one-byte DT1 frame that carries entry `e` at MSB `msb`.
pub open spec fn single_frame(device_id: u8, msb: u8, e: (u32, u8)) -> FrameView {
    FrameView::Dt1 {
        device_id,
        address: seq![msb, key_bytes(e.0)[1], key_bytes(e.0)[2], key_bytes(e.0)[3]],
        data: seq![e.1],
    }
}

impl PatchArea {
    /// Decode a raw SysEx capture: every frame that can be read from
    /// `bytes` (checksums not enforced), taken at `base_msb`.
    pub fn from_sysex_at(bytes: &[u8], base_msb: u8) -> (r: PatchArea)
        ensures
            r.has_view(decode_view(ok_frames(scan_all(bytes@, 0)), base_msb)),
    {
        let frames = decoded_frames(bytes);
        PatchArea::from_frames_at(frames.as_slice(), base_msb)
    }

    /// Encode the area as one DT1 frame per wire byte, in address order,
    /// at MSB `base_msb`.
    pub fn to_frames(&self, device_id: u8, base_msb: u8) -> (r: Result<Vec<Frame>, CodecError>)
        ensures
            r is Ok <==> self.encodable(),
            r matches Err(e) ==> e matches CodecError::BadStoredAddress(k) && self.key_is_bad(k),
            r matches Ok(fs) ==> exists|s: Seq<(u32, u8)>|
                sorted_keys(s) && entries_map(s) == self.wire() && frame_views(fs@) == s.map_values(
                    |e: (u32, u8)| single_frame(device_id, base_msb, e),
                ),
    {
        let bytes = match self.collect_bytes() {
            Ok(m) => m,
            Err(e) => {
                return Err(e);
            },
        };
        let n = bytes.len();
        let ghost s = bytes.entries_spec();
        let mut frames: Vec<Frame> = Vec::new();
        let mut i: usize = 0;
        while i < n
            invariant
                i <= n,
                n == s.len(),
                s == bytes.entries_spec(),
                frame_views(frames@) == s.take(i as int).map_values(
                    |e: (u32, u8)| single_frame(device_id, base_msb, e),
                ),
            decreases n - i,
        {
            let (k, b) = bytes.entry(i);
            let a = key_address(k);
            let mut data: Vec<u8> = Vec::new();
            data.push(b);
            let address = [base_msb, a[1], a[2], a[3]];
            assert(address@ =~= seq![base_msb, key_bytes(k)[1], key_bytes(k)[2], key_bytes(k)[3]]);
            assert(data@ =~= seq![b]);
            let ghost before = frame_views(frames@);
            let fr = Frame::Dt1 { device_id, address, data };
            assert(fr@ == single_frame(device_id, base_msb, (k, b)));
            frames.push(fr);
            proof {
                assert(frame_views(frames@) =~= before.push(fr@));
                assert(s.take(i + 1) =~= s.take(i as int).push((k, b)));
                assert(frame_views(frames@) =~= s.take(i + 1).map_values(
                    |e: (u32, u8)| single_frame(device_id, base_msb, e),
                ));
            }
            i += 1;
        }
        proof {
            assert(s.take(n as int) =~= s);
        }
        Ok(frames)
    }
}

// ---------------------------------------------------------------------
// Round trip
// ---------------------------------------------------------------------
/// The decoder write a packed wire entry turns into.
pub open spec fn entry_write(e: (u32, u8)) -> (u8, u8, u8, u8) {
    (key_bytes(e.0)[1], key_bytes(e.0)[2], key_bytes(e.0)[3], e.1)
}

/// The byte a decoder view shows at (p, h, l): an unknown byte there
/// overrides the typed view.
pub open spec fn view_byte(v: DecodeView, p: u8, h: u8, l: u8) -> Option<u8> {
    if v.1.contains_key(key_of(0, p, h, l)) {
        Some(v.1[key_of(0, p, h, l)])
    } else {
        v.0.get((p, h, l))
    }
}

/// Byte `b` written at the address of key `k` shows again at that address
/// after one decoder step.
pub open spec fn write_ok(k: u32, b: u8) -> bool {
    let p = key_bytes(k)[1];
    let h = key_bytes(k)[2];
    let l = key_bytes(k)[3];
    &&& k < 0x1000000
    &&& (PatchArea::goes_unknown(p, h, l, b) || {
        &&& PatchArea::wire_key(p, h, l) == (p, h, l)
        &&& (PatchArea::key_class(p, h, l) == 1 ==> PatchArea::key_accepts(p, h, l, b))
        &&& (PatchArea::key_class(p, h, l) == 3 ==> b != 0x20)
    })
}

impl PatchArea {
    /// Every unknown byte would decode back to itself at its own address.
    pub open spec fn unknown_faithful(self) -> bool {
        forall|k: u32| #[trigger] self.unknown_bytes@.contains_key(k) ==> write_ok(k, self.unknown_bytes@[k])
    }
}

proof fn lemma_key_split(k: u32)
    requires
        k < 0x1000000,
    ensures
        key_of(0, key_bytes(k)[1], key_bytes(k)[2], key_bytes(k)[3]) == k,
        key_bytes(k)[0] == 0,
{
    lemma_key_bytes(k, 0, 0, 0, 0);
    assert((k >> 24u32) as u8 == 0) by (bit_vector)
        requires
            k < 0x1000000,
    ;
}

proof fn lemma_single_frames_writes(s: Seq<(u32, u8)>, device_id: u8, msb: u8)
    ensures
        patch_writes(s.map_values(|e: (u32, u8)| single_frame(device_id, msb, e)), msb) == s.map_values(
            |e: (u32, u8)| entry_write(e),
        ),
    decreases s.len(),
{
    let fs = s.map_values(|e: (u32, u8)| single_frame(device_id, msb, e));
    if s.len() == 0 {
        assert(fs =~= Seq::<FrameView>::empty());
        assert(s.map_values(|e: (u32, u8)| entry_write(e)) =~= Seq::<(u8, u8, u8, u8)>::empty());
    } else {
        let s0 = s.drop_last();
        lemma_single_frames_writes(s0, device_id, msb);
        assert(fs =~= s0.map_values(|e: (u32, u8)| single_frame(device_id, msb, e)).push(
            single_frame(device_id, msb, s.last()),
        ));
        lemma_patch_writes_push(
            s0.map_values(|e: (u32, u8)| single_frame(device_id, msb, e)),
            single_frame(device_id, msb, s.last()),
            msb,
        );
        assert(frame_patch_writes(single_frame(device_id, msb, s.last()), msb) =~= seq![entry_write(s.last())]);
        assert(s.map_values(|e: (u32, u8)| entry_write(e)) =~= s0.map_values(|e: (u32, u8)| entry_write(e)).push(
            entry_write(s.last()),
        ));
    }
}

/// The decoder's view after the writes of the first `j` entries of `s`.
pub open spec fn fold_of(s: Seq<(u32, u8)>, j: int) -> DecodeView {
    decode_fold(s.take(j).map_values(|e: (u32, u8)| entry_write(e)))
}

/// The decoder, fed one write per entry of a sorted map whose bytes all
/// decode to themselves, shows exactly that map.
proof fn lemma_fold_shows_entries(s: Seq<(u32, u8)>, j: int)
    requires
        sorted_keys(s),
        0 <= j <= s.len(),
        forall|i: int| 0 <= i < s.len() ==> write_ok(#[trigger] s[i].0, s[i].1),
    ensures
        forall|p: u8, h: u8, l: u8|
            #![trigger view_byte(fold_of(s, j), p, h, l)]
            view_byte(fold_of(s, j), p, h, l) == entries_map(s.take(j)).get(key_of(0, p, h, l))
            && (fold_of(s, j).1.contains_key(key_of(0, p, h, l)) ==> entries_map(s.take(j)).contains_key(key_of(0, p, h, l)))
            && (fold_of(s, j).0.contains_key((p, h, l)) ==> entries_map(s.take(j)).contains_key(key_of(0, p, h, l))),
    decreases j,
{
    let ws = s.take(j).map_values(|e: (u32, u8)| entry_write(e));
    if j == 0 {
        assert(ws =~= Seq::<(u8, u8, u8, u8)>::empty());
        assert(entries_map(s.take(0)) =~= Map::<u32, u8>::empty()) by {
            lemma_entries_facts(s.take(0));
        }
    } else {
        lemma_fold_shows_entries(s, j - 1);
        let ws0 = s.take(j - 1).map_values(|e: (u32, u8)| entry_write(e));
        let e = s[j - 1];
        assert(ws =~= ws0.push(entry_write(e)));
        lemma_decode_fold_push(ws0, entry_write(e));
        lemma_entries_map_prefix(s, j - 1);
        let v0 = decode_fold(ws0);
        let v = decode_fold(ws);
        let m0 = entries_map(s.take(j - 1));
        let m = entries_map(s.take(j));
        let (k, b) = e;
        assert(write_ok(s[j - 1].0, s[j - 1].1));
        lemma_key_split(k);
        let (p, h, l, bb) = entry_write(e);
        assert(!m0.contains_key(k)) by {
            lemma_entries_facts(s.take(j - 1));
            if m0.contains_key(k) {
                let t = s.take(j - 1);
                let i = choose|i: int| 0 <= i < t.len() && #[trigger] t[i].0 == k;
                assert(t[i] == s[i]);
                assert(s[i].0 < s[j - 1].0);
            }
        }
        assert(v0 == fold_of(s, j - 1));
        assert(key_of(0, p, h, l) == k);
        assert(view_byte(fold_of(s, j - 1), p, h, l) == m0.get(key_of(0, p, h, l)));
        assert(!v0.1.contains_key(k));
        assert(!v0.0.contains_key((p, h, l)));
        assert(v0 == fold_of(s, j - 1));
        assert(v == fold_of(s, j));
        assert forall|pp: u8, hh: u8, ll: u8|
            #![trigger view_byte(fold_of(s, j), pp, hh, ll)]
            view_byte(fold_of(s, j), pp, hh, ll) == m.get(key_of(0, pp, hh, ll))
            && (v.1.contains_key(key_of(0, pp, hh, ll)) ==> m.contains_key(key_of(0, pp, hh, ll)))
            && (v.0.contains_key((pp, hh, ll)) ==> m.contains_key(key_of(0, pp, hh, ll))) by {
            lemma_key_bytes(0, 0, pp, hh, ll);
            lemma_key_bytes(0, 0, p, h, l);
            assert(view_byte(fold_of(s, j - 1), pp, hh, ll) == m0.get(key_of(0, pp, hh, ll)));
        }
    }
}

/// Lifting a nibble pair moves bytes from the unknown bytes into the typed
/// view without changing what any address shows.
proof fn lemma_lift_keeps_bytes(v: DecodeView, hk: Addr3, lk: Addr3, max: int)
    requires
        hk != lk,
    ensures
        forall|p: u8, h: u8, l: u8| #[trigger] view_byte(lift_pair(v, hk, lk, max), p, h, l) == view_byte(v, p, h, l),
        forall|k: u32| #[trigger] lift_pair(v, hk, lk, max).1.contains_key(k) ==> v.1.contains_key(k),
{
    assert forall|p: u8, h: u8, l: u8| #[trigger] view_byte(lift_pair(v, hk, lk, max), p, h, l) == view_byte(v, p, h, l) by {
        lemma_key_bytes(0, 0, p, h, l);
        lemma_key_bytes(0, 0, hk.0, hk.1, hk.2);
        lemma_key_bytes(0, 0, lk.0, lk.1, lk.2);
    }
}

/// Law: a patch decodes back from the frames it encodes to, byte for
/// byte, when its pitch-bend depths are in range, its raw tails stay inside
/// their ranges and each of its unknown bytes would decode to itself.
pub proof fn lemma_patch_round_trip(a: PatchArea, device_id: u8, msb: u8, s: Seq<(u32, u8)>, r: PatchArea)
    requires
        a.encodable(),
        a.raws_ok(),
        a.depths_valid(),
        a.unknown_faithful(),
        sorted_keys(s),
        entries_map(s) == a.wire(),
        r.has_view(decode_view(s.map_values(|e: (u32, u8)| single_frame(device_id, msb, e)), msb)),
    ensures
        forall|p: u8, h: u8, l: u8| #[trigger] r.byte_at(p, h, l) == a.byte_at(p, h, l),
{
    a.lemma_wire_plain();
    lemma_entries_facts(s);
    assert forall|i: int| 0 <= i < s.len() implies write_ok(#[trigger] s[i].0, s[i].1) by {
        let k = s[i].0;
        assert(a.wire().contains_key(k));
        assert(k < 0x1000000);
        lemma_key_split(k);
        if !a.unknown_bytes@.contains_key(k) {
            a.lemma_typed_valid(key_bytes(k)[1], key_bytes(k)[2], key_bytes(k)[3]);
        }
    }
    lemma_single_frames_writes(s, device_id, msb);
    lemma_fold_shows_entries(s, s.len() as int);
    assert(s.take(s.len() as int) =~= s);
    let v0 = decode_fold(s.map_values(|e: (u32, u8)| entry_write(e)));
    assert(v0 == fold_of(s, s.len() as int));
    let v1 = lift_pair(v0, (2u8, 0u8, 0x30u8), (2u8, 0u8, 0x31u8), 200);
    lemma_lift_keeps_bytes(v0, (2u8, 0u8, 0x30u8), (2u8, 0u8, 0x31u8), 200);
    lemma_lift_keeps_bytes(v1, (2u8, 0u8, 0x3Cu8), (2u8, 0u8, 0x3Du8), 255);
    let fs = s.map_values(|e: (u32, u8)| single_frame(device_id, msb, e));
    let dv = decode_view(fs, msb);
    assert(dv == lift_pair(v1, (2u8, 0u8, 0x3Cu8), (2u8, 0u8, 0x3Du8), 255));
    assert forall|p: u8, h: u8, l: u8| #[trigger] r.byte_at(p, h, l) == a.byte_at(p, h, l) by {
        a.lemma_wire_at(p, h, l);
        assert(view_byte(dv, p, h, l) == view_byte(v1, p, h, l));
        assert(view_byte(v1, p, h, l) == view_byte(v0, p, h, l));
        assert(r.typed_at(p, h, l) == dv.0.get((p, h, l)));
        assert(r.byte_at(p, h, l) == view_byte(dv, p, h, l));
        assert(view_byte(fold_of(s, s.len() as int), p, h, l) == entries_map(s).get(key_of(0, p, h, l)));
    }
}

/// The address a decoder write goes to.
pub open spec fn write_addr(w: (u8, u8, u8, u8)) -> Addr3 {
    (w.0, w.1, w.2)
}

/// A pad space written to a name byte, which the typed name does not keep.
pub open spec fn name_pad(w: (u8, u8, u8, u8)) -> bool {
    PatchArea::key_class(w.0, w.1, w.2) == 3 && w.3 == 0x20
}

/// What a write shows at its address once decoded: its byte, but nothing
/// for a pad space in the name.
pub open spec fn shown(w: (u8, u8, u8, u8)) -> Option<u8> {
    if name_pad(w) {
        None
    } else {
        Some(w.3)
    }
}

/// The writes hit pairwise distinct addresses, each with a low byte of at
/// most `0x7F`.
pub open spec fn plain_writes(ws: Seq<(u8, u8, u8, u8)>) -> bool {
    &&& forall|i: int| 0 <= i < ws.len() ==> #[trigger] ws[i].2 <= 0x7F
    &&& forall|i: int, j: int|
        #![trigger ws[i], ws[j]]
        0 <= i < j < ws.len() ==> write_addr(ws[i]) != write_addr(ws[j])
}

/// Some write of `ws` goes to address `a`.
pub open spec fn written(ws: Seq<(u8, u8, u8, u8)>, a: Addr3) -> bool {
    exists|i: int| 0 <= i < ws.len() && write_addr(ws[i]) == a
}

/// Every address takes a byte in one of the five ways of
/// [`PatchArea::key_class`].
proof fn lemma_key_class_range(p: u8, h: u8, l: u8)
    ensures
        PatchArea::key_class(p, h, l) <= 4,
{
}

/// A decoder step at an address with a low byte of at most `0x7F` leaves
/// what every other address shows.
proof fn lemma_step_elsewhere(v: DecodeView, w: (u8, u8, u8, u8), p: u8, h: u8, l: u8)
    requires
        w.2 <= 0x7F,
        (p, h, l) != write_addr(w),
    ensures
        view_byte(decode_step(v, w), p, h, l) == view_byte(v, p, h, l),
{
    lemma_key_bytes(0, 0, p, h, l);
    lemma_key_bytes(0, 0, w.0, w.1, w.2);
}

/// A decoder step at an address that shows nothing yet shows there what
/// [`shown`] says.
proof fn lemma_step_fresh(v: DecodeView, w: (u8, u8, u8, u8))
    requires
        w.2 <= 0x7F,
        view_byte(v, w.0, w.1, w.2) is None,
    ensures
        view_byte(decode_step(v, w), w.0, w.1, w.2) == shown(w),
{
    lemma_key_class_range(w.0, w.1, w.2);
}

/// Writes at distinct addresses each show at their own address after
/// decoding what [`shown`] says, and nothing shows elsewhere.
proof fn lemma_fold_plain(ws: Seq<(u8, u8, u8, u8)>)
    requires
        plain_writes(ws),
    ensures
        forall|i: int|
            0 <= i < ws.len() ==> view_byte(decode_fold(ws), #[trigger] ws[i].0, ws[i].1, ws[i].2) == shown(ws[i]),
        forall|p: u8, h: u8, l: u8|
            !written(ws, (p, h, l)) ==> #[trigger] view_byte(decode_fold(ws), p, h, l) is None,
    decreases ws.len(),
{
    if ws.len() > 0 {
        let n = ws.len() - 1;
        let pre = ws.drop_last();
        let w = ws.last();
        assert forall|i: int, j: int| #![trigger pre[i], pre[j]] 0 <= i < j < pre.len() implies write_addr(pre[i]) != write_addr(pre[j]) by {
            assert(pre[i] == ws[i] && pre[j] == ws[j]);
        }
        assert forall|i: int| 0 <= i < pre.len() implies #[trigger] pre[i].2 <= 0x7F by {
            assert(pre[i] == ws[i]);
        }
        lemma_fold_plain(pre);
        let v = decode_fold(pre);
        assert(decode_fold(ws) == decode_step(v, w));
        assert(!written(pre, write_addr(w))) by {
            if written(pre, write_addr(w)) {
                let i = choose|i: int| 0 <= i < pre.len() && write_addr(pre[i]) == write_addr(w);
                assert(pre[i] == ws[i]);
                assert(write_addr(ws[i]) != write_addr(ws[n]));
            }
        }
        assert(w.2 <= 0x7F) by {
            assert(ws[n] == w);
        }
        assert(view_byte(v, w.0, w.1, w.2) is None);
        assert forall|i: int| 0 <= i < ws.len() implies view_byte(
            decode_fold(ws),
            #[trigger] ws[i].0,
            ws[i].1,
            ws[i].2,
        ) == shown(ws[i]) by {
            if i == n {
                lemma_step_fresh(v, w);
            } else {
                assert(pre[i] == ws[i]);
                assert(write_addr(ws[i]) != write_addr(ws[n]));
                lemma_step_elsewhere(v, w, ws[i].0, ws[i].1, ws[i].2);
            }
        }
        assert forall|p: u8, h: u8, l: u8| !written(ws, (p, h, l)) implies #[trigger] view_byte(
            decode_fold(ws),
            p,
            h,
            l,
        ) is None by {
            if written(pre, (p, h, l)) {
                let i = choose|i: int| 0 <= i < pre.len() && write_addr(pre[i]) == (p, h, l);
                assert(pre[i] == ws[i]);
            }
            assert(write_addr(ws[n]) != (p, h, l));
            lemma_step_elsewhere(v, w, p, h, l);
        }
    }
}

/// What a write at a fresh address leaves in the typed view there.
pub open spec fn typed_of(w: (u8, u8, u8, u8)) -> Option<u8> {
    if PatchArea::goes_unknown(w.0, w.1, w.2, w.3) || name_pad(w) {
        None
    } else {
        Some(w.3)
    }
}

/// What a write at a fresh address leaves in the unknown bytes there.
pub open spec fn unknown_of(w: (u8, u8, u8, u8)) -> Option<u8> {
    if PatchArea::goes_unknown(w.0, w.1, w.2, w.3) {
        Some(w.3)
    } else {
        None
    }
}

/// A decoder step at a fresh address with a low byte of at most `0x7F`
/// sets that address as [`typed_of`] and [`unknown_of`] say, and nothing
/// else.
proof fn lemma_step_exact(v: DecodeView, w: (u8, u8, u8, u8))
    requires
        w.2 <= 0x7F,
        !v.0.contains_key(write_addr(w)),
        !v.1.contains_key(key_of(0, w.0, w.1, w.2)),
    ensures
        decode_step(v, w).0.get(write_addr(w)) == typed_of(w),
        decode_step(v, w).1.get(key_of(0, w.0, w.1, w.2)) == unknown_of(w),
        forall|a: Addr3| a != write_addr(w) ==> #[trigger] decode_step(v, w).0.get(a) == v.0.get(a),
        forall|k: u32| k != key_of(0, w.0, w.1, w.2) ==> #[trigger] decode_step(v, w).1.get(k) == v.1.get(k),
{
    lemma_key_class_range(w.0, w.1, w.2);
}

/// Decoding writes at distinct addresses: each address holds what its
/// write leaves there, unwritten addresses hold nothing, and every unknown
/// key is a 3-byte address.
proof fn lemma_fold_exact(ws: Seq<(u8, u8, u8, u8)>)
    requires
        plain_writes(ws),
    ensures
        forall|i: int|
            0 <= i < ws.len() ==> decode_fold(ws).0.get(write_addr(#[trigger] ws[i])) == typed_of(ws[i])
                && decode_fold(ws).1.get(key_of(0, ws[i].0, ws[i].1, ws[i].2)) == unknown_of(ws[i]),
        forall|a: Addr3| !written(ws, a) ==> !#[trigger] decode_fold(ws).0.contains_key(a),
        forall|p: u8, h: u8, l: u8|
            !written(ws, (p, h, l)) ==> !#[trigger] decode_fold(ws).1.contains_key(key_of(0, p, h, l)),
        forall|k: u32| #[trigger] decode_fold(ws).1.contains_key(k) ==> k < 0x1000000,
    decreases ws.len(),
{
    if ws.len() > 0 {
        let n = ws.len() - 1;
        let pre = ws.drop_last();
        let w = ws.last();
        assert forall|i: int, j: int| #![trigger pre[i], pre[j]] 0 <= i < j < pre.len() implies write_addr(pre[i]) != write_addr(pre[j]) by {
            assert(pre[i] == ws[i] && pre[j] == ws[j]);
        }
        assert forall|i: int| 0 <= i < pre.len() implies #[trigger] pre[i].2 <= 0x7F by {
            assert(pre[i] == ws[i]);
        }
        lemma_fold_exact(pre);
        let v = decode_fold(pre);
        assert(decode_fold(ws) == decode_step(v, w));
        assert(!written(pre, write_addr(w))) by {
            if written(pre, write_addr(w)) {
                let i = choose|i: int| 0 <= i < pre.len() && write_addr(pre[i]) == write_addr(w);
                assert(pre[i] == ws[i]);
                assert(write_addr(ws[i]) != write_addr(ws[n]));
            }
        }
        assert(w.2 <= 0x7F) by {
            assert(ws[n] == w);
        }
        assert(!v.1.contains_key(key_of(0, w.0, w.1, w.2)));
        lemma_step_exact(v, w);
        lemma_key_bytes(0, 0, w.0, w.1, w.2);
        assert forall|i: int| 0 <= i < ws.len() implies decode_fold(ws).0.get(write_addr(#[trigger] ws[i])) == typed_of(ws[i])
            && decode_fold(ws).1.get(key_of(0, ws[i].0, ws[i].1, ws[i].2)) == unknown_of(ws[i]) by {
            if i < n {
                assert(pre[i] == ws[i]);
                assert(write_addr(ws[i]) != write_addr(ws[n]));
                lemma_key_bytes(0, 0, ws[i].0, ws[i].1, ws[i].2);
            }
        }
        assert forall|a: Addr3| !written(ws, a) implies !#[trigger] decode_fold(ws).0.contains_key(a) by {
            if written(pre, a) {
                let i = choose|i: int| 0 <= i < pre.len() && write_addr(pre[i]) == a;
                assert(pre[i] == ws[i]);
            }
            assert(write_addr(ws[n]) != a);
        }
        assert forall|p: u8, h: u8, l: u8| !written(ws, (p, h, l)) implies !#[trigger] decode_fold(ws).1.contains_key(
            key_of(0, p, h, l),
        ) by {
            if written(pre, (p, h, l)) {
                let i = choose|i: int| 0 <= i < pre.len() && write_addr(pre[i]) == (p, h, l);
                assert(pre[i] == ws[i]);
            }
            assert(write_addr(ws[n]) != (p, h, l));
            lemma_key_bytes(0, 0, p, h, l);
        }
    }
}

/// Law (decoding is non-lossy): when the DT1 writes of `fs` at MSB `msb`
/// go to pairwise distinct addresses with low bytes of at most `0x7F`, the
/// patch decoded from them shows, and puts back on the wire, exactly those
/// bytes: each written byte at its address (a pad space in the name shows
/// as no byte), and nothing at an address that no frame writes.
pub proof fn lemma_decode_non_lossy(fs: Seq<FrameView>, msb: u8, r: PatchArea)
    requires
        plain_writes(patch_writes(fs, msb)),
        r.has_view(decode_view(fs, msb)),
        r.encodable(),
        r.raws_ok(),
    ensures
        forall|i: int|
            0 <= i < patch_writes(fs, msb).len() ==> {
                let w = #[trigger] patch_writes(fs, msb)[i];
                &&& r.byte_at(w.0, w.1, w.2) == shown(w)
                &&& r.wire().get(key_of(0, w.0, w.1, w.2)) == shown(w)
            },
        forall|p: u8, h: u8, l: u8|
            !written(patch_writes(fs, msb), (p, h, l)) ==> #[trigger] r.byte_at(p, h, l) is None && r.wire().get(
                key_of(0, p, h, l),
            ) is None,
{
    let ws = patch_writes(fs, msb);
    lemma_fold_plain(ws);
    let v0 = decode_fold(ws);
    let v1 = lift_pair(v0, (2u8, 0u8, 0x30u8), (2u8, 0u8, 0x31u8), 200);
    lemma_lift_keeps_bytes(v0, (2u8, 0u8, 0x30u8), (2u8, 0u8, 0x31u8), 200);
    lemma_lift_keeps_bytes(v1, (2u8, 0u8, 0x3Cu8), (2u8, 0u8, 0x3Du8), 255);
    let dv = decode_view(fs, msb);
    assert forall|p: u8, h: u8, l: u8| #[trigger] r.byte_at(p, h, l) == view_byte(v0, p, h, l) by {
        assert(view_byte(dv, p, h, l) == view_byte(v1, p, h, l));
        assert(r.typed_at(p, h, l) == dv.0.get((p, h, l)));
    }
    assert forall|i: int| 0 <= i < ws.len() implies r.wire().get(key_of(0, #[trigger] ws[i].0, ws[i].1, ws[i].2))
        == shown(ws[i]) by {
        r.lemma_wire_at(ws[i].0, ws[i].1, ws[i].2);
    }
    assert forall|p: u8, h: u8, l: u8| !written(ws, (p, h, l)) implies #[trigger] r.byte_at(p, h, l) is None && r.wire().get(
        key_of(0, p, h, l),
    ) is None by {
        r.lemma_wire_at(p, h, l);
    }
}

/// The decoder writes of a packed entry sequence, one per entry.
pub open spec fn entry_writes(s: Seq<(u32, u8)>) -> Seq<(u8, u8, u8, u8)> {
    s.map_values(|e: (u32, u8)| entry_write(e))
}

/// The writes of a sorted entry sequence whose map holds exactly what
/// distinct writes `ws` show (and only 3-byte keys) hit distinct addresses
/// with low bytes of at most `0x7F`, one entry per write.
proof fn lemma_entry_writes_plain(ws: Seq<(u8, u8, u8, u8)>, s: Seq<(u32, u8)>)
    requires
        plain_writes(ws),
        sorted_keys(s),
        forall|k: u32| #[trigger] entries_map(s).contains_key(k) ==> k < 0x1000000,
        forall|p: u8, h: u8, l: u8|
            !written(ws, (p, h, l)) ==> #[trigger] entries_map(s).get(key_of(0, p, h, l)) is None,
    ensures
        plain_writes(entry_writes(s)),
        forall|i: int|
            0 <= i < s.len() ==> {
                let w = #[trigger] entry_writes(s)[i];
                key_of(0, w.0, w.1, w.2) == s[i].0 && w.3 == s[i].1
            },
{
    let ws2 = entry_writes(s);
    lemma_entries_facts(s);
    assert forall|i: int| 0 <= i < ws2.len() implies #[trigger] ws2[i].2 <= 0x7F && key_of(
        0,
        ws2[i].0,
        ws2[i].1,
        ws2[i].2,
    ) == s[i].0 && ws2[i].3 == s[i].1 by {
        let k = s[i].0;
        assert(entries_map(s).contains_key(k));
        lemma_key_split(k);
        let ad = (key_bytes(k)[1], key_bytes(k)[2], key_bytes(k)[3]);
        assert(write_addr(ws2[i]) == ad);
        if !written(ws, ad) {
            assert(entries_map(s).get(key_of(0, ad.0, ad.1, ad.2)) is None);
        }
        let j = choose|j: int| 0 <= j < ws.len() && write_addr(ws[j]) == ad;
        assert(ws[j].2 <= 0x7F);
    }
    assert forall|i: int, j: int| #![trigger ws2[i], ws2[j]] 0 <= i < j < ws2.len() implies write_addr(ws2[i])
        != write_addr(ws2[j]) by {
        assert(s[i].0 < s[j].0);
    }
}

/// Decoding distinct writes `ws` and decoding the writes of a sorted entry
/// sequence whose map holds exactly what `ws` show give the same view.
proof fn lemma_refold(ws: Seq<(u8, u8, u8, u8)>, s: Seq<(u32, u8)>)
    requires
        plain_writes(ws),
        sorted_keys(s),
        forall|k: u32| #[trigger] entries_map(s).contains_key(k) ==> k < 0x1000000,
        forall|i: int| 0 <= i < ws.len() ==> entries_map(s).get(key_of(0, #[trigger] ws[i].0, ws[i].1, ws[i].2)) == shown(ws[i]),
        forall|p: u8, h: u8, l: u8|
            !written(ws, (p, h, l)) ==> #[trigger] entries_map(s).get(key_of(0, p, h, l)) is None,
    ensures
        decode_fold(entry_writes(s)) == decode_fold(ws),
{
    let ws2 = entry_writes(s);
    let m = entries_map(s);
    lemma_entry_writes_plain(ws, s);
    lemma_entries_facts(s);
    lemma_fold_exact(ws);
    lemma_fold_exact(ws2);
    let f1 = decode_fold(ws);
    let f2 = decode_fold(ws2);
    assert forall|ad: Addr3| #[trigger] f2.0.get(ad) == f1.0.get(ad) && f2.1.get(key_of(0, ad.0, ad.1, ad.2)) == f1.1.get(
        key_of(0, ad.0, ad.1, ad.2),
    ) by {
        let k = key_of(0, ad.0, ad.1, ad.2);
        lemma_key_bytes(0, 0, ad.0, ad.1, ad.2);
        if written(ws2, ad) {
            let j = choose|j: int| 0 <= j < ws2.len() && write_addr(ws2[j]) == ad;
            assert(s[j].0 == k);
            assert(m.contains_key(k));
        }
        if written(ws, ad) {
            let i = choose|i: int| 0 <= i < ws.len() && write_addr(ws[i]) == ad;
            let w = ws[i];
            assert(m.get(k) == shown(w));
            if name_pad(w) {
                assert(!written(ws2, ad));
                assert(!PatchArea::goes_unknown(w.0, w.1, w.2, w.3));
            } else {
                assert(m.contains_key(k));
                let j = choose|j: int| 0 <= j < s.len() && s[j].0 == k;
                assert(ws2[j].3 == w.3);
                assert(ws2[j] == w);
            }
        } else {
            assert(!written(ws2, ad));
        }
    }
    assert forall|ad: Addr3| #[trigger] f2.0.contains_key(ad) == f1.0.contains_key(ad) && (f1.0.contains_key(ad)
        ==> f2.0[ad] == f1.0[ad]) by {
        assert(f2.0.get(ad) == f1.0.get(ad));
    }
    assert(f2.0 =~= f1.0);
    assert forall|k: u32| #[trigger] f2.1.contains_key(k) == f1.1.contains_key(k) && (f1.1.contains_key(k)
        ==> f2.1[k] == f1.1[k]) by {
        if k < 0x1000000 {
            lemma_key_split(k);
            let ad = (key_bytes(k)[1], key_bytes(k)[2], key_bytes(k)[3]);
            assert(f2.1.get(key_of(0, ad.0, ad.1, ad.2)) == f1.1.get(key_of(0, ad.0, ad.1, ad.2)));
        }
    }
    assert(f2.1 =~= f1.1);
}

/// Law: decoding frames whose DT1 writes go to pairwise distinct addresses
/// with low bytes of at most `0x7F`, encoding the patch, and decoding the
/// frames that gives once more yields a patch with the same typed view at
/// every address and the same unknown bytes as the first decode.
pub proof fn lemma_decode_encode_decode(
    fs: Seq<FrameView>,
    msb: u8,
    a: PatchArea,
    device_id: u8,
    s: Seq<(u32, u8)>,
    r: PatchArea,
)
    requires
        plain_writes(patch_writes(fs, msb)),
        a.has_view(decode_view(fs, msb)),
        a.encodable(),
        a.raws_ok(),
        sorted_keys(s),
        entries_map(s) == a.wire(),
        r.has_view(decode_view(s.map_values(|e: (u32, u8)| single_frame(device_id, msb, e)), msb)),
    ensures
        forall|p: u8, h: u8, l: u8| #[trigger] r.typed_at(p, h, l) == a.typed_at(p, h, l),
        r.unknown_bytes@ == a.unknown_bytes@,
{
    let ws = patch_writes(fs, msb);
    lemma_decode_non_lossy(fs, msb, a);
    assert forall|k: u32| #[trigger] entries_map(s).contains_key(k) implies k < 0x1000000 by {
        a.lemma_wire_plain();
    }
    assert forall|p: u8, h: u8, l: u8| !written(ws, (p, h, l)) implies #[trigger] entries_map(s).get(
        key_of(0, p, h, l),
    ) is None by {
        assert(a.byte_at(p, h, l) is None);
    }
    lemma_refold(ws, s);
    lemma_single_frames_writes(s, device_id, msb);
}

/// Address of byte `k` of Master Assign `idx` at MSB `base_msb`: the
/// assigns lie back to back from page `0x01` offset `0x0C`, continuing on
/// page `0x02` past offset `0x7F`.
pub open spec fn assign_address_spec(base_msb: u8, idx: int, k: int) -> [u8; 4] {
    let flat = 0x0C + idx * 19 + k;
    if flat < 0x80 {
        [base_msb, 0x01u8, 0x00u8, flat as u8]
    } else {
        [base_msb, 0x02u8, 0x00u8, (flat - 0x80) as u8]
    }
}

/// Law: the eight Master Assigns lie back to back, 19 bytes each, from
/// page `0x01` offset `0x0C`: byte `k` of assign `idx` sits at flat offset
/// `0x0C + 19 * idx + k` of pages `0x01`/`0x02` taken as one 256-byte run.
/// So Assign 7 starts at page `0x01` offset `0x7E` and continues on page
/// `0x02` at offset `0x00`, and Assign 8 starts at page `0x02` offset `0x11`.
pub proof fn lemma_assign_layout(base_msb: u8, idx: int, k: int)
    requires
        0 <= idx < 8,
        0 <= k < 19,
    ensures
        ({
            let a = assign_address_spec(base_msb, idx, k);
            &&& a[0] == base_msb
            &&& a[2] == 0
            &&& (a[1] - 1) * 128 + a[3] == 0x0C + 19 * idx + k
            &&& (a[1] == 1 || a[1] == 2)
            &&& a[3] < 128
        }),
        assign_address_spec(base_msb, 6, 0) == [base_msb, 0x01u8, 0x00u8, 0x7Eu8],
        assign_address_spec(base_msb, 6, 2) == [base_msb, 0x02u8, 0x00u8, 0x00u8],
        assign_address_spec(base_msb, 7, 0) == [base_msb, 0x02u8, 0x00u8, 0x11u8],
{
}

/// The (assign, byte) owning address (page, hi, lo), if it is a Master
/// Assign byte.
pub open spec fn assign_locate_spec(page: u8, hi: u8, lo: u8) -> Option<(int, int)> {
    if hi != 0 {
        None
    } else {
        match PatchArea::assign_slot(page, lo) {
            Some((i, k)) => Some((i, k as int)),
            None => None,
        }
    }
}

/// The wire address of byte `byte_in_assign` of Master Assign `idx`.
pub fn assign_address(base_msb: u8, idx: usize, byte_in_assign: u8) -> (r: [u8; 4])
    requires
        idx < 8,
        byte_in_assign < 19,
    ensures
        r == assign_address_spec(base_msb, idx as int, byte_in_assign as int),
{
    let flat: u16 = 0x0C + (idx as u16) * 19 + byte_in_assign as u16;
    if flat < 0x80 {
        [base_msb, 0x01, 0x00, flat as u8]
    } else {
        [base_msb, 0x02, 0x00, (flat - 0x80) as u8]
    }
}

/// The (assign index, byte in assign) owning (page, hi, lo), or `None`
/// outside `01:00:0C..=01:00:7F` and `02:00:00..=02:00:23`.
pub fn assign_locate(page: u8, hi: u8, lo: u8) -> (r: Option<(usize, u8)>)
    ensures
        match (r, assign_locate_spec(page, hi, lo)) {
            (Some((i, k)), Some((si, sk))) => i == si && k == sk,
            (None, None) => true,
            _ => false,
        },
{
    if hi != 0 {
        return None;
    }
    let flat: u16 = if page == 0x01 && 0x0C <= lo && lo <= 0x7F {
        lo as u16
    } else if page == 0x02 && lo <= 0x23 {
        lo as u16 + 0x80
    } else {
        return None;
    };
    let off = (flat - 0x0C) as usize;
    let idx = off / 19;
    if idx >= 8 {
        return None;
    }
    Some((idx, (off % 19) as u8))
}

/// Law: locating the address of an assign byte gives that byte back, and
/// every located address is the address of the byte it was located to.
pub proof fn lemma_assign_address_locate(base_msb: u8, idx: int, k: int, page: u8, hi: u8, lo: u8)
    ensures
        0 <= idx < 8 && 0 <= k < 19 ==> {
            let a = assign_address_spec(base_msb, idx, k);
            assign_locate_spec(a[1], a[2], a[3]) == Some((idx, k))
        },
        assign_locate_spec(page, hi, lo) matches Some((i, j)) ==> 0 <= i < 8 && 0 <= j < 19
            && assign_address_spec(base_msb, i, j) == [base_msb, page, hi, lo],
{
    if 0 <= idx < 8 && 0 <= k < 19 {
        let flat = 0x0C + idx * 19 + k;
        assert(0x0C <= flat <= 0x0C + 7 * 19 + 18);
        let f = flat - 0x0C;
        assert(f == idx * 19 + k);
        assert(f / 19 == idx && f % 19 == k) by (nonlinear_arith)
            requires
                f == idx * 19 + k,
                0 <= k < 19,
                0 <= idx;
    }
    if let Some((i, j)) = assign_locate_spec(page, hi, lo) {
        let flat: int = if page == 1 { lo as int } else { lo + 0x80 };
        let f = flat - 0x0C;
        assert(0 <= f < 19 * 8);
        assert(f == 19 * (f / 19) + f % 19 && 0 <= f / 19 < 8 && 0 <= f % 19 < 19) by (nonlinear_arith)
            requires
                0 <= f < 19 * 8;
        assert(assign_address_spec(base_msb, i, j) =~= [base_msb, page, hi, lo]);
    }
}

/// The byte of the last write at address `k` in `ws`, if any.
pub open spec fn last_at(ws: Seq<(u8, u8, u8, u8)>, k: Addr3) -> Option<u8>
    decreases ws.len(),
{
    if ws.len() == 0 {
        None
    } else if (ws.last().0, ws.last().1, ws.last().2) == k {
        Some(ws.last().3)
    } else {
        last_at(ws.drop_last(), k)
    }
}

/// The typed byte one decoder step leaves at its own address `k` for `b`.
pub open spec fn taken_at(k: Addr3, b: u8) -> Option<u8> {
    decode_step((Map::empty(), Map::empty()), (k.0, k.1, k.2, b)).0.get(k)
}

/// A page-`0x00` header address (mode and name) shows what its last write
/// left there; writes elsewhere never reach it.
pub proof fn lemma_fold_header_byte(ws: Seq<(u8, u8, u8, u8)>, l: u8)
    requires
        l <= 0x10,
    ensures
        decode_fold(ws).0.get((0u8, 0u8, l)) == match last_at(ws, (0u8, 0u8, l)) {
            Some(b) => taken_at((0u8, 0u8, l), b),
            None => None,
        },
    decreases ws.len(),
{
    if ws.len() > 0 {
        lemma_fold_header_byte(ws.drop_last(), l);
        let w = ws.last();
        let wk = PatchArea::wire_key(w.0, w.1, w.2);
        assert((w.0, w.1, w.2) != (0u8, 0u8, l) ==> wk != (0u8, 0u8, l));
    }
}

/// The last write at `k` of `a + b` is `b`'s when `b` writes there.
pub proof fn lemma_last_at_concat(a: Seq<(u8, u8, u8, u8)>, b: Seq<(u8, u8, u8, u8)>, k: Addr3)
    ensures
        last_at(a + b, k) == (if last_at(b, k) is Some { last_at(b, k) } else { last_at(a, k) }),
    decreases b.len(),
{
    if b.len() == 0 {
        assert(a + b =~= a);
    } else {
        assert((a + b).drop_last() =~= a + b.drop_last());
        lemma_last_at_concat(a, b.drop_last(), k);
    }
}

/// Within one 128-byte page row, the `i`-th address after `(p, h, 0)` is
/// `(p, h, i)`.
pub proof fn lemma_addr_after_row(p: u8, h: u8, i: nat)
    requires
        i <= 0x7F,
    ensures
        addr_after((p, h, 0u8), i) == (p, h, i as u8),
    decreases i,
{
    if i > 0 {
        lemma_addr_after_row(p, h, (i - 1) as nat);
    }
}

} // verus!
