//! The keys under which a PCM tone's tail bytes are written out: each
//! documented byte under its group and parameter name, every other byte
//! under `unmapped` and its `0xNN` offset, and the way back from keys to
//! offsets.
use vstd::prelude::*;
use crate::pcm_tail_params::{param_for, tail_param, PcmTailGroup};
use crate::text::{
    ascii_chars, hex_byte_label, hex_label_bytes, parse_hex_spec, parse_hex_u8_bytes, str_eq,
    trim_str, trimmed, is_white_space, lemma_trimmed_padded,
};
use crate::sysex::copy_range;
use vstd::string::StringSliceAdditionalSpecFns;
use vstd::utf8::encode_utf8;
use crate::key_text::{hex2, lemma_ascii_chars_bytes, lemma_hex2_reads_back};
use crate::text::all_ascii;

verus! {

/// The group key of bytes without a documented name.
pub open spec fn unmapped_key() -> &'static str {
    "unmapped"
}

/// Tail offset `o` has a documented, non-empty name.
pub open spec fn named(o: u8) -> bool {
    o < 0x28 && tail_param(o).1.len() > 0
}

/// The (group key, name key) a tail byte at offset `off` is written under.
pub fn classify(off: u8) -> (r: (String, String))
    ensures
        named(off) ==> r.0@ == tail_param(off).0.snake_spec()@ && r.1@ == tail_param(off).1@,
        !named(off) ==> r.0@ == unmapped_key()@ && r.1@ == ascii_chars(hex_label_bytes(off)),
{
    match param_for(off) {
        Some(e) => {
            if e.name.len() > 0 {
                return (e.group.as_snake().to_owned(), e.name.to_owned());
            }
        },
        None => {},
    }
    ("unmapped".to_owned(), hex_byte_label(off))
}

/// The first documented offset from `i` on named `name` (and in
/// `group`, when given).
pub open spec fn first_name_from(group: Option<PcmTailGroup>, name: Seq<char>, i: int) -> Option<u8>
    decreases 0x28 - i,
{
    if i >= 0x28 || i < 0 {
        None
    } else if named(i as u8) && (group matches Some(g) ==> tail_param(i as u8).0 == g) && tail_param(
        i as u8,
    ).1@ == name {
        Some(i as u8)
    } else {
        first_name_from(group, name, i + 1)
    }
}

/// The first documented offset named `name` (in `group`, when given).
pub fn find_name(group: Option<PcmTailGroup>, name: &str) -> (r: Option<u8>)
    ensures
        r == first_name_from(group, name@, 0),
{
    let mut i: u8 = 0;
    while i < 0x28
        invariant
            i <= 0x28,
            first_name_from(group, name@, 0) == first_name_from(group, name@, i as int),
        decreases 0x28 - i,
    {
        if let Some(e) = param_for(i) {
            let group_ok = match group {
                Some(g) => g == e.group,
                None => true,
            };
            if e.name.len() > 0 && group_ok && str_eq(e.name, name) {
                return Some(i);
            }
        }
        i += 1;
    }
    None
}

/// What a `0x`/`0X`-prefixed hex offset key parses to.
pub open spec fn hex_key_spec(s: Seq<u8>) -> Option<u8> {
    if s.len() >= 2 && s[0] == 0x30 && (s[1] == 0x78 || s[1] == 0x58) {
        match parse_hex_spec(s.skip(2)) {
            Ok(v) => Some(v),
            Err(_) => None,
        }
    } else {
        None
    }
}

/// Parse a `0x`/`0X`-prefixed hex offset key.
pub fn parse_hex_key(s: &str) -> (r: Option<u8>)
    ensures
        r == hex_key_spec(s.spec_bytes()),
{
    let b = s.as_bytes();
    if b.len() >= 2 && b[0] == 0x30 && (b[1] == 0x78 || b[1] == 0x58) {
        let rest = copy_range(b, 2, b.len());
        assert(rest@ =~= b@.skip(2));
        match parse_hex_u8_bytes(rest.as_slice()) {
            Ok(v) => Some(v),
            Err(_) => None,
        }
    } else {
        None
    }
}

/// The group whose key is `s`, if any.
pub open spec fn group_of(s: Seq<char>) -> Option<PcmTailGroup> {
    if exists|g: PcmTailGroup| #[trigger] g.snake_spec()@ == s {
        Some(choose|g: PcmTailGroup| #[trigger] g.snake_spec()@ == s)
    } else {
        None
    }
}

/// The offset a (group key, trimmed name key) pair stands for: under
/// `unmapped`, a hex offset or else any documented name; under a group, a
/// name of that group or else a hex offset.
pub open spec fn resolve_spec(group: Seq<char>, key: Seq<char>) -> Option<u8> {
    if group == unmapped_key()@ {
        if hex_key_spec(encode_utf8(key)) is Some {
            hex_key_spec(encode_utf8(key))
        } else {
            first_name_from(None, key, 0)
        }
    } else {
        match group_of(group) {
            None => None,
            Some(g) => if first_name_from(Some(g), key, 0) is Some {
                first_name_from(Some(g), key, 0)
            } else {
                hex_key_spec(encode_utf8(key))
            },
        }
    }
}

/// The offset a (group key, already trimmed name key) pair stands for.
pub fn resolve_trimmed_key(group: &str, key: &str) -> (r: Option<u8>)
    ensures
        r == resolve_spec(group@, key@),
{
    if str_eq(group, "unmapped") {
        if let Some(off) = parse_hex_key(key) {
            return Some(off);
        }
        return find_name(None, key);
    }
    proof {
        PcmTailGroup::lemma_snake_distinct();
    }
    let target = match PcmTailGroup::from_snake(group) {
        Some(g) => g,
        None => {
            proof {
                if exists|g: PcmTailGroup| #[trigger] g.snake_spec()@ == group@ {
                    let g = choose|g: PcmTailGroup| #[trigger] g.snake_spec()@ == group@;
                    assert(g.snake_spec()@ == group@);
                }
            }
            return None;
        },
    };
    proof {
        assert(target.snake_spec()@ == group@);
        let g = choose|g: PcmTailGroup| #[trigger] g.snake_spec()@ == group@;
        assert(g.snake_spec()@ == group@);
        assert(group_of(group@) == Some(target));
    }
    if let Some(off) = find_name(Some(target), key) {
        return Some(off);
    }
    parse_hex_key(key)
}

/// The offset a (group key, name key) pair stands for, the name key
/// trimmed of surrounding whitespace first.
pub fn resolve_inner_key(group: &str, inner: &str) -> (r: Option<u8>)
    ensures
        r == resolve_spec(group@, trimmed(inner@)),
{
    resolve_trimmed_key(group, trim_str(inner))
}


/// Offset `k` is a documented parameter of group `g` named `name`.
pub open spec fn found_at(g: PcmTailGroup, name: Seq<char>, k: int) -> bool {
    0 <= k < 0x28 && named(k as u8) && tail_param(k as u8).0 == g && tail_param(k as u8).1@ == name
}

proof fn lemma_first_name_at(g: PcmTailGroup, name: Seq<char>, i: int, off: u8)
    requires
        0 <= i <= off,
        found_at(g, name, off as int),
        forall|k: int| i <= k < off ==> !found_at(g, name, k),
    ensures
        first_name_from(Some(g), name, i) == Some(off),
    decreases off - i,
{
    if i < off {
        assert(!found_at(g, name, i));
        lemma_first_name_at(g, name, i + 1, off);
    }
}

/// Within its group, a documented parameter's name is found at its own
/// offset first.
proof fn lemma_named_found(off: u8)
    requires
        named(off),
    ensures
        first_name_from(Some(tail_param(off).0), tail_param(off).1@, 0) == Some(off),
{
    if off == 0xFF {
    } else if off == 0x00 {
        reveal_strlit("Filter Type");
        assert forall|k: int| 0 <= k < off implies !found_at(PcmTailGroup::Filter, tail_param(off).1@, k) by {
            if tail_param(k as u8).0 == PcmTailGroup::Filter {
                assert(false);
            }
        }
        lemma_first_name_at(tail_param(off).0, tail_param(off).1@, 0, off);
    } else if off == 0x01 {
        reveal_strlit("Filter Type");
        reveal_strlit("Cutoff");
        assert forall|k: int| 0 <= k < off implies !found_at(PcmTailGroup::Filter, tail_param(off).1@, k) by {
            if tail_param(k as u8).0 == PcmTailGroup::Filter {
                assert(k == 0);
            }
        }
        lemma_first_name_at(tail_param(off).0, tail_param(off).1@, 0, off);
    } else if off == 0x02 {
        reveal_strlit("Filter Type");
        reveal_strlit("Cutoff");
        reveal_strlit("Resonance");
        assert forall|k: int| 0 <= k < off implies !found_at(PcmTailGroup::Filter, tail_param(off).1@, k) by {
            if tail_param(k as u8).0 == PcmTailGroup::Filter {
                assert(k == 0 || k == 1);
            }
        }
        lemma_first_name_at(tail_param(off).0, tail_param(off).1@, 0, off);
    } else if off == 0x03 {
        reveal_strlit("Filter Type");
        reveal_strlit("Cutoff");
        reveal_strlit("Resonance");
        reveal_strlit("Cutoff Velocity Sens");
        assert forall|k: int| 0 <= k < off implies !found_at(PcmTailGroup::Filter, tail_param(off).1@, k) by {
            if tail_param(k as u8).0 == PcmTailGroup::Filter {
                assert(k == 0 || k == 1 || k == 2);
            }
        }
        lemma_first_name_at(tail_param(off).0, tail_param(off).1@, 0, off);
    } else if off == 0x04 {
        reveal_strlit("Filter Type");
        reveal_strlit("Cutoff");
        reveal_strlit("Resonance");
        reveal_strlit("Cutoff Velocity Sens");
        reveal_strlit("Cutoff Velocity Curve");
        assert forall|k: int| 0 <= k < off implies !found_at(PcmTailGroup::Filter, tail_param(off).1@, k) by {
            if tail_param(k as u8).0 == PcmTailGroup::Filter {
                assert(k == 0 || k == 1 || k == 2 || k == 3);
            }
        }
        lemma_first_name_at(tail_param(off).0, tail_param(off).1@, 0, off);
    } else if off == 0x05 {
        reveal_strlit("Filter Type");
        reveal_strlit("Cutoff");
        reveal_strlit("Resonance");
        reveal_strlit("Cutoff Velocity Sens");
        reveal_strlit("Cutoff Velocity Curve");
        reveal_strlit("Cutoff Keyfollow");
        assert forall|k: int| 0 <= k < off implies !found_at(PcmTailGroup::Filter, tail_param(off).1@, k) by {
            if tail_param(k as u8).0 == PcmTailGroup::Filter {
                assert(k == 0 || k == 1 || k == 2 || k == 3 || k == 4);
            }
        }
        lemma_first_name_at(tail_param(off).0, tail_param(off).1@, 0, off);
    } else if off == 0x06 {
        reveal_strlit("Filter Type");
        reveal_strlit("Cutoff");
        reveal_strlit("Resonance");
        reveal_strlit("Cutoff Velocity Sens");
        reveal_strlit("Cutoff Velocity Curve");
        reveal_strlit("Cutoff Keyfollow");
        reveal_strlit("Cutoff Nuance Sens");
        assert forall|k: int| 0 <= k < off implies !found_at(PcmTailGroup::Filter, tail_param(off).1@, k) by {
            if tail_param(k as u8).0 == PcmTailGroup::Filter {
                assert(k == 0 || k == 1 || k == 2 || k == 3 || k == 4 || k == 5);
            }
        }
        lemma_first_name_at(tail_param(off).0, tail_param(off).1@, 0, off);
    } else if off == 0x07 {
        reveal_strlit("TVF Env Depth");
        assert forall|k: int| 0 <= k < off implies !found_at(PcmTailGroup::Tvf, tail_param(off).1@, k) by {
            if tail_param(k as u8).0 == PcmTailGroup::Tvf {
                assert(false);
            }
        }
        lemma_first_name_at(tail_param(off).0, tail_param(off).1@, 0, off);
    } else if off == 0x08 {
        reveal_strlit("TVF Env Depth");
        reveal_strlit("TVF Attack Time");
        assert forall|k: int| 0 <= k < off implies !found_at(PcmTailGroup::Tvf, tail_param(off).1@, k) by {
            if tail_param(k as u8).0 == PcmTailGroup::Tvf {
                assert(k == 7);
            }
        }
        lemma_first_name_at(tail_param(off).0, tail_param(off).1@, 0, off);
    } else if off == 0x09 {
        reveal_strlit("TVF Env Depth");
        reveal_strlit("TVF Attack Time");
        reveal_strlit("TVF Decay Time");
        assert forall|k: int| 0 <= k < off implies !found_at(PcmTailGroup::Tvf, tail_param(off).1@, k) by {
            if tail_param(k as u8).0 == PcmTailGroup::Tvf {
                assert(k == 7 || k == 8);
            }
        }
        lemma_first_name_at(tail_param(off).0, tail_param(off).1@, 0, off);
    } else if off == 0x0A {
        reveal_strlit("TVF Env Depth");
        reveal_strlit("TVF Attack Time");
        reveal_strlit("TVF Decay Time");
        reveal_strlit("TVF Sustain Level");
        assert forall|k: int| 0 <= k < off implies !found_at(PcmTailGroup::Tvf, tail_param(off).1@, k) by {
            if tail_param(k as u8).0 == PcmTailGroup::Tvf {
                assert(k == 7 || k == 8 || k == 9);
            }
        }
        lemma_first_name_at(tail_param(off).0, tail_param(off).1@, 0, off);
    } else if off == 0x0B {
        reveal_strlit("TVF Env Depth");
        reveal_strlit("TVF Attack Time");
        reveal_strlit("TVF Decay Time");
        reveal_strlit("TVF Sustain Level");
        reveal_strlit("TVF Release Time");
        assert forall|k: int| 0 <= k < off implies !found_at(PcmTailGroup::Tvf, tail_param(off).1@, k) by {
            if tail_param(k as u8).0 == PcmTailGroup::Tvf {
                assert(k == 7 || k == 8 || k == 9 || k == 10);
            }
        }
        lemma_first_name_at(tail_param(off).0, tail_param(off).1@, 0, off);
    } else if off == 0x0C {
        reveal_strlit("TVF Env Depth");
        reveal_strlit("TVF Attack Time");
        reveal_strlit("TVF Decay Time");
        reveal_strlit("TVF Sustain Level");
        reveal_strlit("TVF Release Time");
        reveal_strlit("TVF Attack Velocity Sens");
        assert forall|k: int| 0 <= k < off implies !found_at(PcmTailGroup::Tvf, tail_param(off).1@, k) by {
            if tail_param(k as u8).0 == PcmTailGroup::Tvf {
                assert(k == 7 || k == 8 || k == 9 || k == 10 || k == 11);
            }
        }
        lemma_first_name_at(tail_param(off).0, tail_param(off).1@, 0, off);
    } else if off == 0x0D {
        reveal_strlit("TVF Env Depth");
        reveal_strlit("TVF Attack Time");
        reveal_strlit("TVF Decay Time");
        reveal_strlit("TVF Sustain Level");
        reveal_strlit("TVF Release Time");
        reveal_strlit("TVF Attack Velocity Sens");
        reveal_strlit("TVF Attack Nuance Sens");
        assert forall|k: int| 0 <= k < off implies !found_at(PcmTailGroup::Tvf, tail_param(off).1@, k) by {
            if tail_param(k as u8).0 == PcmTailGroup::Tvf {
                assert(k == 7 || k == 8 || k == 9 || k == 10 || k == 11 || k == 12);
            }
        }
        lemma_first_name_at(tail_param(off).0, tail_param(off).1@, 0, off);
    } else if off == 0x0E {
        reveal_strlit("Level Velocity Sens");
        assert forall|k: int| 0 <= k < off implies !found_at(PcmTailGroup::Velocity, tail_param(off).1@, k) by {
            if tail_param(k as u8).0 == PcmTailGroup::Velocity {
                assert(false);
            }
        }
        lemma_first_name_at(tail_param(off).0, tail_param(off).1@, 0, off);
    } else if off == 0x0F {
        reveal_strlit("Level Velocity Sens");
        reveal_strlit("Velocity Curve Type");
        assert("Level Velocity Sens"@[0] != "Velocity Curve Type"@[0]);
        assert forall|k: int| 0 <= k < off implies !found_at(PcmTailGroup::Velocity, tail_param(off).1@, k) by {
            if tail_param(k as u8).0 == PcmTailGroup::Velocity {
                assert(k == 14);
            }
        }
        lemma_first_name_at(tail_param(off).0, tail_param(off).1@, 0, off);
    } else if off == 0x10 {
        reveal_strlit("TVA Attack Time");
        assert forall|k: int| 0 <= k < off implies !found_at(PcmTailGroup::Tva, tail_param(off).1@, k) by {
            if tail_param(k as u8).0 == PcmTailGroup::Tva {
                assert(false);
            }
        }
        lemma_first_name_at(tail_param(off).0, tail_param(off).1@, 0, off);
    } else if off == 0x11 {
        reveal_strlit("TVA Attack Time");
        reveal_strlit("TVA Decay Time");
        assert forall|k: int| 0 <= k < off implies !found_at(PcmTailGroup::Tva, tail_param(off).1@, k) by {
            if tail_param(k as u8).0 == PcmTailGroup::Tva {
                assert(k == 16);
            }
        }
        lemma_first_name_at(tail_param(off).0, tail_param(off).1@, 0, off);
    } else if off == 0x12 {
        reveal_strlit("TVA Attack Time");
        reveal_strlit("TVA Decay Time");
        reveal_strlit("TVA Sustain Level");
        assert forall|k: int| 0 <= k < off implies !found_at(PcmTailGroup::Tva, tail_param(off).1@, k) by {
            if tail_param(k as u8).0 == PcmTailGroup::Tva {
                assert(k == 16 || k == 17);
            }
        }
        lemma_first_name_at(tail_param(off).0, tail_param(off).1@, 0, off);
    } else if off == 0x13 {
        reveal_strlit("TVA Attack Time");
        reveal_strlit("TVA Decay Time");
        reveal_strlit("TVA Sustain Level");
        reveal_strlit("TVA Release Time");
        assert forall|k: int| 0 <= k < off implies !found_at(PcmTailGroup::Tva, tail_param(off).1@, k) by {
            if tail_param(k as u8).0 == PcmTailGroup::Tva {
                assert(k == 16 || k == 17 || k == 18);
            }
        }
        lemma_first_name_at(tail_param(off).0, tail_param(off).1@, 0, off);
    } else if off == 0x14 {
        reveal_strlit("TVA Attack Time");
        reveal_strlit("TVA Decay Time");
        reveal_strlit("TVA Sustain Level");
        reveal_strlit("TVA Release Time");
        reveal_strlit("TVA Attack Velocity Sens");
        assert forall|k: int| 0 <= k < off implies !found_at(PcmTailGroup::Tva, tail_param(off).1@, k) by {
            if tail_param(k as u8).0 == PcmTailGroup::Tva {
                assert(k == 16 || k == 17 || k == 18 || k == 19);
            }
        }
        lemma_first_name_at(tail_param(off).0, tail_param(off).1@, 0, off);
    } else if off == 0x15 {
        reveal_strlit("TVA Attack Time");
        reveal_strlit("TVA Decay Time");
        reveal_strlit("TVA Sustain Level");
        reveal_strlit("TVA Release Time");
        reveal_strlit("TVA Attack Velocity Sens");
        reveal_strlit("TVA Attack Nuance Sens");
        assert forall|k: int| 0 <= k < off implies !found_at(PcmTailGroup::Tva, tail_param(off).1@, k) by {
            if tail_param(k as u8).0 == PcmTailGroup::Tva {
                assert(k == 16 || k == 17 || k == 18 || k == 19 || k == 20);
            }
        }
        lemma_first_name_at(tail_param(off).0, tail_param(off).1@, 0, off);
    } else if off == 0x16 {
        reveal_strlit("TVA Attack Time");
        reveal_strlit("TVA Decay Time");
        reveal_strlit("TVA Sustain Level");
        reveal_strlit("TVA Release Time");
        reveal_strlit("TVA Attack Velocity Sens");
        reveal_strlit("TVA Attack Nuance Sens");
        reveal_strlit("TVA Level Nuance Sens");
        assert forall|k: int| 0 <= k < off implies !found_at(PcmTailGroup::Tva, tail_param(off).1@, k) by {
            if tail_param(k as u8).0 == PcmTailGroup::Tva {
                assert(k == 16 || k == 17 || k == 18 || k == 19 || k == 20 || k == 21);
            }
        }
        lemma_first_name_at(tail_param(off).0, tail_param(off).1@, 0, off);
    } else if off == 0x17 {
        reveal_strlit("Pitch Env Velocity Sens");
        assert forall|k: int| 0 <= k < off implies !found_at(PcmTailGroup::PitchEnv, tail_param(off).1@, k) by {
            if tail_param(k as u8).0 == PcmTailGroup::PitchEnv {
                assert(false);
            }
        }
        lemma_first_name_at(tail_param(off).0, tail_param(off).1@, 0, off);
    } else if off == 0x18 {
        reveal_strlit("Pitch Env Velocity Sens");
        reveal_strlit("Pitch Env Depth");
        assert forall|k: int| 0 <= k < off implies !found_at(PcmTailGroup::PitchEnv, tail_param(off).1@, k) by {
            if tail_param(k as u8).0 == PcmTailGroup::PitchEnv {
                assert(k == 23);
            }
        }
        lemma_first_name_at(tail_param(off).0, tail_param(off).1@, 0, off);
    } else if off == 0x19 {
        reveal_strlit("Pitch Env Velocity Sens");
        reveal_strlit("Pitch Env Depth");
        reveal_strlit("Pitch Attack Time");
        assert forall|k: int| 0 <= k < off implies !found_at(PcmTailGroup::PitchEnv, tail_param(off).1@, k) by {
            if tail_param(k as u8).0 == PcmTailGroup::PitchEnv {
                assert(k == 23 || k == 24);
            }
        }
        lemma_first_name_at(tail_param(off).0, tail_param(off).1@, 0, off);
    } else if off == 0x1A {
        reveal_strlit("Pitch Env Velocity Sens");
        reveal_strlit("Pitch Env Depth");
        reveal_strlit("Pitch Attack Time");
        reveal_strlit("Pitch Decay Time");
        assert forall|k: int| 0 <= k < off implies !found_at(PcmTailGroup::PitchEnv, tail_param(off).1@, k) by {
            if tail_param(k as u8).0 == PcmTailGroup::PitchEnv {
                assert(k == 23 || k == 24 || k == 25);
            }
        }
        lemma_first_name_at(tail_param(off).0, tail_param(off).1@, 0, off);
    } else if off == 0x1B {
        reveal_strlit("Portamento Type");
        assert forall|k: int| 0 <= k < off implies !found_at(PcmTailGroup::Portamento, tail_param(off).1@, k) by {
            if tail_param(k as u8).0 == PcmTailGroup::Portamento {
                assert(false);
            }
        }
        lemma_first_name_at(tail_param(off).0, tail_param(off).1@, 0, off);
    } else if off == 0x1C {
        reveal_strlit("LFO1 Rate");
        assert forall|k: int| 0 <= k < off implies !found_at(PcmTailGroup::Lfo, tail_param(off).1@, k) by {
            if tail_param(k as u8).0 == PcmTailGroup::Lfo {
                assert(false);
            }
        }
        lemma_first_name_at(tail_param(off).0, tail_param(off).1@, 0, off);
    } else if off == 0x1E {
        reveal_strlit("LFO1 Rate");
        reveal_strlit("LFO1 Pitch Depth");
        assert forall|k: int| 0 <= k < off implies !found_at(PcmTailGroup::Lfo, tail_param(off).1@, k) by {
            if tail_param(k as u8).0 == PcmTailGroup::Lfo {
                assert(k == 28);
            }
        }
        lemma_first_name_at(tail_param(off).0, tail_param(off).1@, 0, off);
    } else if off == 0x1F {
        reveal_strlit("LFO1 Rate");
        reveal_strlit("LFO1 Pitch Depth");
        reveal_strlit("LFO1 TVF Depth");
        assert forall|k: int| 0 <= k < off implies !found_at(PcmTailGroup::Lfo, tail_param(off).1@, k) by {
            if tail_param(k as u8).0 == PcmTailGroup::Lfo {
                assert(k == 28 || k == 30);
            }
        }
        lemma_first_name_at(tail_param(off).0, tail_param(off).1@, 0, off);
    } else if off == 0x20 {
        reveal_strlit("LFO1 Rate");
        reveal_strlit("LFO1 Pitch Depth");
        reveal_strlit("LFO1 TVF Depth");
        reveal_strlit("LFO1 TVA Depth");
        assert("LFO1 TVF Depth"@[7] != "LFO1 TVA Depth"@[7]);
        assert forall|k: int| 0 <= k < off implies !found_at(PcmTailGroup::Lfo, tail_param(off).1@, k) by {
            if tail_param(k as u8).0 == PcmTailGroup::Lfo {
                assert(k == 28 || k == 30 || k == 31);
            }
        }
        lemma_first_name_at(tail_param(off).0, tail_param(off).1@, 0, off);
    } else if off == 0x21 {
        reveal_strlit("LFO1 Rate");
        reveal_strlit("LFO1 Pitch Depth");
        reveal_strlit("LFO1 TVF Depth");
        reveal_strlit("LFO1 TVA Depth");
        reveal_strlit("LFO1 Pan Depth");
        assert("LFO1 TVF Depth"@[5] != "LFO1 Pan Depth"@[5]);
        assert("LFO1 TVA Depth"@[5] != "LFO1 Pan Depth"@[5]);
        assert forall|k: int| 0 <= k < off implies !found_at(PcmTailGroup::Lfo, tail_param(off).1@, k) by {
            if tail_param(k as u8).0 == PcmTailGroup::Lfo {
                assert(k == 28 || k == 30 || k == 31 || k == 32);
            }
        }
        lemma_first_name_at(tail_param(off).0, tail_param(off).1@, 0, off);
    } else if off == 0x22 {
        reveal_strlit("LFO1 Rate");
        reveal_strlit("LFO1 Pitch Depth");
        reveal_strlit("LFO1 TVF Depth");
        reveal_strlit("LFO1 TVA Depth");
        reveal_strlit("LFO1 Pan Depth");
        reveal_strlit("LFO2 Rate");
        assert("LFO1 Rate"@[3] != "LFO2 Rate"@[3]);
        assert forall|k: int| 0 <= k < off implies !found_at(PcmTailGroup::Lfo, tail_param(off).1@, k) by {
            if tail_param(k as u8).0 == PcmTailGroup::Lfo {
                assert(k == 28 || k == 30 || k == 31 || k == 32 || k == 33);
            }
        }
        lemma_first_name_at(tail_param(off).0, tail_param(off).1@, 0, off);
    } else if off == 0x24 {
        reveal_strlit("LFO1 Rate");
        reveal_strlit("LFO1 Pitch Depth");
        reveal_strlit("LFO1 TVF Depth");
        reveal_strlit("LFO1 TVA Depth");
        reveal_strlit("LFO1 Pan Depth");
        reveal_strlit("LFO2 Rate");
        reveal_strlit("LFO2 Pitch Depth");
        assert("LFO1 Pitch Depth"@[3] != "LFO2 Pitch Depth"@[3]);
        assert forall|k: int| 0 <= k < off implies !found_at(PcmTailGroup::Lfo, tail_param(off).1@, k) by {
            if tail_param(k as u8).0 == PcmTailGroup::Lfo {
                assert(k == 28 || k == 30 || k == 31 || k == 32 || k == 33 || k == 34);
            }
        }
        lemma_first_name_at(tail_param(off).0, tail_param(off).1@, 0, off);
    } else if off == 0x25 {
        reveal_strlit("LFO1 Rate");
        reveal_strlit("LFO1 Pitch Depth");
        reveal_strlit("LFO1 TVF Depth");
        reveal_strlit("LFO1 TVA Depth");
        reveal_strlit("LFO1 Pan Depth");
        reveal_strlit("LFO2 Rate");
        reveal_strlit("LFO2 Pitch Depth");
        reveal_strlit("LFO2 TVF Depth");
        assert("LFO1 TVF Depth"@[3] != "LFO2 TVF Depth"@[3]);
        assert("LFO1 TVA Depth"@[3] != "LFO2 TVF Depth"@[3]);
        assert("LFO1 Pan Depth"@[3] != "LFO2 TVF Depth"@[3]);
        assert forall|k: int| 0 <= k < off implies !found_at(PcmTailGroup::Lfo, tail_param(off).1@, k) by {
            if tail_param(k as u8).0 == PcmTailGroup::Lfo {
                assert(k == 28 || k == 30 || k == 31 || k == 32 || k == 33 || k == 34 || k == 36);
            }
        }
        lemma_first_name_at(tail_param(off).0, tail_param(off).1@, 0, off);
    } else if off == 0x26 {
        reveal_strlit("LFO1 Rate");
        reveal_strlit("LFO1 Pitch Depth");
        reveal_strlit("LFO1 TVF Depth");
        reveal_strlit("LFO1 TVA Depth");
        reveal_strlit("LFO1 Pan Depth");
        reveal_strlit("LFO2 Rate");
        reveal_strlit("LFO2 Pitch Depth");
        reveal_strlit("LFO2 TVF Depth");
        reveal_strlit("LFO2 TVA Depth");
        assert("LFO1 TVF Depth"@[3] != "LFO2 TVA Depth"@[3]);
        assert("LFO1 TVA Depth"@[3] != "LFO2 TVA Depth"@[3]);
        assert("LFO1 Pan Depth"@[3] != "LFO2 TVA Depth"@[3]);
        assert("LFO2 TVF Depth"@[7] != "LFO2 TVA Depth"@[7]);
        assert forall|k: int| 0 <= k < off implies !found_at(PcmTailGroup::Lfo, tail_param(off).1@, k) by {
            if tail_param(k as u8).0 == PcmTailGroup::Lfo {
                assert(k == 28 || k == 30 || k == 31 || k == 32 || k == 33 || k == 34 || k == 36 || k == 37);
            }
        }
        lemma_first_name_at(tail_param(off).0, tail_param(off).1@, 0, off);
    } else if off == 0x27 {
        reveal_strlit("LFO1 Rate");
        reveal_strlit("LFO1 Pitch Depth");
        reveal_strlit("LFO1 TVF Depth");
        reveal_strlit("LFO1 TVA Depth");
        reveal_strlit("LFO1 Pan Depth");
        reveal_strlit("LFO2 Rate");
        reveal_strlit("LFO2 Pitch Depth");
        reveal_strlit("LFO2 TVF Depth");
        reveal_strlit("LFO2 TVA Depth");
        reveal_strlit("LFO2 Pan Depth");
        assert("LFO1 TVF Depth"@[3] != "LFO2 Pan Depth"@[3]);
        assert("LFO1 TVA Depth"@[3] != "LFO2 Pan Depth"@[3]);
        assert("LFO1 Pan Depth"@[3] != "LFO2 Pan Depth"@[3]);
        assert("LFO2 TVF Depth"@[5] != "LFO2 Pan Depth"@[5]);
        assert("LFO2 TVA Depth"@[5] != "LFO2 Pan Depth"@[5]);
        assert forall|k: int| 0 <= k < off implies !found_at(PcmTailGroup::Lfo, tail_param(off).1@, k) by {
            if tail_param(k as u8).0 == PcmTailGroup::Lfo {
                assert(k == 28 || k == 30 || k == 31 || k == 32 || k == 33 || k == 34 || k == 36 || k == 37 || k == 38);
            }
        }
        lemma_first_name_at(tail_param(off).0, tail_param(off).1@, 0, off);
    } else {
        reveal_strlit("");
    }
}

/// Law: every tail byte's (group key, name key) reads back as its offset,
/// so writing a tone's tail out by [`classify`] and reading it back by
/// [`resolve_trimmed_key`] loses nothing.
pub proof fn lemma_classify_resolves(off: u8, group: Seq<char>, key: Seq<char>)
    requires
        named(off) ==> group == tail_param(off).0.snake_spec()@ && key == tail_param(off).1@,
        !named(off) ==> group == unmapped_key()@ && key == ascii_chars(hex_label_bytes(off)),
    ensures
        resolve_spec(group, key) == Some(off),
{
    reveal_strlit("unmapped");
    if named(off) {
        let g = tail_param(off).0;
        PcmTailGroup::lemma_snake_distinct();
        reveal_strlit("filter");
        reveal_strlit("tvf");
        reveal_strlit("velocity");
        reveal_strlit("tva");
        reveal_strlit("pitch_env");
        reveal_strlit("lfo");
        reveal_strlit("portamento");
        reveal_strlit("reserved");
        assert("velocity"@[0] != "unmapped"@[0]);
        assert("reserved"@[0] != "unmapped"@[0]);
        assert(group != unmapped_key()@) by {
            match g {
                PcmTailGroup::Filter => {},
                PcmTailGroup::Tvf => {},
                PcmTailGroup::Velocity => {},
                PcmTailGroup::Tva => {},
                PcmTailGroup::PitchEnv => {},
                PcmTailGroup::Lfo => {},
                PcmTailGroup::Portamento => {},
                PcmTailGroup::Reserved => {},
            }
        }
        assert(exists|h: PcmTailGroup| #[trigger] h.snake_spec()@ == group) by {
            assert(g.snake_spec()@ == group);
        }
        let c = choose|h: PcmTailGroup| #[trigger] h.snake_spec()@ == group;
        assert(c.snake_spec()@ == group);
        if c != g {
            assert(c.snake_spec()@ != g.snake_spec()@);
        }
        assert(group_of(group) == Some(g));
        lemma_named_found(off);
    } else {
        let b = hex_label_bytes(off);
        assert(all_ascii(b));
        lemma_ascii_chars_bytes(b);
        lemma_hex2_reads_back(off);
        assert(b.skip(2) =~= hex2(off));
    }
}

/// Law: whitespace around a key that neither starts nor ends with
/// whitespace does not change what [`resolve_inner_key`] resolves it to.
pub proof fn lemma_padded_key_resolves(group: Seq<char>, a: Seq<char>, k: Seq<char>, b: Seq<char>)
    requires
        forall|i: int| 0 <= i < a.len() ==> is_white_space(#[trigger] a[i]),
        forall|i: int| 0 <= i < b.len() ==> is_white_space(#[trigger] b[i]),
        k.len() > 0,
        !is_white_space(k[0]),
        !is_white_space(k.last()),
    ensures
        resolve_spec(group, trimmed(a + k + b)) == resolve_spec(group, k),
{
    lemma_trimmed_padded(a, k, b);
}

} // verus!
