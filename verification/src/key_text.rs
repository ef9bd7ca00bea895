//! Text form of the addresses under which unmodelled bytes are kept:
//! `PP:HH:LL` for a Patch-area byte (page, high and low offset byte) and
//! `AA:BB:CC:DD` for a full four-byte address, each field two upper-case
//! hex digits when written and any base-16 byte when read.
use vstd::prelude::*;
use vstd::string::StringSliceAdditionalSpecFns;
use crate::text::{ascii_chars, hex_char, parse_hex_spec, parse_hex_u8_bytes, scan_hex, string_from_utf8_lossy, RadixError, all_ascii};

verus! {

/// The fields of `s` between `:` separators, as `str::split(':')` yields
/// them: one more field than there are separators, empty fields kept.
pub open spec fn split_colons(s: Seq<u8>) -> Seq<Seq<u8>>
    decreases s.len(),
{
    if s.len() == 0 {
        seq![Seq::empty()]
    } else if s.last() == 0x3A {
        split_colons(s.drop_last()).push(Seq::empty())
    } else {
        let f = split_colons(s.drop_last());
        f.update(f.len() - 1, f.last().push(s.last()))
    }
}

proof fn lemma_split_nonempty(s: Seq<u8>)
    ensures
        split_colons(s).len() >= 1,
    decreases s.len(),
{
    if s.len() > 0 {
        lemma_split_nonempty(s.drop_last());
    }
}

/// Split a byte string at every `:`.
fn split_fields(s: &[u8]) -> (r: Vec<Vec<u8>>)
    ensures
        r@.len() == split_colons(s@).len(),
        forall|i: int| 0 <= i < r@.len() ==> #[trigger] r@[i]@ == split_colons(s@)[i],
{
    let mut parts: Vec<Vec<u8>> = Vec::new();
    let mut cur: Vec<u8> = Vec::new();
    let mut i: usize = 0;
    assert(s@.take(0) =~= Seq::<u8>::empty());
    while i < s.len()
        invariant
            i <= s@.len(),
            split_colons(s@.take(i as int)).len() == parts@.len() + 1,
            forall|j: int| 0 <= j < parts@.len() ==> #[trigger] parts@[j]@ == split_colons(s@.take(i as int))[j],
            cur@ == split_colons(s@.take(i as int)).last(),
        decreases s.len() - i,
    {
        let b = s[i];
        proof {
            assert(s@.take(i + 1).drop_last() =~= s@.take(i as int));
            lemma_split_nonempty(s@.take(i as int));
        }
        if b == 0x3A {
            let mut done: Vec<u8> = Vec::new();
            std::mem::swap(&mut done, &mut cur);
            parts.push(done);
            proof {
                assert(cur@ =~= Seq::<u8>::empty());
            }
        } else {
            cur.push(b);
        }
        i += 1;
    }
    assert(s@.take(i as int) =~= s@);
    parts.push(cur);
    parts
}

/// The byte a field stands for, read as `u8::from_str_radix(_, 16)` does.
pub open spec fn field_byte(f: Seq<u8>) -> Option<u8> {
    match parse_hex_spec(f) {
        Ok(v) => Some(v),
        Err(_) => None,
    }
}

/// What a `PP:HH:LL` key reads as: exactly three fields, each a byte.
pub open spec fn key_spec(s: Seq<u8>) -> Option<(u8, u8, u8)> {
    let f = split_colons(s);
    if f.len() != 3 {
        None
    } else {
        match (field_byte(f[0]), field_byte(f[1]), field_byte(f[2])) {
            (Some(a), Some(b), Some(c)) => Some((a, b, c)),
            _ => None,
        }
    }
}

/// What an `AA:BB:CC:DD` address reads as: exactly four fields, each a
/// byte.
pub open spec fn addr_spec(s: Seq<u8>) -> Option<[u8; 4]> {
    let f = split_colons(s);
    if f.len() != 4 {
        None
    } else {
        match (field_byte(f[0]), field_byte(f[1]), field_byte(f[2]), field_byte(f[3])) {
            (Some(a), Some(b), Some(c), Some(d)) => Some([a, b, c, d]),
            _ => None,
        }
    }
}

fn field_value(f: &Vec<u8>) -> (r: Option<u8>)
    ensures
        r == field_byte(f@),
{
    match parse_hex_u8_bytes(f.as_slice()) {
        Ok(v) => Some(v),
        Err(_) => None,
    }
}

/// Read a `PP:HH:LL` Patch-area key.
pub fn parse_key(s: &str) -> (r: Option<(u8, u8, u8)>)
    ensures
        r == key_spec(s.spec_bytes()),
{
    let f = split_fields(s.as_bytes());
    if f.len() != 3 {
        return None;
    }
    let a = field_value(&f[0]);
    let b = field_value(&f[1]);
    let c = field_value(&f[2]);
    match (a, b, c) {
        (Some(a), Some(b), Some(c)) => Some((a, b, c)),
        _ => None,
    }
}

/// Read an `AA:BB:CC:DD` address.
pub fn parse_addr(s: &str) -> (r: Option<[u8; 4]>)
    ensures
        r == addr_spec(s.spec_bytes()),
{
    let f = split_fields(s.as_bytes());
    if f.len() != 4 {
        return None;
    }
    let a = field_value(&f[0]);
    let b = field_value(&f[1]);
    let c = field_value(&f[2]);
    let d = field_value(&f[3]);
    match (a, b, c, d) {
        (Some(a), Some(b), Some(c), Some(d)) => Some([a, b, c, d]),
        _ => None,
    }
}

/// The two upper-case hex digits of `b`.
pub open spec fn hex2(b: u8) -> Seq<u8> {
    seq![hex_char(b / 16), hex_char(b % 16)]
}

/// The bytes of the key text of (`page`, `hi`, `lo`).
pub open spec fn key_text(page: u8, hi: u8, lo: u8) -> Seq<u8> {
    hex2(page) + seq![0x3Au8] + hex2(hi) + seq![0x3Au8] + hex2(lo)
}

/// Law: a byte is written as two upper-case hex digits, the high nibble
/// first (`0`..`9` are bytes 48..57, `A`..`F` bytes 65..70); so the key
/// text of page `0x03`, hi `0x00`, lo `0x5A` is `03:00:5A`.
pub proof fn lemma_hex_text(b: u8)
    ensures
        hex2(b).len() == 2,
        hex2(b)[0] == (if b / 16 < 10 { 48 + b / 16 } else { 55 + b / 16 }),
        hex2(b)[1] == (if b % 16 < 10 { 48 + b % 16 } else { 55 + b % 16 }),
        key_text(0x03, 0x00, 0x5A) == seq![48u8, 51, 58, 48, 48, 58, 53, 65],
{
    assert(key_text(0x03, 0x00, 0x5A) =~= seq![48u8, 51, 58, 48, 48, 58, 53, 65]);
}

/// The bytes of the text of a four-byte address.
pub open spec fn addr_text(a: [u8; 4]) -> Seq<u8> {
    hex2(a[0]) + seq![0x3Au8] + hex2(a[1]) + seq![0x3Au8] + hex2(a[2]) + seq![0x3Au8] + hex2(a[3])
}

fn push_hex2(out: &mut Vec<u8>, b: u8)
    ensures
        final(out)@ == old(out)@ + hex2(b),
{
    let hi = b / 16;
    let lo = b % 16;
    let h = if hi < 10 { 0x30 + hi } else { 0x41 + hi - 10 };
    let l = if lo < 10 { 0x30 + lo } else { 0x41 + lo - 10 };
    out.push(h);
    out.push(l);
    assert(final(out)@ =~= old(out)@ + hex2(b));
}

proof fn lemma_hex2_ascii(b: u8)
    ensures
        all_ascii(hex2(b)),
{
}

/// Write the key of a Patch-area byte as `PP:HH:LL`.
pub fn format_key(page: u8, hi: u8, lo: u8) -> (r: String)
    ensures
        r@ == ascii_chars(key_text(page, hi, lo)),
{
    let mut v: Vec<u8> = Vec::new();
    push_hex2(&mut v, page);
    v.push(0x3A);
    push_hex2(&mut v, hi);
    v.push(0x3A);
    push_hex2(&mut v, lo);
    assert(v@ =~= key_text(page, hi, lo));
    proof {
        lemma_hex2_ascii(page);
        lemma_hex2_ascii(hi);
        lemma_hex2_ascii(lo);
        assert(all_ascii(v@));
    }
    string_from_utf8_lossy(v.as_slice())
}

/// Write a four-byte address as `AA:BB:CC:DD`.
pub fn format_addr(addr: &[u8; 4]) -> (r: String)
    ensures
        r@ == ascii_chars(addr_text(*addr)),
{
    let mut v: Vec<u8> = Vec::new();
    push_hex2(&mut v, addr[0]);
    v.push(0x3A);
    push_hex2(&mut v, addr[1]);
    v.push(0x3A);
    push_hex2(&mut v, addr[2]);
    v.push(0x3A);
    push_hex2(&mut v, addr[3]);
    assert(v@ =~= addr_text(*addr));
    proof {
        lemma_hex2_ascii(addr[0]);
        lemma_hex2_ascii(addr[1]);
        lemma_hex2_ascii(addr[2]);
        lemma_hex2_ascii(addr[3]);
        assert(all_ascii(v@));
    }
    string_from_utf8_lossy(v.as_slice())
}

/// Two hex digits read back as the byte they were written from.
pub proof fn lemma_hex2_reads_back(b: u8)
    ensures
        field_byte(hex2(b)) == Some(b),
{
    let d = hex2(b);
    assert(d[0] != 0x2B);
    assert(d.len() == 2);
    assert(scan_hex(d, 2, (b / 16 * 16 + b % 16) as nat) == Ok::<u8, RadixError>(b));
    assert(scan_hex(d, 1, (b / 16) as nat) == scan_hex(d, 2, (b / 16 * 16 + b % 16) as nat));
    assert(scan_hex(d, 0, 0) == scan_hex(d, 1, (b / 16) as nat));
}

/// Splitting `a + [':'] + rest` yields the fields of `a` (when it has no
/// `:`) followed by those of `rest`.
proof fn lemma_split_concat(a: Seq<u8>, rest: Seq<u8>)
    requires
        forall|i: int| 0 <= i < a.len() ==> a[i] != 0x3A,
    ensures
        split_colons(a + seq![0x3Au8] + rest) == seq![a] + split_colons(rest),
    decreases rest.len(),
{
    if rest.len() == 0 {
        lemma_split_no_colon(a);
        assert((a + seq![0x3Au8] + rest).drop_last() =~= a);
        assert(split_colons(a + seq![0x3Au8] + rest) =~= seq![a] + split_colons(rest));
    } else {
        lemma_split_concat(a, rest.drop_last());
        assert((a + seq![0x3Au8] + rest).drop_last() =~= a + seq![0x3Au8] + rest.drop_last());
        lemma_split_nonempty(rest.drop_last());
        assert(split_colons(a + seq![0x3Au8] + rest) =~= seq![a] + split_colons(rest));
    }
}

/// A string without `:` is one field.
proof fn lemma_split_no_colon(a: Seq<u8>)
    requires
        forall|i: int| 0 <= i < a.len() ==> a[i] != 0x3A,
    ensures
        split_colons(a) == seq![a],
    decreases a.len(),
{
    if a.len() > 0 {
        lemma_split_no_colon(a.drop_last());
        assert(a[a.len() - 1] != 0x3A);
        assert(a.drop_last().push(a.last()) =~= a);
        assert(split_colons(a) =~= seq![a]);
    } else {
        assert(a =~= Seq::<u8>::empty());
    }
}

/// Law: a written Patch-area key reads back as the bytes it was written
/// from.
pub proof fn lemma_key_round_trip(page: u8, hi: u8, lo: u8)
    ensures
        key_spec(key_text(page, hi, lo)) == Some((page, hi, lo)),
{
    let (p2, h2, l2) = (hex2(page), hex2(hi), hex2(lo));
    lemma_split_no_colon(l2);
    lemma_split_concat(h2, l2);
    assert(h2 + seq![0x3Au8] + l2 + Seq::<u8>::empty() =~= h2 + seq![0x3Au8] + l2);
    lemma_split_concat(p2, h2 + seq![0x3Au8] + l2);
    assert(key_text(page, hi, lo) =~= p2 + seq![0x3Au8] + (h2 + seq![0x3Au8] + l2));
    let f = split_colons(key_text(page, hi, lo));
    assert(f =~= seq![p2, h2, l2]);
    lemma_hex2_reads_back(page);
    lemma_hex2_reads_back(hi);
    lemma_hex2_reads_back(lo);
}

/// Law: a written four-byte address reads back as the address it was
/// written from.
pub proof fn lemma_addr_round_trip(a: [u8; 4])
    ensures
        addr_spec(addr_text(a)) == Some(a),
{
    let (f0, f1, f2, f3) = (hex2(a[0]), hex2(a[1]), hex2(a[2]), hex2(a[3]));
    lemma_split_no_colon(f3);
    lemma_split_concat(f2, f3);
    lemma_split_concat(f1, f2 + seq![0x3Au8] + f3);
    lemma_split_concat(f0, f1 + seq![0x3Au8] + (f2 + seq![0x3Au8] + f3));
    assert(addr_text(a) =~= f0 + seq![0x3Au8] + (f1 + seq![0x3Au8] + (f2 + seq![0x3Au8] + f3)));
    let f = split_colons(addr_text(a));
    assert(f =~= seq![f0, f1, f2, f3]);
    lemma_hex2_reads_back(a[0]);
    lemma_hex2_reads_back(a[1]);
    lemma_hex2_reads_back(a[2]);
    lemma_hex2_reads_back(a[3]);
    assert([a[0], a[1], a[2], a[3]] =~= a);
}

/// The bytes of a string that holds the characters of an ASCII byte
/// string are those bytes.
pub proof fn lemma_ascii_text_bytes(s: &str, b: Seq<u8>)
    requires
        all_ascii(b),
        s@ == ascii_chars(b),
    ensures
        s.spec_bytes() == b,
{
    assert(vstd::string::is_ascii(s)) by {
        assert forall|i: int| 0 <= i < s@.len() implies '\0' <= #[trigger] s@[i] <= '\u{7f}' by {
            assert(b[i] < 128);
        }
    }
    vstd::string::is_ascii_spec_bytes(s);
    assert(s.spec_bytes() =~= b);
}

/// The UTF-8 encoding of an ASCII byte string's characters is those bytes.
pub proof fn lemma_ascii_chars_bytes(b: Seq<u8>)
    requires
        all_ascii(b),
    ensures
        vstd::utf8::encode_utf8(ascii_chars(b)) == b,
{
    let c = ascii_chars(b);
    assert(vstd::utf8::is_ascii_chars(c)) by {
        assert forall|i: int| 0 <= i < c.len() implies '\0' <= #[trigger] c[i] <= '\u{7f}' by {
            assert(b[i] < 128);
        }
    }
    vstd::utf8::is_ascii_chars_encode_utf8(c);
    assert(vstd::utf8::encode_utf8(c) =~= b);
}

/// Law: the text [`format_key`] writes is read back by [`parse_key`] as
/// the key it was written from.
pub proof fn lemma_format_parse_key(s: &str, page: u8, hi: u8, lo: u8)
    requires
        s@ == ascii_chars(key_text(page, hi, lo)),
    ensures
        key_spec(s.spec_bytes()) == Some((page, hi, lo)),
{
    lemma_hex2_ascii(page);
    lemma_hex2_ascii(hi);
    lemma_hex2_ascii(lo);
    assert(all_ascii(key_text(page, hi, lo)));
    lemma_ascii_text_bytes(s, key_text(page, hi, lo));
    lemma_key_round_trip(page, hi, lo);
}

/// Law: the text [`format_addr`] writes is read back by [`parse_addr`] as
/// the address it was written from.
pub proof fn lemma_format_parse_addr(s: &str, a: [u8; 4])
    requires
        s@ == ascii_chars(addr_text(a)),
    ensures
        addr_spec(s.spec_bytes()) == Some(a),
{
    lemma_hex2_ascii(a[0]);
    lemma_hex2_ascii(a[1]);
    lemma_hex2_ascii(a[2]);
    lemma_hex2_ascii(a[3]);
    assert(all_ascii(addr_text(a)));
    lemma_ascii_text_bytes(s, addr_text(a));
    lemma_addr_round_trip(a);
}

} // verus!
