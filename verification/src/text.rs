//! Small text helpers: ASCII byte strings, decimal numbers.
use vstd::prelude::*;
use vstd::string::StringSliceAdditionalSpecFns;

verus! {

/// Every byte of `s` is 7-bit ASCII.
pub open spec fn all_ascii(s: Seq<u8>) -> bool {
    forall|i: int| 0 <= i < s.len() ==> #[trigger] s[i] < 128
}

/// The characters an ASCII byte string stands for.
pub open spec fn ascii_chars(s: Seq<u8>) -> Seq<char> {
    s.map_values(|b: u8| b as char)
}

/// What `String::from_utf8_lossy` makes of a byte string.
pub uninterp spec fn utf8_lossy(b: Seq<u8>) -> Seq<char>;

/// `String::from_utf8_lossy`: decode bytes as UTF-8, replacing invalid
/// sequences. For ASCII input the documentation guarantees the decoding is
/// exact (ASCII is valid UTF-8, one character per byte); for other input
/// the result is named [`utf8_lossy`], a function of the bytes alone.
#[verifier::external_body]
pub fn string_from_utf8_lossy(bytes: &[u8]) -> (r: String)
    ensures
        r@ == utf8_lossy(bytes@),
        all_ascii(bytes@) ==> r@ == ascii_chars(bytes@),
{
    String::from_utf8_lossy(bytes).into_owned()
}

/// Whether two strings hold the same characters.
pub fn str_eq(a: &str, b: &str) -> (r: bool)
    ensures
        r == (a@ == b@),
{
    let x = a.as_bytes();
    let y = b.as_bytes();
    proof {
        vstd::utf8::encode_utf8_decode_utf8(a@);
        vstd::utf8::encode_utf8_decode_utf8(b@);
    }
    if x.len() != y.len() {
        assert(x@ != y@);
        return false;
    }
    let mut i: usize = 0;
    while i < x.len()
        invariant
            i <= x@.len(),
            x@.len() == y@.len(),
            x@ == a.spec_bytes(),
            y@ == b.spec_bytes(),
            vstd::utf8::decode_utf8(a.spec_bytes()) == a@,
            vstd::utf8::decode_utf8(b.spec_bytes()) == b@,
            forall|j: int| 0 <= j < i ==> x@[j] == y@[j],
        decreases x.len() - i,
    {
        if x[i] != y[i] {
            assert(x@[i as int] != y@[i as int]);
            assert(x@ != y@);
            return false;
        }
        i += 1;
    }
    assert(x@ =~= y@);
    true
}

/// Value of an ASCII hex digit (either case), if it is one.
pub open spec fn hex_digit_value(b: u8) -> Option<nat> {
    if 0x30 <= b <= 0x39 {
        Some((b - 0x30) as nat)
    } else if 0x41 <= b <= 0x46 {
        Some((b - 0x41 + 10) as nat)
    } else if 0x61 <= b <= 0x66 {
        Some((b - 0x61 + 10) as nat)
    } else {
        None
    }
}

/// Why a string is not a base-16 `u8`, as `u8::from_str_radix` reports it.
#[derive(Debug, Clone, Copy, PartialEq, Eq, Structural)]
pub enum RadixError {
    /// The string is empty.
    Empty,
    /// A character is not a hex digit.
    InvalidDigit,
    /// The value does not fit in a byte.
    PosOverflow,
}

/// Digits of `d` from index `i` on, read on top of `acc`, left to right:
/// the first bad digit or the first overflow ends the scan.
pub open spec fn scan_hex(d: Seq<u8>, i: int, acc: nat) -> Result<u8, RadixError>
    decreases d.len() - i,
{
    if i >= d.len() {
        Ok(acc as u8)
    } else {
        match hex_digit_value(d[i]) {
            None => Err(RadixError::InvalidDigit),
            Some(v) => if acc * 16 + v > 255 {
                Err(RadixError::PosOverflow)
            } else {
                scan_hex(d, i + 1, acc * 16 + v)
            },
        }
    }
}

/// What `u8::from_str_radix(s, 16)` gives: an optional `+`, then one or
/// more hex digits whose value fits in a byte.
pub open spec fn parse_hex_spec(s: Seq<u8>) -> Result<u8, RadixError> {
    if s.len() == 0 {
        Err(RadixError::Empty)
    } else {
        let d = if s[0] == 0x2B {
            s.skip(1)
        } else {
            s
        };
        if d.len() == 0 {
            Err(RadixError::InvalidDigit)
        } else {
            scan_hex(d, 0, 0)
        }
    }
}

/// Law: two hex digits, in either case, read as the byte whose high and
/// low nibbles they write; a leading `+` is allowed.
pub proof fn lemma_parse_hex_two_digits(b: u8, upper: bool)
    ensures
        ({
            let base: int = if upper { 55 } else { 87 };
            let hi = (if b / 16 < 10 { 48 + b / 16 } else { base + b / 16 }) as u8;
            let lo = (if b % 16 < 10 { 48 + b % 16 } else { base + b % 16 }) as u8;
            &&& parse_hex_spec(seq![hi, lo]) == Ok::<u8, RadixError>(b)
            &&& parse_hex_spec(seq![0x2Bu8, hi, lo]) == Ok::<u8, RadixError>(b)
        }),
{
    let base: int = if upper { 55 } else { 87 };
    let hi = (if b / 16 < 10 { 48 + b / 16 } else { base + b / 16 }) as u8;
    let lo = (if b % 16 < 10 { 48 + b % 16 } else { base + b % 16 }) as u8;
    let d = seq![hi, lo];
    assert(hex_digit_value(hi) == Some((b / 16) as nat));
    assert(hex_digit_value(lo) == Some((b % 16) as nat));
    assert((b / 16) * 16 + b % 16 == b);
    reveal_with_fuel(scan_hex, 3);
    assert(scan_hex(d, 0, 0) == Ok::<u8, RadixError>(b));
    assert(seq![0x2Bu8, hi, lo].skip(1) =~= d);
}

/// The value of one hex digit byte, if it is one.
fn hex_digit(b: u8) -> (r: Option<u32>)
    ensures
        match hex_digit_value(b) {
            Some(v) => r == Some(v as u32),
            None => r is None,
        },
{
    if 0x30 <= b && b <= 0x39 {
        Some((b - 0x30) as u32)
    } else if 0x41 <= b && b <= 0x46 {
        Some((b - 0x41 + 10) as u32)
    } else if 0x61 <= b && b <= 0x66 {
        Some((b - 0x61 + 10) as u32)
    } else {
        None
    }
}

/// Base-16 `u8` parse of a byte string.
pub fn parse_hex_u8_bytes(s: &[u8]) -> (r: Result<u8, RadixError>)
    ensures
        r == parse_hex_spec(s@),
{
    if s.len() == 0 {
        return Err(RadixError::Empty);
    }
    let start: usize = if s[0] == 0x2B {
        1
    } else {
        0
    };
    let ghost d = s@.skip(start as int);
    assert(d =~= (if s@[0] == 0x2B { s@.skip(1) } else { s@ }));
    if start == s.len() {
        return Err(RadixError::InvalidDigit);
    }
    assert(parse_hex_spec(s@) == scan_hex(d, 0, 0));
    let mut acc: u32 = 0;
    let mut i = start;
    while i < s.len()
        invariant
            start <= i <= s@.len(),
            d == s@.skip(start as int),
            acc <= 255,
            scan_hex(d, (i - start) as int, acc as nat) == parse_hex_spec(s@),
        decreases s.len() - i,
    {
        let b = s[i];
        assert(d[(i - start) as int] == b);
        match hex_digit(b) {
            None => {
                return Err(RadixError::InvalidDigit);
            },
            Some(v) => {
                if acc * 16 + v > 255 {
                    return Err(RadixError::PosOverflow);
                }
                acc = acc * 16 + v;
            },
        }
        i += 1;
    }
    Ok(acc as u8)
}

/// A character with the Unicode White_Space property, the set
/// `char::is_whitespace` tests.
pub open spec fn is_white_space(c: char) -> bool {
    let n = c as u32;
    ||| 0x09 <= n <= 0x0D
    ||| n == 0x20
    ||| n == 0x85
    ||| n == 0xA0
    ||| n == 0x1680
    ||| 0x2000 <= n <= 0x200A
    ||| n == 0x2028
    ||| n == 0x2029
    ||| n == 0x202F
    ||| n == 0x205F
    ||| n == 0x3000
}

/// `s` without its leading whitespace.
pub open spec fn trim_start_chars(s: Seq<char>) -> Seq<char>
    decreases s.len(),
{
    if s.len() > 0 && is_white_space(s[0]) {
        trim_start_chars(s.skip(1))
    } else {
        s
    }
}

/// `s` without its trailing whitespace.
pub open spec fn trim_end_chars(s: Seq<char>) -> Seq<char>
    decreases s.len(),
{
    if s.len() > 0 && is_white_space(s.last()) {
        trim_end_chars(s.drop_last())
    } else {
        s
    }
}

/// `s` without leading and trailing whitespace.
pub open spec fn trimmed(s: Seq<char>) -> Seq<char> {
    trim_end_chars(trim_start_chars(s))
}

/// `str::trim`: the string without leading and trailing whitespace, where
/// whitespace is what has the Unicode White_Space property.
#[verifier::external_body]
pub fn trim_str(s: &str) -> (r: &str)
    ensures
        r@ == trimmed(s@),
{
    s.trim()
}

/// Whitespace before and after a string that neither starts nor ends with
/// whitespace is what trimming removes.
pub proof fn lemma_trimmed_padded(a: Seq<char>, k: Seq<char>, b: Seq<char>)
    requires
        forall|i: int| 0 <= i < a.len() ==> is_white_space(#[trigger] a[i]),
        forall|i: int| 0 <= i < b.len() ==> is_white_space(#[trigger] b[i]),
        k.len() > 0,
        !is_white_space(k[0]),
        !is_white_space(k.last()),
    ensures
        trimmed(a + k + b) == k,
{
    lemma_trim_start_padded(a, k + b);
    assert(a + k + b =~= a + (k + b));
    lemma_trim_end_padded(k, b);
}

proof fn lemma_trim_start_padded(a: Seq<char>, t: Seq<char>)
    requires
        forall|i: int| 0 <= i < a.len() ==> is_white_space(#[trigger] a[i]),
        t.len() > 0,
        !is_white_space(t[0]),
    ensures
        trim_start_chars(a + t) == t,
    decreases a.len(),
{
    if a.len() == 0 {
        assert(a + t =~= t);
    } else {
        assert((a + t)[0] == a[0]);
        assert((a + t).skip(1) =~= a.skip(1) + t);
        lemma_trim_start_padded(a.skip(1), t);
    }
}

proof fn lemma_trim_end_padded(k: Seq<char>, b: Seq<char>)
    requires
        forall|i: int| 0 <= i < b.len() ==> is_white_space(#[trigger] b[i]),
        k.len() > 0,
        !is_white_space(k.last()),
    ensures
        trim_end_chars(k + b) == k,
    decreases b.len(),
{
    if b.len() == 0 {
        assert(k + b =~= k);
    } else {
        assert((k + b).last() == b.last());
        assert((k + b).drop_last() =~= k + b.drop_last());
        lemma_trim_end_padded(k, b.drop_last());
    }
}

/// ASCII digit of a nibble, upper case.
pub open spec fn hex_char(n: u8) -> u8 {
    if n < 10 {
        (0x30 + n) as u8
    } else {
        (0x41 + n - 10) as u8
    }
}

/// `0x` followed by the two upper-case hex digits of `b`.
pub open spec fn hex_label_bytes(b: u8) -> Seq<u8> {
    seq![0x30u8, 0x78u8, hex_char(b / 16), hex_char(b % 16)]
}

/// The label `0xHH` of a byte.
pub fn hex_byte_label(b: u8) -> (r: String)
    ensures
        r@ == ascii_chars(hex_label_bytes(b)),
{
    let hi = b / 16;
    let lo = b % 16;
    let h = if hi < 10 {
        0x30 + hi
    } else {
        0x41 + hi - 10
    };
    let l = if lo < 10 {
        0x30 + lo
    } else {
        0x41 + lo - 10
    };
    let mut v: Vec<u8> = Vec::new();
    v.push(0x30);
    v.push(0x78);
    v.push(h);
    v.push(l);
    assert(v@ =~= hex_label_bytes(b));
    string_from_utf8_lossy(v.as_slice())
}

/// Value of a string of decimal digits (most significant first).
pub open spec fn digits_value(s: Seq<u8>) -> nat
    decreases s.len(),
{
    if s.len() == 0 {
        0
    } else {
        digits_value(s.drop_last()) * 10 + (s.last() - 48) as nat
    }
}

pub open spec fn is_digit(b: u8) -> bool {
    48 <= b <= 57
}

pub open spec fn all_digits(s: Seq<u8>) -> bool {
    forall|i: int| 0 <= i < s.len() ==> is_digit(#[trigger] s[i])
}

/// What `u8::from_str` accepts: an optional `+`, then one or more decimal
/// digits whose value fits in a byte.
pub open spec fn parse_u8_spec(s: Seq<u8>) -> Option<u8> {
    let d = if s.len() > 0 && s[0] == 43 {
        s.skip(1)
    } else {
        s
    };
    if d.len() == 0 || !all_digits(d) || digits_value(d) > 255 {
        None
    } else {
        Some(digits_value(d) as u8)
    }
}

proof fn lemma_digits_value_push(s: Seq<u8>, b: u8)
    ensures
        digits_value(s.push(b)) == digits_value(s) * 10 + (b - 48) as nat,
{
    assert(s.push(b).drop_last() =~= s);
}

/// Decimal `u8` parse of a byte string, as `u8::from_str` does it.
pub fn parse_u8(s: &[u8]) -> (r: Option<u8>)
    ensures
        r == parse_u8_spec(s@),
{
    let start: usize = if s.len() > 0 && s[0] == 43 {
        1
    } else {
        0
    };
    let ghost d = if s@.len() > 0 && s@[0] == 43 {
        s@.skip(1)
    } else {
        s@
    };
    assert(d =~= s@.skip(start as int));
    if start == s.len() {
        return None;
    }
    let mut acc: u32 = 0;
    let mut i = start;
    while i < s.len()
        invariant
            start <= i <= s@.len(),
            d =~= s@.skip(start as int),
            d == (if s@.len() > 0 && s@[0] == 43 {
                s@.skip(1)
            } else {
                s@
            }),
            all_digits(s@.subrange(start as int, i as int)),
            acc <= 256,
            acc == if digits_value(s@.subrange(start as int, i as int)) > 256 {
                256
            } else {
                digits_value(s@.subrange(start as int, i as int))
            },
        decreases s@.len() - i,
    {
        let b = s[i];
        if b < 48 || b > 57 {
            proof {
                assert(d[i - start] == b);
                assert(!is_digit(d[i - start]));
                assert(!all_digits(d));
                assert(parse_u8_spec(s@) is None);
            }
            return None;
        }
        proof {
            let pre = s@.subrange(start as int, i as int);
            assert(s@.subrange(start as int, i + 1) =~= pre.push(b));
            lemma_digits_value_push(pre, b);
        }
        let next = acc * 10 + (b - 48) as u32;
        acc = if next > 256 {
            256
        } else {
            next
        };
        i += 1;
    }
    assert(s@.subrange(start as int, i as int) =~= d);
    if acc > 255 {
        None
    } else {
        Some(acc as u8)
    }
}

/// Minimal decimal digits of `n`.
pub open spec fn dec_digits(n: nat) -> Seq<u8>
    decreases n,
{
    if n < 10 {
        seq![(48 + n) as u8]
    } else {
        dec_digits(n / 10).push((48 + n % 10) as u8)
    }
}

/// Decimal digits of `n`, zero-padded to at least two digits.
pub open spec fn dec_digits_pad2(n: nat) -> Seq<u8> {
    if n < 10 {
        seq![48u8, (48 + n) as u8]
    } else {
        dec_digits(n)
    }
}

/// Append the decimal digits of `n` to `out`, zero-padded to two digits
/// when `pad2` is set.
pub fn push_decimal(out: &mut Vec<u8>, n: u8, pad2: bool)
    ensures
        final(out)@ == old(out)@ + (if pad2 {
            dec_digits_pad2(n as nat)
        } else {
            dec_digits(n as nat)
        }),
{
    let ghost n0 = n as nat;
    let ghost e = if pad2 {
        dec_digits_pad2(n0)
    } else {
        dec_digits(n0)
    };
    if n >= 100 {
        let a = 48 + n / 100;
        let b = 48 + (n / 10) % 10;
        let c = 48 + n % 10;
        proof {
            assert(n0 / 10 / 10 == n0 / 100);
            assert(dec_digits(n0 / 100) == seq![a]);
            assert(dec_digits(n0 / 10) == seq![a].push(b));
            assert(e == seq![a].push(b).push(c));
        }
        out.push(a);
        out.push(b);
        out.push(c);
        assert(final(out)@ =~= old(out)@ + e);
    } else if n >= 10 {
        let a = 48 + n / 10;
        let b = 48 + n % 10;
        proof {
            assert(dec_digits(n0 / 10) == seq![a]);
            assert(e == seq![a].push(b));
        }
        out.push(a);
        out.push(b);
        assert(final(out)@ =~= old(out)@ + e);
    } else {
        if pad2 {
            out.push(48);
        }
        out.push(48 + n);
        assert(final(out)@ =~= old(out)@ + e);
    }
}

/// Law: decimal digits read back as the number they were written from.
pub proof fn lemma_dec_digits_parse(n: nat)
    requires
        n < 256,
    ensures
        all_digits(dec_digits(n)),
        all_digits(dec_digits_pad2(n)),
        digits_value(dec_digits(n)) == n,
        digits_value(dec_digits_pad2(n)) == n,
        dec_digits(n).len() > 0,
        dec_digits(n)[0] != 43,
        dec_digits_pad2(n)[0] != 43,
        parse_u8_spec(dec_digits(n)) == Some(n as u8),
        parse_u8_spec(dec_digits_pad2(n)) == Some(n as u8),
{
    reveal_with_fuel(digits_value, 4);
    let s = dec_digits(n);
    if n < 10 {
        assert(s =~= seq![(48 + n) as u8]);
        assert(s.drop_last() =~= Seq::<u8>::empty());
        let p = dec_digits_pad2(n);
        assert(p.drop_last() =~= seq![48u8]);
        assert(p.drop_last().drop_last() =~= Seq::<u8>::empty());
        assert(digits_value(p) == n);
    } else if n < 100 {
        assert(dec_digits(n / 10) =~= seq![(48 + n / 10) as u8]);
        assert(s =~= seq![(48 + n / 10) as u8, (48 + n % 10) as u8]);
        assert(s.drop_last() =~= seq![(48 + n / 10) as u8]);
        assert(s.drop_last().drop_last() =~= Seq::<u8>::empty());
    } else {
        assert(n / 10 / 10 == n / 100);
        assert(dec_digits(n / 100) =~= seq![(48 + n / 100) as u8]);
        assert(dec_digits(n / 10) =~= seq![(48 + n / 100) as u8, (48 + (n / 10) % 10) as u8]);
        assert(s =~= seq![(48 + n / 100) as u8, (48 + (n / 10) % 10) as u8, (48 + n % 10) as u8]);
        assert(s.drop_last() =~= seq![(48 + n / 100) as u8, (48 + (n / 10) % 10) as u8]);
        assert(s.drop_last().drop_last() =~= seq![(48 + n / 100) as u8]);
        assert(s.drop_last().drop_last().drop_last() =~= Seq::<u8>::empty());
    }
}

} // verus!
