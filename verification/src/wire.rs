//! Text forms of bytes: path segments and client ids.

use crate::time::since_epoch;
use vstd::prelude::*;
use vstd::utf8::encode_utf8;

verus! {

broadcast use vstd::string::group_string_axioms;

/// Bytes that stand for themselves in a path segment: letters, digits, `-`, `.`, `_`, `~`.
pub open spec fn is_unreserved(b: u8) -> bool {
    ||| 65 <= b <= 90
    ||| 97 <= b <= 122
    ||| 48 <= b <= 57
    ||| b == 45
    ||| b == 46
    ||| b == 95
    ||| b == 126
}

/// One upper-case hexadecimal digit.
pub open spec fn upper_hex(d: nat) -> char {
    if d < 10 {
        (48 + d) as char
    } else {
        (55 + d) as char
    }
}

/// The text of one byte: itself, or a percent sign and two digits.
pub open spec fn escaped_byte(b: u8) -> Seq<char> {
    if is_unreserved(b) {
        seq![b as char]
    } else {
        seq!['%', upper_hex((b / 16) as nat), upper_hex((b % 16) as nat)]
    }
}

/// The text of bytes in a path segment.
pub open spec fn escaped(bytes: Seq<u8>) -> Seq<char>
    decreases bytes.len(),
{
    if bytes.len() == 0 {
        seq![]
    } else {
        escaped(bytes.drop_last()) + escaped_byte(bytes.last())
    }
}

fn upper_hex_digit(d: u8) -> (c: char)
    requires
        d < 16,
    ensures
        c == upper_hex(d as nat),
{
    if d < 10 {
        (48 + d) as char
    } else {
        (55 + d) as char
    }
}

/// Encodes a text as one path segment.
pub fn encode_path_segment(segment: &str) -> (r: String)
    ensures
        r@ == escaped(encode_utf8(segment@)),
{
    let bytes: &[u8] = segment.as_bytes();
    let mut out: String = String::new();
    let mut i: usize = 0;
    assert(bytes@.take(0).len() == 0);
    while i < bytes.len()
        invariant
            i <= bytes.len(),
            out@ == escaped(bytes@.take(i as int)),
        decreases bytes.len() - i,
    {
        let b: u8 = bytes[i];
        let ghost before = out@;
        let plain: bool = (65 <= b && b <= 90) || (97 <= b && b <= 122) || (48 <= b && b <= 57) || b
            == 45 || b == 46 || b == 95 || b == 126;
        if plain {
            out.push(b as char);
        } else {
            out.push('%');
            out.push(upper_hex_digit(b / 16));
            out.push(upper_hex_digit(b % 16));
        }
        proof {
            let upto = bytes@.take(i + 1);
            assert(upto.drop_last() == bytes@.take(i as int));
            assert(upto.last() == b);
            assert(out@ == before + escaped_byte(b));
        }
        i = i + 1;
    }
    assert(bytes@.take(bytes@.len() as int) == bytes@);
    out
}

/// The value of an upper-case hexadecimal digit.
pub open spec fn upper_value(c: char) -> nat {
    if '0' <= c && c <= '9' {
        (c as nat - 48) as nat
    } else {
        (c as nat - 55) as nat
    }
}

/// The bytes that a path segment stands for.
pub open spec fn unescaped(s: Seq<char>) -> Seq<u8>
    decreases s.len(),
{
    if s.len() == 0 {
        seq![]
    } else if s.len() >= 3 && s[s.len() - 3] == '%' {
        unescaped(s.take(s.len() - 3)).push(
            (16 * upper_value(s[s.len() - 2]) + upper_value(s.last())) as u8,
        )
    } else {
        unescaped(s.drop_last()).push(s.last() as u8)
    }
}

/// An upper-case hexadecimal digit.
pub open spec fn is_upper_hex(c: char) -> bool {
    ('0' <= c && c <= '9') || ('A' <= c && c <= 'F')
}

/// A segment holds nothing that would end it: no slash, no question mark, no hash, and
/// every percent sign is followed by its two digits.
pub proof fn law_segments_are_closed(bytes: Seq<u8>)
    ensures
        forall|i: int|
            0 <= i < escaped(bytes).len() ==> #[trigger] escaped(bytes)[i] == '%' || is_unreserved(
                escaped(bytes)[i] as u8,
            ) && (escaped(bytes)[i] as u32) < 128,
        forall|i: int|
            0 <= i < escaped(bytes).len() && #[trigger] escaped(bytes)[i] == '%' ==> i + 2
                < escaped(bytes).len() && is_upper_hex(escaped(bytes)[i + 1]) && is_upper_hex(
                escaped(bytes)[i + 2],
            ),
    decreases bytes.len(),
{
    if bytes.len() > 0 {
        let before = escaped(bytes.drop_last());
        let s = escaped(bytes);
        let tail = escaped_byte(bytes.last());
        assert(s == before + tail);
        assert forall|i: int| 0 <= i < s.len() && #[trigger] s[i] == '%' implies i + 2 < s.len()
            && is_upper_hex(s[i + 1]) && is_upper_hex(s[i + 2]) by {
            law_segments_are_closed(bytes.drop_last());
            if i < before.len() {
                assert(before[i] == '%');
                assert(s[i + 1] == before[i + 1] && s[i + 2] == before[i + 2]);
            } else {
                assert(tail[i - before.len()] == '%');
            }
        }
        law_segments_are_closed(bytes.drop_last());
        assert forall|i: int| 0 <= i < escaped(bytes).len() implies #[trigger] escaped(bytes)[i]
            == '%' || is_unreserved(escaped(bytes)[i] as u8) && (escaped(bytes)[i] as u32)
            < 128 by {
            if i < before.len() {
                assert(escaped(bytes)[i] == before[i]);
            } else {
                assert(escaped(bytes)[i] == escaped_byte(bytes.last())[i - before.len()]);
            }
        }
    }
}

/// Nothing is lost in a segment: the bytes can be read back.
pub proof fn law_segments_can_be_read_back(bytes: Seq<u8>)
    ensures
        unescaped(escaped(bytes)) == bytes,
    decreases bytes.len(),
{
    let s = escaped(bytes);
    if bytes.len() > 0 {
        let init = bytes.drop_last();
        let b = bytes.last();
        let before = escaped(init);
        law_segments_can_be_read_back(init);
        assert(bytes == init.push(b));
        if is_unreserved(b) {
            assert(s.last() == b as char);
            assert(s.drop_last() == before);
            if s.len() >= 3 && s[s.len() - 3] == '%' {
                assert(before[before.len() - 2] == '%');
                lemma_percent_position(init);
                assert(false);
            }
            assert((b as char) as u8 == b);
        } else {
            assert(s[s.len() - 3] == '%');
            assert(s[s.len() - 2] == upper_hex((b / 16) as nat));
            assert(s.last() == upper_hex((b % 16) as nat));
            assert(s.take(s.len() - 3) == before);
            assert(upper_value(upper_hex((b / 16) as nat)) == b / 16);
            assert(upper_value(upper_hex((b % 16) as nat)) == b % 16);
        }
    } else {
        assert(bytes == Seq::<u8>::empty());
    }
}

/// A percent sign never stands in one of the last two places.
proof fn lemma_percent_position(bytes: Seq<u8>)
    ensures
        escaped(bytes).len() >= 1 ==> escaped(bytes).last() != '%',
        escaped(bytes).len() >= 2 ==> escaped(bytes)[escaped(bytes).len() - 2] != '%',
    decreases bytes.len(),
{
    if bytes.len() > 0 {
        let before = escaped(bytes.drop_last());
        lemma_percent_position(bytes.drop_last());
        let s = escaped(bytes);
        if is_unreserved(bytes.last()) {
            if s.len() >= 2 {
                assert(s[s.len() - 2] == before.last());
            }
        }
    }
}

/// The character of six bits: letters, digits, `-` and `_`.
pub open spec fn base64_char(v: nat) -> char {
    if v < 26 {
        (65 + v) as char
    } else if v < 52 {
        (71 + v) as char
    } else if v < 62 {
        (v - 4) as char
    } else if v == 62 {
        '-'
    } else {
        '_'
    }
}

/// Three bytes as one number.
pub open spec fn group(a: u8, b: u8, c: u8) -> nat {
    (a * 65536 + b * 256 + c) as nat
}

/// The URL-safe base64 text of bytes, without padding: four characters for three bytes,
/// and two or three for what is left.
pub open spec fn base64(bytes: Seq<u8>) -> Seq<char>
    decreases bytes.len(),
{
    if bytes.len() == 0 {
        seq![]
    } else if bytes.len() == 1 {
        let n = group(bytes[0], 0, 0);
        seq![base64_char(n / 262144), base64_char(n / 4096 % 64)]
    } else if bytes.len() == 2 {
        let n = group(bytes[0], bytes[1], 0);
        seq![base64_char(n / 262144), base64_char(n / 4096 % 64), base64_char(n / 64 % 64)]
    } else {
        let n = group(bytes[0], bytes[1], bytes[2]);
        seq![
            base64_char(n / 262144),
            base64_char(n / 4096 % 64),
            base64_char(n / 64 % 64),
            base64_char(n % 64),
        ] + base64(bytes.skip(3))
    }
}

fn base64_digit(v: u32) -> (c: char)
    requires
        v < 64,
    ensures
        c == base64_char(v as nat),
{
    let b: u8 = v as u8;
    if b < 26 {
        (65 + b) as char
    } else if b < 52 {
        (71 + b) as char
    } else if b < 62 {
        (b - 4) as char
    } else if b == 62 {
        '-'
    } else {
        '_'
    }
}

/// Encodes bytes as URL-safe base64 without padding.
pub fn base64_url_nopad(bytes: &[u8]) -> (r: String)
    ensures
        r@ == base64(bytes@),
{
    let mut out: String = String::new();
    let mut i: usize = 0;
    assert(bytes@.skip(0) == bytes@);
    assert(Seq::<char>::empty() + base64(bytes@) == base64(bytes@));
    while i < bytes.len()
        invariant
            i <= bytes.len(),
            out@ + base64(bytes@.skip(i as int)) == base64(bytes@),
        decreases bytes.len() - i,
    {
        let ghost left = bytes@.skip(i as int);
        let ghost before = out@;
        let count: usize = bytes.len() - i;
        let b0: u32 = bytes[i] as u32;
        let b1: u32 = if count > 1 {
            bytes[i + 1] as u32
        } else {
            0
        };
        let b2: u32 = if count > 2 {
            bytes[i + 2] as u32
        } else {
            0
        };
        let n: u32 = b0 * 65536 + b1 * 256 + b2;
        out.push(base64_digit(n / 262144));
        out.push(base64_digit(n / 4096 % 64));
        if count > 1 {
            out.push(base64_digit(n / 64 % 64));
        }
        if count > 2 {
            out.push(base64_digit(n % 64));
            proof {
                let four = seq![
                    base64_char((n / 262144) as nat),
                    base64_char((n / 4096 % 64) as nat),
                    base64_char((n / 64 % 64) as nat),
                    base64_char((n % 64) as nat),
                ];
                assert(left.skip(3) == bytes@.skip(i + 3));
                assert(out@ == before + four);
                assert(base64(left) == four + base64(left.skip(3)));
                assert(before + (four + base64(left.skip(3))) == out@ + base64(left.skip(3)));
            }
            i = i + 3;
        } else {
            proof {
                assert(out@ == before + base64(left));
                assert(bytes@.skip(bytes@.len() as int).len() == 0);
                assert(out@ + Seq::<char>::empty() == out@);
            }
            i = bytes.len();
        }
    }
    assert(bytes@.skip(i as int).len() == 0);
    assert(out@ + Seq::<char>::empty() == out@);
    out
}

/// Characters of a client id.
pub open spec fn is_url_safe(c: char) -> bool {
    ||| 'a' <= c && c <= 'z'
    ||| 'A' <= c && c <= 'Z'
    ||| '0' <= c && c <= '9'
    ||| c == '-'
    ||| c == '_'
}

/// Four characters for three bytes, rounded up, and every one of them URL-safe; no
/// padding.
pub proof fn law_base64_is_url_safe(bytes: Seq<u8>)
    ensures
        base64(bytes).len() == (4 * bytes.len() + 2) / 3,
        forall|i: int| 0 <= i < base64(bytes).len() ==> is_url_safe(#[trigger] base64(bytes)[i]),
    decreases bytes.len(),
{
    if bytes.len() >= 3 {
        let rest = base64(bytes.skip(3));
        law_base64_is_url_safe(bytes.skip(3));
        assert forall|i: int| 0 <= i < base64(bytes).len() implies is_url_safe(
            #[trigger] base64(bytes)[i],
        ) by {
            if i >= 4 {
                assert(base64(bytes)[i] == rest[i - 4]);
            }
        }
    }
}

proof fn lemma_base64_char_injective(a: nat, b: nat)
    requires
        a < 64,
        b < 64,
        base64_char(a) == base64_char(b),
    ensures
        a == b,
{
}

/// The four groups of six bits of three bytes.
proof fn lemma_sextets(a: u8, b: u8, c: u8)
    ensures
        group(a, b, c) / 262144 == a / 4,
        group(a, b, c) / 4096 % 64 == (a % 4) * 16 + b / 16,
        group(a, b, c) / 64 % 64 == (b % 16) * 4 + c / 64,
        group(a, b, c) % 64 == c % 64,
{
    let n = group(a, b, c) as int;
    let (q, r) = (a as int / 4, a as int % 4);
    let (s, t) = (b as int / 16, b as int % 16);
    let (u, v) = (c as int / 64, c as int % 64);
    assert(a == 4 * q + r && b == 16 * s + t && c == 64 * u + v);
    assert(n == 262144 * q + (65536 * r + 256 * b + c));
    assert(n == 4096 * (64 * q + (16 * r + s)) + (256 * t + c));
    assert(n / 4096 == 64 * q + (16 * r + s));
    assert(n == 64 * (64 * (16 * a + s) + (4 * t + u)) + v);
    assert(n / 64 == 64 * (16 * a + s) + (4 * t + u));
}

proof fn lemma_group(a: u8, b: u8, c: u8, x: u8, y: u8, z: u8)
    requires
        group(a, b, c) / 262144 == group(x, y, z) / 262144,
        group(a, b, c) / 4096 % 64 == group(x, y, z) / 4096 % 64,
    ensures
        a == x,
        group(a, b, c) / 64 % 64 == group(x, y, z) / 64 % 64 ==> b == y,
        group(a, b, c) / 64 % 64 == group(x, y, z) / 64 % 64 && group(a, b, c) % 64 == group(
            x,
            y,
            z,
        ) % 64 ==> c == z,
{
    lemma_sextets(a, b, c);
    lemma_sextets(x, y, z);
}

/// Different bytes have different texts, so different ids stay different.
pub proof fn law_base64_is_injective(a: Seq<u8>, b: Seq<u8>)
    requires
        base64(a) == base64(b),
    ensures
        a == b,
    decreases a.len(),
{
    law_base64_is_url_safe(a);
    law_base64_is_url_safe(b);
    assert(a.len() == b.len());
    let s = base64(a);
    let t = base64(b);
    if a.len() == 0 {
        assert(a == b);
    } else {
        let (a1, a2) = (if a.len() > 1 { a[1] } else { 0u8 }, if a.len() > 2 { a[2] } else { 0u8 });
        let (b1, b2) = (if b.len() > 1 { b[1] } else { 0u8 }, if b.len() > 2 { b[2] } else { 0u8 });
        let m = group(a[0], a1, a2);
        let n = group(b[0], b1, b2);
        assert(s[0] == base64_char(m / 262144) && t[0] == base64_char(n / 262144));
        assert(s[1] == base64_char(m / 4096 % 64) && t[1] == base64_char(n / 4096 % 64));
        lemma_base64_char_injective(m / 262144, n / 262144);
        lemma_base64_char_injective(m / 4096 % 64, n / 4096 % 64);
        if a.len() > 1 {
            assert(s[2] == base64_char(m / 64 % 64) && t[2] == base64_char(n / 64 % 64));
            lemma_base64_char_injective(m / 64 % 64, n / 64 % 64);
        }
        if a.len() > 2 {
            assert(s[3] == base64_char(m % 64) && t[3] == base64_char(n % 64));
            lemma_base64_char_injective(m % 64, n % 64);
        }
        lemma_group(a[0], a1, a2, b[0], b1, b2);
        if a.len() >= 3 {
            assert(s.skip(4) == base64(a.skip(3)));
            assert(t.skip(4) == base64(b.skip(3)));
            law_base64_is_injective(a.skip(3), b.skip(3));
            assert(a == seq![a[0], a[1], a[2]] + a.skip(3));
            assert(b == seq![b[0], b[1], b[2]] + b.skip(3));
        } else {
            assert(a == b);
        }
    }
}

/// `BuildHasher::hash_one` of a fresh `RandomState`, whose keys are random: nothing is
/// promised of its result.
#[verifier::external_body]
fn random_hash(process: u64, nanos: u64, count: u64, half: u64) -> (r: u64) {
    std::hash::BuildHasher::hash_one(
        &std::collections::hash_map::RandomState::new(),
        (process, nanos, count, half),
    )
}

/// Two numbers as bytes, each least significant first.
pub open spec fn le_bytes(a: u64, b: u64) -> Seq<u8> {
    seq![
        (a % 256) as u8,
        (a / 0x100 % 256) as u8,
        (a / 0x10000 % 256) as u8,
        (a / 0x1000000 % 256) as u8,
        (a / 0x100000000 % 256) as u8,
        (a / 0x10000000000 % 256) as u8,
        (a / 0x1000000000000 % 256) as u8,
        (a / 0x100000000000000 % 256) as u8,
        (b % 256) as u8,
        (b / 0x100 % 256) as u8,
        (b / 0x10000 % 256) as u8,
        (b / 0x1000000 % 256) as u8,
        (b / 0x100000000 % 256) as u8,
        (b / 0x10000000000 % 256) as u8,
        (b / 0x1000000000000 % 256) as u8,
        (b / 0x100000000000000 % 256) as u8,
    ]
}

/// Two numbers as bytes, each least significant first.
pub fn join_halves(a: u64, b: u64) -> (r: [u8; 16])
    ensures
        r@ == le_bytes(a, b),
{
    let r: [u8; 16] = [
        (a % 256) as u8,
        (a / 0x100 % 256) as u8,
        (a / 0x10000 % 256) as u8,
        (a / 0x1000000 % 256) as u8,
        (a / 0x100000000 % 256) as u8,
        (a / 0x10000000000 % 256) as u8,
        (a / 0x1000000000000 % 256) as u8,
        (a / 0x100000000000000 % 256) as u8,
        (b % 256) as u8,
        (b / 0x100 % 256) as u8,
        (b / 0x10000 % 256) as u8,
        (b / 0x1000000 % 256) as u8,
        (b / 0x100000000 % 256) as u8,
        (b / 0x10000000000 % 256) as u8,
        (b / 0x1000000000000 % 256) as u8,
        (b / 0x100000000000000 % 256) as u8,
    ];
    assert(r@ == le_bytes(a, b));
    r
}

/// Sixteen random bytes, from two hashes with fresh random keys over the process, the
/// clock and a running number. The contract leaves the hashes open.
pub fn random_bytes_16(process: u32, count: u64) -> (r: [u8; 16])
    ensures
        exists|a: u64, b: u64| r@ == #[trigger] le_bytes(a, b),
{
    let nanos: u64 = match since_epoch() {
        Some((secs, part)) => ((secs as u128 * 1_000_000_000 + part as u128)
            % 0x1_0000_0000_0000_0000) as u64,
        None => 0,
    };
    let a: u64 = random_hash(process as u64, nanos, count, 0);
    let b: u64 = random_hash(process as u64, nanos, count, 1);
    join_halves(a, b)
}

} // verus!
