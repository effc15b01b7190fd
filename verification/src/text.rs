//! Text helpers over sequences of characters.

use vstd::prelude::*;
use vstd::utf8::{encode_scalar, encode_utf8};

verus! {

broadcast use vstd::string::group_string_axioms;

/// `String::push` appends one character at the end.
pub assume_specification[ std::string::String::push ](s: &mut String, c: char)
    ensures
        final(s)@ == old(s)@.push(c),
;

/// The characters of a string slice, in order.
pub fn chars_of(s: &str) -> (v: Vec<char>)
    ensures
        v@ == s@,
{
    let mut v: Vec<char> = Vec::new();
    for c in it: s.chars()
        invariant
            it.seq() == s@,
            v@ == s@.take(it.index()),
    {
        v.push(c);
        assert(v@ == s@.take(it.index() + 1));
    }
    assert(s@.take(s@.len() as int) == s@);
    v
}

/// Whether two texts hold the same characters.
pub fn text_eq(a: &str, b: &str) -> (r: bool)
    ensures
        r == (a@ == b@),
{
    let x: Vec<char> = chars_of(a);
    let y: Vec<char> = chars_of(b);
    if x.len() != y.len() {
        return false;
    }
    for i in 0..x.len()
        invariant
            x.len() == y.len(),
            x@ == a@,
            y@ == b@,
            forall|j: int| 0 <= j < i ==> x@[j] == y@[j],
    {
        if x[i] != y[i] {
            return false;
        }
    }
    assert(x@ == y@);
    true
}

/// The characters of an optional text.
pub open spec fn opt_text(value: Option<&str>) -> Option<Seq<char>> {
    match value {
        Some(s) => Some(s@),
        None => None,
    }
}

/// The characters of an optional owned text.
pub open spec fn opt_string(value: Option<String>) -> Option<Seq<char>> {
    match value {
        Some(s) => Some(s@),
        None => None,
    }
}

/// An owned copy of an optional text.
pub fn own(value: Option<&str>) -> (r: Option<String>)
    ensures
        opt_string(r) == opt_text(value),
{
    match value {
        Some(s) => Some(s.to_owned()),
        None => None,
    }
}

/// The character of one decimal digit.
pub open spec fn digit_char(d: nat) -> char {
    (48 + d) as char
}

/// The decimal digits of `n`, most significant first, without leading zeros.
pub open spec fn decimal(n: nat) -> Seq<char>
    decreases n,
{
    if n < 10 {
        seq![digit_char(n)]
    } else {
        decimal(n / 10).push(digit_char(n % 10))
    }
}

/// The decimal text of `n`.
pub fn decimal_u64(n: u64) -> (s: String)
    ensures
        s@ == decimal(n as nat),
    decreases n,
{
    let d: u8 = (n % 10) as u8;
    let c: char = (48 + d) as char;
    if n < 10 {
        let mut s: String = String::new();
        s.push(c);
        assert(s@ == seq![digit_char(n as nat)]);
        s
    } else {
        let mut s: String = decimal_u64(n / 10);
        s.push(c);
        s
    }
}

/// The decimal text of a whole number, with a minus sign where it is negative.
pub open spec fn int_text(i: int) -> Seq<char> {
    if i < 0 {
        seq!['-'] + decimal((-i) as nat)
    } else {
        decimal(i as nat)
    }
}

/// The decimal text of a signed number.
pub fn decimal_i64(i: i64) -> (s: String)
    ensures
        s@ == int_text(i as int),
{
    if i >= 0 {
        return decimal_u64(i as u64);
    }
    let magnitude: u64 = (-(i as i128)) as u64;
    let mut s: String = String::new();
    s.push('-');
    let digits: String = decimal_u64(magnitude);
    s.append(digits.as_str());
    assert(s@ == seq!['-'] + decimal(magnitude as nat));
    s
}

/// The character of one lower-case hexadecimal digit.
pub open spec fn hex_char(d: nat) -> char {
    if d < 10 {
        (48 + d) as char
    } else {
        (87 + d) as char
    }
}

/// The lower-case hexadecimal digits of `n`, without leading zeros.
pub open spec fn hex_text(n: nat) -> Seq<char>
    decreases n,
{
    if n < 16 {
        seq![hex_char(n)]
    } else {
        hex_text(n / 16).push(hex_char(n % 16))
    }
}

/// One hexadecimal digit as a character.
pub fn hex_digit(d: u8) -> (c: char)
    requires
        d < 16,
    ensures
        c == hex_char(d as nat),
{
    if d < 10 {
        (48 + d) as char
    } else {
        (87 + d) as char
    }
}

/// The lower-case hexadecimal text of `n`.
pub fn hex_u128(n: u128) -> (s: String)
    ensures
        s@ == hex_text(n as nat),
    decreases n,
{
    let c: char = hex_digit((n % 16) as u8);
    if n < 16 {
        let mut s: String = String::new();
        s.push(c);
        assert(s@ == seq![hex_char(n as nat)]);
        s
    } else {
        let mut s: String = hex_u128(n / 16);
        s.push(c);
        s
    }
}

/// Characters with the Unicode `White_Space` property.
pub open spec fn is_white(c: char) -> bool {
    let u = c as u32;
    ||| 9 <= u <= 13
    ||| u == 0x20
    ||| u == 0x85
    ||| u == 0xA0
    ||| u == 0x1680
    ||| 0x2000 <= u <= 0x200A
    ||| u == 0x2028
    ||| u == 0x2029
    ||| u == 0x202F
    ||| u == 0x205F
    ||| u == 0x3000
}

/// `s` without its leading whitespace.
pub open spec fn trimmed_start(s: Seq<char>) -> Seq<char>
    decreases s.len(),
{
    if s.len() > 0 && is_white(s[0]) {
        trimmed_start(s.drop_first())
    } else {
        s
    }
}

/// `s` without its trailing whitespace.
pub open spec fn trimmed_end(s: Seq<char>) -> Seq<char>
    decreases s.len(),
{
    if s.len() > 0 && is_white(s.last()) {
        trimmed_end(s.drop_last())
    } else {
        s
    }
}

/// `s` without whitespace at either end.
pub open spec fn trimmed(s: Seq<char>) -> Seq<char> {
    trimmed_end(trimmed_start(s))
}

proof fn lemma_trimmed_start(white: Seq<char>, rest: Seq<char>)
    requires
        forall|i: int| 0 <= i < white.len() ==> is_white(#[trigger] white[i]),
        rest.len() > 0 ==> !is_white(rest[0]),
    ensures
        trimmed_start(white + rest) == rest,
    decreases white.len(),
{
    let s = white + rest;
    if white.len() > 0 {
        assert(s[0] == white[0]);
        assert(s.drop_first() == white.drop_first() + rest);
        lemma_trimmed_start(white.drop_first(), rest);
    } else {
        assert(s == rest);
    }
}

proof fn lemma_trimmed_end(rest: Seq<char>, white: Seq<char>)
    requires
        forall|i: int| 0 <= i < white.len() ==> is_white(#[trigger] white[i]),
        rest.len() > 0 ==> !is_white(rest.last()),
    ensures
        trimmed_end(rest + white) == rest,
    decreases white.len(),
{
    let s = rest + white;
    if white.len() > 0 {
        assert(s.last() == white.last());
        assert(s.drop_last() == rest + white.drop_last());
        lemma_trimmed_end(rest, white.drop_last());
    } else {
        assert(s == rest);
    }
}

/// Trimming again changes nothing.
pub proof fn lemma_trimmed_twice(s: Seq<char>)
    ensures
        trimmed(trimmed(s)) == trimmed(s),
{
    let a = trimmed_start(s);
    lemma_start_is_clean(s);
    lemma_end_is_clean(a);
    let t = trimmed(s);
    if t.len() > 0 {
        assert(t[0] == a[0]);
        lemma_trimmed_start(Seq::<char>::empty(), t);
        assert(Seq::<char>::empty() + t == t);
        lemma_trimmed_end(t, Seq::<char>::empty());
        assert(t + Seq::<char>::empty() == t);
    }
}

proof fn lemma_start_is_clean(s: Seq<char>)
    ensures
        trimmed_start(s).len() > 0 ==> !is_white(trimmed_start(s)[0]),
    decreases s.len(),
{
    if s.len() > 0 && is_white(s[0]) {
        lemma_start_is_clean(s.drop_first());
    }
}

proof fn lemma_end_is_clean(s: Seq<char>)
    ensures
        trimmed_end(s).len() <= s.len(),
        trimmed_end(s) == s.take(trimmed_end(s).len() as int),
        trimmed_end(s).len() > 0 ==> !is_white(trimmed_end(s).last()),
    decreases s.len(),
{
    if s.len() > 0 && is_white(s.last()) {
        lemma_end_is_clean(s.drop_last());
        let t = trimmed_end(s);
        assert(s.drop_last().take(t.len() as int) == s.take(t.len() as int));
    } else {
        assert(s.take(s.len() as int) == s);
    }
}

/// Whitespace around a text is no part of its value, whitespace inside it is, and a text of
/// nothing but whitespace has no value.
pub proof fn law_values_have_no_surrounding_whitespace(
    before: Seq<char>,
    value: Seq<char>,
    after: Seq<char>,
)
    requires
        forall|i: int| 0 <= i < before.len() ==> is_white(#[trigger] before[i]),
        forall|i: int| 0 <= i < after.len() ==> is_white(#[trigger] after[i]),
        value.len() > 0 ==> !is_white(value[0]) && !is_white(value.last()),
    ensures
        trimmed(before + value + after) == value,
        present(Some(before + value + after)) == if value.len() > 0 {
            Some(value)
        } else {
            None
        },
        present(None) is None,
{
    let s = before + value + after;
    if value.len() > 0 {
        let tail = value + after;
        assert(s == before + tail);
        assert(tail[0] == value[0]);
        lemma_trimmed_start(before, tail);
        lemma_trimmed_end(value, after);
    } else {
        let none = Seq::<char>::empty();
        assert(s == (before + after) + none);
        assert forall|i: int| 0 <= i < (before + after).len() implies is_white(
            #[trigger] (before + after)[i],
        ) by {
            if i < before.len() {
                assert((before + after)[i] == before[i]);
            } else {
                assert((before + after)[i] == after[i - before.len()]);
            }
        }
        lemma_trimmed_start(before + after, none);
        assert(value == none);
    }
}

/// Whether a character is whitespace.
pub fn is_whitespace(c: char) -> (r: bool)
    ensures
        r == is_white(c),
{
    let u: u32 = c as u32;
    (9 <= u && u <= 13) || u == 0x20 || u == 0x85 || u == 0xA0 || u == 0x1680 || (0x2000 <= u && u
        <= 0x200A) || u == 0x2028 || u == 0x2029 || u == 0x202F || u == 0x205F || u == 0x3000
}

/// The text without whitespace at either end.
pub fn trim<'a>(s: &'a str) -> (r: &'a str)
    ensures
        r@ == trimmed(s@),
{
    let v: Vec<char> = chars_of(s);
    let mut from: usize = 0;
    assert(s@.skip(0) == s@);
    while from < v.len() && is_whitespace(v[from])
        invariant
            v@ == s@,
            from <= v.len(),
            trimmed_start(s@) == trimmed_start(s@.skip(from as int)),
        decreases v.len() - from,
    {
        assert(s@.skip(from as int).drop_first() == s@.skip(from + 1));
        from = from + 1;
    }
    let ghost rest = s@.skip(from as int);
    assert(trimmed_start(s@) == rest);
    let mut to: usize = v.len();
    assert(rest.take(to - from) == rest);
    while to > from && is_whitespace(v[to - 1])
        invariant
            v@ == s@,
            from <= to <= v.len(),
            rest == s@.skip(from as int),
            trimmed_end(rest) == trimmed_end(rest.take(to - from)),
        decreases to,
    {
        assert(rest.take(to - from).drop_last() == rest.take(to - from - 1));
        assert(rest.take(to - from).last() == v@[to - 1]);
        to = to - 1;
    }
    assert(to > from ==> rest.take(to - from).last() == v@[to - 1]);
    assert(trimmed_end(rest) == rest.take(to - from));
    assert(rest.take(to - from) == s@.subrange(from as int, to as int));
    s.substring_char(from, to)
}

/// A value without surrounding whitespace, unless nothing is left of it.
pub open spec fn present(value: Option<Seq<char>>) -> Option<Seq<char>> {
    match value {
        Some(s) => if trimmed(s).len() > 0 {
            Some(trimmed(s))
        } else {
            None
        },
        None => None,
    }
}

/// A value without surrounding whitespace, unless nothing is left of it.
pub fn present_value<'a>(value: Option<&'a str>) -> (r: Option<&'a str>)
    ensures
        opt_text(r) == present(opt_text(value)),
{
    match value {
        Some(s) => {
            let t: &str = trim(s);
            if t.is_empty() {
                None
            } else {
                Some(t)
            }
        },
        None => None,
    }
}

/// The first position at or after `i` that holds `c`, or the length of `s`.
pub open spec fn find_from(s: Seq<char>, c: char, i: int) -> int
    decreases s.len() - i,
{
    if i < 0 || i >= s.len() {
        s.len() as int
    } else if s[i] == c {
        i
    } else {
        find_from(s, c, i + 1)
    }
}

/// `find_from` gives the first such position.
pub proof fn lemma_find_from(s: Seq<char>, c: char, i: int)
    requires
        0 <= i <= s.len(),
    ensures
        i <= find_from(s, c, i) <= s.len(),
        find_from(s, c, i) < s.len() ==> s[find_from(s, c, i)] == c,
        forall|j: int| i <= j < find_from(s, c, i) ==> s[j] != c,
    decreases s.len() - i,
{
    if i < s.len() && s[i] != c {
        lemma_find_from(s, c, i + 1);
    }
}

/// What stands before and after the first `c`, if there is one.
pub open spec fn split_first(s: Seq<char>, c: char) -> Option<(Seq<char>, Seq<char>)> {
    let k = find_from(s, c, 0);
    if k < s.len() {
        Some((s.take(k), s.skip(k + 1)))
    } else {
        None
    }
}

/// Splits at the first `c`.
pub fn split_once<'a>(s: &'a str, c: char) -> (r: Option<(&'a str, &'a str)>)
    ensures
        match (r, split_first(s@, c)) {
            (Some((a, b)), Some((x, y))) => a@ == x && b@ == y,
            (None, None) => true,
            _ => false,
        },
{
    let v: Vec<char> = chars_of(s);
    let mut i: usize = 0;
    while i < v.len() && v[i] != c
        invariant
            v@ == s@,
            i <= v.len(),
            find_from(s@, c, 0) == find_from(s@, c, i as int),
        decreases v.len() - i,
    {
        i = i + 1;
    }
    if i < v.len() {
        assert(s@.subrange(0, i as int) == s@.take(i as int));
        assert(s@.subrange(i + 1, v.len() as int) == s@.skip(i + 1));
        Some((s.substring_char(0, i), s.substring_char(i + 1, v.len())))
    } else {
        None
    }
}

/// The last position before `i` that holds `c`, or -1.
pub open spec fn find_back(s: Seq<char>, c: char, i: int) -> int
    decreases i,
{
    if i <= 0 || i > s.len() {
        -1
    } else if s[i - 1] == c {
        i - 1
    } else {
        find_back(s, c, i - 1)
    }
}

/// What stands before and after the last `c`, if there is one.
pub open spec fn split_last(s: Seq<char>, c: char) -> Option<(Seq<char>, Seq<char>)> {
    let k = find_back(s, c, s.len() as int);
    if k >= 0 {
        Some((s.take(k), s.skip(k + 1)))
    } else {
        None
    }
}

/// Splits at the last `c`.
pub fn rsplit_once<'a>(s: &'a str, c: char) -> (r: Option<(&'a str, &'a str)>)
    ensures
        match (r, split_last(s@, c)) {
            (Some((a, b)), Some((x, y))) => a@ == x && b@ == y,
            (None, None) => true,
            _ => false,
        },
{
    let v: Vec<char> = chars_of(s);
    let mut i: usize = v.len();
    while i > 0 && v[i - 1] != c
        invariant
            v@ == s@,
            i <= v.len(),
            find_back(s@, c, s@.len() as int) == find_back(s@, c, i as int),
        decreases i,
    {
        i = i - 1;
    }
    if i > 0 {
        assert(s@.subrange(0, i - 1) == s@.take(i - 1));
        assert(s@.subrange(i as int, v.len() as int) == s@.skip(i as int));
        Some((s.substring_char(0, i - 1), s.substring_char(i, v.len())))
    } else {
        None
    }
}

/// Whether `s` begins with `prefix`.
pub open spec fn has_prefix(s: Seq<char>, prefix: Seq<char>) -> bool {
    prefix.len() <= s.len() && s.take(prefix.len() as int) == prefix
}

/// What follows `prefix` in `s`, where `s` begins with it.
pub fn strip_prefix<'a>(s: &'a str, prefix: &str) -> (r: Option<&'a str>)
    ensures
        match r {
            Some(t) => has_prefix(s@, prefix@) && t@ == s@.skip(prefix@.len() as int),
            None => !has_prefix(s@, prefix@),
        },
{
    let n: usize = s.unicode_len();
    let k: usize = prefix.unicode_len();
    if k > n {
        return None;
    }
    assert(s@.subrange(0, k as int) == s@.take(k as int));
    if text_eq(s.substring_char(0, k), prefix) {
        assert(s@.subrange(k as int, n as int) == s@.skip(k as int));
        Some(s.substring_char(k, n))
    } else {
        None
    }
}

/// The value of a decimal digit character; 0 for any other.
pub open spec fn digit_value(c: char) -> nat {
    if '0' <= c && c <= '9' {
        (c as nat - 48) as nat
    } else {
        0
    }
}

/// The value that a sequence of decimal digits writes.
pub open spec fn digits_value(s: Seq<char>) -> nat
    decreases s.len(),
{
    if s.len() == 0 {
        0
    } else {
        10 * digits_value(s.drop_last()) + digit_value(s.last())
    }
}

/// At least one character, and only decimal digits.
pub open spec fn is_digits(s: Seq<char>) -> bool {
    s.len() > 0 && forall|i: int| 0 <= i < s.len() ==> '0' <= #[trigger] s[i] && s[i] <= '9'
}

/// A prefix writes no more than the whole.
pub proof fn lemma_digits_prefix(s: Seq<char>, n: int)
    requires
        0 <= n <= s.len(),
    ensures
        digits_value(s.take(n)) <= digits_value(s),
    decreases s.len(),
{
    if n < s.len() {
        lemma_digits_prefix(s.drop_last(), n);
        assert(s.drop_last().take(n) == s.take(n));
    } else {
        assert(s.take(n) == s);
    }
}

/// The value of the digits at and after `from`, if there are some, all are digits
/// and the value is at most `max`.
fn parse_digits(v: &Vec<char>, from: usize, max: u64) -> (r: Option<u64>)
    requires
        from <= v.len(),
    ensures
        match r {
            Some(n) => is_digits(v@.skip(from as int)) && n == digits_value(v@.skip(from as int))
                && n <= max,
            None => !is_digits(v@.skip(from as int)) || digits_value(v@.skip(from as int)) > max,
        },
{
    let ghost s = v@.skip(from as int);
    if from == v.len() {
        return None;
    }
    let mut n: u64 = 0;
    let mut i: usize = from;
    assert(digits_value(s.take(0)) == 0);
    while i < v.len()
        invariant
            from <= i <= v.len(),
            s == v@.skip(from as int),
            n == digits_value(s.take(i - from)),
            n <= max,
            forall|j: int| 0 <= j < i - from ==> '0' <= #[trigger] s[j] && s[j] <= '9',
        decreases v.len() - i,
    {
        let c: char = v[i];
        assert(s[i - from] == c);
        if !('0' <= c && c <= '9') {
            return None;
        }
        let d: u32 = c as u32 - 48;
        let next: u128 = n as u128 * 10 + d as u128;
        proof {
            assert(s.take(i - from + 1).drop_last() == s.take(i - from));
            assert(s.take(i - from + 1).last() == c);
            assert(next == digits_value(s.take(i - from + 1)));
            lemma_digits_prefix(s, i - from + 1);
        }
        if next > max as u128 {
            return None;
        }
        n = next as u64;
        i = i + 1;
    }
    assert(s.take(i - from) == s);
    Some(n)
}

/// The number that `s` writes as an unsigned 64-bit integer: digits, after an
/// optional plus sign.
pub open spec fn u64_value(s: Seq<char>) -> Option<u64> {
    let body = if s.len() > 0 && s[0] == '+' {
        s.skip(1)
    } else {
        s
    };
    if is_digits(body) && digits_value(body) <= u64::MAX {
        Some(digits_value(body) as u64)
    } else {
        None
    }
}

/// Reads an unsigned 64-bit integer.
pub fn parse_u64(s: &str) -> (r: Option<u64>)
    ensures
        r == u64_value(s@),
{
    let v: Vec<char> = chars_of(s);
    let from: usize = if v.len() > 0 && v[0] == '+' {
        1
    } else {
        0
    };
    assert(v@.skip(0) == v@);
    parse_digits(&v, from, u64::MAX)
}

/// The number that `s` writes as a signed 64-bit integer: digits, after an optional
/// sign.
pub open spec fn i64_value(s: Seq<char>) -> Option<i64> {
    if s.len() > 0 && s[0] == '-' {
        if is_digits(s.skip(1)) && digits_value(s.skip(1)) <= 0x8000_0000_0000_0000 {
            Some((-(digits_value(s.skip(1)) as int)) as i64)
        } else {
            None
        }
    } else {
        let body = if s.len() > 0 && s[0] == '+' {
            s.skip(1)
        } else {
            s
        };
        if is_digits(body) && digits_value(body) <= i64::MAX {
            Some(digits_value(body) as i64)
        } else {
            None
        }
    }
}

/// Reads a signed 64-bit integer.
pub fn parse_i64(s: &str) -> (r: Option<i64>)
    ensures
        r == i64_value(s@),
{
    let v: Vec<char> = chars_of(s);
    if v.len() > 0 && v[0] == '-' {
        match parse_digits(&v, 1, 0x8000_0000_0000_0000) {
            Some(n) => Some((-(n as i128)) as i64),
            None => None,
        }
    } else {
        let from: usize = if v.len() > 0 && v[0] == '+' {
            1
        } else {
            0
        };
        assert(v@.skip(0) == v@);
        match parse_digits(&v, from, 0x7fff_ffff_ffff_ffff) {
            Some(n) => Some(n as i64),
            None => None,
        }
    }
}

/// Order of texts by their characters' code points, the first difference deciding.
pub open spec fn text_before(a: Seq<char>, b: Seq<char>) -> bool
    decreases a.len(),
{
    if b.len() == 0 {
        false
    } else if a.len() == 0 {
        true
    } else if a[0] != b[0] {
        (a[0] as u32) < (b[0] as u32)
    } else {
        text_before(a.drop_first(), b.drop_first())
    }
}

/// Texts are ordered by the first place in which they differ, the lower character first; a
/// text comes before every text that goes on from it.
pub proof fn law_texts_are_ordered_by_their_first_difference(
    start: Seq<char>,
    c: char,
    d: char,
    x: Seq<char>,
    y: Seq<char>,
)
    ensures
        c != d ==> (text_before(start.push(c) + x, start.push(d) + y) <==> (c as u32) < (
        d as u32)),
        text_before(start, start.push(c) + x),
        !text_before(start.push(c) + x, start),
    decreases start.len(),
{
    let a = start.push(c) + x;
    let b = start.push(d) + y;
    if start.len() > 0 {
        let rest = start.drop_first();
        law_texts_are_ordered_by_their_first_difference(rest, c, d, x, y);
        assert(a.drop_first() == rest.push(c) + x);
        assert(b.drop_first() == rest.push(d) + y);
        assert(a[0] == start[0] && b[0] == start[0]);
    } else {
        assert(a[0] == c && b[0] == d);
        if c != d {
            if c as u32 == d as u32 {
                vstd::utf8::char_u32_cast(c, c as u32);
                vstd::utf8::char_u32_cast(d, d as u32);
            }
        }
    }
}

/// Whether `a` comes before `b`.
pub fn text_lt(a: &str, b: &str) -> (r: bool)
    ensures
        r == text_before(a@, b@),
{
    let x: Vec<char> = chars_of(a);
    let y: Vec<char> = chars_of(b);
    let mut i: usize = 0;
    assert(a@.skip(0) == a@ && b@.skip(0) == b@);
    while i < x.len() && i < y.len() && x[i] == y[i]
        invariant
            x@ == a@,
            y@ == b@,
            i <= x.len(),
            i <= y.len(),
            text_before(a@, b@) == text_before(a@.skip(i as int), b@.skip(i as int)),
        decreases x.len() - i,
    {
        assert(a@.skip(i as int).drop_first() == a@.skip(i + 1));
        assert(b@.skip(i as int).drop_first() == b@.skip(i + 1));
        i = i + 1;
    }
    if i == y.len() {
        false
    } else if i == x.len() {
        true
    } else {
        (x[i] as u32) < (y[i] as u32)
    }
}

/// Nothing comes before itself.
pub proof fn lemma_text_before_irreflexive(a: Seq<char>)
    ensures
        !text_before(a, a),
    decreases a.len(),
{
    if a.len() > 0 {
        lemma_text_before_irreflexive(a.drop_first());
    }
}

/// The order of texts is transitive.
pub proof fn lemma_text_before_transitive(a: Seq<char>, b: Seq<char>, c: Seq<char>)
    requires
        text_before(a, b),
        text_before(b, c),
    ensures
        text_before(a, c),
    decreases a.len(),
{
    if a.len() > 0 && b.len() > 0 && c.len() > 0 && a[0] == b[0] && b[0] == c[0] {
        lemma_text_before_transitive(a.drop_first(), b.drop_first(), c.drop_first());
    }
}

/// Of two different texts one comes before the other.
pub proof fn lemma_text_before_total(a: Seq<char>, b: Seq<char>)
    ensures
        a == b || text_before(a, b) || text_before(b, a),
    decreases a.len(),
{
    if a.len() > 0 && b.len() > 0 && a[0] == b[0] {
        lemma_text_before_total(a.drop_first(), b.drop_first());
        if a.drop_first() == b.drop_first() {
            assert(a == seq![a[0]] + a.drop_first());
            assert(b == seq![b[0]] + b.drop_first());
        }
    } else if a.len() == 0 && b.len() == 0 {
        assert(a == b);
    } else if a.len() > 0 && b.len() > 0 {
        vstd::utf8::char_u32_cast(a[0], a[0] as u32);
        vstd::utf8::char_u32_cast(b[0], b[0] as u32);
    }
}

/// `s` with every `from` replaced by `to`.
pub open spec fn replaced(s: Seq<char>, from: char, to: char) -> Seq<char> {
    s.map_values(|c: char| if c == from { to } else { c })
}

/// Replaces every `from` by `to`.
pub fn replace_char(s: &str, from: char, to: char) -> (r: String)
    ensures
        r@ == replaced(s@, from, to),
{
    let v: Vec<char> = chars_of(s);
    let mut r: String = String::new();
    for i in 0..v.len()
        invariant
            v@ == s@,
            r@ == replaced(s@, from, to).take(i as int),
    {
        let c: char = v[i];
        r.push(if c == from { to } else { c });
        assert(r@ == replaced(s@, from, to).take(i + 1));
    }
    assert(r@ == replaced(s@, from, to));
    r
}

/// `s` without the `c`s at its end.
pub open spec fn without_trailing(s: Seq<char>, c: char) -> Seq<char>
    decreases s.len(),
{
    if s.len() > 0 && s.last() == c {
        without_trailing(s.drop_last(), c)
    } else {
        s
    }
}

/// Removes every `c` at the end.
pub fn trim_end_matches<'a>(s: &'a str, c: char) -> (r: &'a str)
    ensures
        r@ == without_trailing(s@, c),
{
    let v: Vec<char> = chars_of(s);
    let mut to: usize = v.len();
    assert(s@.take(to as int) == s@);
    while to > 0 && v[to - 1] == c
        invariant
            v@ == s@,
            to <= v.len(),
            without_trailing(s@, c) == without_trailing(s@.take(to as int), c),
        decreases to,
    {
        assert(s@.take(to as int).drop_last() == s@.take(to - 1));
        to = to - 1;
    }
    assert(to > 0 ==> s@.take(to as int).last() == v@[to - 1]);
    assert(s@.subrange(0, to as int) == s@.take(to as int));
    s.substring_char(0, to)
}

/// The texts in order, with `sep` between each two.
pub open spec fn joined(parts: Seq<Seq<char>>, sep: Seq<char>) -> Seq<char>
    decreases parts.len(),
{
    if parts.len() == 0 {
        seq![]
    } else if parts.len() == 1 {
        parts[0]
    } else {
        joined(parts.drop_last(), sep) + sep + parts.last()
    }
}

/// The characters of each string.
pub open spec fn texts(v: Seq<String>) -> Seq<Seq<char>> {
    v.map_values(|s: String| s@)
}

/// Joins texts with a separator.
pub fn join(parts: &Vec<String>, sep: &str) -> (r: String)
    ensures
        r@ == joined(texts(parts@), sep@),
{
    let mut r: String = String::new();
    for i in 0..parts.len()
        invariant
            r@ == joined(texts(parts@).take(i as int), sep@),
    {
        let ghost before = texts(parts@).take(i as int);
        let ghost after = texts(parts@).take(i + 1);
        assert(after.drop_last() == before);
        assert(after.last() == parts@[i as int]@);
        if i > 0 {
            r.append(sep);
        }
        r.append(parts[i].as_str());
        assert(r@ == joined(after, sep@));
    }
    assert(texts(parts@).take(parts@.len() as int) == texts(parts@));
    r
}

/// Two texts, one after the other.
pub fn cat(a: &str, b: &str) -> (r: String)
    ensures
        r@ == a@ + b@,
{
    let mut r: String = a.to_owned();
    r.append(b);
    r
}

/// Three texts, one after the other.
pub fn cat3(a: &str, b: &str, c: &str) -> (r: String)
    ensures
        r@ == a@ + b@ + c@,
{
    let mut r: String = a.to_owned();
    r.append(b);
    r.append(c);
    r
}

/// The decimal text of a number is made of digits and writes that number.
pub proof fn lemma_decimal(n: nat)
    ensures
        is_digits(decimal(n)),
        digits_value(decimal(n)) == n,
        n <= u64::MAX ==> u64_value(decimal(n)) == Some(n as u64),
        forall|i: int| 0 <= i < decimal(n).len() ==> !is_white(#[trigger] decimal(n)[i]),
    decreases n,
{
    let s = decimal(n);
    if n < 10 {
        assert(s.drop_last().len() == 0);
        assert(digits_value(s.drop_last()) == 0);
    } else {
        lemma_decimal(n / 10);
        assert(s.drop_last() == decimal(n / 10));
        assert forall|i: int| 0 <= i < s.len() implies '0' <= #[trigger] s[i] && s[i] <= '9' by {
            if i < s.len() - 1 {
                assert(s[i] == decimal(n / 10)[i]);
            }
        }
    }
    assert(s[0] != '+');
}

/// Hexadecimal text holds no dash.
pub proof fn lemma_hex_text(n: nat)
    ensures
        !hex_text(n).contains('-'),
        hex_text(n).len() > 0,
    decreases n,
{
    if n >= 16 {
        lemma_hex_text(n / 16);
        let s = hex_text(n);
        assert forall|i: int| 0 <= i < s.len() implies s[i] != '-' by {
            if i < s.len() - 1 {
                assert(s[i] == hex_text(n / 16)[i]);
                assert(hex_text(n / 16).contains(s[i]));
            }
        }
    }
}

/// Different numbers have different hexadecimal texts.
pub proof fn lemma_hex_text_injective(a: nat, b: nat)
    requires
        hex_text(a) == hex_text(b),
    ensures
        a == b,
    decreases a,
{
    let s = hex_text(a);
    lemma_hex_text(a / 16);
    lemma_hex_text(b / 16);
    if a < 16 && b < 16 {
        assert(s[0] == hex_char(a) && s[0] == hex_char(b));
    } else if a < 16 {
        assert(s.len() == 1);
        assert(hex_text(b).len() == hex_text(b / 16).len() + 1);
    } else if b < 16 {
        assert(hex_text(b).len() == 1);
        assert(s.len() == hex_text(a / 16).len() + 1);
    } else {
        assert(s.drop_last() == hex_text(a / 16));
        assert(hex_text(b).drop_last() == hex_text(b / 16));
        lemma_hex_text_injective(a / 16, b / 16);
        assert(s.last() == hex_char(a % 16));
        assert(hex_text(b).last() == hex_char(b % 16));
    }
}

/// A text without whitespace is its own trimming.
pub proof fn lemma_trim_clean(s: Seq<char>)
    requires
        forall|i: int| 0 <= i < s.len() ==> !is_white(#[trigger] s[i]),
    ensures
        trimmed(s) == s,
{
}

/// Encoding two texts one after the other is encoding their concatenation.
pub proof fn lemma_encode_concat(a: Seq<char>, b: Seq<char>)
    ensures
        encode_utf8(a + b) == encode_utf8(a) + encode_utf8(b),
    decreases a.len(),
{
    if a.len() == 0 {
        assert(a + b == b);
        assert(encode_utf8(a) + encode_utf8(b) == encode_utf8(b));
    } else {
        lemma_encode_concat(a.drop_first(), b);
        assert((a + b).drop_first() == a.drop_first() + b);
        let first = encode_scalar(a[0] as u32);
        assert(first + (encode_utf8(a.drop_first()) + encode_utf8(b)) == first + encode_utf8(
            a.drop_first(),
        ) + encode_utf8(b));
    }
}

/// A character outside ASCII has no ASCII byte in its encoding, and an ASCII character
/// is its own byte.
pub proof fn lemma_encode_scalar_bytes(c: char)
    ensures
        (c as u32) < 128 ==> encode_scalar(c as u32) == seq![c as u8] && (c as u8) as char == c,
        (c as u32) >= 128 ==> forall|i: int|
            0 <= i < encode_scalar(c as u32).len() ==> #[trigger] encode_scalar(c as u32)[i] >= 128,
        encode_scalar(c as u32).len() > 0,
{
    let u = c as u32;
    if u < 128 {
        assert((u & 0x7F) as u8 == u as u8) by (bit_vector)
            requires
                u < 128,
        ;
    } else {
        assert((0xC0 | ((u >> 6) & 0x1F) as u8) >= 128) by (bit_vector);
        assert((0xE0 | ((u >> 12) & 0x0F) as u8) >= 128) by (bit_vector);
        assert((0xF0 | ((u >> 18) & 0x7) as u8) >= 128) by (bit_vector);
        assert((0x80 | (u & 0x3F) as u8) >= 128) by (bit_vector);
        assert((0x80 | ((u >> 6) & 0x3F) as u8) >= 128) by (bit_vector);
        assert((0x80 | ((u >> 12) & 0x3F) as u8) >= 128) by (bit_vector);
    }
}

/// An ASCII byte stands in the encoding of a text only where its character stands in
/// the text.
pub proof fn lemma_encode_contains(s: Seq<char>, b: u8)
    requires
        b < 128,
        encode_utf8(s).contains(b),
    ensures
        s.contains(b as char),
    decreases s.len(),
{
    if s.len() > 0 {
        let first = encode_scalar(s[0] as u32);
        let rest = encode_utf8(s.drop_first());
        lemma_encode_scalar_bytes(s[0]);
        let i = choose|i: int| 0 <= i < encode_utf8(s).len() && encode_utf8(s)[i] == b;
        if i < first.len() {
            assert(encode_utf8(s)[i] == first[i]);
            assert((s[0] as u32) < 128);
            assert(i == 0 && b == s[0] as u8);
            assert(s[0] == b as char);
        } else {
            assert(rest[i - first.len()] == b);
            lemma_encode_contains(s.drop_first(), b);
            let j = choose|j: int| 0 <= j < s.drop_first().len() && s.drop_first()[j] == b as char;
            assert(s[j + 1] == b as char);
        }
    }
}

/// An ASCII byte ends the encoding of a text only where its character ends the text.
pub proof fn lemma_encode_last(s: Seq<char>)
    requires
        s.len() > 0,
    ensures
        encode_utf8(s).len() > 0,
        encode_utf8(s).last() < 128 ==> s.last() == encode_utf8(s).last() as char,
{
    let init = s.drop_last();
    let end = seq![s.last()];
    assert(s == init + end);
    lemma_encode_concat(init, end);
    lemma_encode_scalar_bytes(s.last());
    assert(end[0] == s.last());
    assert(end.drop_first().len() == 0);
    let code = encode_scalar(s.last() as u32);
    assert(encode_utf8(end.drop_first()).len() == 0);
    assert(encode_utf8(end) == code);
    assert(encode_utf8(s).last() == code.last());
    assert(code.last() == code[code.len() - 1]);
}

} // verus!
