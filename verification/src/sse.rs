//! Incremental parser for Server-Sent Events.
//!
//! The daemon streams named frames (`event: <name>` and `data: <json>`) with
//! keep-alive comment lines in between. The JSON payload repeats the event name, so
//! the `data` payload alone is enough: the parser gathers the `data` lines of a frame,
//! joins them with a newline, and ignores comments and every other field.

use crate::text::{
    find_from, join, joined, lemma_encode_concat, lemma_encode_contains, lemma_encode_last,
    split_first, split_once, strip_prefix, text_eq, texts,
};
use vstd::prelude::*;
use vstd::utf8::{
    decode_utf8, encode_utf8, is_ascii_chars, is_ascii_chars_encode_utf8, valid_utf8,
};

verus! {

broadcast use vstd::string::group_string_axioms;

/// The text that `String::from_utf8_lossy` makes of bytes that are not valid UTF-8.
pub uninterp spec fn utf8_lossy(bytes: Seq<u8>) -> Seq<char>;

/// The text of a line's bytes: their decoding where they are UTF-8.
pub open spec fn line_text(bytes: Seq<u8>) -> Seq<char> {
    if valid_utf8(bytes) {
        decode_utf8(bytes)
    } else {
        utf8_lossy(bytes)
    }
}

/// `String::from_utf8_lossy`: the decoding of valid UTF-8. On other bytes, where it
/// puts replacement characters, its result is only named.
#[verifier::external_body]
fn decode_lossy(bytes: &Vec<u8>) -> (s: String)
    ensures
        valid_utf8(bytes@) ==> s@ == decode_utf8(bytes@),
        !valid_utf8(bytes@) ==> s@ == utf8_lossy(bytes@),
{
    String::from_utf8_lossy(bytes).into_owned()
}

/// The value of a field, given what follows its colon: one leading space is not part
/// of it.
pub open spec fn field_value(rest: Seq<char>) -> Seq<char> {
    if rest.len() > 0 && rest[0] == ' ' {
        rest.skip(1)
    } else {
        rest
    }
}

/// Name and value of a line: the parts around the first colon, or the whole line and
/// an empty value.
pub open spec fn field_of(line: Seq<char>) -> (Seq<char>, Seq<char>) {
    match split_first(line, ':') {
        Some((name, rest)) => (name, field_value(rest)),
        None => (line, seq![]),
    }
}

/// What one line does: the `data` lines gathered after it, and the payload that it
/// completes, if any.
pub open spec fn line_step(data: Seq<Seq<char>>, line: Seq<char>) -> (
    Seq<Seq<char>>,
    Seq<Seq<char>>,
) {
    if line.len() == 0 {
        if data.len() == 0 {
            (data, seq![])
        } else {
            (seq![], seq![joined(data, seq!['\n'])])
        }
    } else if line[0] == ':' {
        (data, seq![])
    } else if field_of(line).0 == seq!['d', 'a', 't', 'a'] {
        (data.push(field_of(line).1), seq![])
    } else {
        (data, seq![])
    }
}

/// The position of the first newline at or after `i`, or the length.
pub open spec fn newline_from(bytes: Seq<u8>, i: int) -> int
    decreases bytes.len() - i,
{
    if i < 0 || i >= bytes.len() {
        bytes.len() as int
    } else if bytes[i] == 10 {
        i
    } else {
        newline_from(bytes, i + 1)
    }
}

/// A line without the carriage return at its end.
pub open spec fn without_cr(line: Seq<u8>) -> Seq<u8> {
    if line.len() > 0 && line.last() == 13 {
        line.drop_last()
    } else {
        line
    }
}

/// What is left after some bytes were consumed.
#[verifier::ext_equal]
pub struct Parsed {
    /// Bytes of a line that is not complete yet.
    pub rest: Seq<u8>,
    /// `data` lines of the frame that is being read.
    pub data: Seq<Seq<char>>,
    /// Payloads of the completed frames, in order.
    pub payloads: Seq<Seq<char>>,
}

/// Consumes every complete line of `bytes`.
pub open spec fn parsed(data: Seq<Seq<char>>, bytes: Seq<u8>) -> Parsed
    decreases bytes.len(),
{
    let k = newline_from(bytes, 0);
    if 0 <= k < bytes.len() {
        let step = line_step(data, line_text(without_cr(bytes.take(k))));
        let after = parsed(step.0, bytes.skip(k + 1));
        Parsed { rest: after.rest, data: after.data, payloads: step.1 + after.payloads }
    } else {
        Parsed { rest: bytes, data, payloads: seq![] }
    }
}

proof fn lemma_newline_from(bytes: Seq<u8>, i: int)
    requires
        0 <= i <= bytes.len(),
    ensures
        i <= newline_from(bytes, i) <= bytes.len(),
        newline_from(bytes, i) < bytes.len() ==> bytes[newline_from(bytes, i)] == 10,
        forall|j: int| i <= j < newline_from(bytes, i) ==> bytes[j] != 10,
    decreases bytes.len() - i,
{
    if i < bytes.len() && bytes[i] != 10 {
        lemma_newline_from(bytes, i + 1);
    }
}

proof fn lemma_newline_at(bytes: Seq<u8>, i: int, k: int)
    requires
        0 <= i <= k < bytes.len(),
        bytes[k] == 10,
        forall|j: int| i <= j < k ==> bytes[j] != 10,
    ensures
        newline_from(bytes, i) == k,
    decreases k - i,
{
    if i < k {
        lemma_newline_at(bytes, i + 1, k);
    }
}

/// Feeding a stream in two chunks gives what feeding it whole gives, wherever it is
/// cut: inside a line, between `\r` and `\n`, or inside a character.
pub proof fn law_chunks_reassemble(data: Seq<Seq<char>>, first: Seq<u8>, second: Seq<u8>)
    ensures
        ({
            let one = parsed(data, first);
            let two = parsed(one.data, one.rest + second);
            parsed(data, first + second) == (Parsed {
                rest: two.rest,
                data: two.data,
                payloads: one.payloads + two.payloads,
            })
        }),
    decreases first.len(),
{
    let whole = first + second;
    let k = newline_from(first, 0);
    lemma_newline_from(first, 0);
    let one = parsed(data, first);
    let two = parsed(one.data, one.rest + second);
    if k < first.len() {
        lemma_newline_at(whole, 0, k);
        assert(whole.take(k) == first.take(k));
        assert(whole.skip(k + 1) == first.skip(k + 1) + second);
        let step = line_step(data, line_text(without_cr(first.take(k))));
        law_chunks_reassemble(step.0, first.skip(k + 1), second);
        let after = parsed(step.0, first.skip(k + 1));
        assert(step.1 + (after.payloads + two.payloads) == step.1 + after.payloads + two.payloads);
    } else {
        assert(one.payloads + two.payloads == two.payloads);
    }
}

/// What is left over never holds a complete line.
pub proof fn law_rest_has_no_newline(data: Seq<Seq<char>>, bytes: Seq<u8>)
    ensures
        !parsed(data, bytes).rest.contains(10),
    decreases bytes.len(),
{
    let k = newline_from(bytes, 0);
    lemma_newline_from(bytes, 0);
    if k < bytes.len() {
        let step = line_step(data, line_text(without_cr(bytes.take(k))));
        law_rest_has_no_newline(step.0, bytes.skip(k + 1));
    }
}

/// A payload on one line survives its frame: between any two frames,
/// `data: <payload>` and a blank line give back the payload and leave nothing behind.
pub proof fn law_frame_round_trip(payload: Seq<char>)
    requires
        !payload.contains('\n'),
        payload.len() > 0 ==> payload.last() != '\r',
    ensures
        parsed(seq![], encode_utf8(seq!['d', 'a', 't', 'a', ':', ' '] + payload + seq!['\n', '\n']))
            == (Parsed { rest: seq![], data: seq![], payloads: seq![payload] }),
{
    broadcast use vstd::utf8::group_utf8_lib;

    let head = seq!['d', 'a', 't', 'a', ':', ' '];
    let line = head + payload;
    let tail = seq!['\n', '\n'];
    let bytes = encode_utf8(line + tail);
    let body = encode_utf8(line);
    lemma_encode_concat(line, tail);
    assert(is_ascii_chars(tail));
    is_ascii_chars_encode_utf8(tail);
    assert(encode_utf8(tail)[0] == tail[0] as u8 && encode_utf8(tail)[1] == tail[1] as u8);
    assert(!line.contains('\n'));
    if encode_utf8(line).contains(10) {
        lemma_encode_contains(line, 10);
        assert(10u8 as char == '\n');
    }
    let k = body.len() as int;
    assert forall|j: int| 0 <= j < k implies bytes[j] != 10 by {
        assert(bytes[j] == body[j]);
        assert(body.contains(body[j]));
    }
    lemma_newline_at(bytes, 0, k);
    assert(bytes.take(k) == body);
    lemma_encode_last(line);
    assert(body.last() == 13 ==> line.last() == '\r');
    assert(line.last() != '\r') by {
        if payload.len() > 0 {
            assert(line.last() == payload.last());
        }
    }
    assert(without_cr(body) == body);
    assert(line_text(body) == line);
    assert(line[0] == 'd');
    assert(line[4] == ':');
    assert(find_from(line, ':', 0) == 4) by {
        reveal_with_fuel(find_from, 6);
        assert(line[1] == 'a' && line[2] == 't' && line[3] == 'a');
    }
    assert(line.take(4) == seq!['d', 'a', 't', 'a']);
    assert(line.skip(5)[0] == ' ');
    assert(line.skip(5).skip(1) == payload);
    let rest = bytes.skip(k + 1);
    assert(rest.len() == 1 && rest[0] == 10);
    lemma_newline_at(rest, 0, 0);
    assert(rest.take(0) == Seq::<u8>::empty());
    assert(line_text(Seq::<u8>::empty()) == Seq::<char>::empty());
    let step = line_step(seq![], line);
    assert(step.0 == seq![payload]);
    let done = line_step(step.0, seq![]);
    assert(done.1 == seq![payload]);
    let after = parsed(done.0, rest.skip(1));
    assert(rest.skip(1).len() == 0);
    assert(after.payloads == Seq::<Seq<char>>::empty());
    assert(parsed(step.0, rest).payloads == done.1 + after.payloads);
    assert(parsed(seq![], bytes).payloads == step.1 + (done.1 + after.payloads));
}

/// Keep-alive comments and fields other than `data` change nothing: no payload comes
/// out and the frame being read stays as it is.
pub proof fn law_other_lines_are_ignored(data: Seq<Seq<char>>, line: Seq<char>)
    requires
        line.len() > 0,
        line[0] == ':' || field_of(line).0 != seq!['d', 'a', 't', 'a'],
    ensures
        line_step(data, line) == (data, Seq::<Seq<char>>::empty()),
{
}

/// Incremental frame parser: raw chunks go in, complete `data` payloads come out.
/// Bytes are buffered, so a character that is split across chunks is safe.
#[derive(Debug)]
pub struct SseParser {
    buf: Vec<u8>,
    data: Vec<String>,
}

impl SseParser {
    /// The bytes of the line that is not complete yet.
    pub closed spec fn pending(&self) -> Seq<u8> {
        self.buf@
    }

    /// The `data` lines of the frame that is being read.
    pub closed spec fn frame(&self) -> Seq<Seq<char>> {
        texts(self.data@)
    }

    /// A parser at the start of a stream.
    pub fn new() -> (r: Self)
        ensures
            r.pending() == Seq::<u8>::empty(),
            r.frame() == Seq::<Seq<char>>::empty(),
    {
        let r = SseParser { buf: Vec::new(), data: Vec::new() };
        assert(texts(r.data@) == Seq::<Seq<char>>::empty());
        r
    }

    /// Takes one chunk and appends the payload of every frame it completes to `out`.
    pub fn feed(&mut self, chunk: &[u8], out: &mut Vec<String>)
        ensures
            ({
                let r = parsed(old(self).frame(), old(self).pending() + chunk@);
                &&& final(self).pending() == r.rest
                &&& final(self).frame() == r.data
                &&& texts(final(out)@) == texts(old(out)@) + r.payloads
            }),
    {
        let ghost whole = self.buf@ + chunk@;
        let ghost total = parsed(self.frame(), whole);
        for i in 0..chunk.len()
            invariant
                self.buf@ == old(self).buf@ + chunk@.take(i as int),
                self.data@ == old(self).data@,
        {
            self.buf.push(chunk[i]);
            assert(self.buf@ == old(self).buf@ + chunk@.take(i + 1));
        }
        assert(self.buf@ == whole);
        let mut start: usize = 0;
        let mut line: Vec<u8> = Vec::new();
        let mut i: usize = 0;
        assert(whole.skip(0) == whole);
        assert(texts(out@) + total.payloads == texts(old(out)@) + total.payloads);
        while i < self.buf.len()
            invariant
                self.buf@ == whole,
                start <= i <= whole.len(),
                line@ == whole.subrange(start as int, i as int),
                forall|j: int| start <= j < i ==> whole[j] != 10,
                ({
                    let r = parsed(self.frame(), whole.skip(start as int));
                    &&& total.rest == r.rest
                    &&& total.data == r.data
                    &&& texts(out@) + r.payloads == texts(old(out)@) + total.payloads
                }),
            decreases whole.len() - i,
        {
            let b: u8 = self.buf[i];
            if b == 10 {
                let ghost left = whole.skip(start as int);
                let ghost k = i - start;
                proof {
                    assert(forall|j: int| 0 <= j < k ==> left[j] == whole[start + j]);
                    lemma_newline_at(left, 0, k);
                    assert(line@ == left.take(k));
                    assert(left.skip(k + 1) == whole.skip(i + 1));
                }
                if line.len() > 0 && line[line.len() - 1] == 13 {
                    line.pop();
                }
                assert(line@ == without_cr(left.take(k)));
                let decoded: String = decode_lossy(&line);
                let ghost before = texts(out@);
                let ghost step = line_step(self.frame(), decoded@);
                let ghost after = parsed(step.0, left.skip(k + 1));
                self.line(decoded.as_str(), out);
                assert(before + (step.1 + after.payloads) == before + step.1 + after.payloads);
                line = Vec::new();
                start = i + 1;
            } else {
                line.push(b);
            }
            i = i + 1;
        }
        proof {
            let left = whole.skip(start as int);
            lemma_newline_from(left, 0);
            assert(forall|j: int| 0 <= j < left.len() ==> left[j] == whole[start + j]);
            assert(line@ == left);
            assert(texts(out@) + Seq::<Seq<char>>::empty() == texts(out@));
        }
        self.buf = line;
    }

    /// Takes one complete line, without its line ending.
    pub fn line(&mut self, line: &str, out: &mut Vec<String>)
        ensures
            ({
                let step = line_step(old(self).frame(), line@);
                &&& final(self).pending() == old(self).pending()
                &&& final(self).frame() == step.0
                &&& texts(final(out)@) == texts(old(out)@) + step.1
            }),
    {
        proof {
            reveal_strlit("\n");
            reveal_strlit(":");
            reveal_strlit(" ");
            reveal_strlit("data");
            assert("\n"@ == seq!['\n']);
            assert(":"@ == seq![':']);
            assert(" "@ == seq![' ']);
            assert("data"@ == seq!['d', 'a', 't', 'a']);
            assert(texts(out@) + Seq::<Seq<char>>::empty() == texts(out@));
        }
        if line.is_empty() {
            if self.data.len() > 0 {
                out.push(join(&self.data, "\n"));
                self.data.clear();
                assert(texts(out@) == texts(old(out)@).push(texts(out@).last()));
                assert(texts(self.data@) == Seq::<Seq<char>>::empty());
            }
            return;
        }
        if strip_prefix(line, ":").is_some() {
            assert(line@.take(1)[0] == line@[0]);
            return;
        }
        assert(line@[0] == ':' ==> line@.take(1) == seq![':']);
        let (field, value): (&str, &str) = match split_once(line, ':') {
            Some((f, v)) => {
                assert(v@.len() > 0 && v@[0] == ' ' ==> v@.take(1) == seq![' ']);
                assert(v@.len() > 0 ==> v@.take(1)[0] == v@[0]);
                match strip_prefix(v, " ") {
                    Some(rest) => (f, rest),
                    None => (f, v),
                }
            },
            None => {
                proof {
                    reveal_strlit("");
                    assert(""@ == Seq::<char>::empty());
                }
                (line, "")
            },
        };
        if text_eq(field, "data") {
            self.data.push(value.to_owned());
            assert(texts(self.data@) == texts(old(self).data@).push(value@));
        }
    }
}

impl Default for SseParser {
    fn default() -> (r: Self)
        ensures
            r.pending() == Seq::<u8>::empty(),
            r.frame() == Seq::<Seq<char>>::empty(),
    {
        SseParser::new()
    }
}

} // verus!
