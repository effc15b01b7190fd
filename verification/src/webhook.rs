//! Verification and signing of webhook deliveries.
//!
//! Every outbound delivery is signed twice:
//!
//! ```text
//! X-Writ-Signature-V1  HMAC-SHA256 over "{timestamp}." + raw body
//! X-Writ-Signature     HMAC-SHA256 over the raw body alone (legacy)
//! ```
//!
//! The first binds the timestamp into the tag, so a captured delivery stops being
//! replayable once its timestamp is stale. The second says nothing about time and is
//! accepted only on request.

use crate::text::{
    cat, cat3, chars_of, decimal, decimal_u64, hex_char, hex_digit, is_white, lemma_decimal,
    lemma_trim_clean, opt_text, parse_u64, present, present_value, strip_prefix, trim, trimmed,
    u64_value,
};
use crate::time::{seconds_of, since_epoch, Duration, NANOS_PER_SEC};
use hmac::Mac;
use vstd::prelude::*;
use vstd::utf8::encode_utf8;

verus! {

broadcast use vstd::string::group_string_axioms;

/// Header that carries the tag over timestamp and body.
pub const SIGNATURE_V1_HEADER: &'static str = "X-Writ-Signature-V1";

/// Header that carries the tag over the body alone.
pub const SIGNATURE_HEADER: &'static str = "X-Writ-Signature";

/// Header that carries the time of the delivery, in unix seconds.
pub const TIMESTAMP_HEADER: &'static str = "X-Writ-Timestamp";

/// Why a delivery was rejected. Every variant means that the payload must not be acted
/// on; the distinction is for logs.
#[derive(Debug, Clone, PartialEq, Eq)]
pub enum WebhookError {
    NoSecret,
    NoSignature(String),
    BadTimestamp(String),
    Stale { drift_secs: u64, tolerance_secs: u64 },
    SignatureMismatch,
}

/// How a delivery is judged.
#[derive(Debug, Clone)]
pub struct VerifyOptions {
    /// Freshness window; `None` switches the check off.
    pub tolerance: Option<Duration>,
    /// Accept a delivery that carries only the tag over the body.
    pub allow_legacy_body_only: bool,
    /// The current time in unix seconds, in place of the clock.
    pub now: Option<u64>,
}

/// The freshness window in use unless another is asked for: five minutes.
pub fn default_tolerance() -> (r: Duration)
    ensures
        r@ == 300 * NANOS_PER_SEC,
{
    Duration::from_secs(300)
}

impl Default for VerifyOptions {
    fn default() -> (r: Self)
        ensures
            r.tolerance is Some,
            r.tolerance->0@ == 300 * NANOS_PER_SEC,
            !r.allow_legacy_body_only,
            r.now is None,
    {
        VerifyOptions {
            tolerance: Some(default_tolerance()),
            allow_legacy_body_only: false,
            now: None,
        }
    }
}

/// What becomes of a delivery.
#[verifier::ext_equal]
pub enum Outcome {
    Accepted,
    NoSecret,
    NoSignature(Seq<char>),
    BadTimestamp(Seq<char>),
    Stale { drift_secs: nat, tolerance_secs: nat },
    SignatureMismatch,
}

/// The outcome that a verification result stands for.
pub open spec fn outcome_of(r: Result<(), WebhookError>) -> Outcome {
    match r {
        Ok(_) => Outcome::Accepted,
        Err(WebhookError::NoSecret) => Outcome::NoSecret,
        Err(WebhookError::NoSignature(m)) => Outcome::NoSignature(m@),
        Err(WebhookError::BadTimestamp(h)) => Outcome::BadTimestamp(h@),
        Err(WebhookError::Stale { drift_secs, tolerance_secs }) => Outcome::Stale {
            drift_secs: drift_secs as nat,
            tolerance_secs: tolerance_secs as nat,
        },
        Err(WebhookError::SignatureMismatch) => Outcome::SignatureMismatch,
    }
}

/// The HMAC-SHA256 tag of a message under a key.
pub uninterp spec fn hmac_sha256(key: Seq<u8>, message: Seq<u8>) -> Seq<u8>;

/// `hmac::Hmac<sha2::Sha256>` over one message, finalized: the tag, 32 bytes.
/// `new_from_slice` takes a key of any length.
#[verifier::external_body]
fn hmac_tag(key: &[u8], message: &[u8]) -> (tag: Vec<u8>)
    ensures
        tag@ == hmac_sha256(key@, message@),
        tag@.len() == 32,
{
    let mut mac = <hmac::Hmac<sha2::Sha256>>::new_from_slice(key).expect("any key length");
    mac.update(message);
    mac.finalize().into_bytes().to_vec()
}

/// `Mac::verify_slice` of `hmac::Hmac<sha2::Sha256>`: whether the given bytes are the
/// tag of the message, all of it, compared in constant time.
#[verifier::external_body]
fn hmac_verify(key: &[u8], message: &[u8], given: &[u8]) -> (ok: bool)
    ensures
        ok == (given@ == hmac_sha256(key@, message@)),
{
    let mut mac = <hmac::Hmac<sha2::Sha256>>::new_from_slice(key).expect("any key length");
    mac.update(message);
    mac.verify_slice(given).is_ok()
}

/// The current time in unix seconds, [`seconds_of`] what the clock shows. The clock may
/// show any time, so nothing is promised of the result.
pub fn unix_now() -> (r: u64) {
    seconds_of(since_epoch())
}

/// The tag of `signed` under a secret.
pub fn mac_hex(secret: &str, signed: &[u8]) -> (tag: Vec<u8>)
    ensures
        tag@ == hmac_sha256(encode_utf8(secret@), signed@),
        tag@.len() == 32,
{
    hmac_tag(secret.as_bytes(), signed)
}

/// The value of a hexadecimal digit of either case.
pub open spec fn hex_value(c: char) -> Option<nat> {
    if '0' <= c && c <= '9' {
        Some((c as nat - 48) as nat)
    } else if 'a' <= c && c <= 'f' {
        Some((c as nat - 87) as nat)
    } else if 'A' <= c && c <= 'F' {
        Some((c as nat - 55) as nat)
    } else {
        None
    }
}

/// The byte that two characters write: two hexadecimal digits, or a plus sign and one.
pub open spec fn pair_value(a: char, b: char) -> Option<u8> {
    match (hex_value(a), hex_value(b)) {
        (Some(x), Some(y)) => Some((16 * x + y) as u8),
        (None, Some(y)) => if a == '+' {
            Some(y as u8)
        } else {
            None
        },
        _ => None,
    }
}

/// The bytes that a run of character pairs writes.
pub open spec fn hex_bytes(s: Seq<char>) -> Option<Seq<u8>>
    decreases s.len(),
{
    if s.len() == 0 {
        Some(seq![])
    } else if s.len() == 1 {
        None
    } else {
        match (pair_value(s[0], s[1]), hex_bytes(s.skip(2))) {
            (Some(b), Some(rest)) => Some(seq![b] + rest),
            _ => None,
        }
    }
}

/// The marker in front of a tag.
pub open spec fn tag_prefix() -> Seq<char> {
    seq!['s', 'h', 'a', '2', '5', '6', '=']
}

/// The bytes that a signature header writes, with or without the marker.
pub open spec fn header_bytes(s: Seq<char>) -> Option<Seq<u8>> {
    if crate::text::has_prefix(s, tag_prefix()) {
        hex_bytes(s.skip(7))
    } else {
        hex_bytes(s)
    }
}

/// The value of one hexadecimal digit.
fn hex_digit_value(c: char) -> (r: Option<u8>)
    ensures
        match hex_value(c) {
            Some(n) => r == Some(n as u8) && n < 16,
            None => r is None,
        },
{
    let u: u32 = c as u32;
    if '0' <= c && c <= '9' {
        Some((u - 48) as u8)
    } else if 'a' <= c && c <= 'f' {
        Some((u - 87) as u8)
    } else if 'A' <= c && c <= 'F' {
        Some((u - 55) as u8)
    } else {
        None
    }
}

/// Reads the bytes of a signature header.
pub fn decode_hex(s: &str) -> (r: Option<Vec<u8>>)
    ensures
        match (r, header_bytes(s@)) {
            (Some(v), Some(bytes)) => v@ == bytes,
            (None, None) => true,
            _ => false,
        },
{
    proof {
        reveal_strlit("sha256=");
        assert("sha256="@ == tag_prefix());
    }
    let body: &str = match strip_prefix(s, "sha256=") {
        Some(rest) => rest,
        None => s,
    };
    let v: Vec<char> = chars_of(body);
    let mut out: Vec<u8> = Vec::new();
    if v.len() % 2 != 0 {
        proof {
            lemma_odd_is_none(body@);
        }
        return None;
    }
    let mut k: usize = 0;
    assert(body@.skip(0) == body@);
    while k < v.len()
        invariant
            v@ == body@,
            header_bytes(s@) == hex_bytes(body@),
            k <= v.len(),
            v.len() % 2 == 0,
            k % 2 == 0,
            match (hex_bytes(body@), hex_bytes(body@.skip(k as int))) {
                (Some(all), Some(rest)) => all == out@ + rest,
                (None, None) => true,
                _ => false,
            },
        decreases v.len() - k,
    {
        let ghost left = body@.skip(k as int);
        assert(left.skip(2) == body@.skip(k + 2));
        assert(left[0] == v@[k as int] && left[1] == v@[k + 1]);
        let b: u8 = match (hex_digit_value(v[k]), hex_digit_value(v[k + 1])) {
            (Some(x), Some(y)) => 16 * x + y,
            (None, Some(y)) => {
                if v[k] != '+' {
                    return None;
                }
                y
            },
            _ => {
                return None;
            },
        };
        let ghost before = out@;
        out.push(b);
        proof {
            if let Some(rest) = hex_bytes(left.skip(2)) {
                assert(before + (seq![b] + rest) == out@ + rest);
            }
        }
        k = k + 2;
    }
    assert(body@.skip(k as int).len() == 0);
    assert(out@ + Seq::<u8>::empty() == out@);
    Some(out)
}

proof fn lemma_odd_is_none(s: Seq<char>)
    requires
        s.len() % 2 == 1,
    ensures
        hex_bytes(s) is None,
    decreases s.len(),
{
    if s.len() > 1 {
        lemma_odd_is_none(s.skip(2));
    }
}

/// Two lower-case hexadecimal digits for each byte.
pub open spec fn hex_of(bytes: Seq<u8>) -> Seq<char>
    decreases bytes.len(),
{
    if bytes.len() == 0 {
        seq![]
    } else {
        seq![hex_char((bytes[0] / 16) as nat), hex_char((bytes[0] % 16) as nat)] + hex_of(
            bytes.drop_first(),
        )
    }
}

/// The hexadecimal text of bytes.
fn encode_hex(bytes: &Vec<u8>) -> (s: String)
    ensures
        s@ == hex_of(bytes@),
{
    let mut s: String = String::new();
    assert(bytes@.skip(0) == bytes@);
    assert(Seq::<char>::empty() + hex_of(bytes@) == hex_of(bytes@));
    for i in 0..bytes.len()
        invariant
            s@ + hex_of(bytes@.skip(i as int)) == hex_of(bytes@),
    {
        let b: u8 = bytes[i];
        let ghost left = bytes@.skip(i as int);
        let ghost before = s@;
        s.push(hex_digit(b / 16));
        s.push(hex_digit(b % 16));
        proof {
            assert(left.drop_first() == bytes@.skip(i + 1));
            let two = seq![hex_char((b / 16) as nat), hex_char((b % 16) as nat)];
            assert(s@ == before + two);
            assert(before + (two + hex_of(bytes@.skip(i + 1))) == s@ + hex_of(bytes@.skip(i + 1)));
        }
    }
    assert(bytes@.skip(bytes@.len() as int).len() == 0);
    assert(s@ + Seq::<char>::empty() == s@);
    s
}

/// Reading back what was written gives the same bytes.
pub proof fn law_hex_round_trip(bytes: Seq<u8>)
    ensures
        hex_bytes(hex_of(bytes)) == Some(bytes),
    decreases bytes.len(),
{
    if bytes.len() > 0 {
        let s = hex_of(bytes);
        let b = bytes[0];
        law_hex_round_trip(bytes.drop_first());
        assert(s.skip(2) == hex_of(bytes.drop_first()));
        assert(s[0] == hex_char((b / 16) as nat) && s[1] == hex_char((b % 16) as nat));
        assert(pair_value(s[0], s[1]) == Some(b));
        assert(seq![b] + bytes.drop_first() == bytes);
    } else {
        assert(bytes == Seq::<u8>::empty());
    }
}

/// Whether a signature header holds the tag of `signed`.
pub open spec fn tag_matches(header: Seq<char>, secret: Seq<char>, signed: Seq<u8>) -> bool {
    header_bytes(trimmed(header)) == Some(hmac_sha256(encode_utf8(secret), signed))
}

/// What is signed: the timestamp's text, a dot, the body.
pub open spec fn stamped_message(ts: Seq<char>, body: Seq<u8>) -> Seq<u8> {
    encode_utf8(ts) + seq![46u8] + body
}

/// Builds what is signed.
fn stamped(ts: &str, body: &[u8]) -> (r: Vec<u8>)
    ensures
        r@ == stamped_message(ts@, body@),
{
    let head: &[u8] = ts.as_bytes();
    let mut r: Vec<u8> = Vec::new();
    for i in 0..head.len()
        invariant
            r@ == head@.take(i as int),
    {
        r.push(head[i]);
        assert(r@ == head@.take(i + 1));
    }
    assert(r@ == head@);
    r.push(46);
    for i in 0..body.len()
        invariant
            r@ == encode_utf8(ts@) + seq![46u8] + body@.take(i as int),
    {
        r.push(body[i]);
        assert(r@ == encode_utf8(ts@) + seq![46u8] + body@.take(i + 1));
    }
    assert(body@.take(body@.len() as int) == body@);
    r
}

/// The distance between two times.
pub open spec fn drift(a: nat, b: nat) -> nat {
    if a >= b {
        (a - b) as nat
    } else {
        (b - a) as nat
    }
}

/// Explanation for a request without any signature.
pub open spec fn unsigned_text() -> Seq<char> {
    "request carries no Writ webhook signature"@
}

/// Explanation for a request that carries only the tag over the body.
pub open spec fn body_only_text() -> Seq<char> {
    "only the body-only X-Writ-Signature was present. It cannot be checked for freshness, so it is refused by default — set allow_legacy_body_only while migrating"@
}

/// What is left to check of a delivery: that the bytes given are the tag of a message.
#[verifier::ext_equal]
pub struct Demand {
    /// The bytes that the signature header writes, if it writes any.
    pub given: Option<Seq<u8>>,
    /// What has to have been signed.
    pub signed: Seq<u8>,
}

/// What is to be checked of a delivery with these three header values at the time `now`,
/// or why it is refused whatever its tag.
pub open spec fn demanded(
    v1: Option<Seq<char>>,
    ts: Option<Seq<char>>,
    legacy: Option<Seq<char>>,
    body: Seq<u8>,
    secret: Seq<char>,
    opts: VerifyOptions,
    now: u64,
) -> Result<Demand, Outcome> {
    if secret.len() == 0 {
        Err(Outcome::NoSecret)
    } else {
        match (present(v1), present(ts), present(legacy)) {
            (Some(_), None, _) => Err(Outcome::BadTimestamp(TIMESTAMP_HEADER@)),
            (Some(tag), Some(stamp), _) => {
                let demand = Demand {
                    given: header_bytes(trimmed(tag)),
                    signed: stamped_message(stamp, body),
                };
                match opts.tolerance {
                    None => Ok(demand),
                    Some(tolerance) => {
                        let limit = tolerance@ / NANOS_PER_SEC as nat;
                        match u64_value(stamp) {
                            None => Err(Outcome::BadTimestamp(TIMESTAMP_HEADER@)),
                            Some(at) => if drift(now as nat, at as nat) > limit {
                                Err(
                                    Outcome::Stale {
                                        drift_secs: drift(now as nat, at as nat),
                                        tolerance_secs: limit,
                                    },
                                )
                            } else {
                                Ok(demand)
                            },
                        }
                    },
                }
            },
            (None, _, None) => Err(Outcome::NoSignature(unsigned_text())),
            (None, _, Some(tag)) => if opts.allow_legacy_body_only {
                Ok(Demand { given: header_bytes(trimmed(tag)), signed: body })
            } else {
                Err(Outcome::NoSignature(body_only_text()))
            },
        }
    }
}

/// What becomes of a delivery with these three header values, at the time `now`.
pub open spec fn judge(
    v1: Option<Seq<char>>,
    ts: Option<Seq<char>>,
    legacy: Option<Seq<char>>,
    body: Seq<u8>,
    secret: Seq<char>,
    opts: VerifyOptions,
    now: u64,
) -> Outcome {
    match demanded(v1, ts, legacy, body, secret, opts, now) {
        Err(refused) => refused,
        Ok(d) => if d.given == Some(hmac_sha256(encode_utf8(secret), d.signed)) {
            Outcome::Accepted
        } else {
            Outcome::SignatureMismatch
        },
    }
}

/// What is left to check of a delivery.
#[derive(Debug, Clone)]
pub struct Check {
    /// The bytes that the signature header writes, if it writes any.
    pub given: Option<Vec<u8>>,
    /// What has to have been signed.
    pub signed: Vec<u8>,
}

/// The contents of a check, or the refusal.
pub open spec fn check_view(r: Result<Check, WebhookError>) -> Result<Demand, Outcome> {
    match r {
        Ok(c) => Ok(
            Demand {
                given: match c.given {
                    Some(v) => Some(v@),
                    None => None,
                },
                signed: c.signed@,
            },
        ),
        Err(e) => Err(outcome_of(Err(e))),
    }
}

fn copy_bytes(bytes: &[u8]) -> (r: Vec<u8>)
    ensures
        r@ == bytes@,
{
    let mut r: Vec<u8> = Vec::new();
    for i in 0..bytes.len()
        invariant
            r@ == bytes@.take(i as int),
    {
        r.push(bytes[i]);
        assert(r@ == bytes@.take(i + 1));
    }
    assert(bytes@.take(bytes@.len() as int) == bytes@);
    r
}

/// Everything about a delivery that does not take the tag: whether it is refused out of
/// hand, and else what has to be the tag of what.
pub fn check_for(
    v1: Option<&str>,
    ts: Option<&str>,
    legacy: Option<&str>,
    body: &[u8],
    secret: &str,
    opts: &VerifyOptions,
    now: u64,
) -> (r: Result<Check, WebhookError>)
    ensures
        check_view(r) == demanded(
            opt_text(v1),
            opt_text(ts),
            opt_text(legacy),
            body@,
            secret@,
            *opts,
            now,
        ),
{
    if secret.is_empty() {
        return Err(WebhookError::NoSecret);
    }
    if let Some(tag) = present_value(v1) {
        let stamp: &str = match present_value(ts) {
            Some(t) => t,
            None => {
                return Err(WebhookError::BadTimestamp(TIMESTAMP_HEADER.to_owned()));
            },
        };
        if let Some(tolerance) = opts.tolerance {
            let at: u64 = match parse_u64(stamp) {
                Some(n) => n,
                None => {
                    return Err(WebhookError::BadTimestamp(TIMESTAMP_HEADER.to_owned()));
                },
            };
            let away: u64 = if now >= at {
                now - at
            } else {
                at - now
            };
            if away > tolerance.as_secs() {
                return Err(
                    WebhookError::Stale { drift_secs: away, tolerance_secs: tolerance.as_secs() },
                );
            }
        }
        return Ok(Check { given: decode_hex(trim(tag)), signed: stamped(stamp, body) });
    }
    match present_value(legacy) {
        None => Err(
            WebhookError::NoSignature("request carries no Writ webhook signature".to_owned()),
        ),
        Some(tag) => {
            if !opts.allow_legacy_body_only {
                return Err(
                    WebhookError::NoSignature(
                        "only the body-only X-Writ-Signature was present. It cannot be checked for freshness, so it is refused by default — set allow_legacy_body_only while migrating".to_owned(),
                    ),
                );
            }
            Ok(Check { given: decode_hex(trim(tag)), signed: copy_bytes(body) })
        },
    }
}

/// Judges a delivery by the values of its three headers, at the time `now`.
pub fn verify_delivery(
    v1: Option<&str>,
    ts: Option<&str>,
    legacy: Option<&str>,
    body: &[u8],
    secret: &str,
    opts: &VerifyOptions,
    now: u64,
) -> (r: Result<(), WebhookError>)
    ensures
        outcome_of(r) == judge(
            opt_text(v1),
            opt_text(ts),
            opt_text(legacy),
            body@,
            secret@,
            *opts,
            now,
        ),
{
    match check_for(v1, ts, legacy, body, secret, opts, now) {
        Err(e) => {
            assert(outcome_of(Err(e)) == check_view(Err(e))->Err_0);
            Err(e)
        },
        Ok(check) => {
            let matches: bool = match &check.given {
                Some(given) => hmac_verify(
                    secret.as_bytes(),
                    check.signed.as_slice(),
                    given.as_slice(),
                ),
                None => false,
            };
            if matches {
                Ok(())
            } else {
                Err(WebhookError::SignatureMismatch)
            }
        },
    }
}

/// That a result follows from header values which the lookup gave, and from a time
/// which is the one asked for, where one was.
pub open spec fn explained<'a, F: Fn(&str) -> Option<&'a str>>(
    header: F,
    v1: Option<&'a str>,
    ts: Option<&'a str>,
    legacy: Option<&'a str>,
    body: Seq<u8>,
    secret: Seq<char>,
    opts: VerifyOptions,
    now: u64,
    outcome: Outcome,
) -> bool {
    &&& secret.len() > 0 ==> call_ensures(header, (SIGNATURE_V1_HEADER,), v1)
    &&& secret.len() > 0 && present(opt_text(v1)) is Some ==> call_ensures(
        header,
        (TIMESTAMP_HEADER,),
        ts,
    )
    &&& secret.len() > 0 && present(opt_text(v1)) is None ==> call_ensures(
        header,
        (SIGNATURE_HEADER,),
        legacy,
    )
    &&& opts.now is Some ==> now == opts.now->0
    &&& outcome == judge(opt_text(v1), opt_text(ts), opt_text(legacy), body, secret, opts, now)
}

/// Authenticates an outbound delivery.
///
/// `header` looks a header up by name. `body` must be the exact bytes received: a body
/// that was decoded and encoded again has another tag.
pub fn verify_webhook<'a, F>(header: F, body: &[u8], secret: &str, opts: &VerifyOptions) -> (r:
    Result<(), WebhookError>) where F: Fn(&str) -> Option<&'a str>
    requires
        forall|name: &str| call_requires(header, (name,)),
    ensures
        exists|v1: Option<&'a str>, ts: Option<&'a str>, legacy: Option<&'a str>, now: u64|
            explained(header, v1, ts, legacy, body@, secret@, *opts, now, outcome_of(r)),
{
    let mut v1: Option<&'a str> = None;
    let mut ts: Option<&'a str> = None;
    let mut legacy: Option<&'a str> = None;
    let now: u64 = match opts.now {
        Some(n) => n,
        None => unix_now(),
    };
    if !secret.is_empty() {
        v1 = header(SIGNATURE_V1_HEADER);
        if present_value(v1).is_some() {
            ts = header(TIMESTAMP_HEADER);
        } else {
            legacy = header(SIGNATURE_HEADER);
        }
    }
    let r: Result<(), WebhookError> = verify_delivery(v1, ts, legacy, body, secret, opts, now);
    assert(explained(header, v1, ts, legacy, body@, secret@, *opts, now, outcome_of(r)));
    r
}

/// The signature header's value for a request made at `ts`.
pub open spec fn signature_text(body: Seq<u8>, secret: Seq<char>, ts: Seq<char>) -> Seq<char> {
    tag_text(hmac_sha256(encode_utf8(secret), stamped_message(ts, body)))
}

/// The signature header's value for a tag.
pub open spec fn tag_text(tag: Seq<u8>) -> Seq<char> {
    tag_prefix() + hex_of(tag)
}

/// Headers for an inbound call that is made at the unix time `now` and has this tag.
pub fn headers_for(now: u64, tag: &Vec<u8>) -> (r: Vec<(&'static str, String)>)
    ensures
        r@.len() == 2,
        r@[0].0@ == TIMESTAMP_HEADER@,
        r@[0].1@ == decimal(now as nat),
        r@[1].0@ == SIGNATURE_HEADER@,
        r@[1].1@ == tag_text(tag@),
{
    let hex: String = encode_hex(tag);
    proof {
        reveal_strlit("sha256=");
        assert("sha256="@ == tag_prefix());
    }
    let mut r: Vec<(&'static str, String)> = Vec::new();
    r.push((TIMESTAMP_HEADER, decimal_u64(now)));
    r.push((SIGNATURE_HEADER, cat("sha256=", hex.as_str())));
    r
}

/// Headers for an inbound call that is made at the unix time `now`.
pub fn sign_at(body: &[u8], secret: &str, now: u64) -> (r: Vec<(&'static str, String)>)
    ensures
        r@.len() == 2,
        r@[0].0@ == TIMESTAMP_HEADER@,
        r@[0].1@ == decimal(now as nat),
        r@[1].0@ == SIGNATURE_HEADER@,
        r@[1].1@ == signature_text(body@, secret@, decimal(now as nat)),
{
    let ts: String = decimal_u64(now);
    let signed: Vec<u8> = stamped(ts.as_str(), body);
    let tag: Vec<u8> = mac_hex(secret, signed.as_slice());
    headers_for(now, &tag)
}

/// Headers for an inbound call that is made now.
pub fn sign_webhook_request(body: &[u8], secret: &str) -> (r: Vec<(&'static str, String)>)
    ensures
        exists|now: u64|
            {
                &&& r@.len() == 2
                &&& r@[0].0@ == TIMESTAMP_HEADER@
                &&& r@[0].1@ == #[trigger] decimal(now as nat)
                &&& r@[1].0@ == SIGNATURE_HEADER@
                &&& r@[1].1@ == signature_text(body@, secret@, decimal(now as nat))
            },
{
    sign_at(body, secret, unix_now())
}

impl WebhookError {
    /// The explanation in words.
    pub open spec fn text(&self) -> Seq<char> {
        match self {
            WebhookError::NoSecret => "writ: webhook secret is empty"@,
            WebhookError::NoSignature(m) => "writ: "@ + m@,
            WebhookError::BadTimestamp(h) => "writ: "@ + h@ + " is missing or malformed"@,
            WebhookError::Stale { drift_secs, tolerance_secs } => "writ: webhook timestamp is "@
                + decimal(*drift_secs as nat) + "s away from now (tolerance "@ + decimal(
                *tolerance_secs as nat,
            ) + "s) — treat it as a replay"@,
            WebhookError::SignatureMismatch =>
                "writ: webhook signature does not match — treat this request as hostile"@,
        }
    }

    /// The explanation in words.
    pub fn message(&self) -> (r: String)
        ensures
            r@ == self.text(),
    {
        match self {
            WebhookError::NoSecret => "writ: webhook secret is empty".to_owned(),
            WebhookError::NoSignature(m) => cat("writ: ", m.as_str()),
            WebhookError::BadTimestamp(h) => cat3("writ: ", h.as_str(), " is missing or malformed"),
            WebhookError::Stale { drift_secs, tolerance_secs } => {
                let away: String = decimal_u64(*drift_secs);
                let limit: String = decimal_u64(*tolerance_secs);
                let mut r: String = cat3(
                    "writ: webhook timestamp is ",
                    away.as_str(),
                    "s away from now (tolerance ",
                );
                r.append(limit.as_str());
                r.append("s) — treat it as a replay");
                r
            },
            WebhookError::SignatureMismatch =>
                "writ: webhook signature does not match — treat this request as hostile".to_owned(),
        }
    }
}

proof fn lemma_hex_of_clean(bytes: Seq<u8>)
    ensures
        forall|i: int| 0 <= i < hex_of(bytes).len() ==> !is_white(#[trigger] hex_of(bytes)[i]),
    decreases bytes.len(),
{
    if bytes.len() > 0 {
        let rest = hex_of(bytes.drop_first());
        lemma_hex_of_clean(bytes.drop_first());
        assert forall|i: int| 0 <= i < hex_of(bytes).len() implies !is_white(
            #[trigger] hex_of(bytes)[i],
        ) by {
            if i >= 2 {
                assert(hex_of(bytes)[i] == rest[i - 2]);
            }
        }
    }
}

/// One recipe for both directions: a request signed at `at` is accepted by the verifier
/// whenever the verifier's clock is within the window, and whenever there is no window.
pub proof fn law_signed_request_verifies(
    body: Seq<u8>,
    secret: Seq<char>,
    at: u64,
    legacy: Option<Seq<char>>,
    opts: VerifyOptions,
    now: u64,
)
    requires
        secret.len() > 0,
        opts.tolerance matches Some(t) ==> drift(now as nat, at as nat) <= t@ / NANOS_PER_SEC as nat,
    ensures
        judge(
            Some(signature_text(body, secret, decimal(at as nat))),
            Some(decimal(at as nat)),
            legacy,
            body,
            secret,
            opts,
            now,
        ) == Outcome::Accepted,
{
    let ts = decimal(at as nat);
    lemma_decimal(at as nat);
    lemma_trim_clean(ts);
    let tag = hmac_sha256(encode_utf8(secret), stamped_message(ts, body));
    let hex = hex_of(tag);
    let sig = signature_text(body, secret, ts);
    lemma_hex_of_clean(tag);
    assert forall|i: int| 0 <= i < sig.len() implies !is_white(#[trigger] sig[i]) by {
        if i >= 7 {
            assert(sig[i] == hex[i - 7]);
        }
    }
    lemma_trim_clean(sig);
    law_hex_round_trip(tag);
    assert(sig.take(7) == tag_prefix());
    assert(sig.skip(7) == hex);
    assert(header_bytes(trimmed(sig)) == Some(tag));
    assert(trimmed(trimmed(sig)) == sig);
}

/// Nothing is accepted without a tag that matches: over the timestamp and the body, or,
/// on request, over the body.
pub proof fn law_accepted_means_authentic(
    v1: Option<Seq<char>>,
    ts: Option<Seq<char>>,
    legacy: Option<Seq<char>>,
    body: Seq<u8>,
    secret: Seq<char>,
    opts: VerifyOptions,
    now: u64,
)
    requires
        judge(v1, ts, legacy, body, secret, opts, now) == Outcome::Accepted,
    ensures
        secret.len() > 0,
        match (present(v1), present(ts)) {
            (Some(tag), Some(stamp)) => tag_matches(tag, secret, stamped_message(stamp, body)),
            (Some(_), None) => false,
            (None, _) => opts.allow_legacy_body_only && present(legacy) is Some && tag_matches(
                present(legacy)->0,
                secret,
                body,
            ),
        },
{
}

/// A delivery from outside the window, past or future, is refused as stale whatever its
/// tag.
pub proof fn law_stale_is_refused(
    tag: Seq<char>,
    stamp: Seq<char>,
    legacy: Option<Seq<char>>,
    body: Seq<u8>,
    secret: Seq<char>,
    opts: VerifyOptions,
    now: u64,
)
    requires
        secret.len() > 0,
        trimmed(tag).len() > 0,
        trimmed(stamp).len() > 0,
        opts.tolerance is Some,
        u64_value(trimmed(stamp)) is Some,
        drift(now as nat, u64_value(trimmed(stamp))->0 as nat) > opts.tolerance->0@
            / NANOS_PER_SEC as nat,
    ensures
        judge(Some(tag), Some(stamp), legacy, body, secret, opts, now) is Stale,
{
}

/// The window is as wide before the clock as after it, its ends included, in whole seconds:
/// within it the tag alone decides, outside it nothing helps.
pub proof fn law_the_window_is_symmetric(
    tag: Seq<char>,
    at: u64,
    legacy: Option<Seq<char>>,
    body: Seq<u8>,
    secret: Seq<char>,
    opts: VerifyOptions,
    now: u64,
    tolerance: Duration,
)
    requires
        secret.len() > 0,
        trimmed(tag).len() > 0,
        opts.tolerance == Some(tolerance),
    ensures
        ({
            let limit = (tolerance@ / 1_000_000_000) as int;
            let outcome = judge(
                Some(tag),
                Some(decimal(at as nat)),
                legacy,
                body,
                secret,
                opts,
                now,
            );
            let apart = if now >= at {
                now - at
            } else {
                at - now
            };
            &&& apart > limit ==> outcome == (Outcome::Stale {
                drift_secs: apart as nat,
                tolerance_secs: limit as nat,
            })
            &&& apart <= limit ==> (outcome is Accepted || outcome is SignatureMismatch)
            &&& apart <= limit ==> (outcome is Accepted <==> header_bytes(trimmed(tag)) == Some(
                hmac_sha256(
                    encode_utf8(secret),
                    encode_utf8(decimal(at as nat)) + seq!['.' as u8] + body,
                ),
            ))
        }),
{
    let ts = decimal(at as nat);
    lemma_decimal(at as nat);
    lemma_trim_clean(ts);
    crate::text::lemma_trimmed_twice(tag);
    assert(seq!['.' as u8] == seq![46u8]);
}

/// What a delivery is judged by. Without a window the time does not matter; with the tag over
/// the timestamp at hand, the tag over the body does not.
pub proof fn law_only_what_counts_is_judged(
    tag: Seq<char>,
    ts: Option<Seq<char>>,
    legacy: Option<Seq<char>>,
    other_legacy: Option<Seq<char>>,
    body: Seq<u8>,
    secret: Seq<char>,
    opts: VerifyOptions,
    now: u64,
    other_now: u64,
)
    requires
        trimmed(tag).len() > 0,
    ensures
        judge(Some(tag), ts, legacy, body, secret, opts, now) == judge(
            Some(tag),
            ts,
            other_legacy,
            body,
            secret,
            opts,
            now,
        ),
        opts.tolerance is None ==> judge(Some(tag), ts, legacy, body, secret, opts, now) == judge(
            Some(tag),
            ts,
            legacy,
            body,
            secret,
            opts,
            other_now,
        ),
        secret.len() == 0 ==> judge(Some(tag), ts, legacy, body, secret, opts, now)
            == Outcome::NoSecret,
{
}

/// Without a tag over the timestamp nothing is accepted, unless it was asked for.
pub proof fn law_body_only_is_refused_by_default(
    v1: Option<Seq<char>>,
    ts: Option<Seq<char>>,
    legacy: Option<Seq<char>>,
    body: Seq<u8>,
    secret: Seq<char>,
    opts: VerifyOptions,
    now: u64,
)
    requires
        secret.len() > 0,
        present(v1) is None,
        !opts.allow_legacy_body_only,
    ensures
        judge(v1, ts, legacy, body, secret, opts, now) is NoSignature,
{
}

} // verus!
