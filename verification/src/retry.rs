//! Retries of transient failures, shared by the local and the cloud transport.
//!
//! `GET`, `HEAD` and `OPTIONS` may always be repeated. Any other method may be repeated
//! only where [`RetryPolicy::retry_unsafe_methods`] is set, which is so on the cloud
//! surface alone: there every such request carries an idempotency key, and the server
//! replays its first answer. A second `POST` to the local daemon would be a second
//! monitor.

use crate::request::Method;
use crate::text::{hex_text, hex_u128, lemma_hex_text, lemma_hex_text_injective};
use crate::time::{min_nat, since_epoch, subsecond_of, Duration, MAX_NANOS, NANOS_PER_SEC};
use vstd::arithmetic::power2::{lemma2_to64, pow2};
use vstd::prelude::*;

verus! {

broadcast use vstd::string::group_string_axioms;

/// Tuning of retries.
#[derive(Debug, Clone, Copy, PartialEq)]
pub struct RetryPolicy {
    /// All attempts, the first included. 0 and 1 switch retrying off.
    pub max_attempts: u32,
    /// First wait; each further attempt doubles it.
    pub base_delay: Duration,
    /// Cap on a single wait, before jitter.
    pub max_delay: Duration,
    /// Longest wait that a server may ask for. Where it asks for more, its answer is
    /// handed back at once.
    pub max_retry_after: Duration,
    /// Whether methods that are not safe may be repeated.
    pub retry_unsafe_methods: bool,
}

/// Four attempts, waits from a quarter of a second up to eight seconds, and at most
/// thirty seconds on a server's request.
pub open spec fn is_default_policy(p: RetryPolicy) -> bool {
    &&& p.max_attempts == 4
    &&& p.base_delay@ == 250 * 1_000_000
    &&& p.max_delay@ == 8 * NANOS_PER_SEC
    &&& p.max_retry_after@ == 30 * NANOS_PER_SEC
    &&& !p.retry_unsafe_methods
}

impl Default for RetryPolicy {
    fn default() -> (r: Self)
        ensures
            is_default_policy(r),
    {
        RetryPolicy {
            max_attempts: 4,
            base_delay: Duration::from_millis(250),
            max_delay: Duration::from_secs(8),
            max_retry_after: Duration::from_secs(30),
            retry_unsafe_methods: false,
        }
    }
}

/// Methods that may always be repeated.
pub open spec fn is_safe(method: Method) -> bool {
    method is Get || method is Head || method is Options
}

/// Whether a method may always be repeated.
pub fn is_safe_method(method: Method) -> (r: bool)
    ensures
        r == is_safe(method),
{
    matches!(method, Method::Get | Method::Head | Method::Options)
}

/// Statuses worth another attempt.
pub open spec fn is_transient(status: u16) -> bool {
    ||| status == 408
    ||| status == 425
    ||| status == 429
    ||| status == 500
    ||| status == 502
    ||| status == 503
    ||| status == 504
}

/// Whether a status is worth another attempt.
pub fn should_retry_status(status: u16) -> (r: bool)
    ensures
        r == is_transient(status),
{
    status == 408 || status == 425 || status == 429 || status == 500 || status == 502 || status
        == 503 || status == 504
}

/// The first wait of a policy; a quarter of a second where it has none.
pub open spec fn base_nanos(p: RetryPolicy) -> nat {
    if p.base_delay@ == 0 {
        250 * 1_000_000
    } else {
        p.base_delay@
    }
}

/// The cap on one wait; eight seconds where the policy has none.
pub open spec fn cap_nanos(p: RetryPolicy) -> nat {
    if p.max_delay@ == 0 {
        (8 * NANOS_PER_SEC) as nat
    } else {
        p.max_delay@
    }
}

/// How often the wait before attempt number `attempt + 1` was doubled: at most `most` times.
pub open spec fn doublings(attempt: u32, most: nat) -> nat {
    if attempt == 0 {
        0
    } else {
        min_nat((attempt - 1) as nat, most)
    }
}

/// The full wait after an attempt, before jitter: doubled for each attempt, capped.
pub open spec fn full_wait(p: RetryPolicy, attempt: u32) -> nat {
    min_nat(
        min_nat(base_nanos(p) * pow2(doublings(attempt, 20)), MAX_NANOS as nat),
        cap_nanos(p),
    )
}

/// Half of the full wait; nanoseconds beyond 64 bits are dropped.
pub open spec fn half_wait(p: RetryPolicy, attempt: u32) -> nat {
    (full_wait(p, attempt) % 0x1_0000_0000_0000_0000) / 2
}

/// The wait after an attempt: half of the full wait, and up to as much again by chance.
pub open spec fn jittered_wait(p: RetryPolicy, attempt: u32, jitter: u64) -> nat {
    let half = half_wait(p, attempt);
    half + if half == 0 {
        0
    } else {
        jitter as nat % half
    }
}

/// `1 << min(attempt - 1, most)`.
pub(crate) fn doubling_factor(attempt: u32, most: u32) -> (r: u32)
    requires
        most <= 20,
    ensures
        r == pow2(doublings(attempt, most as nat)),
{
    let shift: u32 = if attempt == 0 {
        0
    } else if attempt - 1 < most {
        attempt - 1
    } else {
        most
    };
    let mut r: u32 = 1;
    let mut i: u32 = 0;
    proof {
        lemma2_to64();
    }
    while i < shift
        invariant
            i <= shift <= 20,
            r == pow2(i as nat),
        decreases shift - i,
    {
        proof {
            vstd::arithmetic::power2::lemma_pow2_unfold((i + 1) as nat);
            vstd::arithmetic::power2::lemma_pow2_strictly_increases(i as nat, 20);
            lemma2_to64();
        }
        r = r * 2;
        i = i + 1;
    }
    r
}

/// The nanoseconds of the current second, [`subsecond_of`] what the clock shows: a number
/// that other clients cannot predict. The contract leaves it open, but for its range.
pub fn clock_jitter() -> (r: u64)
    ensures
        r < 1_000_000_000,
{
    subsecond_of(since_epoch())
}

impl RetryPolicy {
    /// No retries.
    pub fn off() -> (r: Self)
        ensures
            r.max_attempts == 1,
            is_default_policy((RetryPolicy { max_attempts: 4, ..r })),
    {
        let mut r: RetryPolicy = RetryPolicy::default();
        r.max_attempts = 1;
        r
    }

    /// The policy with unsafe methods allowed or not.
    pub fn with_unsafe(self, allowed: bool) -> (r: Self)
        ensures
            r == (RetryPolicy { retry_unsafe_methods: allowed, ..self }),
    {
        let mut r: RetryPolicy = self;
        r.retry_unsafe_methods = allowed;
        r
    }

    /// How many attempts a method gets.
    pub open spec fn attempts(self, method: Method) -> u32 {
        if (is_safe(method) || self.retry_unsafe_methods) && self.max_attempts >= 1 {
            self.max_attempts
        } else {
            1
        }
    }

    /// How many attempts a method gets.
    pub fn attempts_for(&self, method: Method) -> (r: u32)
        ensures
            r == self.attempts(method),
    {
        if (is_safe_method(method) || self.retry_unsafe_methods) && self.max_attempts >= 1 {
            self.max_attempts
        } else {
            1
        }
    }

    /// The wait after an attempt, for a given jitter.
    pub fn backoff_with(&self, attempt: u32, jitter: u64) -> (r: Duration)
        ensures
            r@ == jittered_wait(*self, attempt, jitter),
    {
        let base: Duration = if self.base_delay.is_zero() {
            Duration::from_millis(250)
        } else {
            self.base_delay
        };
        let cap: Duration = if self.max_delay.is_zero() {
            Duration::from_secs(8)
        } else {
            self.max_delay
        };
        let factor: u32 = doubling_factor(attempt, 20);
        let raw: Duration = base.saturating_mul(factor).min(&cap);
        assert(raw@ == full_wait(*self, attempt));
        let nanos: u64 = (raw.as_nanos() % 0x1_0000_0000_0000_0000) as u64;
        let half: u64 = nanos / 2;
        let extra: u64 = if half == 0 {
            0
        } else {
            jitter % half
        };
        Duration::from_nanos(half + extra)
    }

    /// The wait after an attempt, with the clock as the source of jitter.
    pub fn backoff(&self, attempt: u32) -> (r: Duration)
        ensures
            exists|jitter: u64|
                jitter < 1_000_000_000 && r@ == #[trigger] jittered_wait(*self, attempt, jitter),
    {
        let jitter: u64 = clock_jitter();
        self.backoff_with(attempt, jitter)
    }
}

/// What to do after an attempt.
#[derive(Debug, Clone, Copy, PartialEq)]
pub enum Next {
    /// Hand back what came.
    Finish,
    /// Wait, then send the same request again.
    Repeat(Duration),
}

/// The attempts of one request.
#[derive(Debug, Clone, Copy, PartialEq)]
pub struct Attempts {
    pub policy: RetryPolicy,
    /// Whether the request can be sent again: a streamed body cannot.
    pub replayable: bool,
    /// How many attempts the request gets.
    pub limit: u32,
    /// Which attempt is under way, from 1.
    pub attempt: u32,
}

/// The length of the wait before a repetition, where there is one.
pub open spec fn next_wait(n: Next) -> Option<nat> {
    match n {
        Next::Finish => None,
        Next::Repeat(d) => Some(d@),
    }
}

impl Attempts {
    /// An attempt is under way, and it is one of those allowed.
    pub open spec fn wf(self) -> bool {
        1 <= self.attempt <= self.limit
    }

    /// Whether another attempt is left.
    pub open spec fn more(self) -> bool {
        self.replayable && self.attempt < self.limit
    }

    /// The first attempt of a request.
    pub open spec fn starting(policy: RetryPolicy, method: Method, replayable: bool) -> Attempts {
        Attempts {
            policy,
            replayable,
            limit: policy.attempts(method),
            attempt: 1,
        }
    }

    /// The wait after an answer: none where the status is not transient, where no
    /// attempt is left, or where the server asks for longer than the policy allows; else
    /// what the server asks for, else the policy's wait.
    pub open spec fn wait_after_answer(
        self,
        status: u16,
        requested: Option<Duration>,
        jitter: u64,
    ) -> Option<nat> {
        if !is_transient(status) || !self.more() {
            None
        } else {
            match requested {
                Some(d) => if d@ > self.policy.max_retry_after@ {
                    None
                } else {
                    Some(d@)
                },
                None => Some(jittered_wait(self.policy, self.attempt, jitter)),
            }
        }
    }

    /// The wait after a failure to get any answer.
    pub open spec fn wait_after_failure(self, jitter: u64) -> Option<nat> {
        if self.more() {
            Some(jittered_wait(self.policy, self.attempt, jitter))
        } else {
            None
        }
    }

    /// The attempts after a decision.
    pub open spec fn after(self, wait: Option<nat>) -> Attempts {
        match wait {
            Some(_) => Attempts { attempt: (self.attempt + 1) as u32, ..self },
            None => self,
        }
    }

    /// Starts a request.
    pub fn start(policy: RetryPolicy, method: Method, replayable: bool) -> (r: Attempts)
        ensures
            r == Attempts::starting(policy, method, replayable),
            r.wf(),
    {
        Attempts { policy, replayable, limit: policy.attempts_for(method), attempt: 1 }
    }

    /// Decides what follows an answer. `requested` is the wait that the server asks for.
    pub fn on_answer(&mut self, status: u16, requested: Option<Duration>, jitter: u64) -> (r: Next)
        ensures
            next_wait(r) == old(self).wait_after_answer(status, requested, jitter),
            *final(self) == old(self).after(next_wait(r)),
            old(self).wf() ==> final(self).wf(),
    {
        if !should_retry_status(status) || !self.replayable || self.attempt >= self.limit {
            return Next::Finish;
        }
        let wait: Duration = match requested {
            Some(d) => {
                if d.longer_than(&self.policy.max_retry_after) {
                    return Next::Finish;
                }
                d
            },
            None => self.policy.backoff_with(self.attempt, jitter),
        };
        self.attempt = self.attempt + 1;
        Next::Repeat(wait)
    }

    /// Decides what follows a failure to get any answer.
    pub fn on_failure(&mut self, jitter: u64) -> (r: Next)
        ensures
            next_wait(r) == old(self).wait_after_failure(jitter),
            *final(self) == old(self).after(next_wait(r)),
            old(self).wf() ==> final(self).wf(),
    {
        if !self.replayable || self.attempt >= self.limit {
            return Next::Finish;
        }
        let wait: Duration = self.policy.backoff_with(self.attempt, jitter);
        self.attempt = self.attempt + 1;
        Next::Repeat(wait)
    }
}

/// What came of one attempt.
pub enum Outcome {
    Answer { status: u16, requested: Option<Duration>, jitter: u64 },
    Failure { jitter: u64 },
}

/// The wait after an outcome.
pub open spec fn wait_after(a: Attempts, o: Outcome) -> Option<nat> {
    match o {
        Outcome::Answer { status, requested, jitter } => a.wait_after_answer(
            status,
            requested,
            jitter,
        ),
        Outcome::Failure { jitter } => a.wait_after_failure(jitter),
    }
}

/// How often a request is sent, when its attempts come out as given.
pub open spec fn sends(a: Attempts, outcomes: Seq<Outcome>) -> nat
    decreases outcomes.len(),
{
    if outcomes.len() == 0 {
        1
    } else {
        match wait_after(a, outcomes[0]) {
            Some(w) => 1 + sends(a.after(Some(w)), outcomes.drop_first()),
            None => 1,
        }
    }
}

/// Whatever comes back, a request is sent at most as often as its policy allows.
pub proof fn law_attempts_are_bounded(a: Attempts, outcomes: Seq<Outcome>)
    requires
        a.wf(),
    ensures
        sends(a, outcomes) <= a.limit - a.attempt + 1,
    decreases outcomes.len(),
{
    if outcomes.len() > 0 {
        if let Some(w) = wait_after(a, outcomes[0]) {
            law_attempts_are_bounded(a.after(Some(w)), outcomes.drop_first());
        }
    }
}

/// What is handed back, when the attempts of a request come out as given: nothing as long
/// as another attempt is under way.
pub open spec fn handed_back(a: Attempts, outcomes: Seq<Outcome>) -> Option<Outcome>
    decreases outcomes.len(),
{
    if outcomes.len() == 0 {
        None
    } else {
        match wait_after(a, outcomes[0]) {
            Some(w) => handed_back(a.after(Some(w)), outcomes.drop_first()),
            None => Some(outcomes[0]),
        }
    }
}

/// What is handed back came of the last attempt that was sent.
pub proof fn law_the_last_attempt_counts(a: Attempts, outcomes: Seq<Outcome>)
    ensures
        handed_back(a, outcomes) matches Some(o) ==> sends(a, outcomes) <= outcomes.len() && o
            == outcomes[sends(a, outcomes) - 1],
    decreases outcomes.len(),
{
    if outcomes.len() > 0 {
        if let Some(w) = wait_after(a, outcomes[0]) {
            law_the_last_attempt_counts(a.after(Some(w)), outcomes.drop_first());
        }
    }
}

/// Where unsafe methods may not be repeated, a `POST`, `PUT`, `PATCH` or `DELETE` is sent
/// exactly once, whatever comes back.
pub proof fn law_unsafe_methods_are_sent_once(
    policy: RetryPolicy,
    method: Method,
    replayable: bool,
    outcomes: Seq<Outcome>,
)
    requires
        !policy.retry_unsafe_methods,
        !is_safe(method),
    ensures
        sends(Attempts::starting(policy, method, replayable), outcomes) == 1,
{
    law_attempts_are_bounded(Attempts::starting(policy, method, replayable), outcomes);
}

/// A request whose body cannot be replayed is sent once.
pub proof fn law_streams_are_sent_once(
    policy: RetryPolicy,
    method: Method,
    outcomes: Seq<Outcome>,
)
    ensures
        sends(Attempts::starting(policy, method, false), outcomes) == 1,
{
}

/// A server that asks for more time than the policy allows is not waited for.
pub proof fn law_long_requests_are_handed_back(
    a: Attempts,
    status: u16,
    requested: Duration,
    jitter: u64,
)
    requires
        requested@ > a.policy.max_retry_after@,
    ensures
        a.wait_after_answer(status, Some(requested), jitter) is None,
{
}

/// A wait is at most the full wait, and so within the cap. It is at least half of the full
/// wait as long as that one's nanoseconds fit in 64 bits.
pub proof fn law_waits_are_jittered_and_capped(policy: RetryPolicy, attempt: u32, jitter: u64)
    ensures
        full_wait(policy, attempt) < 0x1_0000_0000_0000_0000 ==> full_wait(policy, attempt) / 2
            <= jittered_wait(policy, attempt, jitter),
        jittered_wait(policy, attempt, jitter) <= full_wait(policy, attempt) <= cap_nanos(policy),
{
    let half = half_wait(policy, attempt);
    if half > 0 {
        vstd::arithmetic::div_mod::lemma_mod_bound(jitter as int, half as int);
    }
}

/// Each further attempt waits at least as long in full as the one before.
pub proof fn law_waits_grow(policy: RetryPolicy, attempt: u32)
    requires
        1 <= attempt < u32::MAX,
    ensures
        full_wait(policy, attempt) <= full_wait(policy, (attempt + 1) as u32),
{
    let a = doublings(attempt, 20);
    let b = doublings((attempt + 1) as u32, 20);
    if a < b {
        vstd::arithmetic::power2::lemma_pow2_strictly_increases(a, b);
    }
    vstd::arithmetic::mul::lemma_mul_inequality(
        pow2(a) as int,
        pow2(b) as int,
        base_nanos(policy) as int,
    );
    vstd::arithmetic::mul::lemma_mul_is_commutative(pow2(a) as int, base_nanos(policy) as int);
    vstd::arithmetic::mul::lemma_mul_is_commutative(pow2(b) as int, base_nanos(policy) as int);
}

/// The full wait is the policy's first wait, twice as long after each further attempt, up to
/// the policy's cap. It is doubled at most 20 times. A policy without a first wait starts at
/// a quarter of a second, one without a cap stops at eight seconds.
pub proof fn law_full_waits_double(policy: RetryPolicy, attempt: u32)
    requires
        policy.max_delay@ <= MAX_NANOS,
        1 <= attempt < u32::MAX,
    ensures
        ({
            let first = if policy.base_delay@ > 0 {
                policy.base_delay@
            } else {
                250_000_000
            };
            let most = if policy.max_delay@ > 0 {
                policy.max_delay@
            } else {
                8_000_000_000
            };
            let next = (attempt + 1) as u32;
            &&& full_wait(policy, 1) == if first <= most {
                first
            } else {
                most
            }
            &&& attempt <= 20 ==> full_wait(policy, next) == if 2 * full_wait(policy, attempt)
                <= most {
                2 * full_wait(policy, attempt)
            } else {
                most
            }
            &&& attempt > 20 ==> full_wait(policy, next) == full_wait(policy, attempt)
            &&& full_wait(policy, attempt) > 0
        }),
{
    let base = base_nanos(policy);
    let next = (attempt + 1) as u32;
    let a = doublings(attempt, 20);
    let b = doublings(next, 20);
    lemma2_to64();
    vstd::arithmetic::power2::lemma_pow2_pos(a);
    assert(base * pow2(a) > 0) by (nonlinear_arith)
        requires
            base > 0,
            pow2(a) > 0,
    ;
    if attempt <= 20 {
        assert(b == a + 1);
        vstd::arithmetic::power2::lemma_pow2_unfold(b);
        assert(base * (2 * pow2(a)) == 2 * (base * pow2(a))) by (nonlinear_arith);
    }
    assert(doublings(1, 20) == 0);
    assert(base * pow2(0) == base);
}

/// Between two attempts there is a wait, unless the server says otherwise: at least half of
/// the full wait of the attempt and at most the whole, the same after an answer as after a
/// failure to get one.
pub proof fn law_attempts_are_spaced(a: Attempts, status: u16, jitter: u64)
    requires
        full_wait(a.policy, a.attempt) < 0x1_0000_0000_0000_0000,
    ensures
        a.wait_after_answer(status, None, jitter) matches Some(n) ==> full_wait(
            a.policy,
            a.attempt,
        ) / 2 <= n <= full_wait(a.policy, a.attempt),
        a.wait_after_failure(jitter) matches Some(n) ==> full_wait(a.policy, a.attempt) / 2 <= n
            <= full_wait(a.policy, a.attempt),
        ({
            let half = full_wait(a.policy, a.attempt) / 2;
            jitter < half ==> {
                &&& a.wait_after_answer(status, None, jitter) matches Some(n) ==> n == half + jitter
                &&& a.wait_after_failure(jitter) matches Some(n) ==> n == half + jitter
            }
        }),
{
    law_waits_are_jittered_and_capped(a.policy, a.attempt, jitter);
    let half = half_wait(a.policy, a.attempt);
    if jitter < half {
        vstd::arithmetic::div_mod::lemma_small_mod(jitter as nat, half);
    }
}

/// Which answers are followed by another attempt: those that are transient, while attempts
/// are left, and where the server asks for no more time than the policy allows. What it
/// asks for is what is waited. A failure to get an answer is always followed by another
/// attempt while one is left.
pub proof fn law_transient_answers_are_repeated(
    a: Attempts,
    status: u16,
    requested: Option<Duration>,
    jitter: u64,
)
    ensures
        a.wait_after_answer(status, requested, jitter) is Some <==> {
            &&& status == 408 || status == 425 || status == 429 || status == 500 || (502 <= status
                <= 504)
            &&& a.replayable
            &&& a.attempt < a.limit
            &&& requested matches Some(d) ==> d@ <= a.policy.max_retry_after@
        },
        requested matches Some(d) ==> (a.wait_after_answer(status, requested, jitter) matches Some(
            n,
        ) ==> n == d@),
        a.wait_after_failure(jitter) is Some <==> a.replayable && a.attempt < a.limit,
        a.wait_after_answer(status, requested, jitter) matches Some(n) ==> a.after(
            Some(n),
        ).attempt == a.attempt + 1,
{
}

/// A request that may be repeated and never gets an answer is sent as often as its policy
/// allows: as often as `max_attempts` says for a safe method, and for any method where
/// unsafe ones may be repeated.
pub proof fn law_lost_requests_use_every_attempt(
    policy: RetryPolicy,
    method: Method,
    outcomes: Seq<Outcome>,
)
    requires
        method is Get || method is Head || method is Options || policy.retry_unsafe_methods,
        policy.max_attempts >= 1,
        outcomes.len() >= policy.max_attempts,
        forall|i: int| 0 <= i < outcomes.len() ==> #[trigger] outcomes[i] is Failure,
    ensures
        sends(Attempts::starting(policy, method, true), outcomes) == policy.max_attempts,
{
    lemma_lost_requests(Attempts::starting(policy, method, true), outcomes);
}

proof fn lemma_lost_requests(a: Attempts, outcomes: Seq<Outcome>)
    requires
        a.wf(),
        a.replayable,
        outcomes.len() >= a.limit - a.attempt,
        forall|i: int| 0 <= i < outcomes.len() ==> #[trigger] outcomes[i] is Failure,
    ensures
        sends(a, outcomes) == a.limit - a.attempt + 1,
    decreases outcomes.len(),
{
    if a.attempt < a.limit {
        assert(outcomes[0] is Failure);
        let w = wait_after(a, outcomes[0])->0;
        let rest = outcomes.drop_first();
        assert forall|i: int| 0 <= i < rest.len() implies #[trigger] rest[i] is Failure by {
            assert(rest[i] == outcomes[i + 1]);
        }
        lemma_lost_requests(a.after(Some(w)), rest);
    } else if outcomes.len() > 0 {
        assert(wait_after(a, outcomes[0]) is None) by {
            assert(outcomes[0] is Failure);
        }
    }
}

/// The key of one logical request: the clock in nanoseconds, a running number and the
/// process, in hexadecimal.
pub open spec fn key_text(nanos: nat, count: nat, process: nat) -> Seq<char> {
    "writ-"@ + hex_text(nanos) + "-"@ + hex_text(count) + "-"@ + hex_text(process)
}

/// The key of one logical request. It is made once and kept for every repetition, so that
/// the server recognises them.
pub fn idempotency_key(nanos: u128, count: u64, process: u32) -> (r: String)
    ensures
        r@ == key_text(nanos as nat, count as nat, process as nat),
{
    let mut r: String = "writ-".to_owned();
    let a: String = hex_u128(nanos);
    let b: String = hex_u128(count as u128);
    let c: String = hex_u128(process as u128);
    r.append(a.as_str());
    r.append("-");
    r.append(b.as_str());
    r.append("-");
    r.append(c.as_str());
    r
}

proof fn lemma_split_at_dash(a: Seq<char>, b: Seq<char>, x: Seq<char>, y: Seq<char>)
    requires
        !a.contains('-'),
        !b.contains('-'),
        a + seq!['-'] + x == b + seq!['-'] + y,
    ensures
        a == b,
        x == y,
{
    let left = a + seq!['-'] + x;
    let right = b + seq!['-'] + y;
    assert(left[a.len() as int] == '-');
    assert(right[b.len() as int] == '-');
    if a.len() < b.len() {
        assert(right[a.len() as int] == b[a.len() as int]);
        assert(b.contains('-'));
    }
    if b.len() < a.len() {
        assert(left[b.len() as int] == a[b.len() as int]);
        assert(a.contains('-'));
    }
    assert forall|i: int| 0 <= i < a.len() implies a[i] == b[i] by {
        assert(left[i] == a[i]);
        assert(right[i] == b[i]);
    }
    assert(a == b);
    assert(left.skip(a.len() as int + 1) == x);
    assert(right.skip(a.len() as int + 1) == y);
}

/// Keys tell requests apart: two keys are the same text only where clock, running number
/// and process are all the same.
pub proof fn law_keys_are_distinct(
    nanos: nat,
    count: nat,
    process: nat,
    nanos2: nat,
    count2: nat,
    process2: nat,
)
    requires
        key_text(nanos, count, process) == key_text(nanos2, count2, process2),
    ensures
        nanos == nanos2,
        count == count2,
        process == process2,
{
    let (a, b, c) = (hex_text(nanos), hex_text(count), hex_text(process));
    let (x, y, z) = (hex_text(nanos2), hex_text(count2), hex_text(process2));
    reveal_strlit("-");
    assert("-"@ == seq!['-']);
    let first = key_text(nanos, count, process);
    let second = key_text(nanos2, count2, process2);
    let n = "writ-"@.len() as int;
    let ra = b + seq!['-'] + c;
    let rx = y + seq!['-'] + z;
    assert(first.skip(n) == a + seq!['-'] + ra);
    assert(second.skip(n) == x + seq!['-'] + rx);
    lemma_hex_text(nanos);
    lemma_hex_text(count);
    lemma_hex_text(nanos2);
    lemma_hex_text(count2);
    lemma_split_at_dash(a, x, ra, rx);
    lemma_split_at_dash(b, y, c, z);
    lemma_hex_text_injective(nanos, nanos2);
    lemma_hex_text_injective(count, count2);
    lemma_hex_text_injective(process, process2);
}

} // verus!
