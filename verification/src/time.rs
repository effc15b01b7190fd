//! Spans of time, counted in nanoseconds.

use vstd::prelude::*;

verus! {

/// Nanoseconds in one second.
pub const NANOS_PER_SEC: u128 = 1_000_000_000;

/// The longest span: `u64::MAX` seconds and 999 999 999 nanoseconds.
pub const MAX_NANOS: u128 = 18_446_744_073_709_551_615_999_999_999;

/// A span of time. Its view is its length in nanoseconds.
#[derive(Debug, Clone, Copy, PartialEq, Eq, Structural)]
pub struct Duration {
    nanos: u128,
}

impl View for Duration {
    type V = nat;

    closed spec fn view(&self) -> nat {
        self.nanos as nat
    }
}

/// The shorter of two lengths.
pub open spec fn min_nat(a: nat, b: nat) -> nat {
    if a <= b {
        a
    } else {
        b
    }
}

impl Duration {
    #[verifier::type_invariant]
    closed spec fn fits(self) -> bool {
        self.nanos <= MAX_NANOS
    }

    /// A span of whole seconds.
    pub fn from_secs(secs: u64) -> (r: Self)
        ensures
            r@ == secs * NANOS_PER_SEC,
    {
        Duration { nanos: secs as u128 * NANOS_PER_SEC }
    }

    /// A span of whole milliseconds.
    pub fn from_millis(millis: u64) -> (r: Self)
        ensures
            r@ == millis * 1_000_000,
    {
        Duration { nanos: millis as u128 * 1_000_000 }
    }

    /// A span of nanoseconds.
    pub fn from_nanos(nanos: u64) -> (r: Self)
        ensures
            r@ == nanos,
    {
        Duration { nanos: nanos as u128 }
    }

    /// A span of seconds and nanoseconds, the longest span where that is too long.
    pub fn new(secs: u64, nanos: u32) -> (r: Self)
        ensures
            r@ == min_nat((secs * NANOS_PER_SEC + nanos) as nat, MAX_NANOS as nat),
    {
        let total: u128 = secs as u128 * NANOS_PER_SEC + nanos as u128;
        Duration { nanos: if total <= MAX_NANOS { total } else { MAX_NANOS } }
    }

    /// Whether the span is empty.
    pub fn is_zero(&self) -> (r: bool)
        ensures
            r == (self@ == 0),
    {
        self.nanos == 0
    }

    /// The length in nanoseconds.
    pub fn as_nanos(&self) -> (r: u128)
        ensures
            r == self@,
            r <= MAX_NANOS,
    {
        proof {
            use_type_invariant(self);
        }
        self.nanos
    }

    /// The whole seconds of the span.
    pub fn as_secs(&self) -> (r: u64)
        ensures
            r == self@ / NANOS_PER_SEC as nat,
    {
        proof {
            use_type_invariant(self);
        }
        (self.nanos / NANOS_PER_SEC) as u64
    }

    /// The span `factor` times over, the longest span where that is too long.
    pub fn saturating_mul(&self, factor: u32) -> (r: Self)
        ensures
            r@ == min_nat(self@ * factor as nat, MAX_NANOS as nat),
    {
        proof {
            use_type_invariant(self);
        }
        let limit: u128 = MAX_NANOS;
        let n: u128 = self.nanos;
        assert(n * factor <= 18_446_744_073_709_551_615_999_999_999u128 * 4_294_967_295)
            by (nonlinear_arith)
            requires
                n <= 18_446_744_073_709_551_615_999_999_999u128,
                factor <= 4_294_967_295,
        ;
        let total: u128 = n * factor as u128;
        Duration { nanos: if total <= limit { total } else { limit } }
    }

    /// The shorter of two spans.
    pub fn min(&self, other: &Duration) -> (r: Self)
        ensures
            r@ == min_nat(self@, other@),
    {
        proof {
            use_type_invariant(self);
            use_type_invariant(other);
        }
        Duration { nanos: if self.nanos <= other.nanos { self.nanos } else { other.nanos } }
    }

    /// What is left of the span after another, nothing where that is as long.
    pub fn saturating_sub(&self, other: &Duration) -> (r: Self)
        ensures
            r@ == if self@ > other@ {
                (self@ - other@) as nat
            } else {
                0
            },
    {
        proof {
            use_type_invariant(self);
        }
        Duration { nanos: if self.nanos > other.nanos { self.nanos - other.nanos } else { 0 } }
    }

    /// Whether the span is longer than another.
    pub fn longer_than(&self, other: &Duration) -> (r: bool)
        ensures
            r == (self@ > other@),
    {
        self.nanos > other.nanos
    }
}

/// The time since the unix epoch by `SystemTime::elapsed` of `UNIX_EPOCH`: seconds and
/// the nanoseconds of the last one, or nothing where the clock stands before it.
#[verifier::external_body]
pub(crate) fn since_epoch() -> (r: Option<(u64, u32)>)
    ensures
        r matches Some((_, nanos)) ==> nanos < 1_000_000_000,
{
    match std::time::UNIX_EPOCH.elapsed() {
        Ok(d) => Some((d.as_secs(), d.subsec_nanos())),
        Err(_) => None,
    }
}

/// The unix time in seconds, given the time since the epoch: 0 before it.
pub open spec fn unix_seconds(elapsed: Option<(u64, u32)>) -> u64 {
    match elapsed {
        Some((secs, _)) => secs,
        None => 0,
    }
}

/// The unix time in seconds, given the time since the epoch.
pub fn seconds_of(elapsed: Option<(u64, u32)>) -> (r: u64)
    ensures
        r == unix_seconds(elapsed),
{
    match elapsed {
        Some((secs, _)) => secs,
        None => 0,
    }
}

/// The nanoseconds of the current second, given the time since the epoch: 0 before it.
pub open spec fn subsecond_nanos(elapsed: Option<(u64, u32)>) -> u64 {
    match elapsed {
        Some((_, nanos)) => nanos as u64,
        None => 0,
    }
}

/// The nanoseconds of the current second, given the time since the epoch.
pub fn subsecond_of(elapsed: Option<(u64, u32)>) -> (r: u64)
    ensures
        r == subsecond_nanos(elapsed),
{
    match elapsed {
        Some((_, nanos)) => nanos as u64,
        None => 0,
    }
}

} // verus!
