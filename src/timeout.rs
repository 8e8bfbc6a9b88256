use vstd::prelude::*;
use std::time::{Duration, Instant};
use vstd::arithmetic::div_mod::lemma_fundamental_div_mod;

verus! {

/// A point in time of the monotonic clock, carried through without being read.
#[verifier::external_type_specification]
#[verifier::external_body]
pub struct ExInstant(Instant);

/// The length of a duration in whole nanoseconds, as `Duration::as_nanos` reports it.
pub uninterp spec fn nanos_of(d: Duration) -> nat;

pub const NANOS_PER_SEC: u128 = 1_000_000_000;

/// Relies on Duration::as_nanos: the whole nanoseconds of `d`.
#[verifier::external_body]
fn duration_as_nanos(d: Duration) -> (r: u128)
    ensures
        r == nanos_of(d),
{
    d.as_nanos()
}

/// Relies on Duration::new: `secs` seconds and `nanos` nanoseconds, the
/// nanoseconds under one second so that no carry can overflow.
#[verifier::external_body]
fn duration_new(secs: u64, nanos: u32) -> (r: Duration)
    requires
        nanos < 1_000_000_000,
    ensures
        nanos_of(r) == secs * 1_000_000_000 + nanos,
{
    Duration::new(secs, nanos)
}

/// Relies on Instant::now: the current time of the monotonic clock.
#[verifier::external_body]
fn instant_now() -> (r: Instant) {
    Instant::now()
}

/// Relies on Instant::elapsed: the time since `start`, by the monotonic clock.
#[verifier::external_body]
fn instant_elapsed(start: &Instant) -> (r: Duration) {
    start.elapsed()
}

/// Whether a wait with budget `timeout` (none: no limit) is used up after `elapsed`.
pub open spec fn elapsed_spec(timeout: Option<u128>, elapsed: u128) -> bool {
    match timeout {
        Some(t) => elapsed >= t,
        None => false,
    }
}

/// What is left of a budget `timeout` after `elapsed`, never below zero.
pub open spec fn leftover_spec(timeout: Option<u128>, elapsed: u128) -> Option<u128> {
    match timeout {
        Some(t) => Some(
            if elapsed >= t {
                0
            } else {
                (t - elapsed) as u128
            },
        ),
        None => None,
    }
}

/// Whether a wait with budget `timeout`, in nanoseconds, is used up after `elapsed` nanoseconds.
pub fn is_elapsed(timeout: Option<u128>, elapsed: u128) -> (r: bool)
    ensures
        r == elapsed_spec(timeout, elapsed),
{
    match timeout {
        Some(t) => elapsed >= t,
        None => false,
    }
}

/// The nanoseconds left of a budget `timeout` after `elapsed` nanoseconds.
pub fn leftover_nanos(timeout: Option<u128>, elapsed: u128) -> (r: Option<u128>)
    ensures
        r == leftover_spec(timeout, elapsed),
{
    match timeout {
        Some(t) => Some(
            if elapsed >= t {
                0
            } else {
                t - elapsed
            },
        ),
        None => None,
    }
}

/// A duration of `n` nanoseconds; the longest one that a duration can hold
/// where `n` is longer.
pub fn duration_of_nanos(n: u128) -> (r: Duration)
    ensures
        nanos_of(r) <= n,
        n / NANOS_PER_SEC <= u64::MAX ==> nanos_of(r) == n,
{
    let secs = n / NANOS_PER_SEC;
    let nanos = (n % NANOS_PER_SEC) as u32;
    proof {
        lemma_fundamental_div_mod(n as int, NANOS_PER_SEC as int);
    }
    if secs <= u64::MAX as u128 {
        duration_new(secs as u64, nanos)
    } else {
        proof {
            assert(secs * NANOS_PER_SEC >= (u64::MAX + 1) * NANOS_PER_SEC) by (nonlinear_arith)
                requires secs >= u64::MAX + 1;
        }
        duration_new(u64::MAX, 999_999_999)
    }
}

/// A time budget for a wait that takes several steps: each step asks what is
/// left instead of starting the clock again.
#[derive(Debug)]
pub struct PollTimeout {
    timeout: Option<u128>,
    start: Instant,
}

impl PollTimeout {
    /// The budget in nanoseconds; `None` for a wait without limit.
    pub closed spec fn budget(&self) -> Option<u128> {
        self.timeout
    }

    /// A budget of `timeout` that starts now; `None` is no limit.
    pub fn new(timeout: Option<Duration>) -> (r: PollTimeout)
        ensures
            r.budget() == (match timeout {
                Some(d) => Some(nanos_of(d) as u128),
                None => None,
            }),
    {
        let timeout = match timeout {
            Some(d) => Some(duration_as_nanos(d)),
            None => None,
        };
        PollTimeout { timeout, start: instant_now() }
    }

    /// Whether the budget is used up; never for a wait without limit.
    pub fn elapsed(&self) -> (r: bool)
        ensures
            self.budget() is None ==> !r,
            self.budget() == Some(0u128) ==> r,
    {
        let elapsed = duration_as_nanos(instant_elapsed(&self.start));
        is_elapsed(self.timeout, elapsed)
    }

    /// The nanoseconds left of the budget: zero once it is used up, `None`
    /// for a wait without limit.
    pub fn remaining(&self) -> (r: Option<u128>)
        ensures
            r is Some <==> self.budget() is Some,
            r matches Some(n) ==> n <= self.budget()->0,
            self.budget() == Some(0u128) ==> r == Some(0u128),
    {
        let elapsed = duration_as_nanos(instant_elapsed(&self.start));
        leftover_nanos(self.timeout, elapsed)
    }

    /// What is left of the budget: zero once it is used up, `None` for a wait
    /// without limit.
    pub fn leftover(&self) -> (r: Option<Duration>)
        ensures
            r is Some <==> self.budget() is Some,
            r matches Some(d) ==> nanos_of(d) <= self.budget()->0,
    {
        match self.remaining() {
            Some(n) => {
                Some(duration_of_nanos(n))
            },
            None => None,
        }
    }
}

} // verus!
