use std::time::Duration;
use vstd::prelude::*;

verus! {

/// Two to the power `n`.
pub open spec fn pow2(n: nat) -> nat
    decreases n,
{
    if n == 0 {
        1
    } else {
        2 * pow2((n - 1) as nat)
    }
}

/// The largest undisturbed delay, in milliseconds, for which the jitter
/// window below is stated: far below where the backoff's arithmetic saturates.
pub const GROWTH_LIMIT_MS: u64 = 0x10_0000_0000_0000;

/// The exponential delay before jitter: `min_ms` doubled `retry` times.
pub open spec fn base_ms(min_ms: u64, retry: nat) -> nat {
    (min_ms as nat) * pow2(retry)
}

/// Whether the exponential delay for `retry` is exact: the exponent fits a
/// `u32` and the delay stays under `GROWTH_LIMIT_MS`.
pub open spec fn growth_exact(min_ms: u64, retry: nat) -> bool {
    retry < 32 && base_ms(min_ms, retry) <= GROWTH_LIMIT_MS
}

/// The bounds of the backoff applied to a delay: at most `max_ms` where that
/// is set, then at least `min_ms`.
pub open spec fn clamp_ms(x: int, min_ms: u64, max_ms: Option<u64>) -> int {
    let capped = match max_ms {
        Some(m) => if x <= m {
            x
        } else {
            m as int
        },
        None => x,
    };
    if capped >= min_ms {
        capped
    } else {
        min_ms as int
    }
}

/// Relies on `exponential_backoff::Backoff::new` and `Backoff::next` (version 1.2):
/// the delay before retry number `retry` of a backoff made with `retries`, `min`
/// and `max`, in milliseconds. `next` returns `None` exactly when `retry` equals
/// `retries.saturating_add(1)`. Otherwise it takes `min` doubled `retry` times
/// (saturating), keeps it or moves it by a random jitter of at most 29 percent
/// down or up, and clamps the result first to at most `max`, then to at least
/// `min`. `new` panics on `retries == 0`, and `next` overflows its counter on a
/// `retry` past `retries` at `u32::MAX`.
#[verifier::external_body]
fn backoff_next(retries: u32, min_ms: u64, max_ms: Option<u64>, retry: u32) -> (r: Option<u128>)
    requires
        retries >= 1,
        retry <= retries,
    ensures
        r is None <==> (retries == u32::MAX && retry == u32::MAX),
        r matches Some(d) ==> min_ms <= d,
        r matches Some(d) ==> (max_ms matches Some(m) ==> d <= m || d == min_ms),
        r matches Some(d) ==> (growth_exact(min_ms, retry as nat) ==> clamp_ms(
            (71 * base_ms(min_ms, retry as nat) / 100) as int,
            min_ms,
            max_ms,
        ) <= d <= clamp_ms((129 * base_ms(min_ms, retry as nat) / 100) as int, min_ms, max_ms)),
{
    let max = match max_ms {
        Some(m) => Some(Duration::from_millis(m)),
        None => None,
    };
    let backoff = exponential_backoff::Backoff::new(retries, Duration::from_millis(min_ms), max);
    match backoff.next(retry) {
        Some(d) => Some(d.as_millis()),
        None => None,
    }
}

/// At most `max_ms`, where that is set.
pub open spec fn cap_ms(x: int, max_ms: Option<u64>) -> int {
    match max_ms {
        Some(m) => if x <= m {
            x
        } else {
            m as int
        },
        None => x,
    }
}

/// A delay made to respect `max_ms`.
fn cap_delay(d: u128, max_ms: Option<u64>) -> (r: u128)
    ensures
        r == cap_ms(d as int, max_ms),
{
    match max_ms {
        Some(m) => if d > m as u128 {
            m as u128
        } else {
            d
        },
        None => d,
    }
}

/// Paces reconnect attempts: the wait before each attempt grows exponentially
/// from `min_ms`, with a random jitter, never exceeds `max_ms` where one is set,
/// and runs out after `max_retries` attempts.
#[derive(Debug, Clone, Copy)]
pub struct BackoffPolicy {
    min_ms: u64,
    max_ms: Option<u64>,
    max_retries: u32,
}

impl BackoffPolicy {
    /// The shortest wait, in milliseconds, unless `max_ms` is shorter.
    pub closed spec fn spec_min_ms(self) -> u64 {
        self.min_ms
    }

    /// The longest wait, in milliseconds, if there is one.
    pub closed spec fn spec_max_ms(self) -> Option<u64> {
        self.max_ms
    }

    /// How many reconnect attempts the policy allows.
    pub closed spec fn spec_max_retries(self) -> u32 {
        self.max_retries
    }

    /// A policy that waits at least a millisecond and allows at least one attempt.
    pub open spec fn wf(self) -> bool {
        self.spec_min_ms() > 0 && self.spec_max_retries() > 0
    }

    /// The shortest wait that `next(retry)` can give while the growth is exact.
    pub open spec fn delay_floor(self, retry: nat) -> int {
        cap_ms(
            clamp_ms(
                (71 * base_ms(self.spec_min_ms(), retry) / 100) as int,
                self.spec_min_ms(),
                self.spec_max_ms(),
            ),
            self.spec_max_ms(),
        )
    }

    /// The longest wait that `next(retry)` can give while the growth is exact.
    pub open spec fn delay_ceiling(self, retry: nat) -> int {
        cap_ms(
            clamp_ms(
                (129 * base_ms(self.spec_min_ms(), retry) / 100) as int,
                self.spec_min_ms(),
                self.spec_max_ms(),
            ),
            self.spec_max_ms(),
        )
    }

    /// A policy with the given bounds.
    pub fn new(max_retries: u32, min_ms: u64, max_ms: Option<u64>) -> (r: BackoffPolicy)
        ensures
            r.spec_min_ms() == min_ms,
            r.spec_max_ms() == max_ms,
            r.spec_max_retries() == max_retries,
    {
        BackoffPolicy { min_ms, max_ms, max_retries }
    }

    /// The shortest wait, in milliseconds, unless `max_ms` is shorter.
    pub fn min_ms(&self) -> (r: u64)
        ensures
            r == self.spec_min_ms(),
    {
        self.min_ms
    }

    /// The longest wait, in milliseconds, if there is one.
    pub fn max_ms(&self) -> (r: Option<u64>)
        ensures
            r == self.spec_max_ms(),
    {
        self.max_ms
    }

    /// How many reconnect attempts the policy allows.
    pub fn max_retries(&self) -> (r: u32)
        ensures
            r == self.spec_max_retries(),
    {
        self.max_retries
    }

    /// The wait in milliseconds before the attempt that follows `retry` earlier
    /// ones, or `None` once `retry` is past `max_retries`. The wait is random
    /// within a window around `min_ms` doubled `retry` times; it is never
    /// longer than `max_ms`, and never shorter than `min_ms` unless `max_ms` is.
    pub fn next(&self, retry: u64) -> (r: Option<u128>)
        requires
            self.wf(),
        ensures
            retry > self.spec_max_retries() ==> r is None,
            retry <= self.spec_max_retries() ==> r is Some,
            r matches Some(d) ==> (self.spec_max_ms() matches Some(m) ==> d <= m),
            r matches Some(d) ==> self.spec_min_ms() <= d || self.spec_max_ms() == Some(d as u64),
            r matches Some(d) ==> d > 0 || self.spec_max_ms() == Some(0u64),
            r matches Some(d) ==> (growth_exact(self.spec_min_ms(), retry as nat)
                ==> self.delay_floor(retry as nat) <= d <= self.delay_ceiling(retry as nat)),
    {
        if retry > self.max_retries as u64 {
            return None;
        }
        // The backoff's own count stops one short of `u32::MAX`; from 32 on its
        // exponent saturates, so the attempt before gives the same window.
        let asked: u32 = if retry == 0xffff_ffff {
            0xffff_fffe
        } else {
            retry as u32
        };
        match backoff_next(self.max_retries, self.min_ms, self.max_ms, asked) {
            Some(d) => Some(cap_delay(d, self.max_ms)),
            None => None,
        }
    }
}

/// Each doubling step at least doubles: `pow2(b) >= 2 * pow2(a)` for `a < b`.
proof fn lemma_pow2_grows(a: nat, b: nat)
    requires
        a < b,
    ensures
        pow2(b) >= 2 * pow2(a),
        pow2(a) >= 1,
    decreases b - a,
{
    reveal_with_fuel(pow2, 2);
    if b == a + 1 {
        lemma_pow2_positive(a);
    } else {
        lemma_pow2_grows(a, (b - 1) as nat);
        lemma_pow2_positive((b - 1) as nat);
    }
}

proof fn lemma_pow2_positive(n: nat)
    ensures
        pow2(n) >= 1,
    decreases n,
{
    if n > 0 {
        lemma_pow2_positive((n - 1) as nat);
    }
}

/// The waits never shrink as attempts accumulate: while the growth is exact,
/// every wait that `next` can give after `r1` attempts is at most every wait it
/// can give after more attempts `r2`.
pub proof fn lemma_delays_non_decreasing(p: BackoffPolicy, r1: nat, r2: nat)
    requires
        p.wf(),
        r1 < r2,
        growth_exact(p.spec_min_ms(), r2),
    ensures
        growth_exact(p.spec_min_ms(), r1),
        p.delay_ceiling(r1) <= p.delay_floor(r2),
{
    lemma_pow2_grows(r1, r2);
    let m = p.spec_min_ms() as nat;
    let b1 = base_ms(p.spec_min_ms(), r1);
    let b2 = base_ms(p.spec_min_ms(), r2);
    assert(b2 >= 2 * b1) by (nonlinear_arith)
        requires
            b1 == m * pow2(r1),
            b2 == m * pow2(r2),
            pow2(r2) >= 2 * pow2(r1),
    ;
    assert(b1 <= b2) by (nonlinear_arith)
        requires
            b2 >= 2 * b1,
    ;
    assert(129 * b1 / 100 <= 71 * b2 / 100) by (nonlinear_arith)
        requires
            b2 >= 2 * b1,
    ;
}

} // verus!
