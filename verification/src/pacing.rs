//! Whole-number timing arithmetic: the sleep period for a target rate and the
//! rate achieved over a measured interval.
//!
//! Times are nanoseconds, rates reported back are micro-hertz (millionths of a
//! message per second), so that no rounding is left unstated.

use vstd::prelude::*;

verus! {

/// Nanoseconds in one second.
pub const NANOS_PER_SECOND: u64 = 1_000_000_000;

/// One message per nanosecond, in micro-hertz.
pub const MICROHERTZ_NANOS: u64 = 1_000_000_000_000_000;

/// The sleep period for `rate` messages per second: `1 / rate` seconds in
/// nanoseconds, rounded up so that the pause is never shorter than asked.
pub open spec fn period_of(rate: nat) -> nat
    recommends
        rate > 0,
{
    ((NANOS_PER_SECOND + rate - 1) / (rate as int)) as nat
}

/// The rate achieved by one message per `elapsed` nanoseconds, in micro-hertz
/// rounded down. It is undefined unless time has moved forward.
pub open spec fn achieved_of(elapsed: int) -> Option<u64> {
    if elapsed > 0 {
        Some((MICROHERTZ_NANOS as int / elapsed) as u64)
    } else {
        None
    }
}

/// `period_of(rate)` is the least number of nanoseconds that, taken `rate`
/// times, fills a second.
pub proof fn lemma_period_is_least_cover(rate: nat)
    requires
        rate > 0,
    ensures
        period_of(rate) >= 1,
        period_of(rate) <= NANOS_PER_SECOND,
        period_of(rate) * rate >= NANOS_PER_SECOND,
        (period_of(rate) - 1) * rate < NANOS_PER_SECOND,
{
    let n: int = NANOS_PER_SECOND as int + rate - 1;
    let r: int = rate as int;
    let q: int = n / r;
    assert(n == r * q + n % r && 0 <= n % r < r) by {
        vstd::arithmetic::div_mod::lemma_fundamental_div_mod(n, r);
        vstd::arithmetic::div_mod::lemma_mod_bound(n, r);
    }
    assert(q >= 1 && q <= NANOS_PER_SECOND && q * r >= NANOS_PER_SECOND && (q - 1) * r
        < NANOS_PER_SECOND) by (nonlinear_arith)
        requires
            n == r * q + n % r,
            0 <= n % r < r,
            n == NANOS_PER_SECOND + r - 1,
            r > 0,
            NANOS_PER_SECOND == 1_000_000_000,
    ;
}

/// The sleep period, in nanoseconds, for a target of `rate` messages per second.
pub fn period_nanos(rate: usize) -> (period: u64)
    requires
        rate > 0,
    ensures
        period == period_of(rate as nat),
        1 <= period <= NANOS_PER_SECOND,
        period * rate >= NANOS_PER_SECOND,
        (period - 1) * rate < NANOS_PER_SECOND,
{
    proof {
        lemma_period_is_least_cover(rate as nat);
    }
    let rate_wide: u128 = rate as u128;
    let covered: u128 = NANOS_PER_SECOND as u128 + rate_wide - 1;
    let period: u128 = covered / rate_wide;
    period as u64
}

/// The rate achieved over `elapsed` nanoseconds, in micro-hertz; `None` when
/// the interval is empty or runs backwards, where no rate is defined.
pub fn achieved_microhertz(elapsed: i128) -> (rate: Option<u64>)
    ensures
        rate == achieved_of(elapsed as int),
        rate is Some <==> elapsed > 0,
        rate is Some ==> rate.unwrap() * elapsed <= MICROHERTZ_NANOS < (rate.unwrap() + 1)
            * elapsed,
{
    if elapsed > 0 {
        let whole: i128 = MICROHERTZ_NANOS as i128;
        let quotient: i128 = whole / elapsed;
        proof {
            lemma_quotient_bounds(whole as int, elapsed as int);
        }
        Some(quotient as u64)
    } else {
        None
    }
}

/// Rounded-down division brackets the dividend between two multiples.
pub proof fn lemma_quotient_bounds(n: int, d: int)
    requires
        n >= 0,
        d > 0,
    ensures
        0 <= n / d <= n,
        (n / d) * d <= n < (n / d + 1) * d,
{
    let q: int = n / d;
    assert(n == d * q + n % d && 0 <= n % d < d) by {
        vstd::arithmetic::div_mod::lemma_fundamental_div_mod(n, d);
        vstd::arithmetic::div_mod::lemma_mod_bound(n, d);
    }
    assert(0 <= q <= n && q * d <= n < (q + 1) * d) by (nonlinear_arith)
        requires
            n == d * q + n % d,
            0 <= n % d < d,
            n >= 0,
            d > 0,
    ;
}

} // verus!
