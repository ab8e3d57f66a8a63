use vstd::prelude::*;
use crate::error::StreamError;

pub use crate::merkle::verify;

verus! {

/// The number of whole intervals of length `interval` that fit between `from` and `to`;
/// zero when `to` is not after `from`.
pub open spec fn intervals_between(from: int, to: int, interval: int) -> int {
    if to <= from || interval <= 0 {
        0
    } else {
        (to - from) / interval
    }
}

/// The amount that flows between `from` and `to` at `rate` per whole interval.
pub open spec fn flow_between(from: int, to: int, interval: int, rate: int) -> int {
    intervals_between(from, to, interval) * rate
}

/// Counts the whole intervals between two instants.
pub fn elapsed_intervals(from: u64, to: u64, interval: u64) -> (n: u64)
    requires
        interval > 0,
    ensures
        n == intervals_between(from as int, to as int, interval as int),
{
    if to <= from {
        0
    } else {
        (to - from) / interval
    }
}

/// Computes the amount that flows between two instants, or reports that it does not
/// fit in 64 bits.
pub fn amount_between(from: u64, to: u64, interval: u64, rate: u64) -> (r: Result<
    u64,
    StreamError,
>)
    requires
        interval > 0,
    ensures
        match r {
            Ok(amount) => amount == flow_between(
                from as int,
                to as int,
                interval as int,
                rate as int,
            ),
            Err(e) => e == StreamError::ArithmeticOverflow && flow_between(
                from as int,
                to as int,
                interval as int,
                rate as int,
            ) > u64::MAX,
        },
{
    let n: u64 = elapsed_intervals(from, to, interval);
    match n.checked_mul(rate) {
        Some(amount) => Ok(amount),
        None => Err(StreamError::ArithmeticOverflow),
    }
}

/// More time never yields fewer intervals.
pub proof fn lemma_intervals_monotonic(from: int, to1: int, to2: int, interval: int)
    requires
        to1 <= to2,
        interval > 0,
    ensures
        0 <= intervals_between(from, to1, interval) <= intervals_between(from, to2, interval),
{
    if to1 > from {
        vstd::arithmetic::div_mod::lemma_div_is_ordered(to1 - from, to2 - from, interval);
        vstd::arithmetic::div_mod::lemma_div_pos_is_pos(to1 - from, interval);
    } else if to2 > from {
        vstd::arithmetic::div_mod::lemma_div_pos_is_pos(to2 - from, interval);
    }
}

/// More time never yields a smaller flow.
pub proof fn lemma_flow_monotonic(from: int, to1: int, to2: int, interval: int, rate: int)
    requires
        to1 <= to2,
        interval > 0,
        rate >= 0,
    ensures
        0 <= flow_between(from, to1, interval, rate) <= flow_between(from, to2, interval, rate),
{
    lemma_intervals_monotonic(from, to1, to2, interval);
    let n1 = intervals_between(from, to1, interval);
    let n2 = intervals_between(from, to2, interval);
    vstd::arithmetic::mul::lemma_mul_inequality(n1, n2, rate);
    vstd::arithmetic::mul::lemma_mul_nonnegative(n1, rate);
}

} // verus!
