//! Welford's online (incremental) mean over integers.
//!
//! `mean_n = mean_{n-1} + (x_n - mean_{n-1}) / n`, with division truncating
//! toward zero as machine integer division does. Used for the running mean
//! of drawdown durations, accumulated in integer milliseconds.

use vstd::prelude::*;

verus! {

use vstd::arithmetic::div_mod::{lemma_div_is_ordered_by_denominator, lemma_div_pos_is_pos};

/// Integer division truncating toward zero, for a positive divisor.
pub open spec fn trunc_div(a: int, b: int) -> int {
    if a >= 0 {
        a / b
    } else {
        -((-a) / b)
    }
}

/// One step of Welford's online mean over integers.
pub open spec fn welford_mean_int(mean: int, value: int, count: int) -> int {
    mean + trunc_div(value - mean, count)
}

/// `mean + (value - mean) / count`, with division truncating toward zero.
/// The result always lies between the previous mean and the new value, so it
/// never overflows the accumulator type.
pub fn calculate_mean(mean: i64, value: i64, count: u64) -> (r: i64)
    requires
        count >= 1,
    ensures
        r as int == welford_mean_int(mean as int, value as int, count as int),
{
    if value >= mean {
        let delta: u128 = ((value as i128) - (mean as i128)) as u128;
        let q: u128 = delta / (count as u128);
        proof {
            lemma_div_pos_is_pos(delta as int, count as int);
            lemma_div_is_ordered_by_denominator(delta as int, 1, count as int);
            assert(delta as int / 1int == delta as int);
        }
        ((mean as i128) + (q as i128)) as i64
    } else {
        let delta: u128 = ((mean as i128) - (value as i128)) as u128;
        let q: u128 = delta / (count as u128);
        proof {
            lemma_div_pos_is_pos(delta as int, count as int);
            lemma_div_is_ordered_by_denominator(delta as int, 1, count as int);
            assert(delta as int / 1int == delta as int);
        }
        ((mean as i128) - (q as i128)) as i64
    }
}

} // verus!
