//! Frame counts and durations.

#![allow(unused_imports)]

use crate::time::{default_period_frames, frames_to_nanos, saturating_product};
use vstd::prelude::*;

verus! {

/// A saturating product is the product, or the largest value when that is
/// smaller.
pub proof fn law_products_saturate(a: u64, b: u64, r: u64)
    requires
        call_ensures(saturating_product, (a, b), r),
    ensures
        a * b <= 0xFFFF_FFFF_FFFF_FFFF ==> r == a * b,
        a * b > 0xFFFF_FFFF_FFFF_FFFF ==> r == 0xFFFF_FFFF_FFFF_FFFF,
{
}

/// The time of a run of frames, multiplied by the rate, is the frames' share
/// of a second: the result is the largest number of nanoseconds that is not
/// too long. A rate of zero counts as one.
pub proof fn law_frames_last_their_share_of_a_second(frames: u64, rate: u32, ns: u64)
    requires
        call_ensures(frames_to_nanos, (frames, rate), ns),
    ensures
        rate > 0 && frames * 1_000_000_000 <= 0xFFFF_FFFF_FFFF_FFFF ==> ns * rate <= frames
            * 1_000_000_000 < (ns + 1) * rate,
        rate > 0 && frames * 1_000_000_000 > 0xFFFF_FFFF_FFFF_FFFF ==> ns * rate
            <= 0xFFFF_FFFF_FFFF_FFFF < (ns + 1) * rate,
        rate == 0 && frames * 1_000_000_000 <= 0xFFFF_FFFF_FFFF_FFFF ==> ns == frames
            * 1_000_000_000,
        rate == 0 && frames * 1_000_000_000 > 0xFFFF_FFFF_FFFF_FFFF ==> ns
            == 0xFFFF_FFFF_FFFF_FFFF,
{
    let total = if frames * 1_000_000_000 <= 0xFFFF_FFFF_FFFF_FFFF {
        frames * 1_000_000_000
    } else {
        0xFFFF_FFFF_FFFF_FFFF
    };
    let d: int = if rate == 0 {
        1
    } else {
        rate as int
    };
    lemma_quotient_bounds(total, d);
    assert(ns == total / d);
}

/// Whether `ns` is how long `frames` frames last at `rate` frames a second,
/// rounded down to a nanosecond. A rate of zero counts as one, and a count
/// whose nanoseconds take more than 64 bits as the largest that does not.
pub open spec fn is_time_of(ns: int, frames: int, rate: int) -> bool {
    let total = if frames * 1_000_000_000 <= 0xFFFF_FFFF_FFFF_FFFF {
        frames * 1_000_000_000
    } else {
        0xFFFF_FFFF_FFFF_FFFF
    };
    if rate == 0 {
        ns == total
    } else {
        ns * rate <= total < (ns + 1) * rate
    }
}

/// Every count of frames has one such time, and it fits in 64 bits.
pub proof fn lemma_the_time_of(ns: int, frames: int, rate: int)
    requires
        frames >= 0,
        rate >= 0,
    ensures
        is_time_of(crate::time::frames_nanos(frames, rate), frames, rate),
        is_time_of(ns, frames, rate) ==> ns == crate::time::frames_nanos(frames, rate),
        0 <= crate::time::frames_nanos(frames, rate) <= 0xFFFF_FFFF_FFFF_FFFF,
{
    let total = if frames * 1_000_000_000 <= 0xFFFF_FFFF_FFFF_FFFF {
        frames * 1_000_000_000
    } else {
        0xFFFF_FFFF_FFFF_FFFF
    };
    let d: int = if rate == 0 {
        1
    } else {
        rate
    };
    lemma_quotient_bounds(total, d);
    vstd::arithmetic::div_mod::lemma_div_pos_is_pos(total, d);
    vstd::arithmetic::div_mod::lemma_div_nonincreasing(total, d);
    assert(crate::time::frames_nanos(frames, rate) == total / d);
    if rate > 0 && is_time_of(ns, frames, rate) {
        lemma_quotient_is_unique(total, d, ns);
    }
}

/// A quotient times its divisor reaches the dividend but for less than one
/// divisor.
pub proof fn lemma_quotient_bounds(n: int, d: int)
    requires
        d > 0,
    ensures
        (n / d) * d <= n < (n / d + 1) * d,
{
    vstd::arithmetic::div_mod::lemma_fundamental_div_mod(n, d);
    vstd::arithmetic::div_mod::lemma_mod_bound(n, d);
    let q = n / d;
    assert(q * d == d * q) by (nonlinear_arith);
    assert((q + 1) * d == d * q + d) by (nonlinear_arith);
}

/// Only one number is bounded so.
pub proof fn lemma_quotient_is_unique(n: int, d: int, q: int)
    requires
        d > 0,
        q * d <= n < (q + 1) * d,
    ensures
        q == n / d,
{
    assert((q + 1) * d == d * q + d) by (nonlinear_arith);
    assert(q * d == d * q) by (nonlinear_arith);
    vstd::arithmetic::div_mod::lemma_fundamental_div_mod_converse(n, d, q, n - d * q);
}

/// A second's frames last a second, and frames on top of them as long as
/// they would on their own.
pub proof fn law_a_second_more_of_frames_is_a_second(
    frames: u64,
    rate: u32,
    short: u64,
    long: u64,
)
    requires
        rate > 0,
        (frames + rate) * 1_000_000_000 <= 0xFFFF_FFFF_FFFF_FFFF,
        call_ensures(frames_to_nanos, (frames, rate), short),
        call_ensures(frames_to_nanos, ((frames + rate) as u64, rate), long),
    ensures
        long == short + 1_000_000_000,
{
    law_frames_last_their_share_of_a_second(frames, rate, short);
    law_frames_last_their_share_of_a_second((frames + rate) as u64, rate, long);
    let more = short + 1_000_000_000;
    let r = rate as int;
    assert(more * r == short * r + 1_000_000_000 * r) by (nonlinear_arith)
        requires
            more == short + 1_000_000_000,
    ;
    assert((more + 1) * r == (short + 1) * r + 1_000_000_000 * r) by (nonlinear_arith)
        requires
            more == short + 1_000_000_000,
    ;
    let n = (frames + rate) * 1_000_000_000;
    lemma_quotient_is_unique(n, r, more);
    lemma_quotient_is_unique(n, r, long as int);
}

/// The default period is a fiftieth of a second, rounded down, but never
/// below 64 frames.
pub proof fn law_the_default_period_is_a_fiftieth(rate: u32, frames: u32)
    requires
        call_ensures(default_period_frames, (rate,), frames),
    ensures
        rate >= 3200 ==> frames * 50 <= rate < (frames + 1) * 50,
        rate < 3200 ==> frames == 64,
{
}

} // verus!
