//! Conversions between frame counts and time.

use std::time::Duration;
use vstd::prelude::*;

verus! {

/// Nanoseconds in a second.
pub const NANOS_PER_SEC: u64 = 1_000_000_000;

/// The duration of `nanos` nanoseconds.
pub uninterp spec fn duration_of_nanos(nanos: u64) -> Duration;

/// The duration of `micros` microseconds.
pub uninterp spec fn duration_of_micros(micros: u64) -> Duration;

/// Calls `Duration::from_nanos`: the duration is a function of the count.
#[verifier::external_body]
pub(crate) fn nanos(count: u64) -> (d: Duration)
    ensures
        d == duration_of_nanos(count),
{
    Duration::from_nanos(count)
}

/// Calls `Duration::from_micros`: the duration is a function of the count,
/// and a microsecond is a thousand nanoseconds.
#[verifier::external_body]
pub(crate) fn micros(count: u64) -> (d: Duration)
    ensures
        d == duration_of_micros(count),
        count * 1000 <= u64::MAX ==> d == duration_of_nanos((count * 1000) as u64),
{
    Duration::from_micros(count)
}

/// The smaller of two numbers.
pub open spec fn at_most(a: int, b: int) -> int {
    if a <= b {
        a
    } else {
        b
    }
}

/// The larger of two numbers.
pub open spec fn at_least(a: int, b: int) -> int {
    if a >= b {
        a
    } else {
        b
    }
}

/// How many nanoseconds `frames` frames last at `rate` frames a second,
/// rounded down. The nanosecond product saturates at 64 bits before the
/// division, and a rate of zero counts as one.
pub open spec fn frames_nanos(frames: int, rate: int) -> int {
    at_most(frames * 1_000_000_000, u64::MAX as int) / at_least(rate, 1)
}

/// `a * b`, or the largest value when the product does not fit.
pub fn saturating_product(a: u64, b: u64) -> (product: u64)
    ensures
        product == at_most(a * b, u64::MAX as int),
{
    match a.checked_mul(b) {
        Some(p) => p,
        None => u64::MAX,
    }
}

/// The duration of a frame count, in nanoseconds.
pub fn frames_to_nanos(frames: u64, rate: u32) -> (ns: u64)
    ensures
        ns == frames_nanos(frames as int, rate as int),
{
    let divisor: u64 = if rate == 0 {
        1
    } else {
        rate as u64
    };
    saturating_product(frames, NANOS_PER_SEC) / divisor
}

/// A count that has wrapped at 64 bits goes on as if it had not.
pub proof fn lemma_count_wraps(count: int, more: int)
    ensures
        (count % 0x1_0000_0000_0000_0000 + more) % 0x1_0000_0000_0000_0000 == (count + more)
            % 0x1_0000_0000_0000_0000,
{
}

/// A 20 ms period at `rate`, never below 64 frames.
pub open spec fn default_period(rate: int) -> int {
    at_least(rate / 50, 64)
}

/// The crate-wide default period: 20 ms, never below 64 frames.
pub fn default_period_frames(rate: u32) -> (frames: u32)
    ensures
        frames == default_period(rate as int),
{
    if rate / 50 >= 64 {
        rate / 50
    } else {
        64
    }
}

/// A longer run of frames never lasts a shorter time.
pub proof fn law_frames_nanos_monotonic(a: u64, b: u64, rate: u32)
    requires
        a <= b,
    ensures
        frames_nanos(a as int, rate as int) <= frames_nanos(b as int, rate as int),
{
    let d = at_least(rate as int, 1);
    vstd::arithmetic::div_mod::lemma_div_is_ordered(
        at_most(a * 1_000_000_000, u64::MAX as int),
        at_most(b * 1_000_000_000, u64::MAX as int),
        d,
    );
}

} // verus!
