//! Platform unit conversions: every monotonic primitive's raw reading is
//! turned into canonical `u64` nanoseconds at the boundary, so the rest of
//! the library works on one duration representation.

use vstd::prelude::*;
use vstd::arithmetic::mul::lemma_mul_inequality;

verus! {

use crate::cycles::NANOS_PER_SEC;

/// The nanoseconds a second/nanosecond pair denotes, as a `timespec`-style
/// monotonic reading carries it; a total past `u64::MAX` saturates.
pub open spec fn timespec_nanos_of(sec: u64, nsec: u32) -> u64 {
    let total: int = sec * NANOS_PER_SEC + nsec;
    if total > u64::MAX {
        u64::MAX
    } else {
        total as u64
    }
}

/// Converts a second/nanosecond reading to canonical nanoseconds.
pub fn timespec_to_nanos(sec: u64, nsec: u32) -> (r: u64)
    ensures
        r == timespec_nanos_of(sec, nsec),
{
    proof {
        lemma_mul_inequality(sec as int, u64::MAX as int, NANOS_PER_SEC as int);
    }
    let total: u128 = (sec as u128) * (NANOS_PER_SEC as u128) + (nsec as u128);
    if total > u64::MAX as u128 {
        u64::MAX
    } else {
        total as u64
    }
}

/// The nanoseconds a raw tick count denotes under a timebase ratio of
/// `numer` to `denom`, rounded down. A zero denominator — an unusable
/// timebase — degrades to zero rather than faulting, and a quotient past
/// `u64::MAX` saturates.
pub open spec fn ticks_nanos_of(ticks: u64, numer: u32, denom: u32) -> u64 {
    if denom == 0 {
        0
    } else {
        let total: int = ticks * numer / denom as int;
        if total > u64::MAX {
            u64::MAX
        } else {
            total as u64
        }
    }
}

/// Converts a raw tick reading to nanoseconds through the cached timebase
/// ratio `numer / denom`.
pub fn ticks_to_nanos(ticks: u64, numer: u32, denom: u32) -> (r: u64)
    ensures
        r == ticks_nanos_of(ticks, numer, denom),
{
    if denom == 0 {
        0
    } else {
        proof {
            lemma_mul_inequality(ticks as int, u64::MAX as int, numer as int);
            lemma_mul_inequality(u64::MAX as int, u64::MAX as int, u32::MAX as int);
        }
        let total: u128 = (ticks as u128) * (numer as u128) / (denom as u128);
        if total > u64::MAX as u128 {
            u64::MAX
        } else {
            total as u64
        }
    }
}

} // verus!
