//! The wall-clock composer: a one-time baseline pair and the rule that turns
//! a live monotonic reading into a wall-clock timestamp.

use vstd::prelude::*;

verus! {

use crate::cycles::{Calibration, mono_at_cycles, lemma_cycles_monotonic};

/// The one-time snapshot pair: wall-clock nanoseconds since the Unix epoch
/// and monotonic nanoseconds since an arbitrary per-process epoch, sampled
/// back-to-back at first use.
#[derive(Clone, Copy, PartialEq, Eq, Structural, Debug)]
pub struct Baseline {
    pub wall_base: u64,
    pub mono_base: u64,
}

/// The wall-clock timestamp composed from a baseline and a live monotonic
/// reading: `wall_base` plus the monotonic time elapsed since `mono_base`.
/// A reading behind the baseline counts as zero elapsed time, and a sum
/// past `u64::MAX` saturates, so composition is total and never moves
/// before the baseline.
pub open spec fn wall_at(b: Baseline, mono_now: u64) -> u64 {
    let delta: int = if mono_now >= b.mono_base {
        mono_now - b.mono_base
    } else {
        0
    };
    let total: int = b.wall_base + delta;
    if total > u64::MAX {
        u64::MAX
    } else {
        total as u64
    }
}

/// Composes the wall-clock timestamp for the monotonic reading `mono_now`.
pub fn compose_wall(b: &Baseline, mono_now: u64) -> (r: u64)
    ensures
        r == wall_at(*b, mono_now),
        r >= b.wall_base,
{
    let delta: u64 = if mono_now >= b.mono_base {
        mono_now - b.mono_base
    } else {
        0
    };
    if b.wall_base <= u64::MAX - delta {
        b.wall_base + delta
    } else {
        u64::MAX
    }
}

/// Composition never runs backward: a monotonic source that does not
/// decrease gives wall-clock readings that do not decrease, and strictly
/// advancing monotonic readings at or after the baseline give strictly
/// advancing wall-clock readings while the sum stays representable.
pub proof fn lemma_wall_monotonic(b: Baseline, m1: u64, m2: u64)
    requires
        m1 <= m2,
    ensures
        wall_at(b, m1) <= wall_at(b, m2),
        (b.mono_base <= m1 && m1 < m2 && b.wall_base + (m2 - b.mono_base) <= u64::MAX) ==> wall_at(
            b,
            m1,
        ) < wall_at(b, m2),
{
}

/// The composed wall clock never runs backward on the fast path either:
/// counter readings that do not decrease, converted through one
/// calibration and composed over one baseline, give wall-clock timestamps
/// that do not decrease — no counter anomaly makes time run backward.
pub proof fn lemma_fast_path_wall_monotonic(b: Baseline, c: Calibration, k1: u64, k2: u64)
    requires
        c.wf(),
        k1 <= k2,
    ensures
        wall_at(b, mono_at_cycles(c, k1)) <= wall_at(b, mono_at_cycles(c, k2)),
{
    lemma_cycles_monotonic(c, k1, k2);
    lemma_wall_monotonic(b, mono_at_cycles(c, k1), mono_at_cycles(c, k2));
}

} // verus!
