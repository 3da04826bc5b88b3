//! The cycle-counter fast path: a one-shot calibration of a free-running
//! counter against the trusted monotonic clock, and the conversion of a
//! later counter reading into monotonic nanoseconds.

use vstd::prelude::*;
use vstd::arithmetic::div_mod::lemma_div_is_ordered;
use vstd::arithmetic::mul::lemma_mul_inequality;

verus! {

/// Nanoseconds in one second.
pub const NANOS_PER_SEC: u64 = 1_000_000_000;

/// The record a calibration window produces: the measured counter rate in
/// cycles per second, and the counter/monotonic pair read back-to-back at
/// the close of the window, which anchors every later conversion.
#[derive(Clone, Copy, PartialEq, Eq, Structural, Debug)]
pub struct Calibration {
    pub cycles_per_sec: u64,
    pub base_cycles: u64,
    pub base_mono: u64,
}

/// How far a counter advanced over a window; a reading that moved backward
/// counts as no advance at all.
pub open spec fn advance(start: u64, end: u64) -> u64 {
    if end >= start {
        (end - start) as u64
    } else {
        0
    }
}

/// The rate a window measures: cycles gained per second of monotonic time,
/// rounded down. A window in which the monotonic clock did not advance, or
/// one whose quotient falls below one, is clamped to one cycle per second,
/// so the rate is always positive and never a division hazard; a quotient
/// past `u64::MAX` saturates.
pub open spec fn window_rate(d_cycles: u64, d_mono: u64) -> u64 {
    let raw: int = if d_mono > 0 {
        d_cycles * NANOS_PER_SEC / d_mono as int
    } else {
        0
    };
    if raw < 1 {
        1
    } else if raw > u64::MAX {
        u64::MAX
    } else {
        raw as u64
    }
}

/// The monotonic nanoseconds a calibration assigns to the counter reading
/// `now_cycles`: the anchor `base_mono` plus the counter's advance since
/// `base_cycles` converted through the measured rate. A reading behind the
/// anchor counts as zero elapsed time — never a negative delta — and a sum
/// past `u64::MAX` saturates.
pub open spec fn mono_at_cycles(c: Calibration, now_cycles: u64) -> u64
    recommends
        c.wf(),
{
    let d_nanos: int = advance(c.base_cycles, now_cycles) * NANOS_PER_SEC
        / c.cycles_per_sec as int;
    let total: int = c.base_mono + d_nanos;
    if total > u64::MAX {
        u64::MAX
    } else {
        total as u64
    }
}

impl Calibration {
    /// A calibration is well-formed when its rate is positive, the floor
    /// every constructor clamps to.
    pub open spec fn wf(self) -> bool {
        self.cycles_per_sec >= 1
    }

    /// Closes a calibration window: the counter and monotonic clock were
    /// read back-to-back at the start of the window and again at its end,
    /// and the record anchors at the end pair. A degenerate window — no
    /// monotonic advance, or a counter that moved backward — clamps the
    /// rate to the floor of one cycle per second; calibration never fails.
    pub fn from_window(
        start_cycles: u64,
        start_mono: u64,
        end_cycles: u64,
        end_mono: u64,
    ) -> (c: Calibration)
        ensures
            c.wf(),
            c.cycles_per_sec == window_rate(
                advance(start_cycles, end_cycles),
                advance(start_mono, end_mono),
            ),
            c.base_cycles == end_cycles,
            c.base_mono == end_mono,
            start_mono == end_mono ==> c.cycles_per_sec == 1,
    {
        let d_cycles: u64 = if end_cycles >= start_cycles {
            end_cycles - start_cycles
        } else {
            0
        };
        let d_mono: u64 = if end_mono >= start_mono {
            end_mono - start_mono
        } else {
            0
        };
        let rate: u64 = if d_mono > 0 {
            proof {
                lemma_mul_inequality(d_cycles as int, u64::MAX as int, NANOS_PER_SEC as int);
            }
            let q: u128 = (d_cycles as u128) * (NANOS_PER_SEC as u128) / (d_mono as u128);
            if q < 1 {
                1
            } else if q > u64::MAX as u128 {
                u64::MAX
            } else {
                q as u64
            }
        } else {
            1
        };
        Calibration { cycles_per_sec: rate, base_cycles: end_cycles, base_mono: end_mono }
    }

    /// Converts the counter reading `now_cycles` to monotonic nanoseconds
    /// through this calibration. A reading behind `base_cycles` yields the
    /// anchor itself — zero elapsed time, never a negative delta.
    pub fn mono_nanos(&self, now_cycles: u64) -> (r: u64)
        requires
            self.wf(),
        ensures
            r == mono_at_cycles(*self, now_cycles),
            now_cycles <= self.base_cycles ==> r == self.base_mono,
            r >= self.base_mono,
    {
        let d_cycles: u64 = if now_cycles >= self.base_cycles {
            now_cycles - self.base_cycles
        } else {
            0
        };
        proof {
            lemma_mul_inequality(d_cycles as int, u64::MAX as int, NANOS_PER_SEC as int);
        }
        let d_nanos: u128 = (d_cycles as u128) * (NANOS_PER_SEC as u128)
            / (self.cycles_per_sec as u128);
        let total: u128 = (self.base_mono as u128) + d_nanos;
        if total > u64::MAX as u128 {
            u64::MAX
        } else {
            total as u64
        }
    }
}

/// The fast path never runs backward: counter readings that do not
/// decrease convert to monotonic nanoseconds that do not decrease.
pub proof fn lemma_cycles_monotonic(c: Calibration, k1: u64, k2: u64)
    requires
        c.wf(),
        k1 <= k2,
    ensures
        mono_at_cycles(c, k1) <= mono_at_cycles(c, k2),
{
    let d1 = advance(c.base_cycles, k1) as int;
    let d2 = advance(c.base_cycles, k2) as int;
    lemma_mul_inequality(d1, d2, NANOS_PER_SEC as int);
    lemma_div_is_ordered(d1 * NANOS_PER_SEC, d2 * NANOS_PER_SEC, c.cycles_per_sec as int);
}

} // verus!
