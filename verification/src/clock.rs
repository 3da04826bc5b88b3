//! The clock itself: a baseline captured once at construction from the
//! trusted system clocks, and the two query operations that answer
//! monotonic and wall-clock time from it.

use vstd::prelude::*;
use std::time::Instant;

verus! {

use crate::compose::{Baseline, compose_wall, wall_at};

#[verifier::external_type_specification]
#[verifier::external_body]
pub struct ExInstant(Instant);

/// Relies on `std::time::Instant::now`: an opaque anchor on the platform's
/// monotonic clock; readings taken against it never decrease.
#[verifier::external_body]
fn monotonic_anchor() -> (r: Instant) {
    Instant::now()
}

/// Relies on `std::time::Instant::elapsed`: the time since `origin`, never
/// negative; the reading is converted to nanoseconds, saturating at
/// `u64::MAX`.
#[verifier::external_body]
fn nanos_since(origin: &Instant) -> (r: u64) {
    let n = origin.elapsed().as_nanos();
    if n > u64::MAX as u128 {
        u64::MAX
    } else {
        n as u64
    }
}

/// Relies on `std::time::SystemTime::now` and
/// `SystemTime::duration_since(UNIX_EPOCH)`: the wall clock as nanoseconds
/// since the Unix epoch, saturating at `u64::MAX`. A clock that reports an
/// error — a reading before the epoch — degrades to zero rather than
/// failing.
#[verifier::external_body]
fn wall_nanos_now() -> (r: u64) {
    match std::time::SystemTime::now().duration_since(std::time::UNIX_EPOCH) {
        Ok(d) => {
            let n = d.as_nanos();
            if n > u64::MAX as u128 {
                u64::MAX
            } else {
                n as u64
            }
        },
        Err(_) => 0,
    }
}

/// A process clock: the monotonic anchor and the baseline pair sampled
/// back-to-back when the clock was made. Both are immutable thereafter;
/// every later query only reads them.
pub struct Clock {
    origin: Instant,
    baseline: Baseline,
}

impl Clock {
    /// The baseline pair this clock composes from.
    pub closed spec fn spec_baseline(self) -> Baseline {
        self.baseline
    }

    /// Returns the baseline pair this clock composes from.
    pub fn baseline(&self) -> (b: Baseline)
        ensures
            b == self.spec_baseline(),
    {
        self.baseline
    }

    /// Captures the baseline: the trusted wall clock and the monotonic
    /// source are read back-to-back, exactly once, and the pair anchors
    /// every later wall-clock composition.
    pub fn new() -> (c: Clock) {
        let origin = monotonic_anchor();
        let wall = wall_nanos_now();
        let mono = nanos_since(&origin);
        Clock { origin, baseline: Baseline { wall_base: wall, mono_base: mono } }
    }
}

/// Monotonic nanoseconds since this clock's arbitrary per-process epoch,
/// served by the platform monotonic source. The result never falls behind
/// the baseline reading: the source is documented monotonic, and a reading
/// that nevertheless fell behind would count as the baseline itself.
pub fn now_mono(clock: &Clock) -> (r: u64)
    ensures
        r >= clock.spec_baseline().mono_base,
{
    let n = nanos_since(&clock.origin);
    if n >= clock.baseline.mono_base {
        n
    } else {
        clock.baseline.mono_base
    }
}

/// Wall-clock nanoseconds since the Unix epoch, composed as the baseline
/// wall reading plus the monotonic time elapsed since the baseline; the
/// system wall clock is not queried again. The result never falls before
/// the baseline, and is the composition `wall_at` of some monotonic
/// reading at or after the baseline.
pub fn now_wall(clock: &Clock) -> (r: u64)
    ensures
        r >= clock.spec_baseline().wall_base,
        exists|m: u64|
            m >= clock.spec_baseline().mono_base && r == wall_at(clock.spec_baseline(), m),
{
    let m = now_mono(clock);
    let r = compose_wall(&clock.baseline, m);
    proof {
        assert(m >= clock.spec_baseline().mono_base && r == wall_at(clock.spec_baseline(), m));
    }
    r
}

} // verus!
