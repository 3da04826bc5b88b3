use fastclock::clock::{now_mono, now_wall, Clock};
use fastclock::compose::{compose_wall, Baseline};
use fastclock::cycles::Calibration;
use fastclock::units::{ticks_to_nanos, timespec_to_nanos};

/// Wall time strictly advances once the monotonic clock has advanced.
#[test]
fn smoke() {
    let clock = Clock::new();
    let a = now_wall(&clock);
    let start = now_mono(&clock);
    // spin until at least 10 ms of monotonic time have passed
    loop {
        if now_mono(&clock) >= start + 10_000_000 {
            break;
        }
    }
    let b = now_wall(&clock);
    assert!(b > a);
}

#[test]
fn wall_is_nanoseconds_since_epoch() {
    let clock = Clock::new();
    let base = clock.baseline();
    let w = now_wall(&clock);
    assert!(w >= base.wall_base);
    // far past the year 2001 in nanoseconds; a reading in seconds or
    // microseconds would fall below this
    assert!(w > 1_000_000_000_000_000_000);
}

#[test]
fn mono_never_decreases() {
    let clock = Clock::new();
    let base = clock.baseline();
    let mut prev = now_mono(&clock);
    assert!(prev >= base.mono_base);
    for _ in 0..1000 {
        let next = now_mono(&clock);
        assert!(next >= prev);
        prev = next;
    }
}

#[test]
fn wall_never_decreases() {
    let clock = Clock::new();
    let mut prev = now_wall(&clock);
    for _ in 0..1000 {
        let next = now_wall(&clock);
        assert!(next >= prev);
        prev = next;
    }
}

/// A window in which the monotonic clock did not advance clamps the rate
/// to the floor of one cycle per second, with no division fault.
#[test]
fn calibration_clamp_on_zero_window() {
    let c = Calibration::from_window(1_000, 500, 9_000, 500);
    assert_eq!(c.cycles_per_sec, 1);
    assert_eq!(c.base_cycles, 9_000);
    assert_eq!(c.base_mono, 500);
}

/// A counter that moved backward over the window also clamps to the floor.
#[test]
fn calibration_clamp_on_backward_counter() {
    let c = Calibration::from_window(1_000, 0, 500, 50_000_000);
    assert_eq!(c.cycles_per_sec, 1);
}

/// 300 million cycles over a 100 ms window measure 3 GHz exactly.
#[test]
fn calibration_rate_exact() {
    let c = Calibration::from_window(0, 0, 300_000_000, 100_000_000);
    assert_eq!(c.cycles_per_sec, 3_000_000_000);
    assert_eq!(c.base_cycles, 300_000_000);
    assert_eq!(c.base_mono, 100_000_000);
}

/// At one cycle per nanosecond, half a billion cycles are half a second.
#[test]
fn conversion_round_trip() {
    let c = Calibration { cycles_per_sec: 1_000_000_000, base_cycles: 0, base_mono: 0 };
    assert_eq!(c.mono_nanos(500_000_000), 500_000_000);
}

/// A counter reading behind the anchor yields the anchor, never a
/// negative delta.
#[test]
fn negative_delta_guard() {
    let c = Calibration { cycles_per_sec: 3_000_000_000, base_cycles: 100, base_mono: 7 };
    assert_eq!(c.mono_nanos(50), 7);
    assert_eq!(c.mono_nanos(100), 7);
}

/// Converted readings never decrease as the counter advances.
#[test]
fn conversion_monotonic_concrete() {
    let c = Calibration { cycles_per_sec: 3_000_000_000, base_cycles: 1_000, base_mono: 50 };
    let mut prev = 0u64;
    for k in [0u64, 500, 1_000, 1_001, 4_000, 3_000_000_000, u64::MAX] {
        let m = c.mono_nanos(k);
        assert!(m >= prev);
        prev = m;
    }
}

/// Initialization at a known wall time, then a 250 ms monotonic advance,
/// lands exactly 250 ms later on the composed wall clock.
#[test]
fn end_to_end_scenario() {
    let t0 = 1_700_000_000_000_000_000u64;
    let b = Baseline { wall_base: t0, mono_base: 3_000_000_000 };
    assert_eq!(compose_wall(&b, 3_000_000_000), t0);
    assert_eq!(compose_wall(&b, 3_250_000_000), t0 + 250_000_000);
}

/// A monotonic reading behind the baseline counts as zero elapsed time.
#[test]
fn compose_clamps_backward_mono() {
    let b = Baseline { wall_base: 10_000, mono_base: 5_000 };
    assert_eq!(compose_wall(&b, 4_000), 10_000);
    assert_eq!(compose_wall(&b, 5_000), 10_000);
    assert_eq!(compose_wall(&b, 5_001), 10_001);
}

/// A composed sum past the representable range saturates.
#[test]
fn compose_saturates() {
    let b = Baseline { wall_base: u64::MAX - 5, mono_base: 0 };
    assert_eq!(compose_wall(&b, 100), u64::MAX);
}

#[test]
fn timespec_conversion_exact() {
    assert_eq!(timespec_to_nanos(0, 0), 0);
    assert_eq!(timespec_to_nanos(1, 500), 1_000_000_500);
    assert_eq!(timespec_to_nanos(1_700_000_000, 250_000_000), 1_700_000_000_250_000_000);
}

#[test]
fn timespec_conversion_saturates() {
    assert_eq!(timespec_to_nanos(u64::MAX, 999_999_999), u64::MAX);
}

/// A mach-style timebase of 125/3 turns 24 ticks into 1000 ns.
#[test]
fn ticks_conversion_exact() {
    assert_eq!(ticks_to_nanos(24, 125, 3), 1_000);
    assert_eq!(ticks_to_nanos(7, 1, 1), 7);
    assert_eq!(ticks_to_nanos(10, 3, 2), 15);
}

/// A zero denominator degrades to zero rather than faulting.
#[test]
fn ticks_conversion_zero_denominator() {
    assert_eq!(ticks_to_nanos(123_456, 125, 0), 0);
}

#[test]
fn ticks_conversion_saturates() {
    assert_eq!(ticks_to_nanos(u64::MAX, 1_000, 1), u64::MAX);
}
