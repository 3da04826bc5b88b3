//! A hybrid wall clock: a one-time wall/monotonic baseline plus a cheap
//! monotonic reading compose a wall-clock timestamp without querying the
//! system wall clock on every call. An optional cycle-counter fast path is
//! calibrated once against the monotonic clock; all durations are carried
//! as nanoseconds in `u64`.

pub mod clock;
pub mod compose;
pub mod cycles;
pub mod units;

pub use clock::{Clock, now_mono, now_wall};
pub use compose::Baseline;
pub use cycles::Calibration;
