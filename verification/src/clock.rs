//! The system clock and the monotonic clock, one call each.

use vstd::prelude::*;
use std::time::{Duration, Instant, SystemTime};

verus! {

#[verifier::external_type_specification]
#[verifier::external_body]
pub struct ExSystemTime(SystemTime);

#[verifier::external_type_specification]
#[verifier::external_body]
pub struct ExInstant(Instant);

/// `SystemTime::now`. Nothing is claimed of the moment it returns.
#[verifier::external_body]
pub(crate) fn system_now() -> SystemTime {
    SystemTime::now()
}

/// `SystemTime::duration_since(UNIX_EPOCH)`: the time since the Unix epoch; none
/// when `t` lies before it. Nothing is claimed of the duration.
#[verifier::external_body]
pub(crate) fn since_epoch(t: &SystemTime) -> Option<Duration> {
    t.duration_since(std::time::UNIX_EPOCH).ok()
}

/// `Instant::now`. Nothing is claimed of the moment it returns.
#[verifier::external_body]
pub(crate) fn instant_now() -> Instant {
    Instant::now()
}

/// `Instant::elapsed`. Nothing is claimed of the duration: it depends on the clock.
#[verifier::external_body]
pub(crate) fn elapsed(t: &Instant) -> Duration {
    t.elapsed()
}

/// `Duration::as_nanos`. Nothing is claimed of the value.
#[verifier::external_body]
pub(crate) fn duration_nanos(d: &Duration) -> u128 {
    d.as_nanos()
}

/// `Duration::as_secs`. Nothing is claimed of the value.
#[verifier::external_body]
pub(crate) fn duration_secs(d: &Duration) -> u64 {
    d.as_secs()
}

/// `Duration::subsec_millis`: the whole milliseconds of the fractional part, which
/// its documentation states is less than 1000.
#[verifier::external_body]
pub(crate) fn subsec_millis(d: &Duration) -> (m: u32)
    ensures
        m < 1000,
{
    d.subsec_millis()
}

} // verus!
