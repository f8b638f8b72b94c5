//! Monotonic time stamps carried through the library.
use vstd::prelude::*;

verus! {

#[verifier::external_type_specification]
#[verifier::external_body]
pub struct ExInstant(std::time::Instant);

#[verifier::external_type_specification]
#[verifier::external_body]
pub struct ExSystemTime(std::time::SystemTime);

/// `SystemTime::now`: the current reading of the system clock. Nothing is
/// stated of the value, which depends on the time of the call.
#[verifier::external_body]
pub(crate) fn system_time_now() -> std::time::SystemTime {
    std::time::SystemTime::now()
}

/// `SystemTime::duration_since(UNIX_EPOCH)`: the time since the Unix epoch,
/// `None` for a reading before it. Nothing is stated of the value, which
/// depends on the reading.
#[verifier::external_body]
pub(crate) fn since_unix_epoch(t: std::time::SystemTime) -> Option<std::time::Duration> {
    t.duration_since(std::time::UNIX_EPOCH).ok()
}

/// `Duration::as_secs`: the whole seconds of a duration, its nanoseconds
/// divided by 10^9.
#[verifier::external_body]
pub(crate) fn duration_secs(d: std::time::Duration) -> (r: u64)
    ensures
        r as int == duration_nanos_of(d) as int / 1_000_000_000,
{
    d.as_secs()
}

/// `Instant::now`: the current reading of the monotonic clock. Nothing is
/// stated of the value, which depends on the time of the call.
#[verifier::external_body]
pub(crate) fn instant_now() -> std::time::Instant {
    std::time::Instant::now()
}

/// The length of a duration in nanoseconds, as `Duration::as_nanos` gives
/// it.
pub uninterp spec fn duration_nanos_of(d: std::time::Duration) -> u128;

/// The nanoseconds from `earlier` to `now` as
/// `Instant::saturating_duration_since` gives them: zero when `earlier` is
/// the later reading.
pub uninterp spec fn elapsed_nanos(now: std::time::Instant, earlier: std::time::Instant) -> u128;

/// `Instant::clone`: `Instant` is `Copy`, so a clone is the same reading.
pub assume_specification[ <std::time::Instant as Clone>::clone ](i: &std::time::Instant) -> (r:
    std::time::Instant)
    ensures
        r == *i,
;

} // verus!
