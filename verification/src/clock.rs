//! Wall-clock access. Sample timestamps are nanoseconds since the Unix
//! epoch, captured at format time.
use vstd::prelude::*;

verus! {

#[verifier::external_type_specification]
#[verifier::external_body]
pub struct ExSystemTime(std::time::SystemTime);

/// Relies on std::time::SystemTime::now: the current system time. The
/// result depends on the clock, so nothing is promised of it.
#[verifier::external_body]
fn system_time_now() -> std::time::SystemTime {
    std::time::SystemTime::now()
}

/// Relies on std::time::SystemTime::duration_since: the span from the
/// Unix epoch to `t`, or zero should the clock read before the epoch.
#[verifier::external_body]
fn duration_since_epoch(t: std::time::SystemTime) -> std::time::Duration {
    t.duration_since(std::time::SystemTime::UNIX_EPOCH).unwrap_or(std::time::Duration::ZERO)
}

/// Relies on std::time::Duration::as_nanos: the whole duration counted in
/// nanoseconds.
#[verifier::external_body]
pub(crate) fn duration_nanos(d: std::time::Duration) -> u128 {
    d.as_nanos()
}

/// Current wall-clock time as a span since the Unix epoch.
pub fn epoch_time() -> std::time::Duration {
    duration_since_epoch(system_time_now())
}

/// Current wall-clock time in nanoseconds since the Unix epoch.
pub fn epoch_nanos() -> u128 {
    duration_nanos(epoch_time())
}

} // verus!
