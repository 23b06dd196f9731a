use vstd::prelude::*;

verus! {

/// Seconds per epoch minute.
pub const SECONDS_PER_MINUTE: i64 = 60;

/// Relies on `chrono::Utc::now` and `DateTime::timestamp`: whole seconds since
/// the Unix epoch on the system clock. `Utc::now` panics on a clock set before
/// the epoch, so a value that comes back is never negative.
#[verifier::external_body]
fn utc_now_seconds() -> (r: i64)
    ensures
        r >= 0,
{
    chrono::Utc::now().timestamp()
}

/// The epoch minute of a second count: whole minutes, rounded toward zero.
pub open spec fn minute_of(secs: int) -> int {
    if secs >= 0 {
        secs / SECONDS_PER_MINUTE as int
    } else {
        -((-secs) / SECONDS_PER_MINUTE as int)
    }
}

/// The epoch minute of a timestamp given in whole seconds since the epoch.
pub fn epoch_minute_of(secs: i64) -> (r: i64)
    ensures
        r as int == minute_of(secs as int),
        secs >= 0 ==> r >= 0,
{
    secs / SECONDS_PER_MINUTE
}

/// The current epoch minute, read from the system clock. What the clock
/// returns is not known in advance; the result is the minute of that reading.
pub fn now_epoch_minute() -> (r: i64)
    ensures
        r >= 0,
{
    let secs = utc_now_seconds();
    epoch_minute_of(secs)
}

} // verus!
