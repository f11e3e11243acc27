//! The wall clock: the system time, taken as seconds and nanoseconds from the
//! Unix epoch, on either side of it.
use vstd::prelude::*;

use std::time::SystemTime;

use crate::domain::Timestamp;

verus! {

/// An instant of the system clock (`std::time::SystemTime`), carried as it is.
#[verifier::external_type_specification]
#[verifier::external_body]
pub struct ExSystemTime(std::time::SystemTime);

/// The current system time, from `std::time::SystemTime::now`. It depends on
/// the clock, so nothing is stated of it.
#[verifier::external_body]
fn system_now() -> (r: SystemTime) {
    SystemTime::now()
}

/// How far `t` lies from the Unix epoch, from
/// `SystemTime::duration_since(UNIX_EPOCH)`, as whole seconds and the
/// nanoseconds past them: `Ok` when `t` is at or after the epoch, `Err` with
/// the distance (`SystemTimeError::duration`) when it is before. Claimed: the
/// nanoseconds (`Duration::subsec_nanos`) are below one second, as `Duration`
/// documents. Which side `t` lies on depends on the clock and is not stated.
#[verifier::external_body]
fn duration_since_epoch(t: &SystemTime) -> (r: Result<(u64, u32), (u64, u32)>)
    ensures
        match r {
            Ok((_, nanos)) => nanos < 1_000_000_000,
            Err((_, nanos)) => nanos < 1_000_000_000,
        },
{
    match t.duration_since(std::time::UNIX_EPOCH) {
        Ok(d) => Ok((d.as_secs(), d.subsec_nanos())),
        Err(e) => Err((e.duration().as_secs(), e.duration().subsec_nanos())),
    }
}

/// Whole seconds, as many as fit in an `i64`.
pub open spec fn clamped_seconds(secs: u64) -> i64 {
    if secs > i64::MAX as u64 {
        i64::MAX
    } else {
        secs as i64
    }
}

/// The instant that lies `since` from the Unix epoch: after it for `Ok`,
/// before it for `Err`, each as seconds and nanoseconds. Seconds beyond the
/// range of `i64` are taken as its end.
pub open spec fn timestamp_of(since: Result<(u64, u32), (u64, u32)>) -> Timestamp {
    match since {
        Ok((secs, nanos)) => Timestamp { seconds: clamped_seconds(secs), nanos: nanos as i32 },
        Err((secs, nanos)) => if nanos == 0 {
            Timestamp { seconds: (-clamped_seconds(secs)) as i64, nanos: 0 }
        } else {
            Timestamp {
                seconds: (-clamped_seconds(secs) - 1) as i64,
                nanos: (1_000_000_000 - nanos) as i32,
            }
        },
    }
}

/// The instant that lies `since` from the Unix epoch.
pub fn timestamp_from(since: Result<(u64, u32), (u64, u32)>) -> (r: Timestamp)
    requires
        match since {
            Ok((_, nanos)) => nanos < 1_000_000_000,
            Err((_, nanos)) => nanos < 1_000_000_000,
        },
    ensures
        r == timestamp_of(since),
        r.well_formed(),
{
    match since {
        Ok((secs, nanos)) => {
            let seconds: i64 = if secs > i64::MAX as u64 {
                i64::MAX
            } else {
                secs as i64
            };
            Timestamp { seconds, nanos: nanos as i32 }
        },
        Err((secs, nanos)) => {
            let seconds: i64 = if secs > i64::MAX as u64 {
                i64::MAX
            } else {
                secs as i64
            };
            if nanos == 0 {
                Timestamp { seconds: -seconds, nanos: 0 }
            } else {
                Timestamp { seconds: -seconds - 1, nanos: (1_000_000_000 - nanos) as i32 }
            }
        },
    }
}

/// The current time of the system clock, before the Unix epoch as well as
/// after it.
pub(crate) fn now() -> (r: Timestamp)
    ensures
        r.well_formed(),
{
    let t = system_now();
    let since = duration_since_epoch(&t);
    timestamp_from(since)
}

} // verus!
