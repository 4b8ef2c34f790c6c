//! Readings of the clocks: the monotonic clock that the timers run on, and
//! the system clock whose reading stamps a session's record.
use chrono::DateTime;
use std::time::Duration;
use std::time::Instant;
use std::time::SystemTime;
use std::time::UNIX_EPOCH;
use vstd::prelude::*;

verus! {

/// `std::time::Instant`, carried through the timers as an opaque start mark.
#[verifier::external_type_specification]
#[verifier::external_body]
pub struct ExInstant(Instant);

/// `std::time::SystemTime`, a reading of the system clock.
#[verifier::external_type_specification]
#[verifier::external_body]
pub struct ExSystemTime(SystemTime);

/// Calls `Instant::now`. The reading depends on the moment of the call, so
/// nothing is promised of the value that comes back.
#[verifier::external_body]
pub(crate) fn instant_now() -> Instant {
    Instant::now()
}

/// Calls `Instant::elapsed`: the time that has passed since `start`. It depends
/// on the moment of the call, so nothing is promised of it.
#[verifier::external_body]
pub(crate) fn instant_elapsed(start: &Instant) -> Duration {
    start.elapsed()
}

/// Calls `Duration::as_micros`: the whole microseconds in `d`. `Duration` is
/// opaque here, so the value is left unsaid.
#[verifier::external_body]
pub(crate) fn duration_as_micros(d: &Duration) -> u128 {
    d.as_micros()
}

/// Calls `Duration::as_secs`: the whole seconds in `d`. `Duration` is opaque
/// here, so the value is left unsaid.
#[verifier::external_body]
pub(crate) fn duration_as_secs(d: &Duration) -> u64 {
    d.as_secs()
}

/// Calls `Duration::subsec_nanos`: the fractional part of `d` in
/// nanoseconds, which std documents as always less than one billion.
#[verifier::external_body]
pub(crate) fn duration_subsec_nanos(d: &Duration) -> (n: u32)
    ensures
        n < 1_000_000_000,
{
    d.subsec_nanos()
}

/// `us` microseconds in milliseconds, rounded to the nearest (halves up),
/// capped at `u64::MAX`.
pub open spec fn micros_to_millis(us: u128) -> u64 {
    let ms = us / 1000 + if us % 1000 >= 500 {
        1int
    } else {
        0int
    };
    if ms > u64::MAX {
        u64::MAX
    } else {
        ms as u64
    }
}

/// Rounds microseconds to the nearest millisecond, capped at `u64::MAX`.
pub fn round_micros(us: u128) -> (ms: u64)
    ensures
        ms == micros_to_millis(us),
{
    let whole = us / 1000;
    let up: u128 = if us % 1000 >= 500 {
        1
    } else {
        0
    };
    if whole >= u64::MAX as u128 {
        u64::MAX
    } else {
        (whole + up) as u64
    }
}

/// Milliseconds that have passed since `start`, to the nearest millisecond
/// and capped at `u64::MAX`.
pub(crate) fn millis_since(start: &Instant) -> u64 {
    let d = instant_elapsed(start);
    round_micros(duration_as_micros(&d))
}

/// Calls `SystemTime::now`: the system clock's reading at the moment of the
/// call, of which nothing is promised.
#[verifier::external_body]
pub(crate) fn system_time_now() -> SystemTime {
    SystemTime::now()
}

/// Calls `SystemTime::duration_since` with `UNIX_EPOCH`: the time from
/// 1970-01-01 to `t`, or `None` where `t` lies before it. `SystemTime` is
/// opaque here, so which of the two comes back is left unsaid.
#[verifier::external_body]
pub(crate) fn since_unix_epoch(t: &SystemTime) -> Option<Duration> {
    t.duration_since(UNIX_EPOCH).ok()
}

/// What chrono renders for the moment `secs` seconds and `nanos` nanoseconds
/// after 1970-01-01 UTC: `DateTime::from_timestamp`, then
/// `DateTime::to_rfc3339`; `None` where chrono cannot represent the moment.
pub uninterp spec fn chrono_rfc3339(secs: i64, nanos: u32) -> Option<Seq<char>>;

/// Calls `chrono::DateTime::from_timestamp` and renders the moment it gives
/// with `DateTime::to_rfc3339`: the moment `secs` seconds and `nanos`
/// nanoseconds after 1970-01-01 UTC as text such as
/// `2026-07-13T10:05:30.123456789+00:00`, or `None` where chrono cannot
/// represent it. Both calls are pure, so the result is named
/// `chrono_rfc3339`; which inputs chrono accepts, and the text, are left
/// unsaid. (`DateTime` itself never leaves this function: its `TimeZone`
/// bound cannot be declared here. The `expect` inside `to_rfc3339` never
/// fires in chrono's source: every field it writes in two digits is below 100.)
#[verifier::external_body]
pub(crate) fn utc_rfc3339_at(secs: i64, nanos: u32) -> (r: Option<String>)
    ensures
        match r {
            Some(t) => chrono_rfc3339(secs, nanos) == Some(t@),
            None => chrono_rfc3339(secs, nanos) is None,
        },
{
    match DateTime::from_timestamp(secs, nanos) {
        Some(t) => Some(t.to_rfc3339()),
        None => None,
    }
}

/// The Unix epoch in RFC 3339: what is recorded when the system clock gives
/// no moment that chrono can represent.
pub open spec fn epoch_text() -> Seq<char> {
    "1970-01-01T00:00:00+00:00"@
}

/// The timestamp recorded for a reading of the system clock: whole seconds
/// and nanoseconds since 1970, or `None` for a reading before 1970. Chrono's
/// rendering where it represents the moment, the epoch otherwise.
pub open spec fn timestamp_text(reading: Option<(u64, u32)>) -> Seq<char> {
    match reading {
        Some((secs, nanos)) => if secs <= i64::MAX {
            match chrono_rfc3339(secs as i64, nanos) {
                Some(t) => t,
                None => epoch_text(),
            }
        } else {
            epoch_text()
        },
        None => epoch_text(),
    }
}

/// The RFC 3339 text in UTC for a reading of the system clock: whole seconds
/// and nanoseconds since 1970, or `None` for a reading before 1970.
pub fn utc_timestamp_at(reading: Option<(u64, u32)>) -> (r: String)
    ensures
        r@ == timestamp_text(reading),
{
    let text = match reading {
        Some((secs, nanos)) => {
            if secs <= i64::MAX as u64 {
                utc_rfc3339_at(secs as i64, nanos)
            } else {
                None
            }
        },
        None => None,
    };
    match text {
        Some(t) => t,
        None => {
            let e = String::from_str("1970-01-01T00:00:00+00:00");
            proof {
                reveal_strlit("1970-01-01T00:00:00+00:00");
            }
            e
        },
    }
}

/// The system clock's reading as RFC 3339 text in UTC. Where the clock reads
/// before 1970, or a moment beyond what chrono represents, the Unix epoch is
/// recorded in its place.
pub fn utc_timestamp() -> (r: String)
    ensures
        exists|reading: Option<(u64, u32)>| r@ == timestamp_text(reading),
{
    let now = system_time_now();
    let reading = match since_unix_epoch(&now) {
        Some(d) => Some((duration_as_secs(&d), duration_subsec_nanos(&d))),
        None => None,
    };
    utc_timestamp_at(reading)
}

} // verus!
