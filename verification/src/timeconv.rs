//! Converting a system time into a calendar date-time.
//!
//! The split of an epoch offset into signed seconds and a nanosecond
//! remainder — the part with arithmetic to get wrong — is verified; the
//! clock types themselves and the calendar arithmetic stay in `std` and
//! `chrono` behind trusted declarations.

use vstd::prelude::*;

verus! {

#[verifier::external_type_specification]
#[verifier::external_body]
pub struct ExSystemTime(std::time::SystemTime);

#[verifier::external_type_specification]
#[verifier::external_body]
pub struct ExSystemTimeError(std::time::SystemTimeError);

/// A UTC calendar date-time. It carries chrono's `DateTime<Utc>`, a type
/// Verus cannot look into; the surrounding program reads `inner` to format
/// or compare it.
#[verifier::external_body]
pub struct UtcDateTime {
    pub inner: chrono::DateTime<chrono::Utc>,
}

/// Relies on std::time::SystemTime::duration_since, measured against the
/// Unix epoch: `Ok` holds the offset of a time at or after the epoch, `Err`
/// means the time lies before it.
#[verifier::external_body]
fn since_unix_epoch(t: &std::time::SystemTime) -> (r: Result<
    std::time::Duration,
    std::time::SystemTimeError,
>) {
    t.duration_since(std::time::UNIX_EPOCH)
}

/// Relies on std::time::SystemTimeError::duration: how far the time lies
/// before the reference point.
#[verifier::external_body]
fn error_duration(e: &std::time::SystemTimeError) -> (r: std::time::Duration) {
    e.duration()
}

/// Relies on core::time::Duration::as_secs: the whole seconds of the
/// duration.
#[verifier::external_body]
fn duration_secs(d: &std::time::Duration) -> (r: u64) {
    d.as_secs()
}

/// Relies on core::time::Duration::subsec_nanos, documented to be less than
/// one billion.
#[verifier::external_body]
fn duration_subsec_nanos(d: &std::time::Duration) -> (r: u32)
    ensures
        r < 1_000_000_000,
{
    d.subsec_nanos()
}

/// Relies on chrono::DateTime::from_timestamp: the UTC date-time `secs`
/// seconds and `nsecs` extra nanoseconds past the Unix epoch, `None` when
/// the seconds lie outside chrono's calendar range or the nanoseconds are
/// no valid subsecond (chrono admits one leap second, so values below two
/// billion are valid). Within the era up to the year 9999 a valid pair
/// always maps to a date.
#[verifier::external_body]
fn utc_from_timestamp(secs: i64, nsecs: u32) -> (r: Option<UtcDateTime>)
    ensures
        nsecs >= 2_000_000_000 ==> r is None,
        0 <= secs < 253_402_300_800 && nsecs < 1_000_000_000 ==> r is Some,
{
    chrono::DateTime::from_timestamp(secs, nsecs).map(|inner| UtcDateTime { inner })
}

/// Signed seconds and nanosecond remainder of an epoch offset given as a
/// magnitude: `after` tells whether the time lies at or after the epoch.
/// A time before the epoch with a subsecond part borrows one second, so
/// that the nanoseconds always count forward.
pub open spec fn epoch_parts_of(after: bool, secs: nat, nanos: nat) -> (int, nat)
    recommends
        nanos < 1_000_000_000,
{
    if after {
        (secs as int, nanos)
    } else if nanos == 0 {
        (-(secs as int), 0 as nat)
    } else {
        (-(secs as int) - 1, (1_000_000_000 - nanos) as nat)
    }
}

/// Turn the magnitude of an epoch offset into signed seconds and a forward
/// nanosecond remainder.
pub fn epoch_parts(after: bool, secs: u64, nanos: u32) -> (r: (i64, u32))
    requires
        nanos < 1_000_000_000,
        secs <= i64::MAX,
    ensures
        (r.0 as int, r.1 as nat) == epoch_parts_of(after, secs as nat, nanos as nat),
{
    if after {
        (secs as i64, nanos)
    } else if nanos == 0 {
        (-(secs as i64), 0)
    } else {
        (-(secs as i64) - 1, 1_000_000_000 - nanos)
    }
}

/// The calendar date-time of a system time: its offset from the Unix epoch,
/// split into signed seconds and nanoseconds by `epoch_parts`, handed to
/// chrono. `None` for a time beyond what a signed second count or chrono's
/// calendar can hold.
pub fn system_time_to_date_time(t: &std::time::SystemTime) -> (r: Option<UtcDateTime>) {
    let (after, secs, nanos) = match since_unix_epoch(t) {
        Ok(d) => (true, duration_secs(&d), duration_subsec_nanos(&d)),
        Err(e) => {
            let d = error_duration(&e);
            (false, duration_secs(&d), duration_subsec_nanos(&d))
        },
    };
    if secs > i64::MAX as u64 {
        return None;
    }
    let (sec, nsec) = epoch_parts(after, secs, nanos);
    utc_from_timestamp(sec, nsec)
}

} // verus!
