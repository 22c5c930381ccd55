//! Timeout values: how long a wait may last, in the two-field form that each
//! of the two wait calls takes.
//!
//! A duration is whole seconds and a fraction of a second in nanoseconds.
//! The coarse wait counts the fraction in microseconds, the fine wait in
//! nanoseconds. A fraction below the unit is cut off, never rounded up.
//! Nothing else is lost: the seconds field is signed, and a duration of more
//! seconds than it can hold becomes the longest timeout there is, not a
//! negative one.

use std::time::Duration;
use vstd::prelude::*;

verus! {

/// Nanoseconds in one microsecond.
pub const NANOS_PER_MICRO: u32 = 1_000;

/// Microseconds in one second.
pub const MICROS_PER_SEC: u32 = 1_000_000;

/// Nanoseconds in one second.
pub const NANOS_PER_SEC: u32 = 1_000_000_000;

/// The whole seconds that `duration` holds.
pub uninterp spec fn duration_secs(duration: Duration) -> u64;

/// The fraction of a second that `duration` holds beside its whole seconds,
/// in nanoseconds.
pub uninterp spec fn duration_subsec_nanos(duration: Duration) -> u32;

/// Taken on trust of `Duration::as_secs`: it gives the whole seconds of the
/// duration, the same for the same duration.
pub assume_specification[ Duration::as_secs ](duration: &Duration) -> (secs: u64)
    ensures
        secs == duration_secs(*duration),
;

/// Taken on trust of `Duration::subsec_nanos`: it gives what the duration
/// holds beside its whole seconds, in nanoseconds, the same for the same
/// duration and always less than one second.
pub assume_specification[ Duration::subsec_nanos ](duration: &Duration) -> (nanos: u32)
    ensures
        nanos == duration_subsec_nanos(*duration),
        nanos < NANOS_PER_SEC,
;

/// A count of seconds as the signed field of a timeout holds it. A count
/// above `i64::MAX` does not fit and stands as `i64::MAX`, the most seconds
/// that the field can hold.
pub open spec fn seconds_field(secs: u64) -> int {
    if secs <= i64::MAX {
        secs as int
    } else {
        i64::MAX as int
    }
}

/// The timeout of the coarse wait: seconds and microseconds.
#[derive(Clone, Copy, Debug, PartialEq, Eq, Structural)]
pub struct TimeVal {
    pub tv_sec: i64,
    pub tv_usec: i64,
}

/// The timeout of the fine wait: seconds and nanoseconds.
#[derive(Clone, Copy, Debug, PartialEq, Eq, Structural)]
pub struct TimeSpec {
    pub tv_sec: i64,
    pub tv_nsec: i64,
}

/// The coarse timeout for `secs` seconds and `subsec_nanos` nanoseconds.
pub open spec fn timeval_of(secs: u64, subsec_nanos: u32) -> TimeVal {
    TimeVal {
        tv_sec: seconds_field(secs) as i64,
        tv_usec: (subsec_nanos / NANOS_PER_MICRO) as i64,
    }
}

/// The fine timeout for `secs` seconds and `subsec_nanos` nanoseconds.
pub open spec fn timespec_of(secs: u64, subsec_nanos: u32) -> TimeSpec {
    TimeSpec { tv_sec: seconds_field(secs) as i64, tv_nsec: subsec_nanos as i64 }
}

fn seconds_to_field(secs: u64) -> (field: i64)
    ensures
        field == seconds_field(secs),
        0 <= field,
{
    if secs <= i64::MAX as u64 {
        secs as i64
    } else {
        i64::MAX
    }
}

impl TimeVal {
    /// The timeout for `secs` whole seconds and a fraction of
    /// `subsec_nanos` nanoseconds. What the fraction holds below one
    /// microsecond is dropped. Seconds above `i64::MAX` stand as
    /// `i64::MAX`; the seconds are never negative.
    pub fn from_parts(secs: u64, subsec_nanos: u32) -> (tv: TimeVal)
        ensures
            tv == timeval_of(secs, subsec_nanos),
            tv.tv_usec * NANOS_PER_MICRO <= subsec_nanos < (tv.tv_usec + 1) * NANOS_PER_MICRO,
            tv.tv_sec == if secs <= i64::MAX { secs as int } else { i64::MAX as int },
            subsec_nanos < NANOS_PER_SEC ==> tv.is_normal(),
    {
        TimeVal {
            tv_sec: seconds_to_field(secs),
            tv_usec: (subsec_nanos / NANOS_PER_MICRO) as i64,
        }
    }

    /// Whether the microseconds are a fraction of a second and the seconds
    /// are not negative, as a wait call asks.
    pub open spec fn is_normal(&self) -> bool {
        0 <= self.tv_sec && 0 <= self.tv_usec < MICROS_PER_SEC
    }
}

impl TimeSpec {
    /// The timeout for `secs` whole seconds and a fraction of
    /// `subsec_nanos` nanoseconds. Seconds above `i64::MAX` stand as
    /// `i64::MAX`; the seconds are never negative.
    pub fn from_parts(secs: u64, subsec_nanos: u32) -> (ts: TimeSpec)
        ensures
            ts == timespec_of(secs, subsec_nanos),
            ts.tv_nsec == subsec_nanos,
            ts.tv_sec == if secs <= i64::MAX { secs as int } else { i64::MAX as int },
            subsec_nanos < NANOS_PER_SEC ==> ts.is_normal(),
    {
        TimeSpec { tv_sec: seconds_to_field(secs), tv_nsec: subsec_nanos as i64 }
    }

    /// Whether the nanoseconds are a fraction of a second and the seconds
    /// are not negative, as a wait call asks.
    pub open spec fn is_normal(&self) -> bool {
        0 <= self.tv_sec && 0 <= self.tv_nsec < NANOS_PER_SEC
    }
}

/// The seconds of a timeout are never negative and never more than the
/// seconds asked for; they are the seconds asked for wherever those fit.
pub proof fn lemma_seconds_are_kept_or_capped(secs: u64, subsec_nanos: u32)
    ensures
        0 <= timeval_of(secs, subsec_nanos).tv_sec <= secs,
        0 <= timespec_of(secs, subsec_nanos).tv_sec <= secs,
        secs <= i64::MAX ==> timeval_of(secs, subsec_nanos).tv_sec == secs && timespec_of(
            secs,
            subsec_nanos,
        ).tv_sec == secs,
{
}

/// The coarse timeout of a duration has the seconds of the fine one, and for
/// its microseconds the whole microseconds in the nanoseconds of the fine
/// one.
pub proof fn lemma_coarse_from_fine(secs: u64, subsec_nanos: u32)
    ensures
        timeval_of(secs, subsec_nanos).tv_sec == timespec_of(secs, subsec_nanos).tv_sec,
        timeval_of(secs, subsec_nanos).tv_usec == timespec_of(secs, subsec_nanos).tv_nsec
            / (NANOS_PER_MICRO as i64),
{
}

/// A fraction of `micros` whole microseconds and `rest` nanoseconds more,
/// with `rest` below one microsecond, gives `micros` in the coarse timeout:
/// `rest` is dropped, however close to a microsecond it is.
pub proof fn lemma_rest_below_a_microsecond_is_dropped(secs: u64, micros: u32, rest: u32)
    requires
        rest < NANOS_PER_MICRO,
        micros * NANOS_PER_MICRO + rest <= u32::MAX,
    ensures
        timeval_of(secs, (micros * NANOS_PER_MICRO + rest) as u32).tv_usec == micros,
{
}

/// The timeout of the coarse wait that lasts as long as `duration`, less
/// what `duration` holds below one microsecond. A duration of more than
/// `i64::MAX` seconds gives `i64::MAX` seconds.
pub fn make_timeval(duration: Duration) -> (tv: TimeVal)
    ensures
        tv == timeval_of(duration_secs(duration), duration_subsec_nanos(duration)),
        tv.tv_usec * NANOS_PER_MICRO <= duration_subsec_nanos(duration) < (tv.tv_usec + 1)
            * NANOS_PER_MICRO,
        tv.is_normal(),
        tv.tv_sec == if duration_secs(duration) <= i64::MAX {
            duration_secs(duration) as int
        } else {
            i64::MAX as int
        },
{
    TimeVal::from_parts(duration.as_secs(), duration.subsec_nanos())
}

/// The timeout of the fine wait that lasts as long as `duration`. A
/// duration of more than `i64::MAX` seconds gives `i64::MAX` seconds.
pub fn make_timespec(duration: Duration) -> (ts: TimeSpec)
    ensures
        ts == timespec_of(duration_secs(duration), duration_subsec_nanos(duration)),
        ts.tv_nsec == duration_subsec_nanos(duration),
        ts.is_normal(),
        ts.tv_sec == if duration_secs(duration) <= i64::MAX {
            duration_secs(duration) as int
        } else {
            i64::MAX as int
        },
{
    TimeSpec::from_parts(duration.as_secs(), duration.subsec_nanos())
}

} // verus!
