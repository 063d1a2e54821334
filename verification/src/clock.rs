//! Points in time, as seconds and nanoseconds since the Unix epoch.

use vstd::prelude::*;

verus! {

/// A point in time on the UTC time line.
#[derive(Clone, Copy, Debug, PartialEq, Eq)]
pub struct Instant {
    /// Whole seconds since 1970-01-01 00:00:00 UTC.
    pub secs: i64,
    /// Nanoseconds since the last second boundary.
    pub nanos: u32,
}

impl Instant {
    /// Nanoseconds since the epoch.
    pub open spec fn value(self) -> int {
        self.secs * 1_000_000_000 + self.nanos
    }

    pub fn new(secs: i64, nanos: u32) -> (instant: Instant)
        ensures
            instant.secs == secs,
            instant.nanos == nanos,
    {
        Instant { secs, nanos }
    }

    /// Nanoseconds since the epoch.
    pub fn to_nanos(self) -> (v: i128)
        ensures
            v == self.value(),
    {
        self.secs as i128 * 1_000_000_000 + self.nanos as i128
    }

    /// Whether `self` is strictly later than `other`.
    pub fn is_after(self, other: Instant) -> (later: bool)
        ensures
            later == (self.value() > other.value()),
    {
        self.to_nanos() > other.to_nanos()
    }
}

/// Reads the system clock with `SystemTime::now` of std and returns the time
/// since the Unix epoch as `duration_since` gives it, in whole seconds
/// (`as_secs`) and nanoseconds (`subsec_nanos`, which std keeps below one
/// billion); nothing if the clock stands before the epoch.
#[verifier::external_body]
pub(crate) fn unix_elapsed() -> (elapsed: Option<(u64, u32)>)
    ensures
        elapsed matches Some(parts) ==> parts.1 < 1_000_000_000,
{
    match std::time::SystemTime::now().duration_since(std::time::UNIX_EPOCH) {
        Ok(elapsed) => Some((elapsed.as_secs(), elapsed.subsec_nanos())),
        Err(_) => None,
    }
}

/// The time that `elapsed`, a reading of the clock in seconds and
/// nanoseconds since the epoch, stands for; none where the clock could not
/// be read or the seconds do not fit.
pub open spec fn instant_of(elapsed: Option<(u64, u32)>) -> Option<Instant> {
    match elapsed {
        Some((secs, nanos)) => if secs <= i64::MAX {
            Some(Instant { secs: secs as i64, nanos })
        } else {
            None
        },
        None => None,
    }
}

/// Makes a time of a reading of the clock.
pub fn instant_from(elapsed: Option<(u64, u32)>) -> (now: Option<Instant>)
    ensures
        now == instant_of(elapsed),
{
    match elapsed {
        Some((secs, nanos)) => {
            if secs <= 0x7fff_ffff_ffff_ffff {
                Some(Instant { secs: secs as i64, nanos })
            } else {
                None
            }
        },
        None => None,
    }
}

/// The time the system clock shows. There is none if the clock stands
/// before the epoch or too far after it.
pub fn utc_now() -> (now: Option<Instant>)
    ensures
        now matches Some(at) ==> 0 <= at.secs && at.nanos < 1_000_000_000,
{
    instant_from(unix_elapsed())
}

/// The text that `chrono` writes for the UTC time `secs` seconds and
/// `nanos` nanoseconds after the epoch, in RFC 3339 form with milliseconds
/// and a numeric offset, if `chrono` has such a time.
pub uninterp spec fn rfc3339_millis(secs: i64, nanos: u32) -> Option<Seq<char>>;

/// Makes a `chrono::DateTime<Utc>` of `at` with `DateTime::from_timestamp`
/// and writes it with `to_rfc3339_opts(SecondsFormat::Millis, false)`. The
/// text is a function of the two numbers, which [`rfc3339_millis`] names;
/// there is none where `chrono` has no such time.
#[verifier::external_body]
pub(crate) fn to_rfc3339_millis(at: Instant) -> (text: Option<String>)
    ensures
        match text {
            Some(text) => rfc3339_millis(at.secs, at.nanos) == Some(text@),
            None => rfc3339_millis(at.secs, at.nanos) is None,
        },
{
    let time = chrono::DateTime::from_timestamp(at.secs, at.nanos)?;
    Some(time.to_rfc3339_opts(chrono::SecondsFormat::Millis, false))
}

} // verus!
