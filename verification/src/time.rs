//! Points in time as plain integers, and the whole-day distance between two
//! of them.

use vstd::prelude::*;

verus! {

/// A point in time: seconds since the Unix epoch and the nanoseconds within
/// that second.
#[derive(Clone, Copy, Debug, PartialEq, Eq, Structural)]
pub struct Timestamp {
    pub secs: i64,
    pub nanos: u32,
}

/// Nanoseconds in one day.
pub open spec fn nanos_per_day() -> int {
    86_400_000_000_000
}

impl Timestamp {
    /// The point in time as one number: nanoseconds since the epoch.
    pub open spec fn total_nanos(self) -> int {
        self.secs * 1_000_000_000 + self.nanos
    }

    /// Whether `self` lies strictly after `other`.
    pub open spec fn is_after(self, other: Timestamp) -> bool {
        self.total_nanos() > other.total_nanos()
    }

    /// Whole days from `self` to `now`, rounded toward zero; negative when
    /// `self` lies in the future of `now`.
    pub open spec fn days_until(self, now: Timestamp) -> int {
        let d = now.total_nanos() - self.total_nanos();
        if d >= 0 {
            d / nanos_per_day()
        } else {
            -((-d) / nanos_per_day())
        }
    }

    pub fn new(secs: i64, nanos: u32) -> (t: Timestamp)
        ensures
            t.secs == secs,
            t.nanos == nanos,
    {
        Timestamp { secs, nanos }
    }

    fn nanos_since_epoch(&self) -> (n: i128)
        ensures
            n == self.total_nanos(),
    {
        let s: i128 = self.secs as i128;
        let f: i128 = self.nanos as i128;
        s * 1_000_000_000 + f
    }

    /// Strict "later than" on the time line.
    pub fn later_than(&self, other: &Timestamp) -> (r: bool)
        ensures
            r == self.is_after(*other),
    {
        self.nanos_since_epoch() > other.nanos_since_epoch()
    }

    /// Whole days of inactivity between `self` and `now`.
    pub fn inactive_days(&self, now: &Timestamp) -> (days: i64)
        ensures
            days == self.days_until(*now),
    {
        let d: i128 = now.nanos_since_epoch() - self.nanos_since_epoch();
        if d >= 0 {
            let q: i128 = d / 86_400_000_000_000;
            q as i64
        } else {
            let q: i128 = (-d) / 86_400_000_000_000;
            -(q as i64)
        }
    }
}

/// The later of two optional points in time; an absent one never wins over a
/// present one.
pub open spec fn later_of(a: Option<Timestamp>, b: Option<Timestamp>) -> Option<Timestamp> {
    match (a, b) {
        (None, None) => None,
        (Some(x), None) => Some(x),
        (None, Some(y)) => Some(y),
        (Some(x), Some(y)) => if y.is_after(x) {
            Some(y)
        } else {
            Some(x)
        },
    }
}

/// A point in time, if any, as a pair of seconds and nanoseconds.
pub open spec fn time_parts(t: Option<Timestamp>) -> Option<(i64, u32)> {
    match t {
        Some(t) => Some((t.secs, t.nanos)),
        None => None,
    }
}

/// The point in time, if any, that a pair of seconds and nanoseconds is.
pub open spec fn time_of_parts(parts: Option<(i64, u32)>) -> Option<Timestamp> {
    match parts {
        Some((secs, nanos)) => Some(Timestamp { secs, nanos }),
        None => None,
    }
}

/// Reads the system clock with `chrono::Utc::now` and hands it back as
/// seconds and sub-second nanoseconds. The clock decides the value; all
/// that is claimed is that it lies at or after the epoch, with less than a
/// second of nanoseconds. `Utc::now` panics where the clock stands before
/// the epoch.
#[verifier::external_body]
pub(crate) fn utc_now() -> (now: Timestamp)
    ensures
        now.secs >= 0,
        now.nanos < 1_000_000_000,
{
    let t = chrono::Utc::now();
    Timestamp { secs: t.timestamp(), nanos: t.timestamp_subsec_nanos() }
}

} // verus!
