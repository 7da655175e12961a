//! Points in time.
use vstd::prelude::*;

verus! {

/// The last second of the last day of the calendar.
pub const LAST_SECOND: i64 = 8_210_266_876_799;

/// The first second of the first day of the calendar.
pub const FIRST_SECOND: i64 = -8_334_601_228_800;

/// A point in time: seconds since the start of 1970 in UTC, and nanoseconds
/// within the second. A leap second is the 59th second of a minute with a
/// billion nanoseconds or more.
#[derive(Debug, Clone, Copy, PartialEq, Eq, Structural)]
pub struct Timestamp {
    pub secs: i64,
    pub nanos: u32,
}

impl Timestamp {
    /// Whether the calendar holds this point in time.
    pub open spec fn valid(self) -> bool {
        &&& FIRST_SECOND <= self.secs <= LAST_SECOND
        &&& self.nanos < 2_000_000_000
        &&& self.nanos >= 1_000_000_000 ==> self.secs as int % 60 == 59
    }

    /// Whether the calendar holds the point in time `hours` later.
    pub open spec fn reaches(self, hours: u32) -> bool {
        self.valid() && self.secs + hours * 3600 <= LAST_SECOND
    }

    /// The point in time `hours` later. One who leaves a leap second ends up in
    /// an ordinary one.
    pub open spec fn later(self, hours: u32) -> Timestamp {
        Timestamp {
            secs: (self.secs + hours * 3600) as i64,
            nanos: if hours > 0 && self.nanos >= 1_000_000_000 {
                (self.nanos - 1_000_000_000) as u32
            } else {
                self.nanos
            },
        }
    }

    /// Whether this point in time comes after `other`.
    pub open spec fn after(self, other: Timestamp) -> bool {
        self.secs > other.secs || (self.secs == other.secs && self.nanos > other.nanos)
    }

    /// The current time.
    pub fn now() -> (time: Timestamp)
        ensures
            time.valid(),
            time.secs >= 0,
            time.nanos < 1_000_000_000,
    {
        utc_now()
    }

    /// Whether the calendar holds the point in time `hours` later.
    pub fn is_reachable(self, hours: u32) -> (reachable: bool)
        ensures
            reachable == self.reaches(hours),
    {
        if self.secs < FIRST_SECOND || self.secs > LAST_SECOND || self.nanos >= 2_000_000_000 {
            return false;
        }
        // The remainder of a negative number is negative here.
        let second: i64 = (self.secs - FIRST_SECOND) % 60;
        assert(FIRST_SECOND as int % 60 == 0);
        assert(second == self.secs as int % 60);
        if self.nanos >= 1_000_000_000 && second != 59 {
            return false;
        }
        self.secs + hours as i64 * 3600 <= LAST_SECOND
    }

    /// The point in time `hours` later.
    pub fn plus_hours(self, hours: u32) -> (time: Timestamp)
        requires
            self.reaches(hours),
        ensures
            time == self.later(hours),
    {
        add_hours(self, hours)
    }

    /// Whether this point in time comes after `other`.
    pub fn is_after(self, other: Timestamp) -> (after: bool)
        ensures
            after == self.after(other),
    {
        self.secs > other.secs || (self.secs == other.secs && self.nanos > other.nanos)
    }
}

/// The clock, read with `chrono::Utc::now`. The time is one that the calendar
/// holds, not before 1970 and in no leap second; which one is up to the clock.
/// With a clock that is set before 1970 it panics, whoever calls it.
#[verifier::external_body]
fn utc_now() -> (time: Timestamp)
    ensures
        time.valid(),
        time.secs >= 0,
        time.nanos < 1_000_000_000,
{
    let now = chrono::Utc::now();
    Timestamp { secs: now.timestamp(), nanos: now.timestamp_subsec_nanos() }
}

/// The sum of a `chrono::DateTime<Utc>` and a `chrono::Duration` of whole hours:
/// that many hours later, with the nanoseconds unchanged but for a leap second
/// that is left behind. The sum is only formed where it does not overflow.
#[verifier::external_body]
fn add_hours(time: Timestamp, hours: u32) -> (sum: Timestamp)
    requires
        time.reaches(hours),
    ensures
        sum == time.later(hours),
{
    let start = chrono::DateTime::from_timestamp(time.secs, time.nanos).unwrap();
    let sum = start + chrono::Duration::hours(hours as i64);
    Timestamp { secs: sum.timestamp(), nanos: sum.timestamp_subsec_nanos() }
}

/// Of two points in time either one comes after the other or they are the same; what
/// comes after a later one comes after an earlier one; and outside of leap seconds
/// the one with more nanoseconds since 1970 comes after the other.
pub proof fn law_time_has_an_order(a: Timestamp, b: Timestamp, c: Timestamp)
    ensures
        a.after(b) || b.after(a) || a == b,
        !(a.after(b) && b.after(a)),
        !a.after(a),
        a.after(b) && b.after(c) ==> a.after(c),
        a.nanos < 1_000_000_000 && b.nanos < 1_000_000_000 ==> (a.after(b) <==> a.secs
            * 1_000_000_000 + a.nanos > b.secs * 1_000_000_000 + b.nanos),
{
}

/// An hour has 3600 seconds: hours more are so many seconds more, with the same
/// nanoseconds outside of leap seconds, and hours can be added one after the other.
pub proof fn law_hours_are_seconds(time: Timestamp, hours: u32, more: u32)
    requires
        hours + more <= u32::MAX,
        time.reaches((hours + more) as u32),
    ensures
        time.later(hours).secs == time.secs + 3600 * hours,
        time.nanos < 1_000_000_000 ==> time.later(hours).nanos == time.nanos,
        time.later(hours).later(more) == time.later((hours + more) as u32),
        time.later(hours).valid(),
{
    assert(time.secs + hours * 3600 <= time.secs + (hours + more) * 3600);
    assert(time.secs <= time.secs + hours * 3600);
    if time.nanos >= 1_000_000_000 && hours == 0 {
        assert(time.later(hours) == time);
    }
}

/// The calendar goes from the year -262143 to the year 262142 and has leap seconds
/// only at the end of a minute; within it every point in time can be reached.
pub proof fn law_calendar(time: Timestamp, hours: u32)
    ensures
        time.valid() <==> -8_334_601_228_800 <= time.secs <= 8_210_266_876_799 && (time.nanos
            < 1_000_000_000 || time.nanos < 2_000_000_000 && time.secs as int % 60 == 59),
        time.reaches(hours) <==> time.valid() && time.secs + 3600 * hours <= 8_210_266_876_799,
{
}

} // verus!
