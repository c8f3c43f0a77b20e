use vstd::prelude::*;

verus! {

/// A point in time: whole seconds since the Unix epoch and the nanoseconds past them.
#[derive(Clone, Copy, PartialEq, Eq, Structural, Debug)]
pub struct Timestamp {
    pub secs: i64,
    pub nanos: u32,
}

/// The last second a UTC date-time can name (December 31, 262142).
pub open spec fn max_timestamp() -> int {
    8_210_266_876_799
}

/// The first second a UTC date-time can name (January 1, 262143 BCE).
pub open spec fn min_timestamp() -> int {
    -8_334_601_315_200
}

/// Whether a time can be a reading of the system clock: not before the epoch, within the
/// dates a UTC date-time can name, with fewer than a billion nanoseconds.
pub open spec fn is_clock_reading(t: Timestamp) -> bool {
    0 <= t.secs <= max_timestamp() && t.nanos < 1_000_000_000
}

/// Whether `a` lies strictly before `b`.
pub open spec fn is_before(a: Timestamp, b: Timestamp) -> bool {
    a.secs < b.secs || (a.secs == b.secs && a.nanos < b.nanos)
}

/// A time moved by a number of seconds, when the result is still a date-time.
pub open spec fn shifted(t: Timestamp, delta: int) -> Option<Timestamp> {
    if min_timestamp() <= t.secs + delta <= max_timestamp() {
        Some(Timestamp { secs: (t.secs + delta) as i64, nanos: t.nanos })
    } else {
        None
    }
}

impl Timestamp {
    /// Whether this time lies strictly before `other`.
    pub fn before(&self, other: &Timestamp) -> (r: bool)
        ensures
            r == is_before(*self, *other),
    {
        self.secs < other.secs || (self.secs == other.secs && self.nanos < other.nanos)
    }

    /// This time moved by `delta` seconds; `None` when the result falls outside the dates a
    /// UTC date-time can name.
    pub fn shift(&self, delta: i128) -> (r: Option<Timestamp>)
        requires
            -0x1_0000_0000_0000_0000_0000_0000 < delta < 0x1_0000_0000_0000_0000_0000_0000,
        ensures
            r == shifted(*self, delta as int),
    {
        let s = self.secs as i128 + delta;
        if -8_334_601_315_200 <= s && s <= 8_210_266_876_799 {
            Some(Timestamp { secs: s as i64, nanos: self.nanos })
        } else {
            None
        }
    }
}

/// A reading of the system clock, as `now` took it. Only `now` makes one, so a contract that
/// speaks of "some `ClockReading`" speaks of a time the clock actually gave, not of a time
/// computed from it.
#[derive(Clone, Copy)]
pub struct ClockReading {
    instant: Timestamp,
}

impl ClockReading {
    /// The time the clock gave.
    pub closed spec fn time(self) -> Timestamp {
        self.instant
    }

    /// The time the clock gave.
    pub fn timestamp(&self) -> (t: Timestamp)
        ensures
            t == self.time(),
    {
        self.instant
    }
}

/// Reads the system clock (`chrono::Utc::now`). The reading is not before the epoch (chrono
/// panics there) and lies within the dates chrono can name; its nanoseconds come from the
/// system time, below one billion. Nothing else is said of it: two readings may differ.
#[verifier::external_body]
pub(crate) fn now() -> (r: ClockReading)
    ensures
        is_clock_reading(r.time()),
{
    let now = chrono::Utc::now();
    ClockReading {
        instant: Timestamp { secs: now.timestamp(), nanos: now.timestamp_subsec_nanos() },
    }
}

} // verus!
