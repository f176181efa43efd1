//! Points in time as the library compares, advances and floors them.

use vstd::prelude::*;

verus! {

/// Nanoseconds in one second.
pub const NANOS_PER_SECOND: u32 = 1_000_000_000;

pub const SECONDS_PER_HOUR: i64 = 3_600;

pub const SECONDS_PER_DAY: i64 = 86_400;

/// The last second that the journal's clock can express:
/// 262142-12-31T23:59:59Z.
pub const MAX_UTC_SECONDS: i64 = 8_210_266_876_799;

/// One UTC instant: the whole seconds since 1970-01-01T00:00:00Z and the
/// nanoseconds within the second. A billion nanoseconds and more lie in the leap
/// second that follows the second.
#[derive(Clone, Copy, Debug, PartialEq, Eq, Structural)]
pub struct Timestamp {
    pub seconds: i64,
    pub subsec: u32,
}

impl Timestamp {
    /// Where the instant stands among all instants: by its second, and within it
    /// by its nanoseconds, so that a leap second comes before the next second.
    pub open spec fn rank(self) -> int {
        self.seconds * 0x1_0000_0000 + self.subsec
    }
}

/// Instants are ordered by their seconds, and those of one second by their
/// nanoseconds: a leap second lies behind its second and before the next one.
/// Two instants at the same place are one.
pub proof fn law_instants_are_ordered_by_their_seconds(a: Timestamp, b: Timestamp)
    ensures
        a.rank() == b.rank() <==> a == b,
        a.rank() < b.rank() <==> a.seconds < b.seconds || (a.seconds == b.seconds && a.subsec
            < b.subsec),
{
}

/// The later of two instants.
pub open spec fn later_of(a: Timestamp, b: Timestamp) -> Timestamp {
    if a.rank() >= b.rank() {
        a
    } else {
        b
    }
}

/// The instant lies in a leap second.
pub open spec fn is_leap(at: Timestamp) -> bool {
    at.subsec >= NANOS_PER_SECOND
}

/// `at` moved forward by `nanos`, or nothing past the end of the clock. A leap
/// second is left as if it were the second that it follows, unless the move
/// ends within it.
pub open spec fn advanced(at: Timestamp, nanos: int) -> Option<Timestamp> {
    let unit = NANOS_PER_SECOND as int;
    if is_leap(at) && at.subsec + nanos < 2 * unit {
        Some(Timestamp { seconds: at.seconds, subsec: (at.subsec + nanos) as u32 })
    } else {
        let within = if is_leap(at) {
            at.subsec - unit
        } else {
            at.subsec as int
        };
        let seconds = at.seconds + (within + nanos) / unit;
        if seconds <= MAX_UTC_SECONDS {
            Some(Timestamp { seconds: seconds as i64, subsec: ((within + nanos) % unit) as u32 })
        } else {
            None
        }
    }
}

/// The start of the hour that holds `at`, wherever it can be expressed.
pub open spec fn hour_bucket_of(at: Timestamp) -> Timestamp {
    if at.seconds < i64::MIN + SECONDS_PER_HOUR {
        at
    } else {
        Timestamp {
            seconds: (at.seconds - at.seconds as int % SECONDS_PER_HOUR as int) as i64,
            subsec: 0,
        }
    }
}

/// The instant `seconds` and `nanos` after the epoch.
pub open spec fn instant_at(seconds: i64, nanos: u32) -> Timestamp {
    Timestamp { seconds, subsec: nanos }
}

/// The last instant that the clock can express.
pub open spec fn last_instant() -> Timestamp {
    Timestamp { seconds: MAX_UTC_SECONDS, subsec: 999_999_999 }
}

/// The nanoseconds from one instant to another. Whether a leap second that one
/// of them lies in counts goes by their times of day.
pub open spec fn nanos_between(earlier: Timestamp, later: Timestamp) -> int {
    let unit = NANOS_PER_SECOND as int;
    let from = earlier.seconds as int % SECONDS_PER_DAY as int;
    let to = later.seconds as int % SECONDS_PER_DAY as int;
    let apart = (later.seconds - earlier.seconds) * unit + later.subsec - earlier.subsec;
    if from < to && is_leap(earlier) {
        apart + unit
    } else if to < from && is_leap(later) {
        apart - unit
    } else {
        apart
    }
}

/// The whole seconds from one instant to a later one; none where less than a
/// second lies between them.
pub open spec fn seconds_between(earlier: Timestamp, later: Timestamp) -> int {
    let nanos = nanos_between(earlier, later);
    if nanos < 0 {
        0
    } else {
        nanos / NANOS_PER_SECOND as int
    }
}

/// The text that chrono writes for the instant `nanos` after the whole second
/// `seconds` since the epoch, where its calendar holds that instant.
pub uninterp spec fn rfc3339_text(seconds: i64, nanos: u32) -> Option<Seq<char>>;

/// Makes a `chrono::DateTime<Utc>` with `from_timestamp` and writes it with
/// `to_rfc3339`. The text is named.
#[verifier::external_body]
fn outside_rfc3339(seconds: i64, nanos: u32) -> (r: Option<String>)
    ensures
        crate::json::text_in(r) == rfc3339_text(seconds, nanos),
{
    let at = chrono::DateTime::<chrono::Utc>::from_timestamp(seconds, nanos)?;
    Some(at.to_rfc3339())
}

/// The text of an instant, where the calendar holds it.
pub open spec fn instant_text(at: Timestamp) -> Option<Seq<char>> {
    rfc3339_text(at.seconds, at.subsec)
}

impl Timestamp {
    /// The instant `seconds` and `nanos` after the epoch.
    pub fn from_parts(seconds: i64, nanos: u32) -> (r: Timestamp)
        ensures
            r == instant_at(seconds, nanos),
    {
        Timestamp { seconds, subsec: nanos }
    }

    /// The last instant that the clock can express.
    pub fn end_of_time() -> (r: Timestamp)
        ensures
            r == last_instant(),
    {
        Timestamp { seconds: MAX_UTC_SECONDS, subsec: 999_999_999 }
    }

    pub fn is_before(self, other: Timestamp) -> (r: bool)
        ensures
            r == (self.rank() < other.rank()),
    {
        self.seconds < other.seconds || (self.seconds == other.seconds && self.subsec
            < other.subsec)
    }

    /// The later of the two instants; the receiver where they are equal.
    pub fn later(self, other: Timestamp) -> (r: Timestamp)
        ensures
            r == later_of(self, other),
            r.rank() >= self.rank(),
            r.rank() >= other.rank(),
    {
        if self.is_before(other) {
            other
        } else {
            self
        }
    }

    /// Moves the instant forward by whole seconds and nanoseconds; nothing
    /// where the result would lie past the end of the clock.
    pub fn checked_advance(self, seconds: u64, nanos: u32) -> (r: Option<Timestamp>)
        ensures
            r == advanced(self, seconds * NANOS_PER_SECOND + nanos),
    {
        let unit: i128 = NANOS_PER_SECOND as i128;
        let step: i128 = (seconds as i128) * unit + (nanos as i128);
        let subsec: i128 = self.subsec as i128;
        let leap: bool = subsec >= unit;
        if leap && subsec + step < 2 * unit {
            return Some(Timestamp { seconds: self.seconds, subsec: (subsec + step) as u32 });
        }
        let within: i128 = if leap {
            subsec - unit
        } else {
            subsec
        };
        let moved: i128 = (self.seconds as i128) + (within + step) / unit;
        if moved > MAX_UTC_SECONDS as i128 {
            None
        } else {
            Some(Timestamp { seconds: moved as i64, subsec: ((within + step) % unit) as u32 })
        }
    }

    /// The start of the UTC hour that holds the instant; the instant itself
    /// where that start cannot be expressed.
    pub fn hour_bucket(self) -> (r: Timestamp)
        ensures
            r == hour_bucket_of(self),
            self.seconds >= i64::MIN + SECONDS_PER_HOUR ==> r.seconds <= self.seconds < r.seconds
                + SECONDS_PER_HOUR,
    {
        if self.seconds < i64::MIN + SECONDS_PER_HOUR {
            return self;
        }
        let mut rest: i64 = self.seconds % SECONDS_PER_HOUR;
        if rest < 0 {
            rest = rest + SECONDS_PER_HOUR;
        }
        Timestamp { seconds: self.seconds - rest, subsec: 0 }
    }

    /// The text of the instant; nothing where the calendar does not hold it.
    pub fn to_rfc3339(self) -> (r: Option<String>)
        ensures
            crate::json::text_in(r) == instant_text(self),
    {
        outside_rfc3339(self.seconds, self.subsec)
    }

    /// The second of the day.
    fn second_of_day(self) -> (r: i64)
        ensures
            r == self.seconds as int % SECONDS_PER_DAY as int,
    {
        let rest: i64 = self.seconds % SECONDS_PER_DAY;
        if rest < 0 {
            rest + SECONDS_PER_DAY
        } else {
            rest
        }
    }

    /// The whole seconds from an earlier instant to this one.
    pub fn seconds_since(self, earlier: Timestamp) -> (r: u128)
        requires
            earlier.rank() <= self.rank(),
        ensures
            r == seconds_between(earlier, self),
    {
        let unit: i128 = NANOS_PER_SECOND as i128;
        let from: i64 = earlier.second_of_day();
        let to: i64 = self.second_of_day();
        let apart: i128 = ((self.seconds as i128) - (earlier.seconds as i128)) * unit + (
        self.subsec as i128) - (earlier.subsec as i128);
        let nanos: i128 = if from < to && earlier.subsec >= NANOS_PER_SECOND {
            apart + unit
        } else if to < from && self.subsec >= NANOS_PER_SECOND {
            apart - unit
        } else {
            apart
        };
        if nanos < 0 {
            0
        } else {
            (nanos / unit) as u128
        }
    }
}

} // verus!
