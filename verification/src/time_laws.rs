//! What the arithmetic of instants does to the time they stand for.

use crate::timestamp::{advanced, hour_bucket_of, is_leap, later_of, nanos_between, seconds_between};
use crate::timestamp::Timestamp;
use vstd::prelude::*;

verus! {

/// The nanoseconds since the start of the epoch.
pub open spec fn nanos_of(at: Timestamp) -> int {
    at.seconds * 1_000_000_000 + at.subsec
}

/// Advancing an instant adds exactly that much time, wherever it gives an
/// instant, and gives a regular one.
pub proof fn law_advancing_adds_the_time(at: Timestamp, nanos: int)
    requires
        !is_leap(at),
        nanos >= 0,
        advanced(at, nanos) is Some,
    ensures
        nanos_of(advanced(at, nanos)->0) == nanos_of(at) + nanos,
        advanced(at, nanos)->0.subsec < 1_000_000_000,
{
    let within = at.subsec + nanos;
    assert(within == (within / 1_000_000_000) * 1_000_000_000 + within % 1_000_000_000);
    let seconds = at.seconds + within / 1_000_000_000;
    assert(seconds >= at.seconds);
}

/// Advancing by nothing gives the instant itself, and advancing twice gives
/// what advancing by both times at once gives.
pub proof fn law_advances_add_up(at: Timestamp, first: int, second: int)
    requires
        !is_leap(at),
        first >= 0,
        second >= 0,
        advanced(at, first + second) is Some,
    ensures
        advanced(at, first) is Some,
        advanced(advanced(at, first)->0, second) == advanced(at, first + second),
{
    let unit: int = 1_000_000_000;
    let one = at.subsec + first;
    let both = at.subsec + first + second;
    assert(one / unit <= both / unit) by (nonlinear_arith)
        requires
            0 <= one <= both,
            unit == 1_000_000_000,
    ;
    let mid = advanced(at, first)->0;
    assert((one % unit + second) / unit + one / unit == both / unit && (one % unit + second) % unit
        == both % unit) by (nonlinear_arith)
        requires
            both == one + second,
            one >= 0,
            second >= 0,
            unit == 1_000_000_000,
    ;
    assert(mid.subsec == one % unit);
}

/// An instant lies in its hour: the hour starts on a full hour, not after the
/// instant and less than an hour before it.
pub proof fn law_instant_lies_in_its_hour(at: Timestamp)
    requires
        at.seconds >= i64::MIN + 7_200,
    ensures
        hour_bucket_of(at).seconds as int % 3_600 == 0,
        hour_bucket_of(at).subsec == 0,
        hour_bucket_of(at).seconds <= at.seconds < hour_bucket_of(at).seconds + 3_600,
        hour_bucket_of(hour_bucket_of(at)) == hour_bucket_of(at),
{
    let s = at.seconds as int;
    assert((s - s % 3_600) % 3_600 == 0) by (nonlinear_arith);
}

/// Two instants share an hour exactly where their seconds lie between the same
/// two full hours.
pub proof fn law_instants_of_one_hour_share_it(a: Timestamp, b: Timestamp)
    requires
        a.seconds >= i64::MIN + 7_200,
        b.seconds >= i64::MIN + 7_200,
    ensures
        hour_bucket_of(a) == hour_bucket_of(b) <==> a.seconds as int / 3_600 == b.seconds as int
            / 3_600,
{
    let (s, t) = (a.seconds as int, b.seconds as int);
    assert(s - s % 3_600 == (s / 3_600) * 3_600);
    assert(t - t % 3_600 == (t / 3_600) * 3_600);
}

/// The later of two instants is one of them, and before neither.
pub proof fn law_later_is_before_neither(a: Timestamp, b: Timestamp)
    ensures
        later_of(a, b) == a || later_of(a, b) == b,
        later_of(a, b).rank() >= a.rank(),
        later_of(a, b).rank() >= b.rank(),
{
}

/// Between two regular instants lies the time that the one is later by; the
/// seconds between them are the full ones, and none where time runs back.
pub proof fn law_time_between_is_the_difference(earlier: Timestamp, later: Timestamp)
    requires
        !is_leap(earlier),
        !is_leap(later),
    ensures
        nanos_between(earlier, later) == nanos_of(later) - nanos_of(earlier),
        nanos_of(later) >= nanos_of(earlier) ==> seconds_between(earlier, later) * 1_000_000_000
            <= nanos_of(later) - nanos_of(earlier) < (seconds_between(earlier, later) + 1)
            * 1_000_000_000,
        nanos_of(later) < nanos_of(earlier) ==> seconds_between(earlier, later) == 0,
{
}

/// What an instant was advanced by lies between the two.
pub proof fn law_advance_is_found_between(at: Timestamp, nanos: int)
    requires
        !is_leap(at),
        nanos >= 0,
        advanced(at, nanos) is Some,
    ensures
        nanos_between(at, advanced(at, nanos)->0) == nanos,
{
    law_advancing_adds_the_time(at, nanos);
    law_time_between_is_the_difference(at, advanced(at, nanos)->0);
}

} // verus!
