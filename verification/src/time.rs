//! Points in time and spans of time as plain numbers of nanoseconds.

use vstd::prelude::*;

verus! {

/// `std::time::Instant`, kept opaque.
#[verifier::external_type_specification]
#[verifier::external_body]
pub struct ExStdInstant(std::time::Instant);

/// A span of time.
#[derive(Clone, Copy, Debug, PartialEq, Eq, Structural)]
pub struct Duration {
    /// The length of the span in nanoseconds
    pub nanos: u128,
}

/// A point on a monotonic clock.
#[derive(Clone, Copy, Debug, PartialEq, Eq, Structural)]
pub struct Instant {
    /// Nanoseconds after the clock's origin, negative before it
    pub nanos: i128,
}

/// How many nanoseconds `later` lies after `earlier`, and zero if it does not.
pub open spec fn nanos_since(later: Instant, earlier: Instant) -> int {
    if later.nanos >= earlier.nanos {
        later.nanos - earlier.nanos
    } else {
        0
    }
}

/// [`nanos_since`] in whole milliseconds, rounded down.
pub open spec fn millis_since(later: Instant, earlier: Instant) -> int {
    nanos_since(later, earlier) / 1_000_000
}

impl Duration {
    /// A span of whole seconds.
    pub fn from_secs(secs: u64) -> (r: Duration)
        ensures
            r.nanos == secs * 1_000_000_000,
    {
        Duration { nanos: secs as u128 * 1_000_000_000 }
    }

    /// A span of whole milliseconds.
    pub fn from_millis(millis: u64) -> (r: Duration)
        ensures
            r.nanos == millis * 1_000_000,
    {
        Duration { nanos: millis as u128 * 1_000_000 }
    }

    /// The whole milliseconds in this span.
    pub fn as_millis(&self) -> (r: u128)
        ensures
            r == self.nanos as int / 1_000_000,
    {
        self.nanos / 1_000_000
    }
}

impl Instant {
    /// The point that lies this many nanoseconds after the clock's origin, or the last one that
    /// there is if it lies beyond that.
    pub fn after_origin(elapsed_nanos: u128) -> (r: Instant)
        ensures
            r.nanos == (if elapsed_nanos <= i128::MAX {
                elapsed_nanos as int
            } else {
                i128::MAX as int
            }),
    {
        if elapsed_nanos <= i128::MAX as u128 {
            Instant { nanos: elapsed_nanos as i128 }
        } else {
            Instant { nanos: i128::MAX }
        }
    }

    /// The point that lies this many nanoseconds before the clock's origin, or the first one that
    /// there is if it lies beyond that.
    pub fn before_origin(nanos: u128) -> (r: Instant)
        ensures
            r.nanos == (if -(nanos as int) >= i128::MIN {
                -(nanos as int)
            } else {
                i128::MIN as int
            }),
    {
        if nanos <= i128::MAX as u128 {
            Instant { nanos: -(nanos as i128) }
        } else {
            Instant { nanos: i128::MIN }
        }
    }

    /// The span from `earlier` to this instant, or `None` if this instant comes first.
    pub fn checked_duration_since(&self, earlier: Instant) -> (r: Option<Duration>)
        ensures
            r is Some <==> self.nanos >= earlier.nanos,
            r matches Some(d) ==> d.nanos == self.nanos - earlier.nanos,
    {
        if self.nanos < earlier.nanos {
            return None;
        }
        if earlier.nanos >= 0 || self.nanos < 0 {
            return Some(Duration { nanos: (self.nanos - earlier.nanos) as u128 });
        }
        // The two lie on either side of the origin, and their distance may exceed an `i128`.
        let before: u128 = (-(earlier.nanos + 1)) as u128 + 1;
        Some(Duration { nanos: self.nanos as u128 + before })
    }

    /// The span from `earlier` to this instant, zero if this instant comes first.
    pub fn duration_since(&self, earlier: Instant) -> (r: Duration)
        ensures
            r.nanos == nanos_since(*self, earlier),
    {
        match self.checked_duration_since(earlier) {
            Some(span) => span,
            None => Duration { nanos: 0 },
        }
    }
}

/// Reads the monotonic clock with `std::time::Instant::now`. Which point in time comes back
/// depends on when the call is made, so nothing is said of it.
#[verifier::external_body]
fn std_now() -> (r: std::time::Instant)
{
    std::time::Instant::now()
}

/// Calls `std::time::Instant::elapsed` and gives the span as a number of nanoseconds. How much
/// time has passed depends on when the call is made, so nothing is said of it.
#[verifier::external_body]
fn std_elapsed_nanos(since: &std::time::Instant) -> (r: u128)
{
    since.elapsed().as_nanos()
}

/// The monotonic clock, with the point in time from which its readings count.
#[derive(Debug)]
pub struct Clock {
    /// The point in time that reads as zero
    pub origin: std::time::Instant,
}

impl Clock {
    /// The origin is a point in time that the monotonic clock gave.
    pub closed spec fn begun_now(self) -> bool {
        call_ensures(std_now, (), self.origin)
    }

    /// `r` lies as far after the origin as the monotonic clock said that time has passed, or is
    /// the last point that there is.
    pub closed spec fn shows_elapsed(self, r: Instant) -> bool {
        exists|elapsed: u128| #[trigger]
            call_ensures(std_elapsed_nanos, (&self.origin,), elapsed) && r.nanos == (if elapsed
                <= i128::MAX {
                elapsed as int
            } else {
                i128::MAX as int
            })
    }

    /// A clock that counts from `origin`.
    pub fn with_origin(origin: std::time::Instant) -> (r: Clock)
        ensures
            r.origin == origin,
    {
        Clock { origin }
    }

    /// A clock whose origin is now. Where that origin lies depends on when the call is made, so
    /// all that is said of it is that it is what the monotonic clock gave.
    pub fn start() -> (r: Clock)
        ensures
            r.begun_now(),
    {
        Clock::with_origin(std_now())
    }

    /// What the clock reads now: the point that [`Instant::after_origin`] gives for the time that
    /// has passed. How much has passed depends on when the call is made, so all that is said is
    /// that it is what the monotonic clock gave, and that the reading is not before the origin.
    pub fn now(&self) -> (r: Instant)
        ensures
            r.nanos >= 0,
            self.shows_elapsed(r),
    {
        Instant::after_origin(std_elapsed_nanos(&self.origin))
    }
}


/// The nanoseconds between two instants lead from the earlier to the later, and there are none
/// from a later to an earlier one.
pub proof fn nanos_lead_from_one_instant_to_the_other(later: Instant, earlier: Instant)
    ensures
        earlier.nanos <= later.nanos ==> earlier.nanos + nanos_since(later, earlier) == later.nanos,
        later.nanos <= earlier.nanos ==> nanos_since(later, earlier) == 0,
{
}

/// The milliseconds between two instants are the whole ones: one more would be too many.
pub proof fn millis_are_the_whole_ones(later: Instant, earlier: Instant)
    requires
        earlier.nanos <= later.nanos,
    ensures
        earlier.nanos + millis_since(later, earlier) * 1_000_000 <= later.nanos,
        later.nanos < earlier.nanos + (millis_since(later, earlier) + 1) * 1_000_000,
{
}

/// No milliseconds lead from a later instant to an earlier one.
pub proof fn no_millis_lead_back(later: Instant, earlier: Instant)
    requires
        later.nanos <= earlier.nanos,
    ensures
        millis_since(later, earlier) == 0,
{
}


/// A reading that is not the last point that there is tells exactly the span of time that the
/// monotonic clock gave.
proof fn a_reading_tells_the_time_that_has_passed(clock: Clock, r: Instant)
    requires
        clock.shows_elapsed(r),
        r.nanos < i128::MAX,
    ensures
        r.nanos >= 0,
        call_ensures(std_elapsed_nanos, (&clock.origin,), r.nanos as u128),
{
}

} // verus!
