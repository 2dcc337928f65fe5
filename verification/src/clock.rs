//! The machine's clock. The contracts of the calls in this file are not
//! proved.
use vstd::prelude::*;

use crate::context::Instant;

verus! {

/// The standard library's point in time.
#[verifier::external_type_specification]
#[verifier::external_body]
pub struct ExStdInstant(std::time::Instant);

/// The longest span that a `std::time::Duration` holds, in nanoseconds.
pub open spec fn longest_duration() -> nat {
    (u64::MAX * 1_000_000_000 + 999_999_999) as nat
}

/// `std::time::Instant::now` reads the machine's monotonic clock. Nothing is
/// claimed of what it shows.
#[verifier::external_body]
pub(crate) fn system_now() -> std::time::Instant {
    std::time::Instant::now()
}

/// `std::time::Instant::elapsed` is the time since `start`. Nothing is claimed of
/// it.
#[verifier::external_body]
pub(crate) fn time_since(start: &std::time::Instant) -> std::time::Duration {
    start.elapsed()
}

/// `std::time::Duration::as_nanos` is the span in nanoseconds. Nothing is claimed
/// of it but what holds of every span: it is made of a `u64` of seconds and of
/// less than a billion nanoseconds.
#[verifier::external_body]
pub(crate) fn nanos_of(span: &std::time::Duration) -> (nanos: u128)
    ensures
        nanos <= longest_duration(),
{
    span.as_nanos()
}

/// A clock that counts from the moment it was started.
#[derive(Debug)]
pub struct Clock {
    pub(crate) start: std::time::Instant,
}

impl Clock {
    /// Whether the clock counts from a moment that the machine's clock showed.
    pub closed spec fn is_started(self) -> bool {
        call_ensures(system_now, (), self.start)
    }

    /// Whether `span` may be counted from the clock's start, and `now` is its
    /// nanoseconds.
    spec fn may_count(self, span: std::time::Duration, now: Instant) -> bool {
        &&& call_ensures(time_since, (&self.start,), span)
        &&& call_ensures(nanos_of, (&span,), now.nanos)
    }

    /// Whether the clock may show `now`: the nanoseconds of a span that is counted
    /// from its own start.
    pub closed spec fn may_show(self, now: Instant) -> bool {
        exists|span: std::time::Duration| #[trigger] self.may_count(span, now)
    }

    /// Starts a clock. The moment it counts from is the one that the machine's
    /// clock shows, of which nothing is known beforehand.
    pub fn start() -> (clock: Clock)
        ensures
            clock.is_started(),
    {
        Clock { start: system_now() }
    }

    /// The time on the clock. It is never so late that the nanoseconds of a
    /// `u64` cannot be added to it. Which time it is rests on the machine, and two
    /// calls may differ; what is done with it is stated where it is an argument,
    /// as in [`Instant::remaining_at`].
    pub fn now(&self) -> (now: Instant)
        ensures
            self.may_show(now),
            now.nanos + u64::MAX <= u128::MAX,
    {
        let span = time_since(&self.start);
        let now = Instant { nanos: nanos_of(&span) };
        proof {
            assert(longest_duration() + u64::MAX <= u128::MAX);
            assert(self.may_count(span, now));
        }
        now
    }
}

/// A clock is started at what the machine's clock shows at that moment.
pub(crate) proof fn law_a_clock_starts_now(clock: Clock)
    requires
        call_ensures(Clock::start, (), clock),
    ensures
        call_ensures(system_now, (), clock.start),
{
}

/// The time on a clock is the time elapsed since its start, in nanoseconds: what
/// `Duration::as_nanos` gives of what `Instant::elapsed` gives.
pub(crate) proof fn law_now_is_the_elapsed_nanoseconds(clock: &Clock, now: Instant)
    requires
        call_ensures(Clock::now, (clock,), now),
    ensures
        exists|span: std::time::Duration|
            #![trigger call_ensures(time_since, (&clock.start,), span)]
            call_ensures(time_since, (&clock.start,), span) && call_ensures(
                nanos_of,
                (&span,),
                now.nanos,
            ),
{
    let span = choose|span: std::time::Duration| #[trigger] clock.may_count(span, now);
    assert(call_ensures(time_since, (&clock.start,), span));
}

} // verus!
