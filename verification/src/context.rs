//! What travels with a request besides its body: its deadline and its trace.
use vstd::prelude::*;

use crate::trace;

verus! {

/// A point in time, as nanoseconds on a clock that never runs backwards.
#[derive(Debug, Clone, Copy, PartialEq, Eq, Structural)]
pub struct Instant {
    pub nanos: u128,
}

/// The deadline and the trace of a request.
#[derive(Debug, Clone, Copy, PartialEq, Eq, Structural)]
pub struct Context {
    /// When the client stops waiting for the answer.
    pub deadline: Instant,
    /// The trace that the request belongs to.
    pub trace_context: trace::Context,
}

impl Instant {
    /// The nanoseconds from `now` until this point: 0 once it has come. Of more
    /// than a `u64` holds, these are the low 64 bits.
    pub open spec fn nanos_after(self, now: Instant) -> u64 {
        let left = self.nanos - now.nanos;
        if left <= 0 {
            0
        } else {
            (left % 0x1_0000_0000_0000_0000) as u64
        }
    }

    /// The nanoseconds from `now` until this point, as they travel.
    pub fn remaining_at(&self, now: Instant) -> (ns: u64)
        ensures
            ns == self.nanos_after(now),
    {
        if self.nanos <= now.nanos {
            return 0;
        }
        let left: u128 = self.nanos - now.nanos;
        proof {
            assert(left as u64 == left % 0x1_0000_0000_0000_0000u128) by (bit_vector);
        }
        #[verifier::truncate]
        (left as u64)
    }

    /// The point `ns` nanoseconds after this one.
    pub fn after(&self, ns: u64) -> (later: Instant)
        requires
            self.nanos + ns <= u128::MAX,
        ensures
            later.nanos == self.nanos + ns,
    {
        Instant { nanos: self.nanos + ns as u128 }
    }
}

/// 0 nanoseconds are left exactly where the deadline has passed, or is a whole
/// number of times 2^64 nanoseconds away.
pub proof fn law_zero_means_expired(deadline: Instant, now: Instant)
    ensures
        deadline.nanos_after(now) == 0 <==> deadline.nanos <= now.nanos || (deadline.nanos
            - now.nanos) % 0x1_0000_0000_0000_0000 == 0,
        deadline.nanos - now.nanos <= u64::MAX ==> (deadline.nanos_after(now) == 0
            <==> deadline.nanos <= now.nanos),
{
}

/// As time goes on, no more time is left: until the deadline has passed, while
/// the time is within the same 2^64 nanoseconds, and once it has.
pub proof fn law_remaining_shrinks(deadline: Instant, now: Instant, later: Instant)
    requires
        now.nanos <= later.nanos,
        deadline.nanos <= later.nanos || (deadline.nanos - now.nanos) / 0x1_0000_0000_0000_0000
            == (deadline.nanos - later.nanos) / 0x1_0000_0000_0000_0000,
    ensures
        deadline.nanos_after(later) <= deadline.nanos_after(now),
{
}

/// A deadline that is `ns` nanoseconds away has `ns` nanoseconds left.
pub proof fn law_remaining_inverts_after(now: Instant, ns: u64, deadline: Instant)
    requires
        deadline.nanos == now.nanos + ns,
    ensures
        deadline.nanos_after(now) == ns,
{
}

/// What is left before a deadline and the time now make up the deadline, in 64
/// bits; once the deadline has come, nothing is left.
pub proof fn law_now_and_what_is_left_make_the_deadline(
    deadline: &Instant,
    now: Instant,
    ns: u64,
)
    requires
        call_ensures(Instant::remaining_at, (deadline, now), ns),
    ensures
        deadline.nanos <= now.nanos ==> ns == 0,
        now.nanos < deadline.nanos <= now.nanos + u64::MAX ==> now.nanos + ns == deadline.nanos,
        now.nanos < deadline.nanos ==> (deadline.nanos - now.nanos - ns)
            % 0x1_0000_0000_0000_0000 == 0,
{
}

/// A point after another is later by just the nanoseconds between them.
pub proof fn law_a_later_point_is_later_by_its_nanoseconds(
    point: &Instant,
    ns: u64,
    later: Instant,
)
    requires
        call_ensures(Instant::after, (point, ns), later),
    ensures
        later.nanos - point.nanos == ns,
{
}

} // verus!
