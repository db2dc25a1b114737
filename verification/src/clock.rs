//! Readings of a monotonic clock, and the whole seconds between two of them.

use vstd::prelude::*;

verus! {

/// A reading of a monotonic clock: the nanoseconds that have passed since the
/// clock's origin. The caller reads the clock; the library only compares
/// readings of one and the same clock.
#[derive(Debug, Clone, Copy, PartialEq, Eq, Structural)]
pub struct Timestamp {
    pub nanos: u64,
}

impl View for Timestamp {
    type V = nat;

    open spec fn view(&self) -> nat {
        self.nanos as nat
    }
}

/// The whole seconds that lie between the reading `earlier` and the reading
/// `later`, both in nanoseconds; zero where `later` is not the later one.
pub open spec fn whole_seconds_between(earlier: nat, later: nat) -> nat {
    if later >= earlier {
        ((later - earlier) / 1_000_000_000) as nat
    } else {
        0
    }
}

impl Timestamp {
    /// The reading `nanos` nanoseconds after the clock's origin. Readings end
    /// at `u64::MAX` nanoseconds, some 584 years after the origin; any later
    /// moment reads as that last one.
    pub fn from_nanos(nanos: u128) -> (reading: Timestamp)
        ensures
            nanos <= u64::MAX ==> reading@ == nanos,
            nanos > u64::MAX ==> reading@ == u64::MAX,
    {
        if nanos <= u64::MAX as u128 {
            Timestamp { nanos: nanos as u64 }
        } else {
            Timestamp { nanos: u64::MAX }
        }
    }

    /// The whole seconds that have passed at this reading since `earlier`.
    pub fn seconds_since(self, earlier: Timestamp) -> (seconds: u64)
        ensures
            seconds == whole_seconds_between(earlier@, self@),
    {
        if self.nanos >= earlier.nanos {
            (self.nanos - earlier.nanos) / 1_000_000_000
        } else {
            0
        }
    }
}

/// Seen from a fixed starting point, a later reading never lies fewer whole
/// seconds away than an earlier one.
pub proof fn lemma_seconds_never_decrease(start: nat, first: nat, second: nat)
    requires
        first <= second,
    ensures
        whole_seconds_between(start, first) <= whole_seconds_between(start, second),
{
}

/// A reading taken less than a second after the starting point lies zero whole
/// seconds away from it.
pub proof fn lemma_seconds_start_at_zero(start: nat, reading: nat)
    requires
        start <= reading < start + 1_000_000_000,
    ensures
        whole_seconds_between(start, reading) == 0,
{
}

} // verus!
