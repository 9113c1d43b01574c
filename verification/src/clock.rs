//! Monotonic time as plain numbers: a [`Timestamp`] counts the nanoseconds
//! since the origin of the [`MonotonicClock`] that produced it.

use std::time::{Duration, Instant};
use vstd::prelude::*;

verus! {

/// Nanoseconds in one second.
pub const NANOS_PER_SEC: u128 = 1_000_000_000;

/// Whole seconds from `earlier` to `now`, both in nanoseconds since a common
/// origin. Fractions of a second are dropped, a clock that appears to have
/// gone backwards counts as no time at all, and the result is clamped to what
/// a `u64` can hold.
pub open spec fn elapsed_secs(now: nat, earlier: nat) -> nat {
    if now <= earlier {
        0
    } else if (now - earlier) / (NANOS_PER_SEC as int) > u64::MAX {
        u64::MAX as nat
    } else {
        ((now - earlier) / (NANOS_PER_SEC as int)) as nat
    }
}

/// A point on a monotonic time line.
#[derive(Clone, Copy, Debug, PartialEq, Eq)]
pub struct Timestamp {
    nanos: u128,
}

impl View for Timestamp {
    type V = nat;

    closed spec fn view(&self) -> nat {
        self.nanos as nat
    }
}

impl Timestamp {
    /// The point `nanos` nanoseconds after the origin.
    pub fn from_nanos(nanos: u128) -> (t: Timestamp)
        ensures
            t@ == nanos,
    {
        Timestamp { nanos }
    }

    /// The point `secs` whole seconds after the origin.
    pub fn from_secs(secs: u64) -> (t: Timestamp)
        ensures
            t@ == secs * NANOS_PER_SEC,
    {
        assert(secs * NANOS_PER_SEC <= u128::MAX) by (nonlinear_arith)
            requires
                secs <= u64::MAX,
                NANOS_PER_SEC == 1_000_000_000,
        ;
        Timestamp { nanos: secs as u128 * NANOS_PER_SEC }
    }

    /// Nanoseconds since the origin.
    pub fn as_nanos(&self) -> (nanos: u128)
        ensures
            nanos == self@,
    {
        self.nanos
    }

    /// Whole seconds that lie between `earlier` and `self`.
    pub fn whole_secs_since(&self, earlier: &Timestamp) -> (secs: u64)
        ensures
            secs == elapsed_secs(self@, earlier@),
    {
        if self.nanos <= earlier.nanos {
            0
        } else {
            let whole: u128 = (self.nanos - earlier.nanos) / NANOS_PER_SEC;
            if whole > u64::MAX as u128 {
                u64::MAX
            } else {
                whole as u64
            }
        }
    }
}

/// The monotonic clock of the standard library, opaque to the verifier.
#[verifier::external_type_specification]
#[verifier::external_body]
pub struct ExInstant(std::time::Instant);

/// Calls `std::time::Instant::now`. Nothing is claimed of the instant that
/// comes back: it is whatever the operating system's monotonic clock says.
#[verifier::external_body]
fn read_instant() -> (instant: Instant) {
    Instant::now()
}

/// Calls `std::time::Instant::elapsed`: the time that has passed since
/// `origin` was read, zero where the clock appears to have gone backwards.
/// Nothing is claimed of its length.
#[verifier::external_body]
fn elapsed_since(origin: &Instant) -> (elapsed: Duration) {
    origin.elapsed()
}

/// Calls `std::time::Duration::as_nanos`, which gives the whole duration as
/// a count of nanoseconds. The duration is opaque here, so nothing is claimed
/// of the count.
#[verifier::external_body]
fn duration_nanos(duration: &Duration) -> (nanos: u128) {
    duration.as_nanos()
}

/// A monotonic clock that measures from the moment it was started.
#[derive(Clone, Copy, Debug)]
pub struct MonotonicClock {
    origin: Instant,
}

impl MonotonicClock {
    /// Starts a clock; its origin is the present instant.
    pub(crate) fn start() -> (clock: MonotonicClock) {
        MonotonicClock { origin: read_instant() }
    }

    /// The present instant, measured from this clock's origin.
    pub(crate) fn now(&self) -> (t: Timestamp) {
        let elapsed = elapsed_since(&self.origin);
        Timestamp { nanos: duration_nanos(&elapsed) }
    }
}

} // verus!
