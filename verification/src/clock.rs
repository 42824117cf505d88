//! A monotonic clock read as nanoseconds since the clock was started.

use std::time::Instant;
use vstd::prelude::*;

verus! {

#[verifier::external_type_specification]
#[verifier::external_body]
pub struct ExInstant(Instant);

/// Calls `std::time::Instant::now`. The reading depends on the time of the
/// call, so nothing is promised of it.
#[verifier::external_body]
fn instant_now() -> Instant {
    Instant::now()
}

/// Calls `std::time::Instant::elapsed`. The result depends on the time of the
/// call, so nothing is promised of it.
#[verifier::external_body]
fn instant_elapsed(origin: &Instant) -> core::time::Duration {
    origin.elapsed()
}

/// `Duration::as_nanos` on an opaque duration: nothing is stated of the result.
pub assume_specification[ core::time::Duration::as_nanos ](d: &core::time::Duration) -> u128;

/// `nanos` as a `u64`, saturated at `u64::MAX`.
pub open spec fn saturated(nanos: u128) -> u64 {
    if nanos > u64::MAX as u128 { u64::MAX } else { nanos as u64 }
}

/// The reading a clock hands out when its latest reading is `latest` and
/// `nanos` nanoseconds have elapsed since it started: the elapsed time,
/// saturated, or `latest` where that would go back.
pub open spec fn reading_after(latest: u64, nanos: u128) -> u64 {
    if saturated(nanos) < latest { latest } else { saturated(nanos) }
}

/// `nanos` as a `u64`, saturated at `u64::MAX`.
pub fn saturating_nanos(nanos: u128) -> (n: u64)
    ensures
        n == saturated(nanos),
{
    if nanos > 0xffff_ffff_ffff_ffffu128 {
        0xffff_ffff_ffff_ffffu64
    } else {
        nanos as u64
    }
}

/// The next reading of a clock whose latest reading is `latest`, after
/// `nanos` nanoseconds have elapsed since it started.
pub fn next_reading(latest: u64, nanos: u128) -> (n: u64)
    ensures
        n == reading_after(latest, nanos),
{
    let reading: u64 = saturating_nanos(nanos);
    if reading < latest {
        latest
    } else {
        reading
    }
}

/// A monotonic clock; readings are nanoseconds since `start` was called,
/// and no reading is earlier than the one before it.
pub struct Clock {
    origin: Instant,
    latest: u64,
}

impl Clock {
    /// The latest reading handed out (0 before the first).
    pub closed spec fn latest(&self) -> u64 {
        self.latest
    }

    /// Starts a clock at the current instant.
    pub fn start() -> (c: Clock)
        ensures
            c.latest() == 0,
    {
        Clock { origin: instant_now(), latest: 0 }
    }

    /// Nanoseconds elapsed since the clock started, saturated at `u64::MAX`,
    /// and never below the latest reading: the elapsed time is read from std
    /// and handed to [`next_reading`]. std documents `Instant` as
    /// monotonically nondecreasing, so the guard there only makes that promise
    /// hold of every reading handed out. The elapsed time depends on when the
    /// call is made; the contract says what holds whatever it is.
    pub fn now_nanos(&mut self) -> (n: u64)
        ensures
            n >= old(self).latest(),
            final(self).latest() == n,
            exists|nanos: u128| n == #[trigger] reading_after(old(self).latest(), nanos),
    {
        let d = instant_elapsed(&self.origin);
        let nanos: u128 = d.as_nanos();
        let n: u64 = next_reading(self.latest, nanos);
        assert(n == reading_after(old(self).latest(), nanos));
        self.latest = n;
        n
    }
}

} // verus!
