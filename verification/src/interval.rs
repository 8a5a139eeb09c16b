//! A timer that fires when more than a fixed span has passed since it last
//! fired. Times are milliseconds since the Unix epoch.

use vstd::prelude::*;

verus! {

/// The current time in milliseconds since the Unix epoch.
///
/// Trusted: `chrono::Local::now` read through `timestamp_millis`. Nothing is
/// claimed of the value: the clock may stand still or step back.
#[verifier::external_body]
pub fn now() -> u64 {
    chrono::Local::now().timestamp_millis() as u64
}

/// A recurring timer.
#[derive(Clone, Copy, Debug, PartialEq, Eq, Structural)]
pub struct Interval {
    /// When the timer last fired, or when it was made.
    pub last: u64,
    /// The span that has to be exceeded before it fires again.
    pub interval: u64,
}

impl Interval {
    /// A timer of the given span that starts now.
    pub fn new(interval: u64) -> (timer: Interval)
        ensures
            timer.interval == interval,
    {
        Interval { last: now(), interval }
    }

    /// A timer of the given span that starts at `start`.
    pub fn starting_at(start: u64, interval: u64) -> (timer: Interval)
        ensures
            timer == (Interval { last: start, interval }),
    {
        Interval { last: start, interval }
    }

    /// Tells whether the timer fires at the time `now`, and restarts it from
    /// there if it does. The time must not lie before the last firing.
    pub fn check_at(&mut self, now: u64) -> (fired: bool)
        requires
            now >= old(self).last,
        ensures
            fired == (now - old(self).last > old(self).interval),
            fired ==> *final(self) == (Interval { last: now, ..*old(self) }),
            !fired ==> *final(self) == *old(self),
    {
        if now - self.last > self.interval {
            self.last = now;
            true
        } else {
            false
        }
    }

    /// Tells whether the timer fires now, and restarts it if it does.
    ///
    /// When the clock reads a time before the last firing the timer does not
    /// fire and stays as it is.
    pub fn check(&mut self) -> (fired: bool)
        ensures
            final(self).interval == old(self).interval,
            fired ==> final(self).last - old(self).last > old(self).interval,
            !fired ==> *final(self) == *old(self),
    {
        let time: u64 = now();
        if time >= self.last {
            self.check_at(time)
        } else {
            false
        }
    }
}

} // verus!
