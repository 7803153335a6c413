//! Points in time.

use vstd::prelude::*;

use crate::log::Log;

verus! {

/// A point in time in UTC: whole seconds since the Unix epoch, and nanoseconds into
/// that second (a leap second is written with `nanos` past the end of its second).
#[derive(Clone, Copy, Debug, PartialEq, Eq, Structural)]
pub struct Timestamp {
    pub secs: i64,
    pub nanos: u32,
}

/// The current time, as `chrono::Utc::now` reads it from the system clock.
///
/// Trusted: the fraction lies within a second, since the system clock has no leap
/// seconds. Nothing is said of which time it is, nor of how two readings compare. The
/// reading, and nothing else, becomes the next entry of `readings`, which is ghost state.
#[verifier::external_body]
fn utc_now(readings: &mut Log<Timestamp>) -> (now: Timestamp)
    ensures
        now.nanos < 1_000_000_000,
        final(readings)@ == old(readings)@.push(now),
{
    let now = chrono::Utc::now();
    Timestamp { secs: now.timestamp(), nanos: now.timestamp_subsec_nanos() }
}

/// A clock. Its view is the list of the times that were read from it, each by its own
/// reading of the system clock, from the first to the last.
pub struct Clock {
    pub readings: Log<Timestamp>,
}

impl View for Clock {
    type V = Seq<Timestamp>;

    open spec fn view(&self) -> Seq<Timestamp> {
        self.readings@
    }
}

impl Clock {
    /// A clock that nothing was read from.
    pub fn new() -> (clock: Clock)
        ensures
            clock@ == Seq::<Timestamp>::empty(),
    {
        Clock { readings: Log::new() }
    }

    /// Reads the current time.
    pub fn now(&mut self) -> (now: Timestamp)
        ensures
            final(self)@ == old(self)@.push(now),
            final(self).readings@ == old(self).readings@.push(now),
            now.nanos < 1_000_000_000,
    {
        utc_now(&mut self.readings)
    }
}

} // verus!
