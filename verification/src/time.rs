//! Instants on the recording timeline.

use vstd::prelude::*;

verus! {

/// An instant, as the number of whole seconds since the Unix epoch and the nanoseconds that
/// follow them.
#[derive(Clone, Copy, Debug, PartialEq, Eq, Structural)]
pub struct JstTime {
    pub secs: i64,
    pub nanos: u32,
}

impl JstTime {
    /// `self` comes strictly later than `other`.
    pub open spec fn after(self, other: JstTime) -> bool {
        self.secs > other.secs || (self.secs == other.secs && self.nanos > other.nanos)
    }

    /// An instant from its seconds and nanoseconds.
    pub fn new(secs: i64, nanos: u32) -> (time: JstTime)
        ensures
            time == (JstTime { secs, nanos }),
    {
        JstTime { secs, nanos }
    }

    /// The number of whole seconds since the Unix epoch.
    pub fn timestamp(&self) -> (secs: i64)
        ensures
            secs == self.secs,
    {
        self.secs
    }

    /// Tells whether this instant comes strictly later than `other`.
    pub fn is_after(&self, other: JstTime) -> (later: bool)
        ensures
            later == self.after(other),
    {
        self.secs > other.secs || (self.secs == other.secs && self.nanos > other.nanos)
    }
}

/// Of two instants either one comes later than the other, never both, or they are the same.
pub proof fn after_is_total(a: JstTime, b: JstTime)
    ensures
        a.after(b) || b.after(a) || a == b,
        !(a.after(b) && b.after(a)),
        !a.after(a),
{
}

/// What comes later than a later instant comes later.
pub proof fn after_is_transitive(a: JstTime, b: JstTime, c: JstTime)
    requires
        a.after(b),
        b.after(c),
    ensures
        a.after(c),
{
}

/// Instants are in the order of their seconds, and within a second in that of their nanoseconds:
/// the later one is the one that is more nanoseconds away from the epoch.
pub proof fn after_is_the_order_of_time(a: JstTime, b: JstTime)
    ensures
        a.secs > b.secs ==> a.after(b),
        a.secs < b.secs ==> !a.after(b),
        a.secs == b.secs ==> (a.after(b) <==> a.nanos > b.nanos),
        a.nanos < 1_000_000_000 && b.nanos < 1_000_000_000 ==> (a.after(b) <==> a.secs
            * 1_000_000_000 + a.nanos > b.secs * 1_000_000_000 + b.nanos),
{
}

} // verus!
