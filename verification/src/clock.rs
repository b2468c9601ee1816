//! Points in time, held as whole seconds since the Unix epoch and the
//! nanoseconds within the second.

use vstd::prelude::*;

verus! {

/// A point in time on the UTC scale.
///
/// `nanos` counts the nanoseconds within the second; values from one
/// thousand million upwards stand for a leap second.
#[derive(Clone, Copy, Debug, PartialEq, Eq, Hash, Structural)]
pub struct Timestamp {
    pub secs: i64,
    pub nanos: u32,
}

impl Timestamp {
    /// What holds of every reading of the clock: it lies at or after the
    /// epoch, and its nanoseconds stay below one second.
    pub open spec fn is_clock_reading(&self) -> bool {
        self.secs >= 0 && self.nanos < 1_000_000_000
    }

    /// `self` is strictly earlier than `other`.
    pub open spec fn precedes(&self, other: Timestamp) -> bool {
        self.secs < other.secs || (self.secs == other.secs && self.nanos < other.nanos)
    }

    /// The point in time `secs` seconds and `nanos` nanoseconds after the epoch.
    pub fn new(secs: i64, nanos: u32) -> (t: Timestamp)
        ensures
            t.secs == secs,
            t.nanos == nanos,
    {
        Timestamp { secs, nanos }
    }

    /// Whether `self` is strictly earlier than `other`.
    pub fn is_before(&self, other: &Timestamp) -> (r: bool)
        ensures
            r == self.precedes(*other),
    {
        self.secs < other.secs || (self.secs == other.secs && self.nanos < other.nanos)
    }

    /// Whether `self` is strictly later than `other`.
    pub fn is_after(&self, other: &Timestamp) -> (r: bool)
        ensures
            r == other.precedes(*self),
    {
        other.is_before(self)
    }
}

/// Reads the system clock through `chrono::Utc::now`.
///
/// Nothing is claimed of which time comes back, only what chrono's
/// conversion from the system time gives for every reading: the seconds are
/// counted from the epoch onwards and the nanoseconds stay below one second.
/// chrono stops the program if the system clock is set before the epoch.
#[verifier::external_body]
pub(crate) fn system_time() -> (t: Timestamp)
    ensures
        t.is_clock_reading(),
{
    let now = chrono::Utc::now();
    Timestamp { secs: now.timestamp(), nanos: now.timestamp_subsec_nanos() }
}

/// Being earlier is a strict order: nothing precedes itself, and it carries
/// over a point in between.
pub proof fn lemma_precedes_is_strict_order(a: Timestamp, b: Timestamp, c: Timestamp)
    ensures
        !a.precedes(a),
        a.precedes(b) ==> !b.precedes(a),
        a.precedes(b) && b.precedes(c) ==> a.precedes(c),
        a.precedes(b) || b.precedes(a) || a == b,
{
}

} // verus!
