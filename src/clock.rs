use vstd::prelude::*;

verus! {

/// A UTC instant: whole seconds since the Unix epoch and the nanoseconds
/// past that second.
#[derive(Clone, Copy, Debug, PartialEq, Eq, Structural)]
pub struct Timestamp {
    pub secs: i64,
    pub nanos: u32,
}

impl Timestamp {
    /// `self` is not later than `other`.
    pub open spec fn spec_le(self, other: Timestamp) -> bool {
        self.secs < other.secs || (self.secs == other.secs && self.nanos <= other.nanos)
    }

    pub fn at_or_before(&self, other: &Timestamp) -> (r: bool)
        ensures
            r == self.spec_le(*other),
    {
        self.secs < other.secs || (self.secs == other.secs && self.nanos <= other.nanos)
    }

    /// The later of two instants.
    pub open spec fn spec_latest(self, other: Timestamp) -> Timestamp {
        if self.spec_le(other) {
            other
        } else {
            self
        }
    }

    pub fn latest(&self, other: &Timestamp) -> (r: Timestamp)
        ensures
            r == self.spec_latest(*other),
            self.spec_le(r),
            other.spec_le(r),
    {
        if self.at_or_before(other) {
            *other
        } else {
            *self
        }
    }
}

/// Relies on `chrono::Utc::now` for the current time, read back through
/// `DateTime::timestamp` and `DateTime::timestamp_subsec_nanos`; the
/// nanoseconds come from `Duration::subsec_nanos` of the system clock, which
/// stays under one billion. `Utc::now` panics only when the system clock
/// reads before 1970.
#[verifier::external_body]
pub(crate) fn now() -> (r: Timestamp)
    ensures
        r.nanos < 1_000_000_000,
{
    let t = chrono::Utc::now();
    Timestamp { secs: t.timestamp(), nanos: t.timestamp_subsec_nanos() }
}

} // verus!
