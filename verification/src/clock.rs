//! Points in time as the server reads and compares them.
use vstd::prelude::*;

verus! {

/// The latest second that the calendar of the time library can represent.
pub const MAX_SECS: i64 = 8210266876799;

/// The earliest second that the calendar of the time library can represent.
pub const MIN_SECS: i64 = -8334601315200;

/// A point in time: whole seconds since the Unix epoch and the nanoseconds
/// past that second.
#[derive(Debug, Clone, Copy, PartialEq, Eq, Structural)]
pub struct Moment {
    pub secs: i64,
    pub nanos: u32,
}

impl Moment {
    /// A moment that the calendar can hold.
    pub open spec fn in_range(self) -> bool {
        MIN_SECS <= self.secs <= MAX_SECS && self.nanos < 1_000_000_000
    }

    /// Whether `self` comes strictly before `other`.
    pub open spec fn before(self, other: Moment) -> bool {
        self.secs < other.secs || (self.secs == other.secs && self.nanos < other.nanos)
    }

    /// `self` moved `d` seconds later.
    pub open spec fn shifted(self, d: int) -> Moment {
        Moment { secs: (self.secs + d) as i64, nanos: self.nanos }
    }

    /// Whether `self` comes strictly before `other`.
    pub fn is_before(&self, other: &Moment) -> (r: bool)
        ensures
            r == self.before(*other),
    {
        self.secs < other.secs || (self.secs == other.secs && self.nanos < other.nanos)
    }

    /// `self` moved `d` seconds later; the calendar must hold the result.
    pub fn plus_secs(&self, d: i64) -> (r: Moment)
        requires
            self.in_range(),
            0 <= d,
            self.secs + d <= MAX_SECS,
        ensures
            r == self.shifted(d as int),
            r.in_range(),
    {
        Moment { secs: self.secs + d, nanos: self.nanos }
    }
}

/// The current time (chrono's `Utc::now`), which the calendar can hold.
/// chrono panics instead of returning when the system clock reads a time
/// before 1970.
#[verifier::external_body]
pub(crate) fn now() -> (t: Moment)
    ensures
        t.in_range(),
{
    let n = chrono::Utc::now();
    Moment { secs: n.timestamp(), nanos: n.timestamp_subsec_nanos() }
}

/// A moment never comes before itself, and a later shift never comes
/// before an earlier one.
pub proof fn shifted_is_not_earlier(t: Moment, d: int)
    requires
        0 <= d,
        t.secs + d <= MAX_SECS,
        t.secs >= MIN_SECS,
    ensures
        !t.shifted(d).before(t),
        !t.before(t),
{
}

} // verus!
