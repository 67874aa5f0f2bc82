use vstd::prelude::*;

verus! {

/// Nanoseconds in one second.
pub const NANOS_PER_SECOND: u32 = 1_000_000_000;

/// Nanoseconds in one millisecond.
pub const NANOS_PER_MILLI: u32 = 1_000_000;

/// A point in time: whole seconds since the Unix epoch and the nanoseconds
/// within that second.
#[derive(Clone, Copy, Debug, PartialEq, Eq, Structural)]
pub struct Timestamp {
    pub seconds: i64,
    pub nanosecond: u32,
}

impl Timestamp {
    /// The nanosecond part stays below one second.
    pub open spec fn wf(self) -> bool {
        self.nanosecond < NANOS_PER_SECOND
    }

    /// The millisecond within the second.
    pub open spec fn milli_of_second(self) -> int {
        (self.nanosecond / NANOS_PER_MILLI) as int
    }

    /// Both instants fall in the same millisecond.
    pub open spec fn same_milli(self, other: Timestamp) -> bool {
        self.seconds == other.seconds && self.milli_of_second() == other.milli_of_second()
    }

    /// Strictly earlier, in the order of seconds first and nanoseconds second.
    pub open spec fn before(self, other: Timestamp) -> bool {
        self.seconds < other.seconds || (self.seconds == other.seconds && self.nanosecond
            < other.nanosecond)
    }

    /// The later of two instants.
    pub open spec fn latest(self, other: Timestamp) -> Timestamp {
        if self.before(other) {
            other
        } else {
            self
        }
    }

    /// Builds a timestamp from its parts; `None` where the nanoseconds reach
    /// a full second.
    pub fn from_parts(seconds: i64, nanosecond: u32) -> (r: Option<Timestamp>)
        ensures
            r is Some <==> nanosecond < NANOS_PER_SECOND,
            r is Some ==> r->0 == (Timestamp { seconds, nanosecond }),
    {
        if nanosecond < NANOS_PER_SECOND {
            Some(Timestamp { seconds, nanosecond })
        } else {
            None
        }
    }

    /// The instant at a whole number of seconds since the epoch.
    pub fn from_unix_seconds(seconds: i64) -> (r: Timestamp)
        ensures
            r == (Timestamp { seconds, nanosecond: 0 }),
            r.wf(),
    {
        Timestamp { seconds, nanosecond: 0 }
    }

    /// Whether two instants fall in the same millisecond.
    pub fn same_millisecond(&self, other: &Timestamp) -> (r: bool)
        ensures
            r == self.same_milli(*other),
    {
        self.seconds == other.seconds && self.nanosecond / NANOS_PER_MILLI == other.nanosecond
            / NANOS_PER_MILLI
    }

    /// Whether `self` comes strictly before `other`.
    pub fn is_before(&self, other: &Timestamp) -> (r: bool)
        ensures
            r == self.before(*other),
    {
        self.seconds < other.seconds || (self.seconds == other.seconds && self.nanosecond
            < other.nanosecond)
    }

    /// The later of `self` and `other`.
    pub fn later(self, other: Timestamp) -> (r: Timestamp)
        ensures
            r == self.latest(other),
            !r.before(self),
            !r.before(other),
    {
        if self.is_before(&other) {
            other
        } else {
            self
        }
    }
}

} // verus!
