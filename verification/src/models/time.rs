use vstd::prelude::*;

verus! {

/// A point in time: whole seconds since the Unix epoch, totally ordered.
#[derive(Debug, Copy, Clone, PartialEq, Eq, Structural)]
pub struct Time {
    timestamp: i64,
}

impl View for Time {
    type V = int;

    closed spec fn view(&self) -> int {
        self.timestamp as int
    }
}

impl Time {
    pub fn new(timestamp: i64) -> (r: Self)
        ensures
            r@ == timestamp,
    {
        Self { timestamp }
    }

    pub fn value(&self) -> (r: i64)
        ensures
            r == self@,
    {
        self.timestamp
    }

    /// Seconds addition; calendar arithmetic lives with `Interval`, not here.
    pub fn add_duration(self, other: Duration) -> (r: Time)
        requires
            other@ <= i64::MAX,
            self@ + other@ <= i64::MAX,
        ensures
            r@ == self@ + other@,
    {
        Self { timestamp: self.timestamp + other.value() as i64 }
    }
}

/// A span of whole seconds, built from minute, hour or day multiples.
#[derive(Debug, Copy, Clone, PartialEq, Eq, Structural)]
pub struct Duration {
    seconds: u64,
}

impl View for Duration {
    type V = int;

    closed spec fn view(&self) -> int {
        self.seconds as int
    }
}

impl Duration {
    pub fn value(&self) -> (r: u64)
        ensures
            r == self@,
    {
        self.seconds
    }

    pub fn from_minutes(minutes: u64) -> (r: Self)
        requires
            minutes * 60 <= u64::MAX,
        ensures
            r@ == minutes * 60,
    {
        Self { seconds: minutes * 60 }
    }

    pub fn from_hours(hours: u64) -> (r: Self)
        requires
            hours * 3600 <= u64::MAX,
        ensures
            r@ == hours * 3600,
    {
        Self::from_minutes(hours * 60)
    }

    pub fn from_days(days: u64) -> (r: Self)
        requires
            days * 86400 <= u64::MAX,
        ensures
            r@ == days * 86400,
    {
        Self::from_hours(days * 24)
    }
}

} // verus!
