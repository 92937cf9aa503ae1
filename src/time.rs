use vstd::prelude::*;

verus! {

/// A non-negative span of time, in milliseconds.
#[derive(Debug, Clone, Copy, PartialEq, Eq, Structural)]
pub struct Duration {
    millis: u64,
}

impl View for Duration {
    type V = int;

    closed spec fn view(&self) -> int {
        self.millis as int
    }
}

impl Duration {
    pub fn new_from_millis(millis: u64) -> (r: Duration)
        ensures
            r@ == millis,
    {
        Duration { millis }
    }

    pub fn new_from_seconds(seconds: u64) -> (r: Duration)
        requires
            seconds * 1000 <= u64::MAX,
        ensures
            r@ == seconds * 1000,
    {
        Duration { millis: seconds * 1000 }
    }

    pub fn new_from_minutes(minutes: u64) -> (r: Duration)
        requires
            minutes * 60_000 <= u64::MAX,
        ensures
            r@ == minutes * 60_000,
    {
        Duration { millis: minutes * 60_000 }
    }

    pub fn new_from_hours(hours: u64) -> (r: Duration)
        requires
            hours * 3_600_000 <= u64::MAX,
        ensures
            r@ == hours * 3_600_000,
    {
        Duration { millis: hours * 3_600_000 }
    }

    pub fn new_from_days(days: u64) -> (r: Duration)
        requires
            days * 86_400_000 <= u64::MAX,
        ensures
            r@ == days * 86_400_000,
    {
        Duration { millis: days * 86_400_000 }
    }

    pub fn as_millis(&self) -> (r: u64)
        ensures
            r == self@,
    {
        self.millis
    }
}

/// An instant, in milliseconds since the Unix epoch.
#[derive(Debug, Clone, Copy, PartialEq, Eq, Structural)]
pub struct DateTime {
    millis: i64,
}

impl View for DateTime {
    type V = int;

    closed spec fn view(&self) -> int {
        self.millis as int
    }
}

impl DateTime {
    /// The current time of the system clock.
    ///
    /// Relies on `chrono::Utc::now` and `DateTime::timestamp_millis`; chrono
    /// panics if the system clock reads earlier than the Unix epoch.
    #[verifier::external_body]
    pub fn now() -> (r: DateTime)
        ensures
            r@ >= 0,
    {
        DateTime { millis: chrono::Utc::now().timestamp_millis() }
    }

    pub fn new_from_unix_timestamp(unix_timestamp: u64) -> (r: DateTime)
        requires
            unix_timestamp * 1000 <= i64::MAX,
        ensures
            r@ == unix_timestamp * 1000,
    {
        DateTime { millis: (unix_timestamp * 1000) as i64 }
    }

    pub fn new_from_unix_millis(millis: i64) -> (r: DateTime)
        ensures
            r@ == millis,
    {
        DateTime { millis }
    }

    pub fn unix_millis(&self) -> (r: i64)
        ensures
            r == self@,
    {
        self.millis
    }

    /// The instant `d` later.
    pub fn plus(&self, d: &Duration) -> (r: DateTime)
        requires
            self@ + d@ <= i64::MAX,
        ensures
            r@ == self@ + d@,
    {
        DateTime { millis: ((self.millis as i128) + (d.as_millis() as i128)) as i64 }
    }

    /// Whether at least `d` has passed from `start` to this instant; never
    /// when this instant is earlier than `start`.
    pub fn is_at_least_after(&self, start: &DateTime, d: &Duration) -> (r: bool)
        ensures
            r == (self@ - start@ >= d@),
    {
        (self.millis as i128) - (start.millis as i128) >= d.as_millis() as i128
    }
}

} // verus!
