//! Durations quantised into buckets.

use vstd::prelude::*;

verus! {

/// A span of time written as a unit and a number of buckets of that unit.
///
/// `Days(30)` is thirty buckets of one day each.
#[derive(Clone, Copy, Debug, PartialEq, Eq, Structural)]
pub enum Duration {
    Seconds(u8),
    Minutes(u8),
    Hours(u8),
    Days(u8),
    Weeks(u8),
}

impl Duration {
    /// Bytes that a serialised duration takes: the tag and the count.
    pub const LEN: usize = 2;

    /// The number of buckets.
    pub open spec fn spec_get(&self) -> u8 {
        match *self {
            Duration::Seconds(t) => t,
            Duration::Minutes(t) => t,
            Duration::Hours(t) => t,
            Duration::Days(t) => t,
            Duration::Weeks(t) => t,
        }
    }

    /// The length of one bucket, in seconds.
    pub open spec fn spec_seconds_per_bucket(&self) -> u64 {
        match *self {
            Duration::Seconds(_) => 1,
            Duration::Minutes(_) => 60,
            Duration::Hours(_) => 3600,
            Duration::Days(_) => 86400,
            Duration::Weeks(_) => 604800,
        }
    }

    /// The whole span in seconds: every bucket, end to end.
    pub open spec fn total_seconds(&self) -> int {
        self.spec_get() * self.spec_seconds_per_bucket()
    }

    /// The number of buckets.
    #[verifier::when_used_as_spec(spec_get)]
    pub fn get(&self) -> (count: u8)
        ensures
            count == self.spec_get(),
    {
        match self {
            Duration::Seconds(t)
            | Duration::Minutes(t)
            | Duration::Hours(t)
            | Duration::Days(t)
            | Duration::Weeks(t) => *t,
        }
    }

    /// The length of one bucket, in seconds.
    #[verifier::when_used_as_spec(spec_seconds_per_bucket)]
    pub fn seconds_per_bucket(&self) -> (seconds: u64)
        ensures
            seconds == self.spec_seconds_per_bucket(),
    {
        match self {
            Duration::Seconds(_) => 1,
            Duration::Minutes(_) => 60,
            Duration::Hours(_) => 3600,
            Duration::Days(_) => 86400,
            Duration::Weeks(_) => 604800,
        }
    }
}

/// Whole buckets of `duration` that lie between `from` and `to`: the seconds
/// from one to the other, divided by the bucket's length and rounded down. A
/// `to` before `from` counts as no bucket at all.
pub open spec fn elapsed_buckets(duration: Duration, from: i64, to: i64) -> nat {
    if to < from {
        0
    } else {
        ((to - from) / (duration.spec_seconds_per_bucket() as int)) as nat
    }
}

} // verus!
