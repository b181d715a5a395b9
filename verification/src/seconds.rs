//! Scalar durations for the integrator and the playback controller.
//!
//! A `Seconds` is a signed duration held as a whole number of nanoseconds, the
//! resolution of the calendar durations it converts to and from.

use vstd::prelude::*;

verus! {

/// Nanoseconds per second: the fixed-point denominator of `Seconds`.
pub const NANOS_PER_SEC: i64 = 1_000_000_000;

/// Clamps an unbounded integer into the `i64` range.
pub open spec fn sat_i64(x: int) -> int {
    if x > i64::MAX {
        i64::MAX as int
    } else if x < i64::MIN {
        i64::MIN as int
    } else {
        x
    }
}

/// A duration in seconds, held as a whole number of nanoseconds.
#[derive(Clone, Copy, PartialEq, Eq, Structural, Debug)]
pub struct Seconds(pub i64);

impl Seconds {
    /// What `from_nanos` builds.
    pub open spec fn spec_from_nanos(ns: i64) -> Seconds {
        Seconds(ns)
    }

    /// What `to_duration` returns.
    pub open spec fn spec_to_duration(self) -> i64 {
        self.0
    }

    /// The duration of `ns` nanoseconds. This is the conversion *from* a
    /// calendar or wall-clock duration given by its nanosecond count.
    pub fn from_nanos(ns: i64) -> (r: Seconds)
        ensures
            r == Seconds::spec_from_nanos(ns),
    {
        Seconds(ns)
    }

    /// The calendar-duration representation: a whole number of nanoseconds.
    /// Together with `from_nanos` this is an exact round trip.
    pub fn to_duration(self) -> (ns: i64)
        ensures
            ns == self.spec_to_duration(),
    {
        self.0
    }

    /// The larger of `self` and `other`.
    pub fn at_least(self, other: Self) -> (r: Self)
        ensures
            r.0 == if self.0 >= other.0 {
                self.0
            } else {
                other.0
            },
    {
        if self.0 >= other.0 {
            self
        } else {
            other
        }
    }

    /// The smaller of `self` and `other`.
    pub fn at_most(self, other: Self) -> (r: Self)
        ensures
            r.0 == if self.0 <= other.0 {
                self.0
            } else {
                other.0
            },
    {
        if self.0 <= other.0 {
            self
        } else {
            other
        }
    }

    /// The product of two non-negative durations, one read as a dimensionless
    /// number of seconds: `self * (other / 1 s)`, truncated to whole
    /// nanoseconds and saturated at the largest representable duration.
    pub fn times(self, other: Self) -> (r: Self)
        requires
            self.0 >= 0,
            other.0 >= 0,
        ensures
            r.0 == sat_i64(self.0 * other.0 / (NANOS_PER_SEC as int)),
    {
        proof {
            assert(self.0 * other.0 <= i64::MAX * i64::MAX) by (nonlinear_arith)
                requires
                    0 <= self.0 <= i64::MAX,
                    0 <= other.0 <= i64::MAX,
            ;
        }
        let p: u128 = (self.0 as u128) * (other.0 as u128);
        let q: u128 = p / (NANOS_PER_SEC as u128);
        if q > i64::MAX as u128 {
            Seconds(i64::MAX)
        } else {
            Seconds(q as i64)
        }
    }

    /// The duration divided by a positive count, truncated toward zero.
    pub fn div_by(self, divisor: i64) -> (r: Self)
        requires
            self.0 >= 0,
            divisor >= 1,
        ensures
            r.0 == (self.0 as int) / (divisor as int),
    {
        let q: u64 = (self.0 as u64) / (divisor as u64);
        proof {
            vstd::arithmetic::div_mod::lemma_div_is_ordered_by_denominator(
                self.0 as int,
                1,
                divisor as int,
            );
        }
        Seconds(q as i64)
    }

    /// The ratio of two durations, rounded up: how many steps of size
    /// `other` cover `self`.
    pub fn ratio_ceil(self, other: Self) -> (r: u64)
        requires
            self.0 >= 0,
            other.0 >= 1,
        ensures
            r == (self.0 + other.0 - 1) / (other.0 as int),
    {
        let n: u128 = (self.0 as u128) + (other.0 as u128) - 1;
        let q: u128 = n / (other.0 as u128);
        proof {
            vstd::arithmetic::div_mod::lemma_div_is_ordered_by_denominator(n as int, 1, other.0 as int);
        }
        q as u64
    }

    /// The negated duration.
    pub fn neg(self) -> (r: Self)
        requires
            self.0 > i64::MIN,
        ensures
            r.0 == -self.0,
    {
        Seconds(-self.0)
    }
}

/// Converting a duration given as a nanosecond count to `Seconds` and back to
/// a calendar duration reproduces it exactly: the representation is the
/// nanosecond count itself, so neither direction loses anything.
pub proof fn lemma_seconds_duration_round_trip(ns: i64)
    ensures
        Seconds::spec_from_nanos(ns).spec_to_duration() == ns,
        forall|d: Seconds| Seconds::spec_from_nanos(d.spec_to_duration()) == d,
{
}

} // verus!
