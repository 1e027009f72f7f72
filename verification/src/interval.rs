//! Spans of time with nanosecond resolution.

use vstd::prelude::*;

verus! {

/// Nanoseconds in one second.
pub const NANOS_PER_SEC: u32 = 1_000_000_000;

/// Nanoseconds in one millisecond.
pub const NANOS_PER_MILLI: u32 = 1_000_000;

/// Milliseconds in one second.
pub const MILLIS_PER_SEC: u64 = 1_000;

/// A span of time: whole seconds and the nanoseconds beyond them.
///
/// Two intervals are equal exactly when they last equally long, because the
/// nanosecond part always stays below one second.
#[derive(Clone, Copy, Debug, PartialEq, Eq, Structural)]
pub struct Interval {
    secs: u64,
    nanos: u32,
}

impl Interval {
    /// The length of the interval in nanoseconds.
    pub closed spec fn total_nanos(self) -> nat {
        (self.secs as nat) * (NANOS_PER_SEC as nat) + (self.nanos as nat)
    }

    /// The interval that lasts `nanos` nanoseconds.
    pub closed spec fn of_nanos(nanos: nat) -> Interval {
        Interval {
            secs: (nanos / (NANOS_PER_SEC as nat)) as u64,
            nanos: (nanos % (NANOS_PER_SEC as nat)) as u32,
        }
    }

    /// The whole milliseconds of the interval, as far as 64 bits can hold
    /// them.
    pub open spec fn capped_millis(self) -> u64 {
        if self.total_millis() <= u64::MAX {
            self.total_millis() as u64
        } else {
            u64::MAX
        }
    }

    /// The length of the interval in whole milliseconds.
    pub open spec fn total_millis(self) -> nat {
        self.total_nanos() / (NANOS_PER_MILLI as nat)
    }

    /// The nanosecond part stays below one second.
    #[verifier::type_invariant]
    pub closed spec fn well_formed(self) -> bool {
        self.nanos < NANOS_PER_SEC
    }

    /// An interval of `secs` whole seconds.
    pub fn from_secs(secs: u64) -> (interval: Self)
        ensures
            interval.total_nanos() == secs as nat * 1_000_000_000,
            interval == Interval::of_nanos(secs as nat * 1_000_000_000),
    {
        assert((secs as nat * 1_000_000_000) / 1_000_000_000 == secs as nat && (secs as nat
            * 1_000_000_000) % 1_000_000_000 == 0) by (nonlinear_arith);
        Interval { secs, nanos: 0 }
    }

    /// An interval of `millis` milliseconds.
    pub fn from_millis(millis: u64) -> (interval: Self)
        ensures
            interval.total_nanos() == millis as nat * 1_000_000,
            interval == Interval::of_nanos(millis as nat * 1_000_000),
    {
        let secs: u64 = millis / MILLIS_PER_SEC;
        let rest: u64 = millis % MILLIS_PER_SEC;
        let nanos: u32 = (rest as u32) * NANOS_PER_MILLI;
        assert(millis as nat * 1_000_000 == (secs as nat) * 1_000_000_000 + (rest as nat)
            * 1_000_000) by (nonlinear_arith)
            requires
                millis == secs * 1_000 + rest,
        ;
        assert(((secs as nat) * 1_000_000_000 + (rest as nat) * 1_000_000) / 1_000_000_000
            == secs as nat && ((secs as nat) * 1_000_000_000 + (rest as nat) * 1_000_000)
            % 1_000_000_000 == (rest as nat) * 1_000_000) by (nonlinear_arith)
            requires
                rest < 1_000,
        ;
        Interval { secs, nanos }
    }

    /// The whole seconds in the interval.
    pub fn as_secs(&self) -> (secs: u64)
        ensures
            secs as nat == self.total_nanos() / 1_000_000_000,
    {
        proof {
            use_type_invariant(self);
            assert((self.secs as nat * 1_000_000_000 + self.nanos as nat) / 1_000_000_000
                == self.secs as nat) by (nonlinear_arith)
                requires
                    self.nanos < 1_000_000_000,
            ;
        }
        self.secs
    }

    /// The part of the interval beyond its whole seconds, in nanoseconds.
    pub fn subsec_nanos(&self) -> (nanos: u32)
        ensures
            nanos as nat == self.total_nanos() % 1_000_000_000,
    {
        proof {
            use_type_invariant(self);
            assert((self.secs as nat * 1_000_000_000 + self.nanos as nat) % 1_000_000_000
                == self.nanos as nat) by (nonlinear_arith)
                requires
                    self.nanos < 1_000_000_000,
            ;
        }
        self.nanos
    }

    /// The whole milliseconds in the interval.
    pub fn as_millis(&self) -> (millis: u128)
        ensures
            millis as nat == self.total_millis(),
    {
        proof {
            use_type_invariant(self);
        }
        let whole: u128 = (self.secs as u128) * (MILLIS_PER_SEC as u128);
        let part: u32 = self.nanos / NANOS_PER_MILLI;
        assert((self.secs as nat * 1_000_000_000 + self.nanos as nat) / 1_000_000
            == self.secs as nat * 1_000 + (self.nanos as nat) / 1_000_000) by (nonlinear_arith);
        whole + (part as u128)
    }

    /// The whole milliseconds in the interval, as far as 64 bits can hold them.
    pub fn as_millis_saturating(&self) -> (millis: u64)
        ensures
            millis == self.capped_millis(),
    {
        let millis = self.as_millis();
        if millis > 0xffff_ffff_ffff_ffff {
            0xffff_ffff_ffff_ffff
        } else {
            millis as u64
        }
    }

    /// Whether this interval is strictly shorter than `other`.
    pub fn shorter_than(&self, other: &Interval) -> (shorter: bool)
        ensures
            shorter == (self.total_nanos() < other.total_nanos()),
    {
        proof {
            use_type_invariant(self);
            use_type_invariant(other);
            assert(self.secs < other.secs ==> (self.secs as nat) * 1_000_000_000
                + 1_000_000_000 <= (other.secs as nat) * 1_000_000_000) by (nonlinear_arith);
            assert(other.secs < self.secs ==> (other.secs as nat) * 1_000_000_000
                + 1_000_000_000 <= (self.secs as nat) * 1_000_000_000) by (nonlinear_arith);
        }
        self.secs < other.secs || (self.secs == other.secs && self.nanos < other.nanos)
    }

    /// The longer of this interval and `other`.
    pub fn at_least(self, other: Interval) -> (longest: Interval)
        ensures
            longest == if self.total_nanos() < other.total_nanos() {
                other
            } else {
                self
            },
    {
        if self.shorter_than(&other) {
            other
        } else {
            self
        }
    }
}

/// An interval of a length that fits is well-formed and has that length.
pub proof fn lemma_of_nanos(nanos: nat)
    requires
        nanos < 0x1_0000_0000_0000_0000 * 1_000_000_000,
    ensures
        Interval::of_nanos(nanos).well_formed(),
        Interval::of_nanos(nanos).total_nanos() == nanos,
{
    assert(nanos / 1_000_000_000 < 0x1_0000_0000_0000_0000 && nanos % 1_000_000_000
        < 1_000_000_000 && (nanos / 1_000_000_000) * 1_000_000_000 + nanos % 1_000_000_000
        == nanos) by (nonlinear_arith)
        requires
            nanos < 0x1_0000_0000_0000_0000 * 1_000_000_000,
    ;
}

/// Intervals that last equally long are the same interval.
pub proof fn lemma_interval_determined_by_length(a: Interval, b: Interval)
    requires
        a.well_formed(),
        b.well_formed(),
        a.total_nanos() == b.total_nanos(),
    ensures
        a == b,
{
    assert(a.secs == b.secs) by (nonlinear_arith)
        requires
            a.nanos < 1_000_000_000,
            b.nanos < 1_000_000_000,
            (a.secs as nat) * 1_000_000_000 + (a.nanos as nat) == (b.secs as nat) * 1_000_000_000
                + (b.nanos as nat),
    ;
}

} // verus!
