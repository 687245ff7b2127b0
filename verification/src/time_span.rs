//! A span of time with nanosecond resolution, as `std::time::Duration` holds it.
use vstd::prelude::*;
use vstd::arithmetic::div_mod::lemma_fundamental_div_mod_converse;

verus! {

/// Nanoseconds in one second.
pub const NANOS_PER_SEC: u32 = 1_000_000_000;

/// A span of time: whole seconds and the nanoseconds beyond them.
#[derive(Clone, Copy, Debug, PartialEq, Eq, Structural)]
pub struct TimeSpan {
    secs: u64,
    nanos: u32,
}

impl TimeSpan {
    #[verifier::type_invariant]
    spec fn nanos_below_one_second(self) -> bool {
        self.nanos < NANOS_PER_SEC
    }
}

impl View for TimeSpan {
    /// The span in nanoseconds.
    type V = nat;

    closed spec fn view(&self) -> nat {
        (self.secs * NANOS_PER_SEC + self.nanos) as nat
    }
}

impl TimeSpan {
    /// The empty span.
    pub fn zero() -> (r: TimeSpan)
        ensures
            r@ == 0,
    {
        TimeSpan { secs: 0, nanos: 0 }
    }

    /// The span of `secs` seconds and `nanos` nanoseconds.
    pub fn new(secs: u64, nanos: u32) -> (r: TimeSpan)
        requires
            nanos < NANOS_PER_SEC,
        ensures
            r@ == secs * NANOS_PER_SEC + nanos,
    {
        TimeSpan { secs, nanos }
    }

    /// The span of `millis` milliseconds, as [`Self::from_millis`] makes it.
    pub closed spec fn millis_spec(millis: u64) -> TimeSpan {
        TimeSpan { secs: millis / 1000, nanos: ((millis % 1000) * 1_000_000) as u32 }
    }

    /// The span that [`Self::millis_spec`] gives is `millis` milliseconds long.
    pub proof fn millis_spec_is_millis(millis: u64)
        ensures
            Self::millis_spec(millis)@ == millis * 1_000_000,
    {
        let secs = millis / 1000;
        let rest = millis % 1000;
        lemma_fundamental_div_mod_converse(millis as int, 1000, secs as int, rest as int);
        assert(millis * 1_000_000 == secs * NANOS_PER_SEC + rest * 1_000_000) by (nonlinear_arith)
            requires
                millis == secs * 1000 + rest,
        ;
    }

    /// The span of `millis` milliseconds.
    pub fn from_millis(millis: u64) -> (r: TimeSpan)
        ensures
            r@ == millis * 1_000_000,
            r == Self::millis_spec(millis),
    {
        let secs = millis / 1000;
        let rest = (millis % 1000) as u32;
        let nanos = rest * 1_000_000;
        proof {
            lemma_fundamental_div_mod_converse(millis as int, 1000, secs as int, rest as int);
            assert(millis * 1_000_000 == secs * NANOS_PER_SEC + nanos) by (nonlinear_arith)
                requires
                    millis == secs * 1000 + rest,
                    nanos == rest * 1_000_000,
            ;
        }
        TimeSpan { secs, nanos }
    }

    /// The whole seconds of the span.
    pub fn as_secs(&self) -> (r: u64)
        ensures
            r == self@ / (NANOS_PER_SEC as nat),
    {
        proof {
            use_type_invariant(self);
            lemma_fundamental_div_mod_converse(
                self@ as int,
                NANOS_PER_SEC as int,
                self.secs as int,
                self.nanos as int,
            );
        }
        self.secs
    }

    /// The nanoseconds beyond the whole seconds of the span.
    pub fn subsec_nanos(&self) -> (r: u32)
        ensures
            r == self@ % (NANOS_PER_SEC as nat),
    {
        proof {
            use_type_invariant(self);
            lemma_fundamental_div_mod_converse(
                self@ as int,
                NANOS_PER_SEC as int,
                self.secs as int,
                self.nanos as int,
            );
        }
        self.nanos
    }
}

} // verus!
