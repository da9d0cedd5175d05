//! Fixed-point time: whole seconds and nanoseconds.

use vstd::arithmetic::div_mod::{lemma_fundamental_div_mod, lemma_fundamental_div_mod_converse};
use vstd::prelude::*;

verus! {

/// Nanoseconds in one second.
pub const NANOS_PER_SEC: u32 = 1_000_000_000;

/// A span of time: `secs` whole seconds and `nanos` billionths of a second.
#[derive(Clone, Copy, Debug, PartialEq, Eq, Structural)]
pub struct PlayTime {
    secs: u64,
    nanos: u32,
}

impl PlayTime {
    #[verifier::type_invariant]
    spec fn inv(self) -> bool {
        self.nanos < NANOS_PER_SEC
    }

    /// The whole span in nanoseconds.
    pub closed spec fn total_nanos(self) -> nat {
        (self.secs as nat) * (NANOS_PER_SEC as nat) + (self.nanos as nat)
    }

    /// The whole seconds of the span.
    pub closed spec fn spec_secs(self) -> nat {
        self.secs as nat
    }

    /// The empty span.
    pub closed spec fn zero_time() -> PlayTime {
        PlayTime { secs: 0, nanos: 0 }
    }

    /// The empty span.
    pub fn zero() -> (t: PlayTime)
        ensures
            t == PlayTime::zero_time(),
            t.total_nanos() == 0,
            t.spec_secs() == 0,
    {
        PlayTime { secs: 0, nanos: 0 }
    }

    /// The billionths of a second beyond the whole seconds.
    pub closed spec fn spec_subsec_nanos(self) -> nat {
        self.nanos as nat
    }

    /// The span is its whole seconds and its nanoseconds, the latter short
    /// of a second.
    pub proof fn lemma_parts(self)
        requires
            self.spec_subsec_nanos() < NANOS_PER_SEC,
        ensures
            self.total_nanos() == self.spec_secs() * 1_000_000_000 + self.spec_subsec_nanos(),
            self.spec_secs() == self.total_nanos() / 1_000_000_000,
            self.spec_subsec_nanos() == self.total_nanos() % 1_000_000_000,
    {
        lemma_fundamental_div_mod_converse(
            self.total_nanos() as int,
            1_000_000_000,
            self.secs as int,
            self.nanos as int,
        );
    }

    /// The span of `secs` seconds and `nanos` nanoseconds; nothing if
    /// `nanos` amounts to a second or more.
    pub fn new(secs: u64, nanos: u32) -> (t: Option<PlayTime>)
        ensures
            nanos < NANOS_PER_SEC <==> t is Some,
            t matches Some(time) ==> time.spec_secs() == secs && time.spec_subsec_nanos() == nanos
                && time.total_nanos() == secs * 1_000_000_000 + nanos,
    {
        if nanos < NANOS_PER_SEC {
            Some(PlayTime { secs, nanos })
        } else {
            None
        }
    }

    /// The span of `secs` whole seconds.
    pub fn from_secs(secs: u64) -> (t: PlayTime)
        ensures
            t.spec_secs() == secs,
            t.spec_subsec_nanos() == 0,
            t.total_nanos() == secs * 1_000_000_000,
    {
        PlayTime { secs, nanos: 0 }
    }

    /// The billionths of a second beyond the whole seconds.
    pub fn subsec_nanos(&self) -> (n: u32)
        ensures
            n == self.spec_subsec_nanos(),
            n == self.total_nanos() % 1_000_000_000,
            n < NANOS_PER_SEC,
    {
        proof {
            use_type_invariant(self);
            self.lemma_parts();
        }
        self.nanos
    }

    /// The time that `count` units last at `per` units a second, rounded
    /// down to the nanosecond; nothing if its seconds are beyond what a
    /// span can hold.
    pub fn from_ratio(count: u128, per: u64) -> (t: Option<PlayTime>)
        requires
            per > 0,
        ensures
            t is Some <==> count / (per as u128) <= u64::MAX,
            t matches Some(time) ==> time.total_nanos() == (count * 1_000_000_000) / (per as int)
                && time.spec_secs() == count / (per as u128),
    {
        let whole: u128 = count / (per as u128);
        if whole > u64::MAX as u128 {
            return None;
        }
        let secs: u64 = whole as u64;
        let rest: u128 = count % (per as u128);
        assert(rest * 1_000_000_000 <= u128::MAX) by (nonlinear_arith)
            requires
                rest < per,
                per <= u64::MAX,
        ;
        let scaled: u128 = rest * 1_000_000_000u128;
        let nanos: u128 = scaled / (per as u128);
        proof {
            let d = per as int;
            let q2 = (rest * 1_000_000_000) / d;
            let r2 = (rest * 1_000_000_000) % d;
            lemma_fundamental_div_mod(count as int, d);
            lemma_fundamental_div_mod(rest * 1_000_000_000, d);
            assert(q2 < 1_000_000_000) by (nonlinear_arith)
                requires
                    0 <= rest < d,
                    rest * 1_000_000_000 == d * q2 + r2,
                    0 <= r2 < d,
            ;
            assert(0 <= q2) by (nonlinear_arith)
                requires
                    0 <= rest,
                    0 < d,
                    rest * 1_000_000_000 == d * q2 + r2,
                    0 <= r2 < d,
            ;
            assert(count * 1_000_000_000 == (secs * 1_000_000_000 + q2) * d + r2)
                by (nonlinear_arith)
                requires
                    count == d * secs + rest,
                    rest * 1_000_000_000 == d * q2 + r2,
            ;
            lemma_fundamental_div_mod_converse(
                count * 1_000_000_000,
                d,
                secs * 1_000_000_000 + q2,
                r2,
            );
        }
        Some(PlayTime { secs, nanos: nanos as u32 })
    }

    /// The time that `samples` samples last at `per_second` samples a
    /// second, rounded down to the nanosecond.
    pub fn from_samples(samples: u64, per_second: u64) -> (t: PlayTime)
        requires
            per_second > 0,
        ensures
            t.total_nanos() == (samples * 1_000_000_000) / (per_second as int),
            t.spec_secs() == samples / per_second,
    {
        proof {
            lemma_fundamental_div_mod(samples as int, per_second as int);
            assert(samples / per_second <= samples) by (nonlinear_arith)
                requires
                    samples == per_second * (samples / per_second) + samples % per_second,
                    0 <= samples % per_second,
                    per_second >= 1,
                    0 <= samples / per_second,
            ;
        }
        match PlayTime::from_ratio(samples as u128, per_second) {
            Some(t) => t,
            None => PlayTime { secs: 0, nanos: 0 },
        }
    }

    /// The time that `ticks` ticks last when one tick is `numer / denom`
    /// seconds, rounded down to the nanosecond; nothing if its seconds are
    /// beyond what a span can hold.
    pub fn from_ticks(ticks: u64, numer: u32, denom: u32) -> (t: Option<PlayTime>)
        requires
            denom > 0,
        ensures
            t is Some <==> (ticks * numer) / (denom as int) <= u64::MAX,
            t matches Some(time) ==> time.total_nanos() == (ticks * numer * 1_000_000_000) / (
            denom as int),
    {
        assert(ticks * numer <= u128::MAX) by (nonlinear_arith)
            requires
                ticks <= u64::MAX,
                numer <= u32::MAX,
        ;
        assert(0 <= ticks * numer) by (nonlinear_arith)
            requires
                0 <= ticks,
                0 <= numer,
        ;
        let count: u128 = (ticks as u128) * (numer as u128);
        PlayTime::from_ratio(count, denom as u64)
    }

    /// Whether this span is at most as long as `other`.
    pub fn le(&self, other: &PlayTime) -> (b: bool)
        ensures
            b == (self.total_nanos() <= other.total_nanos()),
    {
        proof {
            use_type_invariant(self);
            use_type_invariant(other);
            assert(self.secs < other.secs ==> self.total_nanos() <= other.total_nanos())
                by (nonlinear_arith)
                requires
                    self.total_nanos() == self.secs * 1_000_000_000 + self.nanos,
                    other.total_nanos() == other.secs * 1_000_000_000 + other.nanos,
                    self.nanos < 1_000_000_000,
                    other.nanos < 1_000_000_000,
            ;
            assert(self.secs > other.secs ==> self.total_nanos() > other.total_nanos())
                by (nonlinear_arith)
                requires
                    self.total_nanos() == self.secs * 1_000_000_000 + self.nanos,
                    other.total_nanos() == other.secs * 1_000_000_000 + other.nanos,
                    self.nanos < 1_000_000_000,
                    other.nanos < 1_000_000_000,
            ;
        }
        if self.secs != other.secs {
            self.secs < other.secs
        } else {
            self.nanos <= other.nanos
        }
    }

    /// This span less `other`, and the empty span where `other` is longer.
    pub fn saturating_sub(&self, other: &PlayTime) -> (t: PlayTime)
        ensures
            t.total_nanos() == if self.total_nanos() >= other.total_nanos() {
                self.total_nanos() - other.total_nanos()
            } else {
                0
            },
    {
        proof {
            use_type_invariant(self);
            use_type_invariant(other);
        }
        if !other.le(self) {
            PlayTime { secs: 0, nanos: 0 }
        } else if self.nanos >= other.nanos {
            assert(self.secs >= other.secs) by (nonlinear_arith)
                requires
                    other.secs * 1_000_000_000 + other.nanos <= self.secs * 1_000_000_000
                        + self.nanos,
                    self.nanos >= other.nanos,
                    self.nanos < 1_000_000_000,
            ;
            let t = PlayTime { secs: self.secs - other.secs, nanos: self.nanos - other.nanos };
            assert(t.total_nanos() == self.total_nanos() - other.total_nanos())
                by (nonlinear_arith)
                requires
                    t.total_nanos() == (self.secs - other.secs) * 1_000_000_000 + (self.nanos
                        - other.nanos),
                    self.total_nanos() == self.secs * 1_000_000_000 + self.nanos,
                    other.total_nanos() == other.secs * 1_000_000_000 + other.nanos,
            ;
            t
        } else {
            assert(self.secs > other.secs) by (nonlinear_arith)
                requires
                    other.secs * 1_000_000_000 + other.nanos <= self.secs * 1_000_000_000
                        + self.nanos,
                    self.nanos < other.nanos,
                    other.nanos < 1_000_000_000,
            ;
            let t = PlayTime {
                secs: self.secs - other.secs - 1,
                nanos: self.nanos + NANOS_PER_SEC - other.nanos,
            };
            assert(t.total_nanos() == self.total_nanos() - other.total_nanos())
                by (nonlinear_arith)
                requires
                    t.total_nanos() == (self.secs - other.secs - 1) * 1_000_000_000 + (self.nanos
                        + 1_000_000_000 - other.nanos),
                    self.total_nanos() == self.secs * 1_000_000_000 + self.nanos,
                    other.total_nanos() == other.secs * 1_000_000_000 + other.nanos,
            ;
            t
        }
    }

    /// The whole seconds of the span.
    pub fn as_secs(&self) -> (s: u64)
        ensures
            s == self.spec_secs(),
            s == self.total_nanos() / (NANOS_PER_SEC as nat),
    {
        proof {
            use_type_invariant(self);
            assert(self.total_nanos() / (NANOS_PER_SEC as nat) == self.secs) by (nonlinear_arith)
                requires
                    self.total_nanos() == (self.secs as nat) * (NANOS_PER_SEC as nat) + (
                    self.nanos as nat),
                    self.nanos < NANOS_PER_SEC,
                    NANOS_PER_SEC == 1_000_000_000,
            ;
        }
        self.secs
    }
}

} // verus!
