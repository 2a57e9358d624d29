//! The common idle-duration type that every backend normalizes into.
//!
//! Backends report elapsed idle time in seconds, milliseconds or nanoseconds;
//! this type carries the value as whole seconds plus a sub-second nanosecond
//! remainder. Its view is the total number of nanoseconds, a `nat`, so a
//! duration can never be negative.

use vstd::prelude::*;
use vstd::arithmetic::div_mod::{lemma_fundamental_div_mod, lemma_fundamental_div_mod_converse};

verus! {

/// A non-negative elapsed-time value with nanosecond resolution.
#[derive(Clone, Copy, Debug, PartialEq, Eq, Structural)]
pub struct IdleDuration {
    secs: u64,
    nanos: u32,
}

impl View for IdleDuration {
    type V = nat;

    /// The total number of nanoseconds.
    closed spec fn view(&self) -> nat {
        (self.secs * 1_000_000_000 + self.nanos) as nat
    }
}

impl IdleDuration {
    #[verifier::type_invariant]
    spec fn wf(self) -> bool {
        self.nanos < 1_000_000_000
    }

    /// A duration of `secs` whole seconds.
    pub fn from_secs(secs: u64) -> (r: Self)
        ensures
            r@ == secs * 1_000_000_000,
    {
        Self { secs, nanos: 0 }
    }

    /// A duration of `millis` milliseconds.
    pub fn from_millis(millis: u64) -> (r: Self)
        ensures
            r@ == millis * 1_000_000,
    {
        let secs: u64 = millis / 1000;
        let rem: u64 = millis % 1000;
        proof {
            lemma_fundamental_div_mod(millis as int, 1000);
        }
        Self { secs, nanos: (rem as u32) * 1_000_000 }
    }

    /// A duration of `nanos` nanoseconds.
    pub fn from_nanos(nanos: u64) -> (r: Self)
        ensures
            r@ == nanos,
    {
        let secs: u64 = nanos / 1_000_000_000;
        let rem: u64 = nanos % 1_000_000_000;
        proof {
            lemma_fundamental_div_mod(nanos as int, 1_000_000_000);
        }
        Self { secs, nanos: rem as u32 }
    }

    /// The number of whole seconds.
    pub fn as_secs(&self) -> (r: u64)
        ensures
            r == self@ / 1_000_000_000,
    {
        proof {
            use_type_invariant(self);
            lemma_fundamental_div_mod_converse(
                self@ as int,
                1_000_000_000,
                self.secs as int,
                self.nanos as int,
            );
        }
        self.secs
    }

    /// The sub-second part, in nanoseconds.
    pub fn subsec_nanos(&self) -> (r: u32)
        ensures
            r == self@ % 1_000_000_000,
    {
        proof {
            use_type_invariant(self);
            lemma_fundamental_div_mod_converse(
                self@ as int,
                1_000_000_000,
                self.secs as int,
                self.nanos as int,
            );
        }
        self.nanos
    }

    /// The total number of whole milliseconds.
    pub fn as_millis(&self) -> (r: u128)
        ensures
            r == self@ / 1_000_000,
    {
        proof {
            use_type_invariant(self);
            lemma_fundamental_div_mod(self.nanos as int, 1_000_000);
            lemma_fundamental_div_mod_converse(
                self@ as int,
                1_000_000,
                self.secs as int * 1000 + self.nanos as int / 1_000_000,
                self.nanos as int % 1_000_000,
            );
        }
        self.secs as u128 * 1000 + (self.nanos / 1_000_000) as u128
    }

    /// The total number of nanoseconds.
    pub fn as_nanos(&self) -> (r: u128)
        ensures
            r == self@,
    {
        self.secs as u128 * 1_000_000_000 + self.nanos as u128
    }

    /// The difference of two durations, or `None` when `other` is longer
    /// than `self`.
    pub fn checked_sub(&self, other: &Self) -> (r: Option<Self>)
        ensures
            self@ >= other@ ==> (r matches Some(d) && d@ == self@ - other@),
            self@ < other@ ==> r is None,
    {
        proof {
            use_type_invariant(self);
            use_type_invariant(other);
        }
        if self.secs > other.secs || (self.secs == other.secs && self.nanos >= other.nanos) {
            if self.nanos >= other.nanos {
                Some(Self { secs: self.secs - other.secs, nanos: self.nanos - other.nanos })
            } else {
                Some(
                    Self {
                        secs: self.secs - other.secs - 1,
                        nanos: self.nanos + 1_000_000_000 - other.nanos,
                    },
                )
            }
        } else {
            None
        }
    }
}

/// Every idle duration is non-negative: whatever backend produced it, a
/// successfully returned value never reports a negative elapsed time.
pub proof fn lemma_duration_non_negative(d: IdleDuration)
    ensures
        d@ >= 0,
{
}

} // verus!
