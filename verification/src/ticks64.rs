//! Tick values of a 64-bit counter.

use crate::modular::{lemma_distance_cases, lemma_sum_cases};
use crate::ticks::{magnitude_order, Ticks};
use core::cmp::Ordering;
use vstd::arithmetic::div_mod::lemma_small_mod;
use vstd::arithmetic::power2::lemma2_to64;
use vstd::prelude::*;
use vstd::std_specs::cmp::{PartialEqSpecImpl, PartialOrdSpecImpl};
use vstd::std_specs::convert::FromSpecImpl;

verus! {

/// A reading of a 64-bit counter.
#[derive(Clone, Copy, Debug, Ord)]
pub struct Ticks64(u64);

impl View for Ticks64 {
    type V = nat;

    closed spec fn view(&self) -> nat {
        self.0 as nat
    }
}

impl Ticks64 {
    /// The reading as a `u64`, which holds every reading of this width.
    pub fn into_u64(self) -> (r: u64)
        ensures
            r as nat == self@,
    {
        self.0
    }
}

impl From<u32> for Ticks64 {
    /// The reading `val`.
    fn from(val: u32) -> (r: Self)
        ensures
            r@ == val as nat,
    {
        Ticks64(val as u64)
    }
}

impl FromSpecImpl<u32> for Ticks64 {
    open spec fn obeys_from_spec() -> bool {
        true
    }

    closed spec fn from_spec(val: u32) -> Self {
        Ticks64(val as u64)
    }
}

impl From<u64> for Ticks64 {
    /// The reading `val`.
    fn from(val: u64) -> (r: Self)
        ensures
            r@ == val as nat,
    {
        Ticks64(val)
    }
}

impl FromSpecImpl<u64> for Ticks64 {
    open spec fn obeys_from_spec() -> bool {
        true
    }

    closed spec fn from_spec(val: u64) -> Self {
        Ticks64(val)
    }
}

impl PartialEq for Ticks64 {
    fn eq(&self, other: &Self) -> (r: bool) {
        self.0 == other.0
    }
}

impl PartialEqSpecImpl for Ticks64 {
    open spec fn obeys_eq_spec() -> bool {
        true
    }

    closed spec fn eq_spec(&self, other: &Self) -> bool {
        self.0 == other.0
    }
}

impl Eq for Ticks64 {

}

impl PartialOrd for Ticks64 {
    fn partial_cmp(&self, other: &Self) -> (r: Option<Ordering>) {
        if self.0 < other.0 {
            Some(Ordering::Less)
        } else if self.0 == other.0 {
            Some(Ordering::Equal)
        } else {
            Some(Ordering::Greater)
        }
    }
}

impl PartialOrdSpecImpl for Ticks64 {
    open spec fn obeys_partial_cmp_spec() -> bool {
        true
    }

    closed spec fn partial_cmp_spec(&self, other: &Self) -> Option<Ordering> {
        Some(magnitude_order(self@, other@))
    }
}

impl Ticks for Ticks64 {
    open spec fn width() -> nat {
        64
    }

    proof fn lemma_reading_bounded(self) {
        lemma2_to64();
    }

    proof fn lemma_from_u32(val: u32) {
        lemma2_to64();
        lemma_small_mod(val as nat, 0x1_0000_0000_0000_0000);
    }

    proof fn lemma_compares_by_magnitude(self, other: Self) {
    }

    fn into_usize(self) -> (r: usize) {
        let word: u64 = self.0;
        assert(usize::BITS == 32 ==> word as usize == word % 0x1_0000_0000) by (bit_vector);
        assert(usize::BITS == 64 ==> word as usize == word) by (bit_vector);
        proof {
            let span = (usize::MAX + 1) as nat;
            if usize::BITS == 64 {
                lemma_small_mod(word as nat, span);
            } else {
                assert(span == 0x1_0000_0000);
            }
        }
        #[verifier::truncate]
        (word as usize)
    }

    fn into_u32(self) -> (r: u32) {
        let word: u64 = self.0;
        assert(word as u32 == word % 0x1_0000_0000) by (bit_vector);
        #[verifier::truncate]
        (word as u32)
    }

    fn wrapping_add(self, other: Self) -> (r: Self) {
        proof {
            lemma2_to64();
            lemma_sum_cases(64, self@, other@);
        }
        Ticks64(self.0.wrapping_add(other.0))
    }

    fn wrapping_sub(self, other: Self) -> (r: Self) {
        proof {
            lemma2_to64();
            lemma_distance_cases(64, self@, other@);
        }
        Ticks64(self.0.wrapping_sub(other.0))
    }

    fn within_range(self, start: Self, end: Self) -> (r: bool) {
        self.wrapping_sub(start).0 < end.wrapping_sub(start).0
    }

    fn max_value() -> (r: Self) {
        proof {
            lemma2_to64();
        }
        Ticks64(0xFFFF_FFFF_FFFF_FFFF)
    }

    fn from_or_max(val: u64) -> (r: Self) {
        proof {
            lemma2_to64();
        }
        Ticks64(val)
    }
}

} // verus!
