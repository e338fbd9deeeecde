//! Tick values of a 16-bit counter.

use crate::modular::{lemma_distance_cases, lemma_sum_cases};
use crate::ticks::{magnitude_order, Ticks};
use core::cmp::Ordering;
use vstd::arithmetic::div_mod::lemma_small_mod;
use vstd::arithmetic::power2::lemma2_to64;
use vstd::prelude::*;
use vstd::std_specs::cmp::{PartialEqSpecImpl, PartialOrdSpecImpl};
use vstd::std_specs::convert::FromSpecImpl;

verus! {

/// A reading of a 16-bit counter.
#[derive(Clone, Copy, Debug, Ord)]
pub struct Ticks16(u16);

impl View for Ticks16 {
    type V = nat;

    closed spec fn view(&self) -> nat {
        self.0 as nat
    }
}

impl From<u16> for Ticks16 {
    /// The reading `val`.
    fn from(val: u16) -> (r: Self)
        ensures
            r@ == val as nat,
    {
        Ticks16(val)
    }
}

impl FromSpecImpl<u16> for Ticks16 {
    open spec fn obeys_from_spec() -> bool {
        true
    }

    closed spec fn from_spec(val: u16) -> Self {
        Ticks16(val)
    }
}

impl From<u32> for Ticks16 {
    /// The reading that is the low 16 bits of `val`.
    fn from(val: u32) -> (r: Self)
        ensures
            r@ == (val as nat) % 0x1_0000,
    {
        let low: u32 = val & 0xffff;
        assert(low == val % 0x1_0000 && low <= 0xffff) by (bit_vector)
            requires
                low == val & 0xffff,
        ;
        Ticks16(low as u16)
    }
}

impl FromSpecImpl<u32> for Ticks16 {
    open spec fn obeys_from_spec() -> bool {
        true
    }

    closed spec fn from_spec(val: u32) -> Self {
        Ticks16((val % 0x1_0000) as u16)
    }
}

impl Ticks16 {
    /// The reading as a `u16`, which holds every reading of this width.
    pub fn into_u16(self) -> (r: u16)
        ensures
            r as nat == self@,
    {
        self.0
    }
}

impl PartialEq for Ticks16 {
    fn eq(&self, other: &Self) -> (r: bool) {
        self.0 == other.0
    }
}

impl PartialEqSpecImpl for Ticks16 {
    open spec fn obeys_eq_spec() -> bool {
        true
    }

    closed spec fn eq_spec(&self, other: &Self) -> bool {
        self.0 == other.0
    }
}

impl Eq for Ticks16 {

}

impl PartialOrd for Ticks16 {
    fn partial_cmp(&self, other: &Self) -> (r: Option<Ordering>) {
        if self.0 < other.0 {
            Some(Ordering::Less)
        } else if self.0 == other.0 {
            Some(Ordering::Equal)
        } else {
            Some(Ordering::Greater)
        }
    }
}

impl PartialOrdSpecImpl for Ticks16 {
    open spec fn obeys_partial_cmp_spec() -> bool {
        true
    }

    closed spec fn partial_cmp_spec(&self, other: &Self) -> Option<Ordering> {
        Some(magnitude_order(self@, other@))
    }
}

impl Ticks for Ticks16 {
    open spec fn width() -> nat {
        16
    }

    proof fn lemma_reading_bounded(self) {
        lemma2_to64();
    }

    proof fn lemma_from_u32(val: u32) {
        lemma2_to64();
    }

    proof fn lemma_compares_by_magnitude(self, other: Self) {
    }

    fn into_usize(self) -> (r: usize) {
        proof {
            lemma_small_mod(self.0 as nat, (usize::MAX + 1) as nat);
        }
        self.0 as usize
    }

    fn into_u32(self) -> (r: u32) {
        self.0 as u32
    }

    fn wrapping_add(self, other: Self) -> (r: Self) {
        proof {
            lemma2_to64();
            lemma_sum_cases(16, self@, other@);
        }
        Ticks16(self.0.wrapping_add(other.0))
    }

    fn wrapping_sub(self, other: Self) -> (r: Self) {
        proof {
            lemma2_to64();
            lemma_distance_cases(16, self@, other@);
        }
        Ticks16(self.0.wrapping_sub(other.0))
    }

    fn within_range(self, start: Self, end: Self) -> (r: bool) {
        self.wrapping_sub(start).0 < end.wrapping_sub(start).0
    }

    fn max_value() -> (r: Self) {
        proof {
            lemma2_to64();
        }
        Ticks16(0xFFFF)
    }

    fn from_or_max(val: u64) -> (r: Self) {
        proof {
            lemma2_to64();
        }
        if val <= 0xFFFF {
            Ticks16(val as u16)
        } else {
            Ticks16(0xFFFF)
        }
    }
}

} // verus!
