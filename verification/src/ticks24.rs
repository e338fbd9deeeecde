//! Tick values of a 24-bit counter, held in the low three bytes of a 32-bit word.

use crate::modular::{lemma_distance_cases, lemma_sum_cases};
use crate::ticks::{magnitude_order, Ticks};
use core::cmp::Ordering;
use vstd::arithmetic::div_mod::lemma_small_mod;
use vstd::arithmetic::power2::lemma2_to64;
use vstd::prelude::*;
use vstd::std_specs::cmp::{PartialEqSpecImpl, PartialOrdSpecImpl};
use vstd::std_specs::convert::FromSpecImpl;

verus! {

/// A reading of a 24-bit counter.
#[derive(Clone, Copy, Debug, Ord)]
pub struct Ticks24(u32);

impl Ticks24 {
    /// The high byte of the stored word is clear.
    #[verifier::type_invariant]
    spec fn high_byte_clear(self) -> bool {
        self.0 <= 0x00FF_FFFF
    }
}

impl View for Ticks24 {
    type V = nat;

    /// The low 24 bits of the stored word. The type's invariant keeps the high byte clear, so
    /// for every value that executable code holds this is the stored word itself.
    closed spec fn view(&self) -> nat {
        (self.0 % 0x0100_0000) as nat
    }
}

impl From<u32> for Ticks24 {
    /// The reading that is the low 24 bits of `val`.
    fn from(val: u32) -> (r: Self)
        ensures
            r@ == (val as nat) % 0x0100_0000,
    {
        let low: u32 = val & 0x00FF_FFFF;
        assert(low == val % 0x0100_0000 && low <= 0x00FF_FFFF) by (bit_vector)
            requires
                low == val & 0x00FF_FFFF,
        ;
        Ticks24(low)
    }
}

impl FromSpecImpl<u32> for Ticks24 {
    open spec fn obeys_from_spec() -> bool {
        true
    }

    closed spec fn from_spec(val: u32) -> Self {
        Ticks24(val % 0x0100_0000)
    }
}

impl PartialEq for Ticks24 {
    fn eq(&self, other: &Self) -> (r: bool) {
        proof {
            use_type_invariant(self);
            use_type_invariant(other);
        }
        self.0 == other.0
    }
}

impl PartialEqSpecImpl for Ticks24 {
    open spec fn obeys_eq_spec() -> bool {
        true
    }

    closed spec fn eq_spec(&self, other: &Self) -> bool {
        self@ == other@
    }
}

impl Eq for Ticks24 {

}

impl PartialOrd for Ticks24 {
    fn partial_cmp(&self, other: &Self) -> (r: Option<Ordering>) {
        proof {
            use_type_invariant(self);
            use_type_invariant(other);
        }
        if self.0 < other.0 {
            Some(Ordering::Less)
        } else if self.0 == other.0 {
            Some(Ordering::Equal)
        } else {
            Some(Ordering::Greater)
        }
    }
}

impl PartialOrdSpecImpl for Ticks24 {
    open spec fn obeys_partial_cmp_spec() -> bool {
        true
    }

    closed spec fn partial_cmp_spec(&self, other: &Self) -> Option<Ordering> {
        Some(magnitude_order(self@, other@))
    }
}

impl Ticks for Ticks24 {
    open spec fn width() -> nat {
        24
    }

    proof fn lemma_reading_bounded(self) {
        lemma2_to64();
    }

    proof fn lemma_from_u32(val: u32) {
        lemma2_to64();
    }

    proof fn lemma_compares_by_magnitude(self, other: Self) {
    }

    fn into_usize(self) -> (r: usize) {
        proof {
            use_type_invariant(self);
            lemma_small_mod(self.0 as nat, (usize::MAX + 1) as nat);
        }
        self.0 as usize
    }

    fn into_u32(self) -> (r: u32) {
        proof {
            use_type_invariant(self);
        }
        self.0
    }

    fn wrapping_add(self, other: Self) -> (r: Self) {
        proof {
            use_type_invariant(self);
            use_type_invariant(other);
            lemma2_to64();
            lemma_sum_cases(24, self@, other@);
        }
        let sum: u32 = self.0.wrapping_add(other.0);
        let low: u32 = sum & 0x00FF_FFFF;
        assert(low == sum % 0x0100_0000 && low <= 0x00FF_FFFF) by (bit_vector)
            requires
                low == sum & 0x00FF_FFFF,
        ;
        Ticks24(low)
    }

    fn wrapping_sub(self, other: Self) -> (r: Self) {
        proof {
            use_type_invariant(self);
            use_type_invariant(other);
            lemma2_to64();
            lemma_distance_cases(24, self@, other@);
        }
        let difference: u32 = self.0.wrapping_sub(other.0);
        let low: u32 = difference & 0x00FF_FFFF;
        assert(low == difference % 0x0100_0000 && low <= 0x00FF_FFFF) by (bit_vector)
            requires
                low == difference & 0x00FF_FFFF,
        ;
        Ticks24(low)
    }

    fn within_range(self, start: Self, end: Self) -> (r: bool) {
        let value_distance = self.wrapping_sub(start);
        let end_distance = end.wrapping_sub(start);
        proof {
            use_type_invariant(value_distance);
            use_type_invariant(end_distance);
        }
        value_distance.0 < end_distance.0
    }

    fn max_value() -> (r: Self) {
        proof {
            lemma2_to64();
        }
        Ticks24(0x00FF_FFFF)
    }

    fn from_or_max(val: u64) -> (r: Self) {
        proof {
            lemma2_to64();
        }
        if val <= 0x00FF_FFFF {
            Ticks24(val as u32)
        } else {
            Ticks24(0x00FF_FFFF)
        }
    }
}

} // verus!
