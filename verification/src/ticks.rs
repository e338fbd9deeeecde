//! The interface of a tick value: a reading of a counter of known bit width.

use crate::modular::{
    in_window, lemma_add_then_sub, lemma_max_wraps_to_zero, lemma_modulus_positive,
    lemma_sub_then_add, lemma_window_cases, max_reading, modulus, saturate, wrap_add, wrap_sub,
};
use core::cmp::Ordering;
use core::fmt::Debug;
use vstd::prelude::*;
use vstd::std_specs::cmp::{PartialEqSpec, PartialOrdSpec};
use vstd::std_specs::convert::FromSpec;

verus! {

/// How two readings compare by plain magnitude.
pub open spec fn magnitude_order(a: nat, b: nat) -> Ordering {
    if a < b {
        Ordering::Less
    } else if a == b {
        Ordering::Equal
    } else {
        Ordering::Greater
    }
}

/// A reading of a counter `width()` bits wide, which lets clients know when the counter wraps.
///
/// The view of a tick value is its reading as a natural number. Equality and the order of the
/// std traits go by that number. They say nothing about which of two readings was taken first:
/// only [`Ticks::within_range`] compares readings in time.
pub trait Ticks: Clone + Copy + From<u32> + Debug + Ord + PartialOrd + Eq + View<V = nat> {
    /// The bit width of the counter.
    spec fn width() -> nat;

    /// Every reading is below `2^width`.
    proof fn lemma_reading_bounded(self)
        ensures
            self@ < modulus(Self::width()),
    ;

    /// Converting from `u32` keeps the low `width` bits.
    proof fn lemma_from_u32(val: u32)
        ensures
            Self::obeys_from_spec(),
            Self::from_spec(val)@ == (val as nat) % modulus(Self::width()),
    ;

    /// `==`, `<` and their kin compare readings by magnitude.
    proof fn lemma_compares_by_magnitude(self, other: Self)
        ensures
            Self::obeys_eq_spec(),
            self.eq_spec(&other) == (self@ == other@),
            Self::obeys_partial_cmp_spec(),
            self.partial_cmp_spec(&other) == Some(magnitude_order(self@, other@)),
    ;

    /// Converts the reading into a `usize`, dropping the high bits where it is wider than
    /// `usize` and filling with zeros where it is narrower.
    fn into_usize(self) -> (r: usize)
        ensures
            r as nat == self@ % (usize::MAX as nat + 1),
    ;

    /// Converts the reading into a `u32`, dropping the high bits where it is wider than 32 bits
    /// and filling with zeros where it is narrower.
    fn into_u32(self) -> (r: u32)
        ensures
            r as nat == self@ % 0x1_0000_0000,
    ;

    /// Adds two readings, wrapping round at `2^width`.
    fn wrapping_add(self, other: Self) -> (r: Self)
        ensures
            r@ == wrap_add(Self::width(), self@, other@),
    ;

    /// Subtracts `other` from this reading, wrapping round at `2^width`.
    fn wrapping_sub(self, other: Self) -> (r: Self)
        ensures
            r@ == wrap_sub(Self::width(), self@, other@),
    ;

    /// Whether a counter that counts forward from `start` reaches this reading strictly before
    /// it reaches `end`, wraparound considered: `(self - start) < (end - start)` in arithmetic
    /// modulo `2^width`.
    fn within_range(self, start: Self, end: Self) -> (r: bool)
        ensures
            r == in_window(Self::width(), self@, start@, end@),
    ;

    /// The largest reading, `2^width - 1`.
    fn max_value() -> (r: Self)
        ensures
            r@ == max_reading(Self::width()),
    ;

    /// The reading `val` where the counter can hold it, and the largest reading otherwise.
    fn from_or_max(val: u64) -> (r: Self)
        ensures
            r@ == saturate(Self::width(), val as nat),
    ;
}

/// In every width, wrapping addition and subtraction undo each other: `(a + b) - b` and
/// `(a - b) + b` are both `a`.
pub proof fn lemma_add_and_sub_are_inverses<T: Ticks>(a: T, b: T)
    ensures
        wrap_sub(T::width(), wrap_add(T::width(), a@, b@), b@) == a@,
        wrap_add(T::width(), wrap_sub(T::width(), a@, b@), b@) == a@,
{
    a.lemma_reading_bounded();
    lemma_add_then_sub(T::width(), a@, b@);
    lemma_sub_then_add(T::width(), a@, b@);
}

/// In every width, the largest tick value and one more tick make zero.
pub proof fn lemma_max_value_wraps<T: Ticks>()
    ensures
        wrap_add(T::width(), max_reading(T::width()), T::from_spec(1u32)@) == 0,
{
    T::lemma_from_u32(1);
    lemma_modulus_positive(T::width());
    lemma_max_wraps_to_zero(T::width());
    if modulus(T::width()) == 1 {
        assert(T::from_spec(1u32)@ == 0);
    } else {
        vstd::arithmetic::div_mod::lemma_small_mod(1, modulus(T::width()));
    }
}

/// In every width, the window test reads on plain magnitudes as follows. A window whose start
/// is not above its end holds the readings from the start up to, not including, the end. A
/// window whose end is below its start is reached by wrapping past zero: it holds the readings
/// from the start upward and those below the end. A window that starts where it ends holds
/// nothing.
pub proof fn lemma_within_range_cases<T: Ticks>(value: T, start: T, end: T)
    ensures
        start@ <= end@ ==> (in_window(T::width(), value@, start@, end@) <==> start@ <= value@
            < end@),
        end@ < start@ ==> (in_window(T::width(), value@, start@, end@) <==> start@ <= value@
            || value@ < end@),
{
    value.lemma_reading_bounded();
    start.lemma_reading_bounded();
    end.lemma_reading_bounded();
    lemma_window_cases(T::width(), value@, start@, end@);
}

} // verus!
