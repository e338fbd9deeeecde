//! Sources of time: a tick width and a frequency bound together, and the conversion of
//! wall-clock units into ticks.

use crate::frequency::Frequency;
use crate::modular::saturate;
use crate::ticks::Ticks;
use core::marker::PhantomData;
use vstd::prelude::*;

verus! {

/// The whole ticks that a clock of `hertz` Hz counts in `amount` units of which `per_second`
/// make a second. A fraction of a tick is dropped.
pub open spec fn ticks_in(hertz: nat, amount: nat, per_second: nat) -> nat {
    (hertz * amount) / per_second
}

/// The product of two `u32` values, which a `u64` always holds.
fn widening_product(a: u32, b: u32) -> (product: u64)
    ensures
        product as nat == (a as nat) * (b as nat),
{
    assert((a as nat) * (b as nat) <= 0xFFFF_FFFF * 0xFFFF_FFFF) by (nonlinear_arith)
        requires
            a <= 0xFFFF_FFFF,
            b <= 0xFFFF_FFFF,
    ;
    (a as u64) * (b as u64)
}

/// The tick value that stands for `val` ticks: `val` itself where the width `T` can hold it,
/// and the largest tick value otherwise. A duration too long for the width thus becomes the
/// longest one there is, never a short one.
pub fn ticks_from_val<T: Ticks>(val: u64) -> (ticks: T)
    ensures
        ticks@ == saturate(T::width(), val as nat),
{
    T::from_or_max(val)
}

/// A source of time: it can be asked for the present moment, and it fixes the width and the
/// frequency in which moments and durations are measured.
pub trait Time {
    /// The number of ticks per second.
    type Frequency: Frequency;

    /// The width of a time value.
    type Ticks: Ticks;

    /// Whether a reading taken in the present state may come out as `reading`. A free-running
    /// hardware counter admits many readings in one state; a source that implements
    /// [`Timestamp`] admits one.
    spec fn may_read(&self, reading: nat) -> bool;

    /// Returns a reading of the source. Two calls may differ.
    fn now(&self) -> (ticks: Self::Ticks)
        ensures
            self.may_read(ticks@),
    ;

    /// Returns the number of ticks in `s` seconds, or the largest tick value where that number
    /// does not fit the width.
    fn ticks_from_seconds(s: u32) -> (ticks: Self::Ticks)
        ensures
            ticks@ == saturate(
                Self::Ticks::width(),
                ticks_in(Self::Frequency::hertz(), s as nat, 1),
            ),
    {
        let val: u64 = widening_product(Self::Frequency::frequency(), s);
        ticks_from_val(val)
    }

    /// Returns the number of ticks in `ms` milliseconds, rounded down, or the largest tick
    /// value where that number does not fit the width.
    fn ticks_from_ms(ms: u32) -> (ticks: Self::Ticks)
        ensures
            ticks@ == saturate(
                Self::Ticks::width(),
                ticks_in(Self::Frequency::hertz(), ms as nat, 1_000),
            ),
    {
        let val: u64 = widening_product(Self::Frequency::frequency(), ms);
        ticks_from_val(val / 1_000)
    }

    /// Returns the number of ticks in `us` microseconds, rounded down, or the largest tick
    /// value where that number does not fit the width.
    fn ticks_from_us(us: u32) -> (ticks: Self::Ticks)
        ensures
            ticks@ == saturate(
                Self::Ticks::width(),
                ticks_in(Self::Frequency::hertz(), us as nat, 1_000_000),
            ),
    {
        let val: u64 = widening_product(Self::Frequency::frequency(), us);
        ticks_from_val(val / 1_000_000)
    }
}

/// A source of time that stands still: every reading of it is the same moment.
pub trait Timestamp: Time {
    /// Any two readings that the source admits are equal.
    proof fn lemma_one_reading(&self, first: nat, second: nat)
        requires
            self.may_read(first),
            self.may_read(second),
        ensures
            first == second,
    ;
}

/// A moment that was read once and is kept: a source of time whose every reading is that
/// moment, measured in ticks of width `T` at the frequency `F`.
pub struct Instant<T: Ticks, F: Frequency> {
    moment: T,
    _frequency: PhantomData<F>,
}

impl<T: Ticks, F: Frequency> Instant<T, F> {
    /// The moment that this source yields.
    pub closed spec fn moment(&self) -> nat {
        self.moment@
    }

    /// Keeps `moment`.
    pub fn new(moment: T) -> (instant: Self)
        ensures
            instant.moment() == moment@,
    {
        Instant { moment, _frequency: PhantomData }
    }
}

impl<T: Ticks, F: Frequency> Time for Instant<T, F> {
    type Frequency = F;

    type Ticks = T;

    open spec fn may_read(&self, reading: nat) -> bool {
        reading == self.moment()
    }

    fn now(&self) -> (ticks: T) {
        self.moment
    }
}

impl<T: Ticks, F: Frequency> Timestamp for Instant<T, F> {
    proof fn lemma_one_reading(&self, first: nat, second: nat) {
    }
}

} // verus!
