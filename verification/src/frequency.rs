//! Clock rates, known at compile time.

use vstd::prelude::*;

verus! {

/// The rate of a clock in Hz, by which code converts between ticks and wall-clock units. A
/// frequency is a tag at the type level and holds no state.
pub trait Frequency {
    /// The rate in Hz.
    spec fn hertz() -> nat;

    /// Returns the rate in Hz.
    fn frequency() -> (hz: u32)
        ensures
            hz as nat == Self::hertz(),
    ;
}

/// 100 MHz.
#[derive(Debug)]
pub struct Freq100MHz;

impl Frequency for Freq100MHz {
    open spec fn hertz() -> nat {
        100_000_000
    }

    fn frequency() -> (hz: u32) {
        100_000_000
    }
}

/// 16 MHz.
#[derive(Debug)]
pub struct Freq16MHz;

impl Frequency for Freq16MHz {
    open spec fn hertz() -> nat {
        16_000_000
    }

    fn frequency() -> (hz: u32) {
        16_000_000
    }
}

/// 1 MHz.
#[derive(Debug)]
pub struct Freq1MHz;

impl Frequency for Freq1MHz {
    open spec fn hertz() -> nat {
        1_000_000
    }

    fn frequency() -> (hz: u32) {
        1_000_000
    }
}

/// 32 kHz, that is 32768 Hz.
#[derive(Debug)]
pub struct Freq32KHz;

impl Frequency for Freq32KHz {
    open spec fn hertz() -> nat {
        32_768
    }

    fn frequency() -> (hz: u32) {
        32_768
    }
}

/// 16 kHz.
#[derive(Debug)]
pub struct Freq16KHz;

impl Frequency for Freq16KHz {
    open spec fn hertz() -> nat {
        16_000
    }

    fn frequency() -> (hz: u32) {
        16_000
    }
}

/// 1 kHz.
#[derive(Debug)]
pub struct Freq1KHz;

impl Frequency for Freq1KHz {
    open spec fn hertz() -> nat {
        1_000
    }

    fn frequency() -> (hz: u32) {
        1_000
    }
}

} // verus!
