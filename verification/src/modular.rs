//! Arithmetic on the readings of a fixed-width counter.
//!
//! A counter `width` bits wide takes the readings `0 ..= 2^width - 1` and steps from the last
//! one back to zero. Everything the crate states about tick values is stated over the functions
//! of this module, on natural numbers, so that the four tick widths share one set of laws.

use vstd::arithmetic::div_mod::{
    lemma_add_mod_noop, lemma_fundamental_div_mod_converse_mod, lemma_mod_bound, lemma_mod_twice,
    lemma_small_mod, lemma_sub_mod_noop,
};
use vstd::arithmetic::power2::{lemma_pow2_pos, pow2};
use vstd::prelude::*;

verus! {

/// The number of distinct readings of a counter `width` bits wide, `2^width`.
pub open spec fn modulus(width: nat) -> nat {
    pow2(width)
}

/// The largest reading of a counter `width` bits wide, `2^width - 1`.
pub open spec fn max_reading(width: nat) -> nat {
    (modulus(width) - 1) as nat
}

/// The reading reached from `a` after `b` further ticks.
pub open spec fn wrap_add(width: nat, a: nat, b: nat) -> nat {
    (a + b) % modulus(width)
}

/// The number of ticks that lead from the reading `b` forward to the reading `a`.
pub open spec fn wrap_sub(width: nat, a: nat, b: nat) -> nat {
    ((a - b) % (modulus(width) as int)) as nat
}

/// Whether a counter that starts at `start` and counts forward reaches `value` strictly before
/// it reaches `end`: the distance from `start` to `value` is less than that from `start` to
/// `end`, both taken modulo `2^width`.
pub open spec fn in_window(width: nat, value: nat, start: nat, end: nat) -> bool {
    wrap_sub(width, value, start) < wrap_sub(width, end, start)
}

/// `amount` if a counter `width` bits wide can hold it, and the largest reading otherwise.
pub open spec fn saturate(width: nat, amount: nat) -> nat {
    if amount < modulus(width) {
        amount
    } else {
        max_reading(width)
    }
}

/// Saturation keeps what fits and never wraps: an amount up to the largest reading stays as it
/// is, and every larger one becomes the largest reading, not some small remainder.
pub proof fn lemma_saturate_cases(width: nat, amount: nat)
    ensures
        saturate(width, amount) <= max_reading(width),
        amount <= max_reading(width) ==> saturate(width, amount) == amount,
        amount > max_reading(width) ==> saturate(width, amount) == max_reading(width),
{
    lemma_modulus_positive(width);
}

/// Every width has at least one reading.
pub proof fn lemma_modulus_positive(width: nat)
    ensures
        modulus(width) > 0,
{
    lemma_pow2_pos(width);
}

/// Wrapping sums and differences are readings again.
pub proof fn lemma_wrap_bounded(width: nat, a: nat, b: nat)
    ensures
        wrap_add(width, a, b) < modulus(width),
        wrap_sub(width, a, b) < modulus(width),
{
    lemma_modulus_positive(width);
    lemma_mod_bound((a + b) as int, modulus(width) as int);
    lemma_mod_bound(a - b, modulus(width) as int);
}

/// A reading is the distance from zero to itself, and adding nothing leaves it in place.
pub proof fn lemma_wrap_zero(width: nat, a: nat)
    requires
        a < modulus(width),
    ensures
        wrap_add(width, a, 0) == a,
        wrap_sub(width, a, 0) == a,
        wrap_sub(width, a, a) == 0,
{
    lemma_small_mod(a, modulus(width));
    lemma_small_mod(0, modulus(width));
}

/// Subtraction undoes addition: going `b` ticks forward from `a` and then `b` ticks back ends
/// at `a`.
pub proof fn lemma_add_then_sub(width: nat, a: nat, b: nat)
    requires
        a < modulus(width),
    ensures
        wrap_sub(width, wrap_add(width, a, b), b) == a,
{
    let m = modulus(width) as int;
    lemma_modulus_positive(width);
    lemma_sub_mod_noop((a + b) as int, b as int, m);
    lemma_mod_twice((a + b) as int, m);
    lemma_sub_mod_noop(((a + b) as int) % m, b as int, m);
    lemma_small_mod(a, modulus(width));
}

/// Addition undoes subtraction: going `b` ticks back from `a` and then `b` ticks forward ends
/// at `a`.
pub proof fn lemma_sub_then_add(width: nat, a: nat, b: nat)
    requires
        a < modulus(width),
    ensures
        wrap_add(width, wrap_sub(width, a, b), b) == a,
{
    let m = modulus(width) as int;
    lemma_modulus_positive(width);
    lemma_add_mod_noop(a - b, b as int, m);
    lemma_mod_twice(a - b, m);
    lemma_add_mod_noop((a - b) % m, b as int, m);
    lemma_small_mod(a, modulus(width));
}

/// One tick past the largest reading the counter is back at zero.
pub proof fn lemma_max_wraps_to_zero(width: nat)
    ensures
        wrap_add(width, max_reading(width), 1) == 0,
{
    let m = modulus(width) as int;
    lemma_modulus_positive(width);
    lemma_fundamental_div_mod_converse_mod(m, m, 1, 0);
}

/// Ticks add up: going `b` ticks forward and then `c` more ends where going `b + c` forward
/// does.
pub proof fn lemma_add_twice(width: nat, a: nat, b: nat, c: nat)
    ensures
        wrap_add(width, wrap_add(width, a, b), c) == wrap_add(width, a, b + c),
{
    let m = modulus(width) as int;
    lemma_modulus_positive(width);
    lemma_add_mod_noop((a + b) as int, c as int, m);
    lemma_mod_twice((a + b) as int, m);
    lemma_add_mod_noop(((a + b) as int) % m, c as int, m);
}

/// The distance from `start` to the reading `elapsed` ticks after it is `elapsed`, as long as
/// the counter has not gone once round.
pub proof fn lemma_distance_after(width: nat, start: nat, elapsed: nat)
    requires
        elapsed < modulus(width),
    ensures
        wrap_sub(width, wrap_add(width, start, elapsed), start) == elapsed,
{
    let m = modulus(width) as int;
    lemma_modulus_positive(width);
    lemma_sub_mod_noop((start + elapsed) as int, start as int, m);
    lemma_mod_twice((start + elapsed) as int, m);
    lemma_sub_mod_noop(((start + elapsed) as int) % m, start as int, m);
    lemma_small_mod(elapsed, modulus(width));
}

/// The window test written out on plain magnitudes. Where `start <= end` the window is the
/// interval between them; where `end < start` it is reached by wrapping past zero, and holds
/// the readings from `start` up to the largest and those from zero up to `end`.
pub proof fn lemma_window_cases(width: nat, value: nat, start: nat, end: nat)
    requires
        value < modulus(width),
        start < modulus(width),
        end < modulus(width),
    ensures
        start <= end ==> (in_window(width, value, start, end) <==> start <= value < end),
        end < start ==> (in_window(width, value, start, end) <==> start <= value || value < end),
{
    lemma_distance_cases(width, value, start);
    lemma_distance_cases(width, end, start);
}

/// The wrapping sum on plain magnitudes: the sum itself, less once round the counter where it
/// passes the largest reading.
pub proof fn lemma_sum_cases(width: nat, a: nat, b: nat)
    requires
        a < modulus(width),
        b < modulus(width),
    ensures
        wrap_add(width, a, b) == if a + b < modulus(width) {
            (a + b) as int
        } else {
            a + b - modulus(width)
        },
{
    let m = modulus(width) as int;
    if a + b < m {
        lemma_small_mod(a + b, modulus(width));
    } else {
        lemma_fundamental_div_mod_converse_mod((a + b) as int, m, 1, a + b - m);
    }
}

/// The distance from `b` forward to `a` on plain magnitudes: their difference, taken once
/// round the counter where `a` lies below `b`.
pub proof fn lemma_distance_cases(width: nat, a: nat, b: nat)
    requires
        a < modulus(width),
        b < modulus(width),
    ensures
        wrap_sub(width, a, b) == if a >= b {
            a - b
        } else {
            a - b + modulus(width)
        },
{
    let m = modulus(width) as int;
    if a >= b {
        lemma_small_mod((a - b) as nat, modulus(width));
    } else {
        lemma_fundamental_div_mod_converse_mod(a - b, m, -1, a - b + m);
    }
}

} // verus!
