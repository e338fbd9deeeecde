//! The deadline that an alarm or a timer holds: a reference reading and a delta, armed or not.
//!
//! A deadline is kept as the pair it was given in, never as the single reading
//! `reference + dt`. Once readings wrap, that one value cannot tell a deadline just missed from
//! one far ahead; the pair can, by asking whether the present reading still lies in the window
//! that runs from the reference up to the deadline.

use crate::modular::{
    in_window, lemma_distance_after, lemma_distance_cases, lemma_modulus_positive,
    lemma_sum_cases, lemma_wrap_bounded, modulus, wrap_add, wrap_sub,
};
use crate::ticks::Ticks;
use vstd::prelude::*;

verus! {

/// A deadline over plain numbers: the model of a [`Registration`].
pub struct Schedule {
    /// Whether a notification is still owed for the deadline.
    pub armed: bool,
    /// The reading from which the delta counts.
    pub reference: nat,
    /// The ticks from the reference to the deadline.
    pub dt: nat,
}

impl Schedule {
    /// Both numbers are readings of a counter `width` bits wide.
    pub open spec fn wf(self, width: nat) -> bool {
        &&& self.reference < modulus(width)
        &&& self.dt < modulus(width)
    }

    /// The reading at which the deadline falls, `reference + dt` wrapped.
    pub open spec fn deadline(self, width: nat) -> nat {
        wrap_add(width, self.reference, self.dt)
    }

    /// Whether at the reading `now` the deadline still lies ahead: `now` is in the window from
    /// the reference up to the deadline.
    pub open spec fn ahead(self, width: nat, now: nat) -> bool {
        in_window(width, now, self.reference, self.deadline(width))
    }

    /// The ticks that remain at the reading `now` until the deadline; none once it is reached
    /// or passed.
    pub open spec fn remaining(self, width: nat, now: nat) -> nat {
        if self.ahead(width, now) {
            wrap_sub(width, self.deadline(width), now)
        } else {
            0
        }
    }

    /// Whether a counter that reads `now` and counts `ticks` further reaches the deadline of an
    /// armed schedule on its way, the end of the way included.
    pub open spec fn due_within(self, width: nat, now: nat, ticks: nat) -> bool {
        self.armed && self.remaining(width, now) <= ticks
    }

    /// The schedule armed anew for `dt` ticks after `reference`, a `dt` below `minimum` raised
    /// to it.
    pub open spec fn arm(self, reference: nat, dt: nat, minimum: nat) -> Schedule {
        Schedule { armed: true, reference, dt: larger(dt, minimum) }
    }

    /// The schedule with its notification no longer owed.
    pub open spec fn disarm(self) -> Schedule {
        Schedule { armed: false, ..self }
    }

    /// The schedule moved on by one period: its deadline becomes the reference of the next.
    pub open spec fn renew(self, width: nat) -> Schedule {
        Schedule { reference: self.deadline(width), ..self }
    }
}

/// The larger of two numbers.
pub open spec fn larger(a: nat, b: nat) -> nat {
    if a < b {
        b
    } else {
        a
    }
}

/// Where a counter stands `elapsed` ticks after the reference of a schedule. Short of `dt`
/// ticks the deadline lies ahead, by exactly the ticks that are missing; from `dt` ticks on,
/// for as long as the counter has not gone once round, the deadline is reached.
pub proof fn lemma_remaining_after(width: nat, schedule: Schedule, elapsed: nat)
    requires
        schedule.wf(width),
        elapsed < modulus(width),
    ensures
        schedule.ahead(width, wrap_add(width, schedule.reference, elapsed)) <==> elapsed
            < schedule.dt,
        schedule.remaining(width, wrap_add(width, schedule.reference, elapsed)) == if elapsed
            < schedule.dt {
            schedule.dt - elapsed
        } else {
            0
        },
{
    let m = modulus(width);
    let now = wrap_add(width, schedule.reference, elapsed);
    let deadline = schedule.deadline(width);
    lemma_modulus_positive(width);
    lemma_distance_after(width, schedule.reference, elapsed);
    lemma_distance_after(width, schedule.reference, schedule.dt);
    if elapsed < schedule.dt {
        lemma_wrap_bounded(width, schedule.reference, elapsed);
        lemma_wrap_bounded(width, schedule.reference, schedule.dt);
        lemma_sum_cases(width, schedule.reference, elapsed);
        lemma_sum_cases(width, schedule.reference, schedule.dt);
        lemma_distance_cases(width, deadline, now);
    }
}

/// A deadline as an alarm or a timer holds it, in ticks of width `T`.
#[derive(Debug)]
pub struct Registration<T: Ticks> {
    armed: bool,
    reference: T,
    dt: T,
}

impl<T: Ticks> View for Registration<T> {
    type V = Schedule;

    closed spec fn view(&self) -> Schedule {
        Schedule { armed: self.armed, reference: self.reference@, dt: self.dt@ }
    }
}

/// The larger of two tick values by magnitude.
pub fn at_least<T: Ticks>(dt: T, minimum: T) -> (granted: T)
    ensures
        granted@ == larger(dt@, minimum@),
{
    proof {
        dt.lemma_compares_by_magnitude(minimum);
    }
    if dt < minimum {
        minimum
    } else {
        dt
    }
}

impl<T: Ticks> Registration<T> {
    /// The view of every registration is well formed.
    pub proof fn lemma_wf(self)
        ensures
            self@.wf(T::width()),
    {
        self.reference.lemma_reading_bounded();
        self.dt.lemma_reading_bounded();
    }

    /// A registration that is not armed, with a deadline at zero.
    pub fn new() -> (registration: Self)
        ensures
            registration@ == (Schedule { armed: false, reference: 0, dt: 0 }),
    {
        proof {
            T::lemma_from_u32(0);
            lemma_modulus_positive(T::width());
        }
        Registration { armed: false, reference: T::from(0u32), dt: T::from(0u32) }
    }

    /// Arms the registration for `dt` ticks after `reference`, in place of whatever deadline
    /// it held. A `dt` below `minimum` is raised to `minimum`.
    pub fn arm(&mut self, reference: T, dt: T, minimum: T)
        ensures
            final(self)@ == old(self)@.arm(reference@, dt@, minimum@),
    {
        self.armed = true;
        self.reference = reference;
        self.dt = at_least(dt, minimum);
    }

    /// Gives up the notification that is owed, if one is. The deadline stays on record.
    pub fn disarm(&mut self)
        ensures
            final(self)@ == old(self)@.disarm(),
    {
        self.armed = false;
    }

    /// Moves the registration on by one period: the deadline becomes the reference of the
    /// next, the same delta later.
    pub fn renew(&mut self)
        ensures
            final(self)@ == old(self)@.renew(T::width()),
    {
        self.reference = self.reference.wrapping_add(self.dt);
    }

    /// Whether a notification is still owed.
    pub fn is_armed(&self) -> (armed: bool)
        ensures
            armed == self@.armed,
    {
        self.armed
    }

    /// The reading at which the deadline falls.
    pub fn deadline(&self) -> (deadline: T)
        ensures
            deadline@ == self@.deadline(T::width()),
    {
        self.reference.wrapping_add(self.dt)
    }

    /// Whether at the reading `now` the deadline still lies ahead.
    pub fn is_ahead(&self, now: T) -> (ahead: bool)
        ensures
            ahead == self@.ahead(T::width(), now@),
    {
        now.within_range(self.reference, self.deadline())
    }

    /// The ticks that remain at the reading `now` until the deadline; zero once it is reached
    /// or passed.
    pub fn remaining(&self, now: T) -> (remaining: T)
        ensures
            remaining@ == self@.remaining(T::width(), now@),
    {
        if self.is_ahead(now) {
            self.deadline().wrapping_sub(now)
        } else {
            proof {
                T::lemma_from_u32(0);
                lemma_modulus_positive(T::width());
            }
            T::from(0u32)
        }
    }

    /// Whether a counter that reads `now` and counts `ticks` further reaches the deadline on
    /// its way, while a notification is owed for it.
    pub fn is_due_within(&self, now: T, ticks: T) -> (due: bool)
        ensures
            due == self@.due_within(T::width(), now@, ticks@),
    {
        if self.armed {
            let remaining = self.remaining(now);
            proof {
                remaining.lemma_compares_by_magnitude(ticks);
            }
            remaining <= ticks
        } else {
            false
        }
    }
}

} // verus!
