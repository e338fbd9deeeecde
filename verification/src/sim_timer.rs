//! A timer simulated in software over a counter of its own, which moves when it is told to.
//!
//! The timer keeps its deadline as an alarm does, and sets the reference itself: at the
//! present reading when it is asked for an interval, and at the deadline just met when it
//! repeats, so that a notice that comes late does not delay the ones after it.

use crate::clock::Time;
use crate::error::ErrorCode;
use crate::frequency::Frequency;
use crate::modular::{lemma_add_twice, lemma_modulus_positive, lemma_wrap_zero, modulus, wrap_add};
use crate::registration::{at_least, larger, lemma_remaining_after, Registration, Schedule};
use crate::ticks::Ticks;
use crate::timer::{Mode, Timer, TimerClient};
use core::marker::PhantomData;
use vstd::prelude::*;

verus! {

/// The state of a [`SimTimer`] over plain numbers.
pub struct TimerState {
    /// The reading of the counter.
    pub now: nat,
    /// The deadline of the next notice.
    pub schedule: Schedule,
    /// Whether the timer sets itself anew after each notice.
    pub periodic: bool,
    /// The interval granted last, unless it was cancelled.
    pub granted: Option<nat>,
    /// The smallest interval that the timer grants.
    pub minimum: nat,
}

impl TimerState {
    /// All numbers are readings of a counter `width` bits wide.
    pub open spec fn wf(self, width: nat) -> bool {
        &&& self.now < modulus(width)
        &&& self.schedule.wf(width)
        &&& self.minimum < modulus(width)
    }

    /// What the timer is set to do.
    pub open spec fn mode(self) -> Mode {
        if !self.schedule.armed {
            Mode::Disabled
        } else if self.periodic {
            Mode::Repeating
        } else {
            Mode::OneShot
        }
    }

    /// Whether a notice comes due while the counter is moved `ticks` on.
    pub open spec fn fires(self, width: nat, ticks: nat) -> bool {
        self.schedule.due_within(width, self.now, ticks)
    }

    /// The state after the counter is moved `ticks` on. A timer that comes due is disabled if
    /// it was set for once, and set for its next period if it repeats.
    pub open spec fn advance(self, width: nat, ticks: nat) -> TimerState {
        TimerState {
            now: wrap_add(width, self.now, ticks),
            schedule: if !self.fires(width, ticks) {
                self.schedule
            } else if self.periodic {
                self.schedule.renew(width)
            } else {
                self.schedule.disarm()
            },
            ..self
        }
    }

    /// The state after the timer is set for `interval` ticks from now, once or repeating.
    pub open spec fn set(self, interval: nat, periodic: bool) -> TimerState {
        TimerState {
            schedule: self.schedule.arm(self.now, interval, self.minimum),
            periodic,
            granted: Some(larger(interval, self.minimum)),
            ..self
        }
    }

    /// The state after the timer is cancelled.
    pub open spec fn cancel(self) -> TimerState {
        TimerState { schedule: self.schedule.disarm(), granted: None, ..self }
    }

    /// The state after the counter is moved on by each of `steps` in turn.
    pub open spec fn run(self, width: nat, steps: Seq<nat>) -> TimerState
        decreases steps.len(),
    {
        if steps.len() == 0 {
            self
        } else {
            self.run(width, steps.drop_last()).advance(width, steps.last())
        }
    }

    /// The number of notices that come due in `steps`.
    pub open spec fn notices(self, width: nat, steps: Seq<nat>) -> nat
        decreases steps.len(),
    {
        if steps.len() == 0 {
            0
        } else {
            self.notices(width, steps.drop_last()) + if self.run(width, steps.drop_last()).fires(
                width,
                steps.last(),
            ) {
                1nat
            } else {
                0nat
            }
        }
    }
}

/// A timer grants no less than its minimum and keeps what it grants. Set for `interval` ticks,
/// it grants the larger of `interval` and the minimum, and the move of the counter that
/// follows brings a notice exactly if it is at least as long as what was granted. So a timer
/// asked for no ticks at all still waits out its minimum.
pub proof fn lemma_timer_waits_granted(
    width: nat,
    state: TimerState,
    interval: nat,
    periodic: bool,
    ticks: nat,
)
    requires
        state.wf(width),
        interval < modulus(width),
    ensures
        state.set(interval, periodic).granted == Some(larger(interval, state.minimum)),
        larger(interval, state.minimum) >= state.minimum,
        state.set(interval, periodic).fires(width, ticks) <==> ticks >= larger(
            interval,
            state.minimum,
        ),
{
    let armed = state.set(interval, periodic);
    lemma_modulus_positive(width);
    lemma_wrap_zero(width, state.now);
    lemma_remaining_after(width, armed.schedule, 0);
}

/// A timer is never early and is on time, period after period. Take a timer that is set and
/// whose counter stands `elapsed` ticks after the reference of its deadline, short of the
/// interval. Moved `ticks` on, it brings a notice exactly if that reaches the deadline. Where
/// it does not, the timer is as it was, `elapsed + ticks` after the reference. Where it does
/// and the timer repeats, the next period counts from the deadline just met, and the counter
/// stands in it by as much as the notice was late.
pub proof fn lemma_timer_on_time(width: nat, state: TimerState, elapsed: nat, ticks: nat)
    requires
        state.wf(width),
        state.schedule.armed,
        elapsed < state.schedule.dt,
        state.now == wrap_add(width, state.schedule.reference, elapsed),
        ticks < modulus(width),
    ensures
        state.fires(width, ticks) <==> elapsed + ticks >= state.schedule.dt,
        !state.fires(width, ticks) ==> state.advance(width, ticks).schedule == state.schedule
            && state.advance(width, ticks).now == wrap_add(
            width,
            state.schedule.reference,
            elapsed + ticks,
        ),
        state.fires(width, ticks) && state.periodic ==> state.advance(width, ticks).schedule
            == state.schedule.renew(width) && state.advance(width, ticks).now == wrap_add(
            width,
            state.schedule.renew(width).reference,
            (elapsed + ticks - state.schedule.dt) as nat,
        ),
{
    lemma_remaining_after(width, state.schedule, elapsed);
    lemma_add_twice(width, state.schedule.reference, elapsed, ticks);
    if elapsed + ticks >= state.schedule.dt {
        lemma_add_twice(
            width,
            state.schedule.reference,
            state.schedule.dt,
            (elapsed + ticks - state.schedule.dt) as nat,
        );
    }
}

/// A repeating timer stays what it is. However the counter is moved and however many notices
/// come due, as long as the timer is neither cancelled nor set anew it repeats, with the
/// interval it was granted.
pub proof fn lemma_repeating_persists(width: nat, state: TimerState, steps: Seq<nat>)
    requires
        state.mode() == Mode::Repeating,
    ensures
        state.run(width, steps).mode() == Mode::Repeating,
        state.run(width, steps).granted == state.granted,
        state.run(width, steps).schedule.dt == state.schedule.dt,
    decreases steps.len(),
{
    if steps.len() > 0 {
        lemma_repeating_persists(width, state, steps.drop_last());
    }
}

/// A timer set for once notifies at most once, and is disabled from the notice on, with the
/// interval it was granted still on record.
pub proof fn lemma_oneshot_fires_once(width: nat, state: TimerState, steps: Seq<nat>)
    requires
        state.mode() == Mode::OneShot,
    ensures
        state.notices(width, steps) <= 1,
        state.notices(width, steps) == 1 <==> state.run(width, steps).mode() == Mode::Disabled,
        state.notices(width, steps) == 0 <==> state.run(width, steps).mode() == Mode::OneShot,
        state.run(width, steps).granted == state.granted,
    decreases steps.len(),
{
    if steps.len() > 0 {
        lemma_oneshot_fires_once(width, state, steps.drop_last());
    }
}

/// After a cancel no notice comes: a timer that was cancelled brings no notice, however the
/// counter is moved from then on, and has no interval on record.
pub proof fn lemma_cancel_is_final(width: nat, state: TimerState, steps: Seq<nat>)
    ensures
        state.cancel().notices(width, steps) == 0,
        state.cancel().run(width, steps).mode() == Mode::Disabled,
        state.cancel().run(width, steps).granted is None,
{
    lemma_disabled_never_fires(width, state.cancel(), steps);
}

/// A timer that is disabled brings no notice, however the counter is moved, and stays
/// as it is.
pub proof fn lemma_disabled_never_fires(width: nat, state: TimerState, steps: Seq<nat>)
    requires
        state.mode() == Mode::Disabled,
    ensures
        state.notices(width, steps) == 0,
        state.run(width, steps).mode() == Mode::Disabled,
        state.run(width, steps).granted == state.granted,
    decreases steps.len(),
{
    if steps.len() > 0 {
        lemma_disabled_never_fires(width, state, steps.drop_last());
    }
}

/// A simulated timer over a counter of width `T` and frequency `F`.
pub struct SimTimer<'a, T: Ticks, F: Frequency, C: TimerClient> {
    count: T,
    registration: Registration<T>,
    periodic: bool,
    granted: Option<T>,
    minimum: T,
    client: Option<&'a C>,
    _frequency: PhantomData<F>,
}

impl<'a, T: Ticks, F: Frequency, C: TimerClient> View for SimTimer<'a, T, F, C> {
    type V = TimerState;

    closed spec fn view(&self) -> TimerState {
        TimerState {
            now: self.count@,
            schedule: self.registration@,
            periodic: self.periodic,
            granted: match self.granted {
                Some(interval) => Some(interval@),
                None => None,
            },
            minimum: self.minimum@,
        }
    }
}

impl<'a, T: Ticks, F: Frequency, C: TimerClient> SimTimer<'a, T, F, C> {
    /// The client registered for timer notices, if any.
    pub closed spec fn client_slot(&self) -> Option<&'a C> {
        self.client
    }

    /// The state of every timer is well formed.
    pub proof fn lemma_wf(&self)
        ensures
            self@.wf(T::width()),
    {
        self.count.lemma_reading_bounded();
        self.minimum.lemma_reading_bounded();
        self.registration.lemma_wf();
    }

    /// A timer that is disabled, with its counter at zero, that grants no interval below
    /// `minimum`. No client is registered.
    pub fn new(minimum: T) -> (timer: Self)
        ensures
            timer@ == (TimerState {
                now: 0,
                schedule: Schedule { armed: false, reference: 0, dt: 0 },
                periodic: false,
                granted: None,
                minimum: minimum@,
            }),
            timer.client_slot() is None,
    {
        proof {
            T::lemma_from_u32(0);
            lemma_modulus_positive(T::width());
        }
        SimTimer {
            count: T::from(0u32),
            registration: Registration::new(),
            periodic: false,
            granted: None,
            minimum,
            client: None,
            _frequency: PhantomData,
        }
    }

    /// Moves the counter `ticks` on, as the passing of time does, and says whether a notice
    /// came due on the way. If one did, the timer is first disabled or set for its next period,
    /// and then its client is called.
    pub fn advance(&mut self, ticks: T) -> (fired: bool)
        ensures
            final(self)@ == old(self)@.advance(T::width(), ticks@),
            fired == old(self)@.fires(T::width(), ticks@),
            final(self).client_slot() == old(self).client_slot(),
    {
        let fired = self.registration.is_due_within(self.count, ticks);
        self.count = self.count.wrapping_add(ticks);
        if fired {
            if self.periodic {
                self.registration.renew();
            } else {
                self.registration.disarm();
            }
            if let Some(client) = self.client {
                client.timer();
            }
        }
        fired
    }

    /// Sets the timer for `interval` ticks from now and returns what was granted.
    fn set(&mut self, interval: T, periodic: bool) -> (granted: T)
        ensures
            final(self)@ == old(self)@.set(interval@, periodic),
            granted@ == larger(interval@, old(self)@.minimum),
            final(self).client_slot() == old(self).client_slot(),
    {
        let granted = at_least(interval, self.minimum);
        self.registration.arm(self.count, interval, self.minimum);
        self.periodic = periodic;
        self.granted = Some(granted);
        granted
    }
}

impl<'a, T: Ticks, F: Frequency, C: TimerClient> Time for SimTimer<'a, T, F, C> {
    type Frequency = F;

    type Ticks = T;

    open spec fn may_read(&self, reading: nat) -> bool {
        reading == self@.now
    }

    fn now(&self) -> (ticks: T) {
        self.count
    }
}

impl<'a, T: Ticks, F: Frequency, C: TimerClient> Timer<'a> for SimTimer<'a, T, F, C> {
    type Client = C;

    open spec fn mode(&self) -> Mode {
        self@.mode()
    }

    open spec fn granted(&self) -> Option<nat> {
        self@.granted
    }

    open spec fn timer_client(&self) -> Option<&'a C> {
        self.client_slot()
    }

    fn set_timer_client(&mut self, client: &'a C)
        ensures
            final(self)@ == old(self)@,
    {
        self.client = Some(client);
    }

    fn oneshot(&mut self, interval: T) -> (granted: T)
        ensures
            final(self)@ == old(self)@.set(interval@, false),
            granted@ == larger(interval@, old(self)@.minimum),
    {
        self.set(interval, false)
    }

    fn repeating(&mut self, interval: T) -> (granted: T)
        ensures
            final(self)@ == old(self)@.set(interval@, true),
            granted@ == larger(interval@, old(self)@.minimum),
    {
        self.set(interval, true)
    }

    fn interval(&self) -> (interval: Option<T>) {
        self.granted
    }

    fn is_oneshot(&self) -> (oneshot: bool) {
        self.registration.is_armed() && !self.periodic
    }

    fn is_repeating(&self) -> (repeating: bool) {
        self.registration.is_armed() && self.periodic
    }

    /// On this timer the number is exact: the ticks from the reading of the counter to the
    /// deadline, and zero where the deadline is reached and the notice still owed.
    fn time_remaining(&self) -> (remaining: Option<T>)
        ensures
            remaining matches Some(ticks) ==> ticks@ == self@.schedule.remaining(
                T::width(),
                self@.now,
            ),
    {
        if self.registration.is_armed() {
            Some(self.registration.remaining(self.count))
        } else {
            None
        }
    }

    fn is_enabled(&self) -> (enabled: bool) {
        self.registration.is_armed()
    }

    /// Cancels the timer. On this timer that always succeeds.
    fn cancel(&mut self) -> (result: Result<(), ErrorCode>)
        ensures
            result is Ok,
            final(self)@ == old(self)@.cancel(),
    {
        self.registration.disarm();
        self.granted = None;
        Ok(())
    }
}

} // verus!
