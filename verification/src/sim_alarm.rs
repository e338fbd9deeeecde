//! A counter with one alarm, simulated in software: the counter moves when it is told to, and
//! says what came due on the way.
//!
//! The device stands in for a timer peripheral wherever code written against [`Time`],
//! [`Counter`] and [`Alarm`] is to be run without hardware. Its clock can be switched off, to
//! show how the interfaces fail.

use crate::alarm::{Alarm, AlarmClient};
use crate::clock::Time;
use crate::counter::{Counter, OverflowClient};
use crate::error::ErrorCode;
use crate::frequency::Frequency;
use crate::modular::{
    lemma_add_twice, lemma_modulus_positive, lemma_sum_cases, modulus, wrap_add,
};
use crate::registration::{lemma_remaining_after, Registration, Schedule};
use crate::ticks::Ticks;
use core::marker::PhantomData;
use vstd::prelude::*;

verus! {

/// What came due while the counter moved.
#[derive(Clone, Copy, Debug, PartialEq, Eq, Structural)]
pub struct Events {
    /// The counter reached the deadline of the armed alarm.
    pub alarm: bool,
    /// The counter passed its largest reading.
    pub overflow: bool,
}

/// The state of a [`SimAlarm`] over plain numbers.
pub struct AlarmState {
    /// The reading of the counter.
    pub now: nat,
    /// Whether the clock that drives the counter is on.
    pub powered: bool,
    /// Whether the counter is counting.
    pub running: bool,
    /// The deadline that the alarm holds.
    pub schedule: Schedule,
    /// The smallest delta that the alarm grants.
    pub minimum: nat,
}

impl AlarmState {
    /// All numbers are readings of a counter `width` bits wide.
    pub open spec fn wf(self, width: nat) -> bool {
        &&& self.now < modulus(width)
        &&& self.schedule.wf(width)
        &&& self.minimum < modulus(width)
    }

    /// Whether the alarm comes due while the counter is moved `ticks` on.
    pub open spec fn fires(self, width: nat, ticks: nat) -> bool {
        self.running && self.schedule.due_within(width, self.now, ticks)
    }

    /// Whether the counter wraps while it is moved `ticks` on.
    pub open spec fn overflows(self, width: nat, ticks: nat) -> bool {
        self.running && self.now + ticks >= modulus(width)
    }

    /// The state after the counter is moved `ticks` on. A counter that is stopped stays where
    /// it is; an alarm that comes due is disarmed.
    pub open spec fn advance(self, width: nat, ticks: nat) -> AlarmState {
        if self.running {
            AlarmState {
                now: wrap_add(width, self.now, ticks),
                schedule: if self.fires(width, ticks) {
                    self.schedule.disarm()
                } else {
                    self.schedule
                },
                ..self
            }
        } else {
            self
        }
    }

    /// The state after the alarm is armed for `dt` ticks after `reference`.
    pub open spec fn set_alarm(self, reference: nat, dt: nat) -> AlarmState {
        AlarmState { schedule: self.schedule.arm(reference, dt, self.minimum), ..self }
    }

    /// The state after the alarm is disarmed.
    pub open spec fn disarm(self) -> AlarmState {
        AlarmState { schedule: self.schedule.disarm(), ..self }
    }

    /// The state after the counter is moved on by each of `steps` in turn.
    pub open spec fn run(self, width: nat, steps: Seq<nat>) -> AlarmState
        decreases steps.len(),
    {
        if steps.len() == 0 {
            self
        } else {
            self.run(width, steps.drop_last()).advance(width, steps.last())
        }
    }

    /// Whether the alarm comes due in any of `steps`.
    pub open spec fn fires_during(self, width: nat, steps: Seq<nat>) -> bool
        decreases steps.len(),
    {
        if steps.len() == 0 {
            false
        } else {
            self.fires_during(width, steps.drop_last()) || self.run(
                width,
                steps.drop_last(),
            ).fires(width, steps.last())
        }
    }
}

/// An alarm is never early and is on time. Take a running counter that stands `elapsed` ticks
/// after the reference of its armed alarm, short of the deadline. Moved `ticks` on, it brings
/// the alarm due exactly if that reaches the deadline: if `elapsed + ticks` is at least `dt`.
/// Where it does not, the alarm stays armed as it was and the counter stands
/// `elapsed + ticks` after the reference, so that the same holds of the next move.
pub proof fn lemma_alarm_on_time(width: nat, state: AlarmState, elapsed: nat, ticks: nat)
    requires
        state.wf(width),
        state.running,
        state.schedule.armed,
        elapsed < state.schedule.dt,
        state.now == wrap_add(width, state.schedule.reference, elapsed),
        ticks < modulus(width),
    ensures
        state.fires(width, ticks) <==> elapsed + ticks >= state.schedule.dt,
        !state.fires(width, ticks) ==> state.advance(width, ticks).schedule == state.schedule,
        state.advance(width, ticks).now == wrap_add(
            width,
            state.schedule.reference,
            elapsed + ticks,
        ),
{
    lemma_remaining_after(width, state.schedule, elapsed);
    lemma_add_twice(width, state.schedule.reference, elapsed, ticks);
}

/// A counter that is stopped stands still: moving it changes nothing, brings no alarm due and
/// wraps nothing.
pub proof fn lemma_stopped_stands_still(width: nat, state: AlarmState, ticks: nat)
    requires
        !state.running,
    ensures
        state.advance(width, ticks) == state,
        !state.fires(width, ticks),
        !state.overflows(width, ticks),
{
}

/// An alarm whose deadline is already reached when the counter is next moved comes due at
/// once, however short the move.
pub proof fn lemma_alarm_overdue(width: nat, state: AlarmState, elapsed: nat, ticks: nat)
    requires
        state.wf(width),
        state.running,
        state.schedule.armed,
        state.schedule.dt <= elapsed < modulus(width),
        state.now == wrap_add(width, state.schedule.reference, elapsed),
    ensures
        state.fires(width, ticks),
{
    lemma_remaining_after(width, state.schedule, elapsed);
}

/// Arming replaces: of two deadlines set one after the other only the second is held, and the
/// device is in the state it would be in had the first never been set.
pub proof fn lemma_set_alarm_replaces(
    state: AlarmState,
    first_reference: nat,
    first_dt: nat,
    reference: nat,
    dt: nat,
)
    ensures
        state.set_alarm(first_reference, first_dt).set_alarm(reference, dt) == state.set_alarm(
            reference,
            dt,
        ),
{
}

/// After a disarm no notice comes: a device whose alarm was disarmed brings no alarm due,
/// however the counter is moved from then on.
pub proof fn lemma_disarm_is_final(width: nat, state: AlarmState, steps: Seq<nat>)
    ensures
        !state.disarm().fires_during(width, steps),
        !state.disarm().run(width, steps).schedule.armed,
{
    lemma_disarmed_never_fires(width, state.disarm(), steps);
}

/// An alarm that is not armed never comes due, however the counter is moved, and stays
/// disarmed.
pub proof fn lemma_disarmed_never_fires(width: nat, state: AlarmState, steps: Seq<nat>)
    requires
        !state.schedule.armed,
    ensures
        !state.fires_during(width, steps),
        !state.run(width, steps).schedule.armed,
    decreases steps.len(),
{
    if steps.len() > 0 {
        lemma_disarmed_never_fires(width, state, steps.drop_last());
    }
}

/// An alarm comes due at most once for each arming: after a move in which it came due, no
/// further move brings it due.
pub proof fn lemma_fires_once(width: nat, state: AlarmState, ticks: nat, steps: Seq<nat>)
    requires
        state.fires(width, ticks),
    ensures
        !state.advance(width, ticks).fires_during(width, steps),
{
    lemma_disarmed_never_fires(width, state.advance(width, ticks), steps);
}

/// A simulated counter of width `T` and frequency `F` with one alarm.
pub struct SimAlarm<'a, T: Ticks, F: Frequency, A: AlarmClient, O: OverflowClient> {
    count: T,
    powered: bool,
    running: bool,
    registration: Registration<T>,
    minimum: T,
    alarm_client: Option<&'a A>,
    overflow_client: Option<&'a O>,
    _frequency: PhantomData<F>,
}

impl<'a, T, F, A, O> View for SimAlarm<'a, T, F, A, O> where
    T: Ticks,
    F: Frequency,
    A: AlarmClient,
    O: OverflowClient,
{
    type V = AlarmState;

    closed spec fn view(&self) -> AlarmState {
        AlarmState {
            now: self.count@,
            powered: self.powered,
            running: self.running,
            schedule: self.registration@,
            minimum: self.minimum@,
        }
    }
}

impl<'a, T, F, A, O> SimAlarm<'a, T, F, A, O> where
    T: Ticks,
    F: Frequency,
    A: AlarmClient,
    O: OverflowClient,
{
    /// The client registered for alarm notices, if any.
    pub closed spec fn alarm_slot(&self) -> Option<&'a A> {
        self.alarm_client
    }

    /// The client registered for overflow notices, if any.
    pub closed spec fn overflow_slot(&self) -> Option<&'a O> {
        self.overflow_client
    }

    /// The state of every device is well formed.
    pub proof fn lemma_wf(&self)
        ensures
            self@.wf(T::width()),
    {
        self.count.lemma_reading_bounded();
        self.minimum.lemma_reading_bounded();
        self.registration.lemma_wf();
    }

    /// A device with its clock on, its counter stopped at zero and its alarm not armed, that
    /// grants no delta below `minimum`. No client is registered.
    pub fn new(minimum: T) -> (device: Self)
        ensures
            device@ == (AlarmState {
                now: 0,
                powered: true,
                running: false,
                schedule: Schedule { armed: false, reference: 0, dt: 0 },
                minimum: minimum@,
            }),
            device.alarm_slot() is None,
            device.overflow_slot() is None,
    {
        proof {
            T::lemma_from_u32(0);
            lemma_modulus_positive(T::width());
        }
        SimAlarm {
            count: T::from(0u32),
            powered: true,
            running: false,
            registration: Registration::new(),
            minimum,
            alarm_client: None,
            overflow_client: None,
            _frequency: PhantomData,
        }
    }

    /// Switches the clock of the counter on or off. Without its clock the counter stops.
    pub fn set_power(&mut self, on: bool)
        ensures
            final(self)@ == (AlarmState {
                powered: on,
                running: old(self)@.running && on,
                ..old(self)@
            }),
            final(self).alarm_slot() == old(self).alarm_slot(),
            final(self).overflow_slot() == old(self).overflow_slot(),
    {
        if !on {
            self.running = false;
        }
        self.powered = on;
    }

    /// Moves the counter `ticks` on, as the passing of time does, and says what came due on
    /// the way. An alarm that came due is disarmed and then its client is called; a counter
    /// that wrapped has its overflow client called. A counter that is stopped does not move.
    pub fn advance(&mut self, ticks: T) -> (events: Events)
        ensures
            final(self)@ == old(self)@.advance(T::width(), ticks@),
            events.alarm == old(self)@.fires(T::width(), ticks@),
            events.overflow == old(self)@.overflows(T::width(), ticks@),
            final(self).alarm_slot() == old(self).alarm_slot(),
            final(self).overflow_slot() == old(self).overflow_slot(),
    {
        if !self.running {
            return Events { alarm: false, overflow: false };
        }
        let alarm = self.registration.is_due_within(self.count, ticks);
        let moved = self.count.wrapping_add(ticks);
        proof {
            self.count.lemma_reading_bounded();
            ticks.lemma_reading_bounded();
            lemma_sum_cases(T::width(), self.count@, ticks@);
            moved.lemma_compares_by_magnitude(self.count);
        }
        let overflow = moved < self.count;
        self.count = moved;
        if alarm {
            self.registration.disarm();
            if let Some(client) = self.alarm_client {
                client.alarm();
            }
        }
        if overflow {
            if let Some(client) = self.overflow_client {
                client.overflow();
            }
        }
        Events { alarm, overflow }
    }
}

impl<'a, T, F, A, O> Time for SimAlarm<'a, T, F, A, O> where
    T: Ticks,
    F: Frequency,
    A: AlarmClient,
    O: OverflowClient,
{
    type Frequency = F;

    type Ticks = T;

    open spec fn may_read(&self, reading: nat) -> bool {
        reading == self@.now
    }

    fn now(&self) -> (ticks: T) {
        self.count
    }
}

impl<'a, T, F, A, O> Counter<'a> for SimAlarm<'a, T, F, A, O> where
    T: Ticks,
    F: Frequency,
    A: AlarmClient,
    O: OverflowClient,
{
    type Client = O;

    open spec fn running(&self) -> bool {
        self@.running
    }

    open spec fn overflow_client(&self) -> Option<&'a O> {
        self.overflow_slot()
    }

    fn set_overflow_client(&mut self, client: &'a O)
        ensures
            final(self)@ == old(self)@,
            final(self).alarm_slot() == old(self).alarm_slot(),
    {
        self.overflow_client = Some(client);
    }

    /// Starts the counter where its clock is on, and fails with `OFF` where it is not.
    fn start(&mut self) -> (result: Result<(), ErrorCode>)
        ensures
            result is Ok <==> old(self)@.powered,
            result matches Err(code) ==> code == ErrorCode::OFF,
            final(self)@ == (AlarmState {
                running: old(self)@.powered,
                ..old(self)@
            }),
            final(self).alarm_slot() == old(self).alarm_slot(),
    {
        if self.powered {
            self.running = true;
            Ok(())
        } else {
            // Without its clock the counter is not counting, whatever it was told before.
            self.running = false;
            Err(ErrorCode::OFF)
        }
    }

    /// Stops the counter, unless it runs with the alarm armed: then it is in use, and stays
    /// as it is with `BUSY`.
    fn stop(&mut self) -> (result: Result<(), ErrorCode>)
        ensures
            result is Err <==> old(self)@.running && old(self)@.schedule.armed,
            result matches Err(code) ==> code == ErrorCode::BUSY,
            result is Ok ==> final(self)@ == (AlarmState { running: false, ..old(self)@ }),
            result is Err ==> final(self)@ == old(self)@,
            final(self).alarm_slot() == old(self).alarm_slot(),
    {
        if self.running && self.registration.is_armed() {
            Err(ErrorCode::BUSY)
        } else {
            self.running = false;
            Ok(())
        }
    }

    /// Sets the counter back to zero where its clock is on, and fails with `FAIL` where it is
    /// not. The alarm keeps its deadline.
    fn reset(&mut self) -> (result: Result<(), ErrorCode>)
        ensures
            result is Ok <==> old(self)@.powered,
            result is Ok ==> final(self)@ == (AlarmState { now: 0, ..old(self)@ }),
            result is Err ==> final(self)@ == old(self)@,
            final(self).alarm_slot() == old(self).alarm_slot(),
    {
        if self.powered {
            proof {
                T::lemma_from_u32(0);
                lemma_modulus_positive(T::width());
            }
            self.count = T::from(0u32);
            Ok(())
        } else {
            Err(ErrorCode::FAIL)
        }
    }

    fn is_running(&self) -> (running: bool) {
        self.running
    }
}

impl<'a, T, F, A, O> Alarm<'a> for SimAlarm<'a, T, F, A, O> where
    T: Ticks,
    F: Frequency,
    A: AlarmClient,
    O: OverflowClient,
{
    type Client = A;

    open spec fn schedule(&self) -> Schedule {
        self@.schedule
    }

    open spec fn minimum(&self) -> nat {
        self@.minimum
    }

    open spec fn alarm_client(&self) -> Option<&'a A> {
        self.alarm_slot()
    }

    fn set_alarm_client(&mut self, client: &'a A)
        ensures
            final(self)@ == old(self)@,
            final(self).overflow_slot() == old(self).overflow_slot(),
    {
        self.alarm_client = Some(client);
    }

    fn set_alarm(&mut self, reference: T, dt: T)
        ensures
            final(self)@ == old(self)@.set_alarm(reference@, dt@),
            final(self).overflow_slot() == old(self).overflow_slot(),
    {
        self.registration.arm(reference, dt, self.minimum);
    }

    fn get_alarm(&self) -> (deadline: T) {
        self.registration.deadline()
    }

    /// Disarms the alarm. On this device that always succeeds.
    fn disarm(&mut self) -> (result: Result<(), ErrorCode>)
        ensures
            result is Ok,
            final(self)@ == old(self)@.disarm(),
            final(self).overflow_slot() == old(self).overflow_slot(),
    {
        self.registration.disarm();
        Ok(())
    }

    fn is_armed(&self) -> (armed: bool) {
        self.registration.is_armed()
    }

    fn minimum_dt(&self) -> (minimum: T) {
        self.minimum
    }
}

} // verus!
