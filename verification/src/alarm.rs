//! The interface of an alarm: one deadline, met exactly.

use crate::clock::Time;
use crate::error::ErrorCode;
use crate::registration::Schedule;
use crate::ticks::Ticks;
use vstd::prelude::*;

verus! {

/// Receives the notice that an alarm's deadline has been reached.
pub trait AlarmClient {
    /// Called once the deadline is reached. By then the alarm is disarmed; a client that wants
    /// another alarm arms it anew.
    fn alarm(&self);
}

/// Notifies a client when the counter reaches a given reading. An alarm is for needs that
/// call for precision; what can bear some jitter is served by a timer.
pub trait Alarm<'a>: Time {
    /// The kind of client that takes the alarm notices.
    type Client: AlarmClient;

    /// The deadline that the alarm holds. Before the first call of `set_alarm` it is not armed
    /// and its deadline means nothing.
    spec fn schedule(&self) -> Schedule;

    /// The smallest delta that the alarm supports.
    spec fn minimum(&self) -> nat;

    /// The client that takes the alarm notices, if one is registered.
    spec fn alarm_client(&self) -> Option<&'a Self::Client>;

    /// Registers the client for alarm notices, in place of any client registered before.
    fn set_alarm_client(&mut self, client: &'a Self::Client)
        ensures
            final(self).alarm_client() == Some(client),
            final(self).schedule() == old(self).schedule(),
            final(self).minimum() == old(self).minimum(),
    ;

    /// Arms the alarm for `dt` ticks after `reference`, a `dt` below the minimum raised to it.
    /// A deadline that was pending is given up without a notice. The notice for the new one
    /// may come late, never early.
    fn set_alarm(&mut self, reference: Self::Ticks, dt: Self::Ticks)
        ensures
            final(self).schedule() == old(self).schedule().arm(
                reference@,
                dt@,
                old(self).minimum(),
            ),
            final(self).minimum() == old(self).minimum(),
            final(self).alarm_client() == old(self).alarm_client(),
    ;

    /// Returns the reading of the deadline set last, `reference + dt`.
    fn get_alarm(&self) -> (deadline: Self::Ticks)
        ensures
            deadline@ == self.schedule().deadline(Self::Ticks::width()),
    ;

    /// Disarms the alarm, after which no notice comes for the deadline. It fails with `FAIL`
    /// where the alarm could not be disarmed; the alarm then stays as it was.
    fn disarm(&mut self) -> (result: Result<(), ErrorCode>)
        ensures
            result is Ok ==> final(self).schedule() == old(self).schedule().disarm(),
            result is Err ==> final(self).schedule() == old(self).schedule(),
            result matches Err(code) ==> code == ErrorCode::FAIL,
            final(self).minimum() == old(self).minimum(),
            final(self).alarm_client() == old(self).alarm_client(),
    ;

    /// Whether the alarm is armed.
    fn is_armed(&self) -> (armed: bool)
        ensures
            armed == self.schedule().armed,
    ;

    /// Returns the smallest delta that the alarm supports.
    fn minimum_dt(&self) -> (minimum: Self::Ticks)
        ensures
            minimum@ == self.minimum(),
    ;
}

} // verus!
