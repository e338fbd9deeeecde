//! The interface of a timer: a notice after an interval, once or again and again.

use crate::clock::Time;
use crate::error::ErrorCode;
use vstd::prelude::*;

verus! {

/// Receives the notice that a timer's interval has passed.
pub trait TimerClient {
    /// Called each time the interval has passed.
    fn timer(&self);
}

/// What a timer is set to do.
#[derive(Clone, Copy, Debug, PartialEq, Eq, Structural)]
pub enum Mode {
    /// No notice is owed.
    Disabled,
    /// One notice is owed, after which the timer is disabled.
    OneShot,
    /// A notice is owed after each interval, until the timer is cancelled or set anew.
    Repeating,
}

/// Notifies a client once an interval has passed. A timer is for software that can bear some
/// jitter and wants no arithmetic on counter readings; what needs a precise reading is served
/// by an alarm.
pub trait Timer<'a>: Time {
    /// The kind of client that takes the timer notices.
    type Client: TimerClient;

    /// What the timer is set to do.
    spec fn mode(&self) -> Mode;

    /// The interval granted last; none before the first is asked for and after a cancel.
    spec fn granted(&self) -> Option<nat>;

    /// The client that takes the timer notices, if one is registered.
    spec fn timer_client(&self) -> Option<&'a Self::Client>;

    /// Registers the client for timer notices, in place of any client registered before.
    fn set_timer_client(&mut self, client: &'a Self::Client)
        ensures
            final(self).timer_client() == Some(client),
            final(self).mode() == old(self).mode(),
            final(self).granted() == old(self).granted(),
    ;

    /// Sets the timer to notify once, at least `interval` ticks from now, in place of whatever
    /// it was set to. Returns the interval granted, which is no shorter than `interval`.
    fn oneshot(&mut self, interval: Self::Ticks) -> (granted: Self::Ticks)
        ensures
            granted@ >= interval@,
            final(self).mode() == Mode::OneShot,
            final(self).granted() == Some(granted@),
            final(self).timer_client() == old(self).timer_client(),
    ;

    /// Sets the timer to notify every `interval` ticks from now on, in place of whatever it was
    /// set to. Returns the interval granted, which is no shorter than `interval`.
    fn repeating(&mut self, interval: Self::Ticks) -> (granted: Self::Ticks)
        ensures
            granted@ >= interval@,
            final(self).mode() == Mode::Repeating,
            final(self).granted() == Some(granted@),
            final(self).timer_client() == old(self).timer_client(),
    ;

    /// Returns the interval granted last, if any.
    fn interval(&self) -> (interval: Option<Self::Ticks>)
        ensures
            match interval {
                Some(ticks) => self.granted() == Some(ticks@),
                None => self.granted() is None,
            },
    ;

    /// Whether the timer is set to notify once.
    fn is_oneshot(&self) -> (oneshot: bool)
        ensures
            oneshot == (self.mode() == Mode::OneShot),
    ;

    /// Whether the timer is set to notify again and again.
    fn is_repeating(&self) -> (repeating: bool)
        ensures
            repeating == (self.mode() == Mode::Repeating),
    ;

    /// Returns the ticks that remain until the next notice, or none where the timer is
    /// disabled. The number is near the truth, not exact: setting a timer takes time too.
    fn time_remaining(&self) -> (remaining: Option<Self::Ticks>)
        ensures
            remaining is Some <==> self.mode() != Mode::Disabled,
    ;

    /// Whether a notice is owed. While this is false no notice comes.
    fn is_enabled(&self) -> (enabled: bool)
        ensures
            enabled == (self.mode() != Mode::Disabled),
    ;

    /// Cancels the timer, after which no notice comes. It fails with `FAIL` where the timer
    /// could not be cancelled; the timer then stays as it was.
    fn cancel(&mut self) -> (result: Result<(), ErrorCode>)
        ensures
            result is Ok ==> final(self).mode() == Mode::Disabled && final(self).granted() is None,
            result is Err ==> final(self).mode() == old(self).mode() && final(self).granted()
                == old(self).granted(),
            result matches Err(code) ==> code == ErrorCode::FAIL,
            final(self).timer_client() == old(self).timer_client(),
    ;
}

} // verus!
