//! The interface of a free-running hardware counter.

use crate::clock::Time;
use crate::error::ErrorCode;
use vstd::prelude::*;

verus! {

/// Receives the notice that a counter has passed its largest reading and is back at zero.
pub trait OverflowClient {
    /// Called once for each time the counter wraps.
    fn overflow(&self);
}

/// A free-running hardware counter that can be started and stopped.
pub trait Counter<'a>: Time {
    /// The kind of client that takes the overflow notices.
    type Client: OverflowClient;

    /// Whether the counter is counting.
    spec fn running(&self) -> bool;

    /// The client that takes the overflow notices, if one is registered.
    spec fn overflow_client(&self) -> Option<&'a Self::Client>;

    /// Registers the client for overflow notices, in place of any client registered before.
    fn set_overflow_client(&mut self, client: &'a Self::Client)
        ensures
            final(self).overflow_client() == Some(client),
            final(self).running() == old(self).running(),
            forall|reading: nat| final(self).may_read(reading) == old(self).may_read(reading),
    ;

    /// Starts the counter. It fails with `OFF` where clocks or power that the counter needs are
    /// not on, and with `FAIL` for any other reason; after a failure the counter is not
    /// running.
    fn start(&mut self) -> (result: Result<(), ErrorCode>)
        ensures
            result is Ok ==> final(self).running(),
            result is Err ==> !final(self).running(),
            result matches Err(code) ==> code == ErrorCode::OFF || code == ErrorCode::FAIL,
            final(self).overflow_client() == old(self).overflow_client(),
    ;

    /// Stops the counter, after which no overflow is notified. It fails with `BUSY` where the
    /// counter is in use in a way that forbids stopping it, and with `FAIL` for any other
    /// reason; after a failure the counter runs as it did.
    fn stop(&mut self) -> (result: Result<(), ErrorCode>)
        ensures
            result is Ok ==> !final(self).running(),
            result is Err ==> final(self).running() == old(self).running(),
            result matches Err(code) ==> code == ErrorCode::BUSY || code == ErrorCode::FAIL,
            final(self).overflow_client() == old(self).overflow_client(),
    ;

    /// Sets the counter back to zero, which may add jitter. Whether the counter runs is left as
    /// it is. It fails with `FAIL` where the reset could not be confirmed.
    fn reset(&mut self) -> (result: Result<(), ErrorCode>)
        ensures
            result is Ok ==> final(self).may_read(0),
            result matches Err(code) ==> code == ErrorCode::FAIL,
            final(self).running() == old(self).running(),
            final(self).overflow_client() == old(self).overflow_client(),
    ;

    /// Whether the counter is counting.
    fn is_running(&self) -> (running: bool)
        ensures
            running == self.running(),
    ;
}

} // verus!
