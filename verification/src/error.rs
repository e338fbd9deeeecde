//! The failures that the operations of this crate report.

use vstd::prelude::*;

verus! {

/// Why an operation did not take effect. Every failure is handed to the caller at once; nothing
/// in this crate retries.
#[derive(Clone, Copy, Debug, PartialEq, Eq, Structural)]
pub enum ErrorCode {
    /// The operation could not be confirmed, for a reason that is not told.
    FAIL,
    /// The hardware is in use in a way that makes the operation unsafe for now.
    BUSY,
    /// The hardware is powered down, or its clocks are not running.
    OFF,
}

} // verus!
